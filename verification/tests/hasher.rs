use web_app::errors::ErrorKind;
use web_app::hasher::{
    digest_salt, hash_with_salt, lanes_are_bounded, password_hash_checker, password_hasher,
    password_hasher_with, HashParams, MAX_LANES,
};

const SALT: &str = "c29tZXNhbHRzb21lc2FsdA";

fn light() -> HashParams {
    HashParams { memory_kib: 64, iterations: 1, parallelism: 2 }
}

#[test]
fn fresh_digest_verifies_against_its_password() {
    let digest = password_hasher("Password1!").unwrap();
    assert_eq!(password_hash_checker("Password1!", &digest), Ok(true));
}

#[test]
fn fresh_digest_refuses_another_password() {
    let digest = password_hasher("Password1!").unwrap();
    assert_eq!(password_hash_checker("Password12!", &digest), Ok(false));
    assert_eq!(password_hash_checker("password1!", &digest), Ok(false));
    assert_eq!(password_hash_checker("", &digest), Ok(false));
}

#[test]
fn any_text_can_be_a_password() {
    for password in ["", " ", "pässwörd", "密码", "a\0b", "🔑🔑🔑"] {
        let digest = password_hasher_with(password, light()).unwrap();
        assert_eq!(password_hash_checker(password, &digest), Ok(true), "{:?}", password);
    }
}

#[test]
fn two_digests_of_one_password_differ() {
    let first = password_hasher("Password1!").unwrap();
    let second = password_hasher("Password1!").unwrap();
    assert_ne!(first, second);
    assert_eq!(password_hash_checker("Password1!", &first), Ok(true));
    assert_eq!(password_hash_checker("Password1!", &second), Ok(true));
}

#[test]
fn digest_is_a_phc_string_that_holds_the_salt() {
    let digest = hash_with_salt("Password1!", SALT, HashParams::recommended()).unwrap();
    assert!(digest.starts_with("$argon2id$v=19$m=19456,t=2,p=1$c29tZXNhbHRzb21lc2FsdA$"));
    assert!(!digest.contains("Password1!"));
    assert_eq!(password_hash_checker("Password1!", &digest), Ok(true));
}

#[test]
fn digest_of_a_known_input() {
    assert_eq!(
        hash_with_salt(
            "password",
            "c29tZXNhbHQ",
            HashParams { memory_kib: 65536, iterations: 2, parallelism: 1 }
        ),
        Ok(String::from(
            "$argon2id$v=19$m=65536,t=2,p=1$c29tZXNhbHQ$CTFhFdXPJO1aFaMaO6Mm5c8y7cJHAph8ArZWb2GRPPc"
        ))
    );
}

#[test]
fn one_salt_gives_one_digest() {
    let first = hash_with_salt("Password1!", SALT, light()).unwrap();
    let second = hash_with_salt("Password1!", SALT, light()).unwrap();
    assert_eq!(first, second);
    assert_ne!(first, hash_with_salt("Password1!", "YW5vdGhlcnNhbHRhbm90aA", light()).unwrap());
    assert_ne!(first, hash_with_salt("Password12!", SALT, light()).unwrap());
}

#[test]
fn the_recommended_parameters() {
    assert_eq!(
        HashParams::recommended(),
        HashParams { memory_kib: 19456, iterations: 2, parallelism: 1 }
    );
}

#[test]
fn a_digest_records_its_parameters() {
    let digest = password_hasher_with("Password1!", light()).unwrap();
    assert!(digest.starts_with("$argon2id$v=19$m=64,t=1,p=2$"), "{}", digest);
    assert_eq!(password_hash_checker("Password1!", &digest), Ok(true));
    assert_eq!(password_hash_checker("Password12!", &digest), Ok(false));
}

#[test]
fn unusable_parameters_are_a_hashing_error() {
    let no_pass = HashParams { memory_kib: 64, iterations: 0, parallelism: 1 };
    let no_lane = HashParams { memory_kib: 64, iterations: 1, parallelism: 0 };
    let no_room = HashParams { memory_kib: 7, iterations: 1, parallelism: 1 };
    let crowded = HashParams { memory_kib: 8, iterations: 1, parallelism: 2 };
    for params in [no_pass, no_lane, no_room, crowded] {
        assert_eq!(password_hasher_with("Password1!", params), Err(ErrorKind::Hashing));
        assert_eq!(hash_with_salt("Password1!", SALT, params), Err(ErrorKind::Hashing));
    }
    let least = HashParams { memory_kib: 8, iterations: 1, parallelism: 1 };
    assert!(password_hasher_with("Password1!", least).is_ok());
}

#[test]
fn unusable_salt_is_a_hashing_error() {
    assert_eq!(hash_with_salt("Password1!", "no", light()), Err(ErrorKind::Hashing));
    assert_eq!(hash_with_salt("Password1!", "", light()), Err(ErrorKind::Hashing));
    assert_eq!(hash_with_salt("Password1!", "not a salt!", light()), Err(ErrorKind::Hashing));
}

#[test]
fn malformed_digest_is_a_hashing_error() {
    assert_eq!(password_hash_checker("Password1!", ""), Err(ErrorKind::Hashing));
    assert_eq!(password_hash_checker("Password1!", "Password1!"), Err(ErrorKind::Hashing));
    assert_eq!(
        password_hash_checker("Password1!", "$argon2id$v=18$m=19456,t=2,p=1$c29tZXNhbHRzb21lc2FsdA$AAAA"),
        Err(ErrorKind::Hashing)
    );
    assert_eq!(
        password_hash_checker(
            "Password1!",
            "$md5$v=19$m=64,t=1,p=1$c29tZXNhbHRzb21lc2FsdA$CTFhFdXPJO1aFaMaO6Mm5c8y7cJHAph8ArZWb2GRPPc"
        ),
        Err(ErrorKind::Hashing)
    );
}

#[test]
fn a_stored_digest_is_read_with_its_own_parameters() {
    let stored = [
        "$argon2id$v=19$m=65536,t=2,p=1$c29tZXNhbHQ$CTFhFdXPJO1aFaMaO6Mm5c8y7cJHAph8ArZWb2GRPPc",
        "$argon2i$v=19$m=65536,t=1,p=1$c29tZXNhbHQAAAAAAAAAAA$+r0d29hqEB0yasKr55ZgICsQGSkl0v0kgwhd+U3wyRo",
    ];
    for digest in stored {
        assert_eq!(password_hash_checker("password", digest), Ok(true));
        assert_eq!(password_hash_checker("sassword", digest), Ok(false));
    }
}

#[test]
fn a_digest_without_its_output_matches_nothing() {
    assert_eq!(
        password_hash_checker("password", "$argon2id$v=19$m=65536,t=2,p=1$c29tZXNhbHQ"),
        Ok(false)
    );
}

#[test]
fn more_lanes_than_argon2_takes_are_a_hashing_error() {
    assert_eq!(MAX_LANES, 16_777_215);
    for parallelism in [16_777_216, 536_870_911, 536_870_912, 536_870_913, 1 << 30, u32::MAX] {
        for memory_kib in [8, 64, u32::MAX] {
            let params = HashParams { memory_kib, iterations: 1, parallelism };
            assert_eq!(hash_with_salt("Password1!", SALT, params), Err(ErrorKind::Hashing));
            assert_eq!(password_hasher_with("Password1!", params), Err(ErrorKind::Hashing));
        }
    }
    let crowded = HashParams { memory_kib: 8, iterations: 1, parallelism: MAX_LANES };
    assert_eq!(hash_with_salt("Password1!", SALT, crowded), Err(ErrorKind::Hashing));
}

#[test]
fn a_digest_that_states_too_many_lanes_is_unreadable() {
    let output = "CTFhFdXPJO1aFaMaO6Mm5c8y7cJHAph8ArZWb2GRPPc";
    let lanes = [
        "p=536870912",
        "p=536870913",
        "p=4294967295",
        "p=100000000",
        "p=99999999999999999999",
        "p=1,p=536870912",
        "p=536870912,p=1",
        "p=000000001",
    ];
    for stated in lanes {
        let digest = format!("$argon2id$v=19$m=8,t=1,{}$c29tZXNhbHQ${}", stated, output);
        assert_eq!(password_hash_checker("password", &digest), Err(ErrorKind::Hashing), "{}", digest);
    }
    let digest = format!("$argon2id$v=19$m=8,t=1,p=99999999$c29tZXNhbHQ${}", output);
    assert_eq!(password_hash_checker("password", &digest), Err(ErrorKind::Hashing));
}

#[test]
fn every_statement_of_lanes_is_tested() {
    let pair = |name: &str, value: &str| (String::from(name), String::from(value));
    assert!(lanes_are_bounded(&vec![]));
    assert!(lanes_are_bounded(&vec![pair("m", "4294967295"), pair("t", "4294967295")]));
    assert!(lanes_are_bounded(&vec![pair("m", "19456"), pair("t", "2"), pair("p", "1")]));
    assert!(lanes_are_bounded(&vec![pair("p", "16777215")]));
    assert!(lanes_are_bounded(&vec![pair("p", "99999999")]));
    assert!(!lanes_are_bounded(&vec![pair("p", "100000000")]));
    assert!(!lanes_are_bounded(&vec![pair("p", "536870912")]));
    assert!(!lanes_are_bounded(&vec![pair("p", "1"), pair("p", "536870912")]));
    assert!(!lanes_are_bounded(&vec![pair("p", "536870912"), pair("p", "1")]));
    assert!(lanes_are_bounded(&vec![pair("pp", "536870912"), pair("P", "536870912")]));
}

#[test]
fn a_digest_states_the_salt_it_was_derived_with() {
    for salt in [SALT, "c29tZXNhbHQ", "YW5vdGhlcnNhbHRhbm90aA", "abcdefghABCD0123/+ab"] {
        let digest = hash_with_salt("Password1!", salt, light()).unwrap();
        assert_eq!(digest_salt(&digest), Some(String::from(salt)));
    }
    let first = password_hasher_with("Password1!", light()).unwrap();
    let second = password_hasher_with("Password1!", light()).unwrap();
    assert_ne!(digest_salt(&first), digest_salt(&second));
    assert_eq!(digest_salt(&first).unwrap().len(), 22);
}

#[test]
fn no_salt_is_read_where_none_stands() {
    assert_eq!(digest_salt(""), None);
    assert_eq!(digest_salt("Password1!"), None);
    assert_eq!(digest_salt("$argon2id$v=19$m=64,t=1,p=1"), None);
    assert_eq!(digest_salt("$argon2id$v=19$m=64,t=1,p=1$c29tZXNhbHQ"), Some(String::from("c29tZXNhbHQ")));
}
