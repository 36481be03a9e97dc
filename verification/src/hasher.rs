//! The password hasher: salted Argon2 digests in the PHC string format.
//!
//! A digest carries the algorithm, its parameters and the salt, so a stored
//! digest is all that is needed to check a password later.

use crate::errors::ErrorKind;
use argon2::password_hash::rand_core::{OsRng, RngCore};
use argon2::password_hash::{
    Ident, PasswordHash, PasswordHasher, PasswordVerifier, Salt, SaltString, Value,
};
use argon2::{Algorithm, Argon2, Params, Version};
use vstd::prelude::*;
use vstd::string::{StrSliceExecFns, StringExecFns};

verus! {

/// The error type of `password-hash`, carried as it is and never looked into.
#[verifier::external_type_specification]
#[verifier::external_body]
pub struct ExPasswordHashError(argon2::password_hash::Error);

/// The digest that Argon2id derives from a password and a salt in text form,
/// with the given memory in KiB, number of passes and number of lanes, or `None`
/// where it fails.
pub uninterp spec fn argon2_digest(
    password: Seq<char>,
    salt: Seq<char>,
    memory_kib: u32,
    iterations: u32,
    parallelism: u32,
) -> Option<Seq<char>>;

/// What Argon2 finds when it holds a password against a digest: `Some(true)`
/// where the password matches, `Some(false)` where it does not, and `None`
/// where the digest cannot be read or recomputed.
pub uninterp spec fn argon2_verdict(password: Seq<char>, digest: Seq<char>) -> Option<bool>;

/// What a digest states of how it was derived: its salt, if it has one, and
/// its parameters, each as its name and the text of its value, in the order in
/// which they stand. `None` where the digest is no PHC string.
pub uninterp spec fn stated_header(digest: Seq<char>) -> Option<
    (Option<Seq<char>>, Seq<(Seq<char>, Seq<char>)>),
>;

/// The parameters that a digest states.
pub open spec fn stated_parameters(digest: Seq<char>) -> Option<Seq<(Seq<char>, Seq<char>)>> {
    match stated_header(digest) {
        Some(header) => Some(header.1),
        None => None,
    }
}

/// The salt that a digest states.
pub open spec fn stated_salt(digest: Seq<char>) -> Option<Seq<char>> {
    match stated_header(digest) {
        Some(header) => header.0,
        None => None,
    }
}

/// The greatest number of lanes that Argon2 takes.
pub const MAX_LANES: u32 = 16_777_215;

/// The number of digits of `MAX_LANES`.
pub const MAX_LANES_DIGITS: usize = 8;

/// How costly a digest is to derive. A digest records the parameters it was
/// derived with, so they can be changed without old digests being lost.
#[derive(Clone, Copy, Debug, PartialEq, Eq, Structural)]
pub struct HashParams {
    /// The memory used, in KiB.
    pub memory_kib: u32,
    /// The number of passes over the memory.
    pub iterations: u32,
    /// The number of lanes.
    pub parallelism: u32,
}

/// The parameters in use where none are chosen: 19 MiB, two passes, one lane.
pub open spec fn recommended_params() -> HashParams {
    HashParams { memory_kib: 19456, iterations: 2, parallelism: 1 }
}

/// The digest of a password under a salt and parameters. There is none for
/// more lanes than `MAX_LANES`: Argon2 is not asked then.
pub open spec fn digest_of(password: Seq<char>, salt: Seq<char>, params: HashParams) -> Option<
    Seq<char>,
> {
    if params.parallelism <= MAX_LANES {
        argon2_digest(password, salt, params.memory_kib, params.iterations, params.parallelism)
    } else {
        None
    }
}

/// Whether no parameter of the list asks for more lanes than can be written
/// in `MAX_LANES_DIGITS` digits. Every parameter named `p` counts, not only
/// the first: Argon2 goes by the last.
pub open spec fn lanes_bounded(parameters: Seq<(Seq<char>, Seq<char>)>) -> bool {
    forall|i: int|
        0 <= i < parameters.len() && (#[trigger] parameters[i]).0 == "p"@ ==> parameters[i].1.len()
            <= MAX_LANES_DIGITS
}

/// Whether Argon2 can be asked about a digest: it is where the digest states
/// no number of lanes beyond the bound. A digest that is no PHC string can be
/// asked about, and is found unreadable.
pub open spec fn can_be_checked(digest: Seq<char>) -> bool {
    match stated_parameters(digest) {
        Some(parameters) => lanes_bounded(parameters),
        None => true,
    }
}

/// What holding a password against a digest comes to: what Argon2 finds
/// where it can be asked, and `None`, as for an unreadable digest, where it
/// cannot.
pub open spec fn verdict_of(password: Seq<char>, digest: Seq<char>) -> Option<bool> {
    if can_be_checked(digest) {
        argon2_verdict(password, digest)
    } else {
        None
    }
}

/// The password matches the digest.
pub open spec fn digest_verifies(password: Seq<char>, digest: Seq<char>) -> bool {
    verdict_of(password, digest) == Some(true)
}

/// The texts of a list of parameters.
pub open spec fn parameter_texts(parameters: Seq<(String, String)>) -> Seq<
    (Seq<char>, Seq<char>),
> {
    parameters.map_values(|pair: (String, String)| (pair.0@, pair.1@))
}

/// The text of a salt, if there is one.
pub open spec fn salt_text(salt: Option<String>) -> Option<Seq<char>> {
    match salt {
        Some(text) => Some(text@),
        None => None,
    }
}

/// The texts of what was read from a digest.
pub open spec fn header_texts(header: Option<(Option<String>, Vec<(String, String)>)>) -> Option<
    (Option<Seq<char>>, Seq<(Seq<char>, Seq<char>)>),
> {
    match header {
        Some(read) => Some((salt_text(read.0), parameter_texts(read.1@))),
        None => None,
    }
}

/// Whether `digest` is a digest of `password` under some salt.
pub open spec fn is_digest_of(password: Seq<char>, digest: Seq<char>, params: HashParams) -> bool {
    exists|salt: Seq<char>| digest_of(password, salt, params) == Some(digest)
}

/// Draws a salt: calls `OsRng::try_fill_bytes` of `rand_core` on a buffer of
/// the length that `password-hash` recommends for a salt, and
/// `SaltString::encode_b64` of `password-hash` on the bytes drawn. Nothing is
/// claimed of the salt; `None` stands for a failure of the system's entropy
/// source or of the encoding.
#[verifier::external_body]
fn fresh_salt() -> (salt: Option<String>) {
    let mut bytes = [0u8; Salt::RECOMMENDED_LENGTH];
    OsRng.try_fill_bytes(&mut bytes).ok()?;
    Some(SaltString::encode_b64(&bytes).ok()?.as_str().to_string())
}

/// Calls `hash_password` of `argon2` on an Argon2id hasher of version 0x13 made
/// by `Argon2::new` from the parameters that `Params::new` accepts, with the
/// salt parsed by `Salt::from_b64`, and writes the digest out as a PHC string.
/// `Params::new` multiplies the lanes by eight before it tests them, so more
/// lanes than `MAX_LANES` are kept from it. The derivation takes the memory
/// and the time that the parameters name. The claims: the digest depends on
/// password, salt and parameters alone; a digest that was derived from a
/// password verifies against that password, since verification repeats the
/// derivation with the parameters and the salt that the digest holds; and the
/// digest states the salt that was given, and its lanes once, as the number
/// that was given.
#[verifier::external_body]
fn derive_digest(password: &str, salt: &str, params: HashParams) -> (digest: Result<
    String,
    argon2::password_hash::Error,
>)
    requires
        params.parallelism <= MAX_LANES,
    ensures
        match digest {
            Ok(text) => argon2_digest(
                password@,
                salt@,
                params.memory_kib,
                params.iterations,
                params.parallelism,
            ) == Some(text@) && argon2_verdict(password@, text@) == Some(true) && (
            stated_header(text@) matches Some(header) && header.0 == Some(salt@) && lanes_bounded(
                header.1,
            )),
            Err(_) => argon2_digest(
                password@,
                salt@,
                params.memory_kib,
                params.iterations,
                params.parallelism,
            ) is None,
        },
{
    let costs = Params::new(params.memory_kib, params.iterations, params.parallelism, None)?;
    let hasher = Argon2::new(Algorithm::Argon2id, Version::V0x13, costs);
    Ok(hasher.hash_password(password.as_bytes(), Salt::from_b64(salt)?)?.to_string())
}

/// Calls `PasswordHash::new` of `password-hash` on the digest and hands out
/// what its `salt` field holds, and what its `params` field holds, pair by
/// pair as `ParamsString::iter` gives them. The claim is only that both depend
/// on the digest alone.
#[verifier::external_body]
fn read_header(digest: &str) -> (header: Option<(Option<String>, Vec<(String, String)>)>)
    ensures
        header_texts(header) == stated_header(digest@),
{
    let parsed = PasswordHash::new(digest).ok()?;
    let salt = parsed.salt.map(|salt| salt.as_str().to_string());
    let pair = |(n, v): (Ident, Value)| (n.as_str().to_string(), v.as_str().to_string());
    Some((salt, parsed.params.iter().map(pair).collect()))
}

/// Calls `PasswordHash::new` of `password-hash` on the digest and then
/// `Argon2::default().verify_password` of `argon2`, which derives anew with the
/// algorithm, the parameters and the salt that the digest holds. It builds the
/// parameters with `Params::new`, so a digest that states more lanes than the
/// bound is kept from it. Its `Error::Password`, the sign of a mismatch,
/// becomes `Ok(false)`; every other error is handed on. The claim is only that
/// the outcome depends on password and digest alone.
#[verifier::external_body]
fn check_digest(password: &str, digest: &str) -> (verdict: Result<
    bool,
    argon2::password_hash::Error,
>)
    requires
        can_be_checked(digest@),
    ensures
        match verdict {
            Ok(matches) => argon2_verdict(password@, digest@) == Some(matches),
            Err(_) => argon2_verdict(password@, digest@) is None,
        },
{
    let parsed = PasswordHash::new(digest)?;
    match Argon2::default().verify_password(password.as_bytes(), &parsed) {
        Ok(()) => Ok(true),
        Err(argon2::password_hash::Error::Password) => Ok(false),
        Err(other) => Err(other),
    }
}

impl HashParams {
    /// The parameters in use where none are chosen.
    pub fn recommended() -> (params: HashParams)
        ensures
            params == recommended_params(),
    {
        HashParams { memory_kib: 19456, iterations: 2, parallelism: 1 }
    }
}

/// What a derivation's outcome means to a caller: the digest, or the error
/// `Hashing`.
pub open spec fn hashed(digest: Option<Seq<char>>) -> Result<Seq<char>, ErrorKind> {
    match digest {
        Some(text) => Ok(text),
        None => Err(ErrorKind::Hashing),
    }
}

/// The digest's text, or the error.
pub open spec fn digest_text(digest: Result<String, ErrorKind>) -> Result<Seq<char>, ErrorKind> {
    match digest {
        Ok(text) => Ok(text@),
        Err(kind) => Err(kind),
    }
}

/// Derives the digest of `password` under the given salt and parameters.
pub fn hash_with_salt(password: &str, salt: &str, params: HashParams) -> (digest: Result<
    String,
    ErrorKind,
>)
    ensures
        digest_text(digest) == hashed(digest_of(password@, salt@, params)),
        digest matches Ok(text) ==> digest_verifies(password@, text@) && stated_salt(text@) == Some(
            salt@,
        ),
{
    if params.parallelism > MAX_LANES {
        return Err(ErrorKind::Hashing);
    }
    match derive_digest(password, salt, params) {
        Ok(text) => Ok(text),
        Err(_) => Err(ErrorKind::Hashing),
    }
}

/// Derives a digest of `password` under a fresh random salt and the given
/// parameters. Two calls on one password draw two salts. Whatever the salt,
/// the digest verifies against the password; the only error is `Hashing`.
pub fn password_hasher_with(password: &str, params: HashParams) -> (digest: Result<
    String,
    ErrorKind,
>)
    ensures
        match digest {
            Ok(text) => digest_verifies(password@, text@) && is_digest_of(
                password@,
                text@,
                params,
            ),
            Err(kind) => kind == ErrorKind::Hashing,
        },
{
    match fresh_salt() {
        Some(salt) => hash_with_salt(password, salt.as_str(), params),
        None => Err(ErrorKind::Hashing),
    }
}

/// Derives a digest of `password` under a fresh random salt and the
/// recommended parameters.
pub fn password_hasher(password: &str) -> (digest: Result<String, ErrorKind>)
    ensures
        match digest {
            Ok(text) => digest_verifies(password@, text@) && is_digest_of(
                password@,
                text@,
                recommended_params(),
            ),
            Err(kind) => kind == ErrorKind::Hashing,
        },
{
    password_hasher_with(password, HashParams::recommended())
}

/// What a verdict of Argon2 means to a caller: a match or a mismatch is an
/// answer, an unreadable digest is the error `Hashing`.
pub open spec fn verdict_outcome(verdict: Option<bool>) -> Result<bool, ErrorKind> {
    match verdict {
        Some(matches) => Ok(matches),
        None => Err(ErrorKind::Hashing),
    }
}

/// Tests the parameters of a digest for a number of lanes beyond the bound.
pub fn lanes_are_bounded(parameters: &Vec<(String, String)>) -> (bounded: bool)
    ensures
        bounded == lanes_bounded(parameter_texts(parameters@)),
{
    let lanes = String::from_str("p");
    let mut i: usize = 0;
    while i < parameters.len()
        invariant
            i <= parameters@.len(),
            lanes@ == "p"@,
            forall|j: int|
                0 <= j < i && (#[trigger] parameter_texts(parameters@)[j]).0 == "p"@
                    ==> parameter_texts(parameters@)[j].1.len() <= MAX_LANES_DIGITS,
        decreases parameters@.len() - i,
    {
        let pair = &parameters[i];
        assert(parameter_texts(parameters@)[i as int] == (pair.0@, pair.1@));
        if pair.0 == lanes && pair.1.as_str().unicode_len() > MAX_LANES_DIGITS {
            return false;
        }
        i += 1;
    }
    true
}

/// Reads the salt that a digest states. Two digests that state two salts are
/// two digests.
pub fn digest_salt(digest: &str) -> (salt: Option<String>)
    ensures
        salt_text(salt) == stated_salt(digest@),
{
    match read_header(digest) {
        Some(header) => header.0,
        None => None,
    }
}

/// Holds `password` against a stored digest. A digest that states more lanes
/// than Argon2 takes is as unreadable as one that is no digest at all.
pub fn password_hash_checker(password: &str, password_hash: &str) -> (outcome: Result<
    bool,
    ErrorKind,
>)
    ensures
        outcome == verdict_outcome(verdict_of(password@, password_hash@)),
{
    let bounded = match read_header(password_hash) {
        Some(header) => lanes_are_bounded(&header.1),
        None => true,
    };
    if !bounded {
        return Err(ErrorKind::Hashing);
    }
    match check_digest(password, password_hash) {
        Ok(matches) => Ok(matches),
        Err(_) => Err(ErrorKind::Hashing),
    }
}

} // verus!
