//! The shape of an email address.

use vstd::prelude::*;

verus! {

/// Whether the `validator` crate takes a text for an email address: a local
/// part, `@`, and a domain or a bracketed IP literal, after the HTML5 rules, the
/// domain also in its international form.
pub uninterp spec fn email_shape(value: Seq<char>) -> bool;

/// Calls `validate_email` of `validator`. The claims: the answer depends on the
/// text alone, and no text without an `@` is taken for an address (the
/// function's first test).
#[verifier::external_body]
pub(crate) fn has_email_shape(value: &str) -> (ok: bool)
    ensures
        ok == email_shape(value@),
        ok ==> value@.contains('@'),
{
    validator::validate_email(value)
}

} // verus!
