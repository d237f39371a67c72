//! The calls this library makes into other crates, each with the contract it relies on.
use vstd::prelude::*;
use std::time::Duration;

verus! {

/// The retry policy of the `backoff` crate, carried as an opaque value.
#[verifier::external_type_specification]
#[verifier::external_body]
#[verifier::reject_recursive_types(C)]
pub struct ExExponentialBackoff<C>(backoff::exponential::ExponentialBackoff<C>);

/// The wall clock the `backoff` crate measures elapsed time on.
#[verifier::external_type_specification]
#[verifier::external_body]
pub struct ExSystemClock(backoff::SystemClock);

/// What the standard base64 engine (alphabet `A-Z a-z 0-9 + /`, padded)
/// decodes the text `s` into, or the text of the error it reports.
pub uninterp spec fn base64_standard_decode(s: Seq<char>) -> Result<Seq<u8>, Seq<char>>;

/// Relies on `base64::engine::general_purpose::STANDARD.decode`: its result
/// depends on the input alone; an error is converted to its text.
#[verifier::external_body]
pub(crate) fn decode_base64(s: &str) -> (r: Result<Vec<u8>, String>)
    ensures
        match base64_standard_decode(s@) {
            Ok(b) => r matches Ok(v) && v@ == b,
            Err(t) => r matches Err(m) && m@ == t,
        },
{
    base64::Engine::decode(&base64::engine::general_purpose::STANDARD, s).map_err(|e| e.to_string())
}

/// An ASCII letter or digit.
pub open spec fn is_ascii_alphanumeric(c: char) -> bool {
    ('a' <= c && c <= 'z') || ('A' <= c && c <= 'Z') || ('0' <= c && c <= '9')
}

/// Relies on `rand`'s `Alphanumeric` sampled from `thread_rng`: `len`
/// characters, each drawn from `A-Z a-z 0-9`. `thread_rng` panics when the
/// operating system cannot seed it.
#[verifier::external_body]
pub(crate) fn random_alphanumeric(len: usize) -> (r: String)
    ensures
        r@.len() == len,
        forall|i: int| 0 <= i < len ==> is_ascii_alphanumeric(#[trigger] r@[i]),
{
    rand::distributions::DistString::sample_string(
        &rand::distributions::Alphanumeric,
        &mut rand::thread_rng(),
        len,
    )
}

} // verus!
