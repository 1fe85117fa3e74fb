//! HTTP status numbers as the transport layer accepts them.
use vstd::prelude::*;

verus! {

/// Whether `n` is a status number that `http::StatusCode` accepts: three digits.
pub open spec fn valid_status(n: int) -> bool {
    100 <= n <= 999
}

/// Relies on `http::StatusCode::from_u16`: it succeeds exactly on 100..=999
/// and keeps the number, which `as_u16` hands back.
#[verifier::external_body]
fn status_from_u16(n: u16) -> (r: Option<u16>)
    ensures
        r == (if valid_status(n as int) { Some(n) } else { None::<u16> }),
{
    http::StatusCode::from_u16(n).ok().map(|s| s.as_u16())
}

/// Reads a status number reported as a signed integer, as a plugin does.
/// Returns `None` where the number is no valid HTTP status.
pub fn parse_status(n: i32) -> (r: Option<u16>)
    ensures
        r == (if valid_status(n as int) { Some(n as u16) } else { None::<u16> }),
{
    if n < 0 || n > 65535 {
        None
    } else {
        status_from_u16(n as u16)
    }
}

} // verus!
