//! When the renewal task refreshes the token.
use vstd::prelude::*;

verus! {

/// How long before the reported expiry a refresh is made, in seconds.
pub const REFRESH_MARGIN_SECS: u64 = 120;

/// Seconds to wait before refreshing a token valid for `expires_in` seconds:
/// the margin before expiry, or no wait at all where the token is valid for
/// no longer than the margin.
pub open spec fn delay_before_refresh(expires_in: u64) -> u64 {
    if expires_in > REFRESH_MARGIN_SECS {
        (expires_in - REFRESH_MARGIN_SECS) as u64
    } else {
        0
    }
}

pub fn refresh_delay(expires_in: u64) -> (r: u64)
    ensures
        r == delay_before_refresh(expires_in),
        r <= expires_in,
{
    if expires_in > REFRESH_MARGIN_SECS {
        expires_in - REFRESH_MARGIN_SECS
    } else {
        0
    }
}

} // verus!
