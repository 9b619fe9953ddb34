//! The claims of a short-lived token.

use crate::clock::{clock_range, now};
use crate::message::Timestamp;
use vstd::prelude::*;

verus! {

#[derive(Debug, PartialEq, Eq)]
pub struct Claims {
    pub sub: String,
    /// The second at which the token expires.
    pub exp: usize,
}

/// The mathematical value of [`Claims`].
pub struct ClaimsView {
    pub sub: Seq<char>,
    pub exp: usize,
}

impl View for Claims {
    type V = ClaimsView;

    open spec fn view(&self) -> ClaimsView {
        ClaimsView { sub: self.sub@, exp: self.exp }
    }
}

/// The second that lies `minutes` minutes after `now`.
pub open spec fn expiry(now: Timestamp, minutes: i64) -> int {
    now.secs + 60 * minutes
}

/// The claims of a token for `user_id` that expires `minutes` minutes after
/// `now`, or `None` where that second cannot be held: where it lies before
/// the epoch or beyond what a `usize` holds.
pub open spec fn claims_of(user_id: Seq<char>, minutes: i64, now: Timestamp) -> Option<ClaimsView> {
    if 0 <= expiry(now, minutes) <= usize::MAX {
        Some(ClaimsView { sub: user_id, exp: expiry(now, minutes) as usize })
    } else {
        None
    }
}

/// The value of claims that may be missing.
pub open spec fn view_of(claims: Option<Claims>) -> Option<ClaimsView> {
    match claims {
        Some(c) => Some(c@),
        None => None,
    }
}

/// The claims of a token for `user_id` that expires `expires_in_minutes`
/// minutes after `now`, where the second of expiry can be held.
pub fn claims_at(user_id: &str, expires_in_minutes: i64, now: Timestamp) -> (claims: Option<Claims>)
    ensures
        view_of(claims) == claims_of(user_id@, expires_in_minutes, now),
{
    let at: i128 = now.secs as i128 + 60 * (expires_in_minutes as i128);
    if at < 0 || at > usize::MAX as i128 {
        return None;
    }
    Some(Claims { sub: user_id.to_string(), exp: at as usize })
}

/// As [`claims_at`], counted from the present second, whichever second the
/// clock says that is. The clock gives no time before the epoch and none
/// beyond its range, so there are claims for every number of minutes that
/// is not negative and that leaves the second of expiry within a `usize`
/// from anywhere in that range.
pub fn claims_from_now(user_id: &str, expires_in_minutes: i64) -> (claims: Option<Claims>)
    ensures
        exists|at: Timestamp|
            clock_range(at) && view_of(claims) == #[trigger] claims_of(user_id@, expires_in_minutes, at),
        0 <= expires_in_minutes && 0x1_0000_0000_0000 + 60 * expires_in_minutes <= usize::MAX
            ==> claims is Some,
{
    let at = now();
    let claims = claims_at(user_id, expires_in_minutes, at);
    assert(view_of(claims) == claims_of(user_id@, expires_in_minutes, at));
    claims
}

} // verus!
