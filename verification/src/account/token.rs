//! What a token claims: whom it names and until when it holds.

use crate::decimal::{
    i32_to_text, int_text, lemma_int_text_round_trip, parse_i32, parse_int_text,
};
use vstd::prelude::*;
use vstd::string::*;

verus! {

/// The time for which a token holds, in seconds.
pub const TOKEN_LIFETIME_SECONDS: i64 = 3600;

/// The claims of a token.
#[derive(Clone, Debug, PartialEq, Eq)]
pub struct Claims {
    /// The user's identifier, in decimal.
    pub sub: String,
    /// The time at which the token expires, in seconds since the epoch.
    pub exp: usize,
}

/// The mathematical content of [`Claims`].
pub struct ClaimsView {
    pub sub: Seq<char>,
    pub exp: usize,
}

impl DeepView for Claims {
    type V = ClaimsView;

    open spec fn deep_view(&self) -> ClaimsView {
        ClaimsView { sub: self.sub@, exp: self.exp }
    }
}

impl View for Claims {
    type V = ClaimsView;

    open spec fn view(&self) -> ClaimsView {
        self.deep_view()
    }
}

/// The claims of a token issued to a user at a time: the user's identifier
/// in decimal, and the time one hour later. There are none where that time
/// is before the epoch or beyond what the machine counts.
pub open spec fn claims_of(user_id: i32, issued_at: i64) -> Option<ClaimsView> {
    let expiry = issued_at + TOKEN_LIFETIME_SECONDS;
    if 0 <= expiry <= usize::MAX && expiry <= i64::MAX {
        Some(ClaimsView { sub: int_text(user_id as int), exp: expiry as usize })
    } else {
        None
    }
}

/// The user whom claims name, if their subject is a decimal `i32`.
pub open spec fn user_of(claims: ClaimsView) -> Option<i32> {
    parse_int_text(claims.sub)
}

impl Claims {
    /// Makes the claims of a token issued to `user_id` at `issued_at`,
    /// seconds since the epoch.
    pub fn issue(user_id: i32, issued_at: i64) -> (claims: Option<Claims>)
        ensures
            claims.deep_view() == claims_of(user_id, issued_at),
    {
        if issued_at > i64::MAX - TOKEN_LIFETIME_SECONDS {
            return None;
        }
        let expiry: i64 = issued_at + TOKEN_LIFETIME_SECONDS;
        if expiry < 0 {
            return None;
        }
        if expiry as u64 > usize::MAX as u64 {
            return None;
        }
        Some(Claims { sub: i32_to_text(user_id), exp: expiry as usize })
    }

    /// Reads the user whom the claims name.
    pub fn user_id(&self) -> (user: Option<i32>)
        ensures
            user == user_of(self@),
    {
        parse_i32(self.sub.as_str())
    }
}

/// The claims issued to a user name that user.
pub proof fn lemma_claims_name_their_user(user_id: i32, issued_at: i64)
    requires
        claims_of(user_id, issued_at) is Some,
    ensures
        user_of(claims_of(user_id, issued_at)->0) == Some(user_id),
{
    lemma_int_text_round_trip(user_id);
}

} // verus!
