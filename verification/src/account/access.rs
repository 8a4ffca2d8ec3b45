//! Who a request comes from, by its `Authorization` header.
//!
//! A request without a bearer token passes as anonymous. One with a token is
//! let in as the user whom the token's claims name, and refused where the
//! token does not hold or names no user. Whether a token holds is for the
//! caller to find out.

use crate::account::token::{user_of, Claims, ClaimsView};
use crate::text::matches_at;
use vstd::prelude::*;
use vstd::string::*;

verus! {

/// The token of a header: what follows `Bearer `, if the header begins with
/// it.
pub open spec fn bearer_of(header: Seq<char>) -> Option<Seq<char>> {
    if "Bearer "@.is_prefix_of(header) {
        Some(header.skip("Bearer "@.len() as int))
    } else {
        None
    }
}

/// Reads the bearer token of an `Authorization` header.
pub fn bearer_token(header: &str) -> (token: Option<String>)
    ensures
        token.deep_view() == bearer_of(header@),
{
    let prefix = "Bearer ";
    if matches_at(header, prefix, 0) {
        let n: usize = header.unicode_len();
        let m: usize = prefix.unicode_len();
        assert(header@.skip(m as int) =~= header@.subrange(m as int, n as int));
        Some(String::from_str(header.substring_char(m, n)))
    } else {
        None
    }
}

/// How a request is let in.
#[derive(Clone, Debug, PartialEq, Eq)]
pub enum Admission {
    /// The request carries no bearer token.
    Anonymous,
    /// The request comes from this user.
    User(i32),
    /// The request is refused, with these words.
    Refused(String),
}

/// The mathematical content of an [`Admission`].
pub enum AdmissionView {
    Anonymous,
    User(i32),
    Refused(Seq<char>),
}

impl DeepView for Admission {
    type V = AdmissionView;

    open spec fn deep_view(&self) -> AdmissionView {
        match self {
            Admission::Anonymous => AdmissionView::Anonymous,
            Admission::User(user) => AdmissionView::User(*user),
            Admission::Refused(words) => AdmissionView::Refused(words@),
        }
    }
}

impl View for Admission {
    type V = AdmissionView;

    open spec fn view(&self) -> AdmissionView {
        self.deep_view()
    }
}

/// How a request with a bearer token is let in, given the claims of the
/// token if it holds: as the user they name, or not at all.
pub open spec fn admission_of(claims: Option<ClaimsView>) -> AdmissionView {
    match claims {
        Some(claims) => match user_of(claims) {
            Some(user) => AdmissionView::User(user),
            None => AdmissionView::Refused("Identifiant utilisateur invalide dans le JWT"@),
        },
        None => AdmissionView::Refused("Jeton JWT invalide ou expiré"@),
    }
}

/// Decides how a request with a bearer token is let in. `claims` are those
/// of the token, or `None` where the token does not hold.
pub fn admission_for(claims: &Option<Claims>) -> (admission: Admission)
    ensures
        admission@ == admission_of(claims.deep_view()),
{
    match claims {
        Some(claims) => match claims.user_id() {
            Some(user) => Admission::User(user),
            None => Admission::Refused(
                String::from_str("Identifiant utilisateur invalide dans le JWT"),
            ),
        },
        None => Admission::Refused(String::from_str("Jeton JWT invalide ou expiré")),
    }
}

} // verus!
