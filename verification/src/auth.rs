//! What a token says besides who its user is.

use crate::text::{chars_of, same_text, text_of};
use vstd::prelude::*;

verus! {

/// How long a token is good for, in seconds: a week.
pub const JWT_DURATION: u64 = 604800;

/// Who issues the tokens.
pub fn jwt_issuer() -> (name: &'static str)
    ensures
        name@ == "chat_server"@,
{
    "chat_server"
}

/// Whom the tokens are for.
pub fn jwt_audience() -> (name: &'static str)
    ensures
        name@ == "chat_web"@,
{
    "chat_web"
}

/// The token that an `Authorization` header carries: what follows
/// `Bearer` and one space, if the header starts so.
pub open spec fn carried_token(header: Seq<char>) -> Option<Seq<char>> {
    if header.len() >= 7 && header.subrange(0, 7) == "Bearer "@ {
        Some(header.subrange(7, header.len() as int))
    } else {
        None
    }
}

/// Reads the token out of an `Authorization` header.
pub fn bearer_token(header: &str) -> (token: Option<String>)
    ensures
        match carried_token(header@) {
            Some(t) => token matches Some(got) && got@ == t,
            None => token is None,
        },
{
    let chars = chars_of(header);
    if chars.len() >= 7 && same_text(text_of(&chars, 0, 7).as_str(), "Bearer ") {
        Some(text_of(&chars, 7, chars.len()))
    } else {
        None
    }
}

/// The answer to a successful sign-up or sign-in.
#[derive(Debug, Clone, PartialEq)]
pub struct AuthOutput {
    pub token: String,
}

} // verus!
