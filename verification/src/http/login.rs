use vstd::prelude::*;

use crate::auth;
use crate::text;

verus! {

/// What the login page says when the username or the password is wrong; it
/// does not tell which.
pub const INVALID_LOGIN_MESSAGE: &'static str = "Invalid username or password";

/// The stored account that a login names.
#[derive(Debug, Clone, PartialEq, Eq)]
pub struct LoginCandidate {
    pub user_uuid: u128,
    pub password_hash: String,
}

/// The username a login looks up: what was typed, trimmed.
pub fn login_lookup_name(username: &str) -> (r: String)
    ensures
        r@ == text::trim(username@),
{
    text::trim_str(username)
}

/// Whom a login signs in: the account found for the username, when the
/// password checks against its stored hash; no one otherwise.
pub open spec fn login_result(candidate: Option<LoginCandidate>, password: Seq<char>) -> Option<u128> {
    match candidate {
        Some(c) => if auth::argon2_accepts(password, c.password_hash@) {
            Some(c.user_uuid)
        } else {
            None
        },
        None => None,
    }
}

pub fn check_login(candidate: Option<&LoginCandidate>, password: &str) -> (r: Option<u128>)
    ensures
        r == login_result(
            match candidate {
                Some(c) => Some(*c),
                None => None,
            },
            password@,
        ),
{
    match candidate {
        Some(c) => match auth::verify_password(password, c.password_hash.as_str()) {
            Ok(()) => Some(c.user_uuid),
            Err(_) => None,
        },
        None => None,
    }
}

} // verus!
