use vstd::prelude::*;

use crate::text;

verus! {

#[derive(Debug, Clone, PartialEq, Eq)]
pub struct User {
    pub user_uuid: u128,
    pub username: String,
    pub role: String,
}

#[derive(Debug, Clone, Copy, PartialEq, Eq)]
pub enum UserValidationError {
    EmptyUsername,
    UsernameTooLong,
}

impl UserValidationError {
    /// The message shown to the operator.
    pub fn message(&self) -> (r: &'static str)
        ensures
            r@ == match self {
                UserValidationError::EmptyUsername => "username must not be empty"@,
                UserValidationError::UsernameTooLong => "username is too long"@,
            },
    {
        match self {
            UserValidationError::EmptyUsername => "username must not be empty",
            UserValidationError::UsernameTooLong => "username is too long",
        }
    }
}

/// The most bytes a username may hold once trimmed.
pub const USERNAME_MAX_BYTES: usize = 64;

/// What `validate_username` answers.
pub open spec fn username_verdict(username: Seq<char>) -> Result<(), UserValidationError> {
    if text::trim(username).len() == 0 {
        Err(UserValidationError::EmptyUsername)
    } else if vstd::utf8::encode_utf8(text::trim(username)).len() > USERNAME_MAX_BYTES {
        Err(UserValidationError::UsernameTooLong)
    } else {
        Ok(())
    }
}

pub fn validate_username(username: &str) -> (r: Result<(), UserValidationError>)
    ensures
        r == username_verdict(username@),
{
    let trimmed = text::trim_str(username);
    if trimmed.as_str().is_empty() {
        return Err(UserValidationError::EmptyUsername);
    }
    if text::str_utf8_longer_than(trimmed.as_str(), USERNAME_MAX_BYTES) {
        return Err(UserValidationError::UsernameTooLong);
    }
    Ok(())
}

} // verus!
