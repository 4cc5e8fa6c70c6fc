use vstd::prelude::*;

use crate::text;

verus! {

#[derive(Debug, Clone, PartialEq, Eq)]
pub struct Site {
    pub site_uuid: u128,
    pub name: String,
}

#[derive(Debug, Clone, Default, PartialEq, Eq)]
pub struct SiteDraft {
    pub name: String,
}

#[derive(Debug, Clone, Copy, PartialEq, Eq)]
pub enum SiteValidationError {
    EmptyName,
    NameTooLong,
}

impl SiteValidationError {
    /// The message shown to the operator.
    pub fn message(&self) -> (r: &'static str)
        ensures
            r@ == match self {
                SiteValidationError::EmptyName => "site name must not be empty"@,
                SiteValidationError::NameTooLong => "site name is too long"@,
            },
    {
        match self {
            SiteValidationError::EmptyName => "site name must not be empty",
            SiteValidationError::NameTooLong => "site name is too long",
        }
    }
}

/// What the sites page says when the name is taken.
pub const SITE_NAME_TAKEN_MESSAGE: &'static str = "site name already exists";

/// The most bytes a site name may hold once trimmed.
pub const SITE_NAME_MAX_BYTES: usize = 128;

pub fn normalize_site_name(name: &str) -> (r: String)
    ensures
        r@ == text::trim(name@),
{
    text::trim_str(name)
}

/// What `validate_site_draft` answers for a name.
pub open spec fn site_name_verdict(name: Seq<char>) -> Result<(), SiteValidationError> {
    if text::trim(name).len() == 0 {
        Err(SiteValidationError::EmptyName)
    } else if vstd::utf8::encode_utf8(text::trim(name)).len() > SITE_NAME_MAX_BYTES {
        Err(SiteValidationError::NameTooLong)
    } else {
        Ok(())
    }
}

pub fn validate_site_draft(draft: &SiteDraft) -> (r: Result<(), SiteValidationError>)
    ensures
        r == site_name_verdict(draft.name@),
{
    let name = normalize_site_name(draft.name.as_str());
    if name.as_str().is_empty() {
        return Err(SiteValidationError::EmptyName);
    }
    if text::str_utf8_longer_than(name.as_str(), SITE_NAME_MAX_BYTES) {
        return Err(SiteValidationError::NameTooLong);
    }
    Ok(())
}

} // verus!
