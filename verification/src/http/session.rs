use vstd::prelude::*;

use crate::domain::session::{session_is_valid, SessionRow};
use crate::ids;
use crate::text;
use crate::time_format::Timestamp;

verus! {

/// The cookie that carries the session identifier.
pub const SESSION_COOKIE_NAME: &'static str = "opendesk_session";

/// The content type of a submitted HTML form.
pub const FORM_CONTENT_TYPE: &'static str = "application/x-www-form-urlencoded";

/// The administrator a valid session belongs to.
#[derive(Debug, Clone, PartialEq, Eq)]
pub struct AuthenticatedUser {
    pub user_uuid: u128,
    pub username: String,
    pub role: String,
}

/// Whether a request with this `Content-Type` value (none when the header is
/// absent or not visible ASCII) posts an HTML form.
pub fn is_form_post(content_type: Option<&str>) -> (r: bool)
    ensures
        r == (content_type matches Some(v) && FORM_CONTENT_TYPE@.is_prefix_of(v@)),
{
    match content_type {
        Some(v) => text::str_starts_with(v, FORM_CONTENT_TYPE),
        None => false,
    }
}

/// The session named by the session cookie: none when there is no cookie or
/// its value is not a UUID.
pub fn session_uuid_from_cookie(value: Option<&str>) -> (r: Option<u128>)
    ensures
        r == match value {
            Some(v) => ids::uuid_parsed(v@),
            None => None::<u128>,
        },
{
    match value {
        Some(v) => ids::parse_uuid(v),
        None => None,
    }
}

/// What a request does with the session it was found to carry.
#[derive(Debug, Clone, Copy, PartialEq, Eq)]
pub enum SessionAdmission {
    /// No such session: send the visitor to the login page.
    SignIn,
    /// The session has expired: delete it, then send the visitor to the login page.
    EndExpired(u128),
    /// The session is valid: load its user.
    LoadUser(u128),
}

/// The admission of a request whose session lookup found `session`, at `now`.
pub open spec fn session_admission(session: Option<SessionRow>, now: Timestamp) -> SessionAdmission {
    match session {
        None => SessionAdmission::SignIn,
        Some(row) => if crate::domain::session::session_valid(row.expires_at, now) {
            SessionAdmission::LoadUser(row.user_uuid)
        } else {
            SessionAdmission::EndExpired(row.session_uuid)
        },
    }
}

pub fn admit_session(session: Option<SessionRow>, now: Timestamp) -> (r: SessionAdmission)
    ensures
        r == session_admission(session, now),
{
    match session {
        None => SessionAdmission::SignIn,
        Some(row) => if session_is_valid(row.expires_at, now) {
            SessionAdmission::LoadUser(row.user_uuid)
        } else {
            SessionAdmission::EndExpired(row.session_uuid)
        },
    }
}

/// A session is never admitted at or after its expiry, and a valid one always
/// loads the user it belongs to.
pub proof fn lemma_expired_session_never_admitted(row: SessionRow, now: Timestamp)
    ensures
        now.unix_nanos >= row.expires_at.unix_nanos ==> session_admission(Some(row), now)
            == SessionAdmission::EndExpired(row.session_uuid),
        now.unix_nanos < row.expires_at.unix_nanos ==> session_admission(Some(row), now)
            == SessionAdmission::LoadUser(row.user_uuid),
{
}

} // verus!
