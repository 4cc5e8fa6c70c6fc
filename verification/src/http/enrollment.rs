use vstd::prelude::*;

use crate::domain::device;
use crate::domain::device::DeviceDraft;
use crate::domain::enrollment_token;
use crate::domain::enrollment_token::EnrollmentTokenRecord;
use crate::text;
use crate::time_format::Timestamp;

verus! {

/// What an endpoint sends when it checks in.
#[derive(Debug, Clone, Default, PartialEq, Eq)]
pub struct EnrollmentCheckinRequest {
    pub enrollment_token: String,
    pub rustdesk_id: Option<String>,
    pub hostname: Option<String>,
    pub os_family: Option<String>,
    pub os_version: Option<String>,
    pub architecture: Option<String>,
    pub rustdesk_version: Option<String>,
}

/// Why a check-in is refused.
#[derive(Debug, Clone, Copy, PartialEq, Eq)]
pub enum CheckinRejection {
    /// The token is unknown, revoked, expired or does not match.
    Unauthorized,
    /// The device the request describes is not valid.
    BadRequest,
}

/// The alias of a checked-in device: its hostname, else its RustDesk ID, else "enrolled-device".
pub open spec fn checkin_alias(hostname: Option<Seq<char>>, rustdesk_id: Option<Seq<char>>) -> Seq<
    char,
> {
    match hostname {
        Some(h) => h,
        None => match rustdesk_id {
            Some(id) => id,
            None => "enrolled-device"@,
        },
    }
}

/// The draft a check-in describes, before normalization, for a token of the given site.
pub open spec fn checkin_raw_draft(body: EnrollmentCheckinRequest, site_uuid: Option<u128>) -> device::DeviceDraftModel {
    device::DeviceDraftModel {
        rustdesk_id: body.rustdesk_id.deep_view(),
        alias: checkin_alias(body.hostname.deep_view(), body.rustdesk_id.deep_view()),
        hostname: body.hostname.deep_view(),
        os_family: body.os_family.deep_view(),
        os_version: body.os_version.deep_view(),
        architecture: body.architecture.deep_view(),
        rustdesk_version: body.rustdesk_version.deep_view(),
        site_uuid,
        owner: None,
        notes: None,
    }
}

/// The normalized draft of a checked-in device.
pub fn checkin_draft(body: &EnrollmentCheckinRequest, site_uuid: Option<u128>) -> (r: DeviceDraft)
    ensures
        r@ == device::normalized_draft(checkin_raw_draft(*body, site_uuid)),
{
    let alias = match &body.hostname {
        Some(h) => h.clone(),
        None => match &body.rustdesk_id {
            Some(id) => id.clone(),
            None => String::from_str("enrolled-device"),
        },
    };
    let raw = DeviceDraft {
        rustdesk_id: device::clone_opt(&body.rustdesk_id),
        alias,
        hostname: device::clone_opt(&body.hostname),
        os_family: device::clone_opt(&body.os_family),
        os_version: device::clone_opt(&body.os_version),
        architecture: device::clone_opt(&body.architecture),
        rustdesk_version: device::clone_opt(&body.rustdesk_version),
        site_uuid,
        owner: None,
        notes: None,
    };
    device::normalize_device_draft(raw)
}

/// The verdict on a check-in: refused as unauthorized when the token is not
/// found or does not verify, refused as a bad request when the described
/// device is not valid, otherwise admitted with the device's normalized draft.
pub open spec fn checkin_verdict(
    record: Option<EnrollmentTokenRecord>,
    body: EnrollmentCheckinRequest,
    now: Timestamp,
) -> Result<device::DeviceDraftModel, CheckinRejection> {
    match record {
        None => Err(CheckinRejection::Unauthorized),
        Some(rec) => if enrollment_token::token_verdict(
            rec,
            enrollment_token::token_hash_of(body.enrollment_token@),
            now,
        ) is Err {
            Err(CheckinRejection::Unauthorized)
        } else {
            let draft = device::normalized_draft(checkin_raw_draft(body, rec.site_uuid));
            if device::device_draft_verdict(draft) is Err {
                Err(CheckinRejection::BadRequest)
            } else {
                Ok(draft)
            }
        },
    }
}

/// Admits or refuses a check-in, given the token record found by the hash of
/// the presented value (none when no token has that hash).
pub fn admit_checkin(
    record: Option<&EnrollmentTokenRecord>,
    body: &EnrollmentCheckinRequest,
    now: Timestamp,
) -> (r: Result<DeviceDraft, CheckinRejection>)
    ensures
        match checkin_verdict(
            match record {
                Some(rec) => Some(*rec),
                None => None,
            },
            *body,
            now,
        ) {
            Ok(draft) => r matches Ok(d) && d@ == draft,
            Err(e) => r == Err::<DeviceDraft, CheckinRejection>(e),
        },
{
    let rec = match record {
        Some(rec) => rec,
        None => {
            return Err(CheckinRejection::Unauthorized);
        },
    };
    if enrollment_token::verify_enrollment_token_value(rec, body.enrollment_token.as_str(), now).is_err() {
        return Err(CheckinRejection::Unauthorized);
    }
    let draft = checkin_draft(body, rec.site_uuid);
    if device::validate_device_draft(&draft).is_err() {
        return Err(CheckinRejection::BadRequest);
    }
    Ok(draft)
}

/// The keys a check-in looks existing devices up by: the normalized RustDesk
/// ID and the non-blank hostname of its draft.
pub fn checkin_lookup_keys(draft: &DeviceDraft) -> (r: (Option<String>, Option<String>))
    ensures
        r.0.deep_view() == draft@.rustdesk_id,
        r.1.deep_view() == device::norm_opt(draft@.hostname),
{
    let by_id = device::clone_opt(&draft.rustdesk_id);
    let by_host = match &draft.hostname {
        Some(h) => crate::domain::enrollment_checkin::hostname_lookup_key(Some(h.as_str())),
        None => None,
    };
    (by_id, by_host)
}

/// The draft of a check-in carries every field the endpoint reported,
/// trimmed, with a blank value dropped; its alias is the trimmed host name,
/// else the trimmed RustDesk ID, else "enrolled-device"; its site is the
/// token's; it has no owner and no notes.
pub proof fn lemma_checkin_draft_keeps_reported_fields(body: EnrollmentCheckinRequest, site_uuid: Option<u128>)
    ensures
        ({
            let d = device::normalized_draft(checkin_raw_draft(body, site_uuid));
            let norm = |o: Option<Seq<char>>|
                match o {
                    Some(s) => if text::trim(s).len() == 0 {
                        None
                    } else {
                        Some(text::trim(s))
                    },
                    None => None,
                };
            &&& d.rustdesk_id == norm(body.rustdesk_id.deep_view())
            &&& d.hostname == norm(body.hostname.deep_view())
            &&& d.os_family == norm(body.os_family.deep_view())
            &&& d.os_version == norm(body.os_version.deep_view())
            &&& d.architecture == norm(body.architecture.deep_view())
            &&& d.rustdesk_version == norm(body.rustdesk_version.deep_view())
            &&& d.alias == text::trim(
                match body.hostname.deep_view() {
                    Some(h) => h,
                    None => match body.rustdesk_id.deep_view() {
                        Some(id) => id,
                        None => "enrolled-device"@,
                    },
                },
            )
            &&& d.site_uuid == site_uuid
            &&& d.owner is None
            &&& d.notes is None
        }),
{
}

/// An admitted check-in gives the device the fields the endpoint reported,
/// trimmed, with a blank value dropped, and the site of its token; its alias
/// is the trimmed host name, else the trimmed RustDesk ID, else
/// "enrolled-device".
pub proof fn lemma_checkin_keeps_reported_fields(
    rec: EnrollmentTokenRecord,
    body: EnrollmentCheckinRequest,
    now: Timestamp,
)
    ensures
        checkin_verdict(Some(rec), body, now) matches Ok(d) ==> ({
            let norm = |o: Option<Seq<char>>|
                match o {
                    Some(s) => if text::trim(s).len() == 0 {
                        None
                    } else {
                        Some(text::trim(s))
                    },
                    None => None,
                };
            &&& d.rustdesk_id == norm(body.rustdesk_id.deep_view())
            &&& d.hostname == norm(body.hostname.deep_view())
            &&& d.os_family == norm(body.os_family.deep_view())
            &&& d.os_version == norm(body.os_version.deep_view())
            &&& d.architecture == norm(body.architecture.deep_view())
            &&& d.rustdesk_version == norm(body.rustdesk_version.deep_view())
            &&& d.alias == text::trim(
                match body.hostname.deep_view() {
                    Some(h) => h,
                    None => match body.rustdesk_id.deep_view() {
                        Some(id) => id,
                        None => "enrolled-device"@,
                    },
                },
            )
            &&& d.site_uuid == rec.site_uuid
            &&& d.owner is None
            &&& d.notes is None
        }),
{
    lemma_checkin_draft_keeps_reported_fields(body, rec.site_uuid);
}

} // verus!
