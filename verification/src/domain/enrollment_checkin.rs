use vstd::prelude::*;

use crate::domain::device;
use crate::domain::device::{Device, DeviceDraft};

verus! {

/// Lookup results for duplicate detection during endpoint enrollment check-in.
#[derive(Debug, Clone, Default, PartialEq, Eq)]
pub struct EnrollmentDeviceLookup {
    pub by_rustdesk_id: Option<Device>,
    pub by_hostname: Option<Device>,
}

/// The device a check-in updates: the one with the same RustDesk ID, else the
/// one with the same hostname, else none (a new device is created).
pub open spec fn selected_device(lookup: EnrollmentDeviceLookup) -> Option<u128> {
    match lookup.by_rustdesk_id {
        Some(d) => Some(d.device_uuid),
        None => match lookup.by_hostname {
            Some(d) => Some(d.device_uuid),
            None => None,
        },
    }
}

/// Select an existing device to update instead of creating a duplicate.
/// The RustDesk ID takes precedence over the hostname.
pub fn select_existing_device_for_checkin(lookup: &EnrollmentDeviceLookup) -> (r: Option<u128>)
    ensures
        r == selected_device(*lookup),
{
    match &lookup.by_rustdesk_id {
        Some(d) => Some(d.device_uuid),
        None => match &lookup.by_hostname {
            Some(d) => Some(d.device_uuid),
            None => None,
        },
    }
}

pub fn hostname_lookup_key(hostname: Option<&str>) -> (r: Option<String>)
    ensures
        r.deep_view() == device::norm_opt(device::opt_str(hostname)),
{
    match hostname {
        Some(h) => {
            let t = crate::text::trim_str(h);
            if t.as_str().is_empty() {
                None
            } else {
                Some(t)
            }
        },
        None => None,
    }
}

/// A field after a check-in: what the endpoint reported, else what was stored.
pub open spec fn refreshed(stored: Option<Seq<char>>, reported: Option<Seq<char>>) -> Option<Seq<char>> {
    match reported {
        Some(v) => Some(v),
        None => stored,
    }
}

fn refresh_field(stored: &Option<String>, reported: &Option<String>) -> (r: Option<String>)
    ensures
        r.deep_view() == refreshed(stored.deep_view(), reported.deep_view()),
{
    match reported {
        Some(v) => Some(v.clone()),
        None => device::clone_opt(stored),
    }
}

/// The device as a check-in leaves it: the RustDesk ID, hostname and platform
/// fields the endpoint reported replace the stored ones, a field it left out
/// keeps its stored value, the check-in time is recorded, and the operator's
/// fields (alias, site, owner, notes, archived flag) stay as they were.
pub fn apply_checkin(existing: &Device, draft: &DeviceDraft, checked_in_at: &str) -> (r: Device)
    ensures
        r.device_uuid == existing.device_uuid,
        r.alias == existing.alias,
        r.site_uuid == existing.site_uuid,
        r.owner == existing.owner,
        r.notes == existing.notes,
        r.archived == existing.archived,
        r.rustdesk_id.deep_view() == refreshed(existing.rustdesk_id.deep_view(), draft.rustdesk_id.deep_view()),
        r.hostname.deep_view() == refreshed(existing.hostname.deep_view(), draft.hostname.deep_view()),
        r.os_family.deep_view() == refreshed(existing.os_family.deep_view(), draft.os_family.deep_view()),
        r.os_version.deep_view() == refreshed(existing.os_version.deep_view(), draft.os_version.deep_view()),
        r.architecture.deep_view() == refreshed(
            existing.architecture.deep_view(),
            draft.architecture.deep_view(),
        ),
        r.rustdesk_version.deep_view() == refreshed(
            existing.rustdesk_version.deep_view(),
            draft.rustdesk_version.deep_view(),
        ),
        r.last_checkin_at.deep_view() == Some(checked_in_at@),
{
    Device {
        device_uuid: existing.device_uuid,
        rustdesk_id: refresh_field(&existing.rustdesk_id, &draft.rustdesk_id),
        alias: existing.alias.clone(),
        hostname: refresh_field(&existing.hostname, &draft.hostname),
        os_family: refresh_field(&existing.os_family, &draft.os_family),
        os_version: refresh_field(&existing.os_version, &draft.os_version),
        architecture: refresh_field(&existing.architecture, &draft.architecture),
        rustdesk_version: refresh_field(&existing.rustdesk_version, &draft.rustdesk_version),
        site_uuid: existing.site_uuid,
        owner: device::clone_opt(&existing.owner),
        notes: device::clone_opt(&existing.notes),
        archived: existing.archived,
        last_checkin_at: Some(String::from_str(checked_in_at)),
    }
}

/// A check-in never erases what is stored of a device: a field that held a
/// value still holds one afterwards, and a reported field always wins.
pub proof fn lemma_checkin_keeps_stored_metadata(stored: Option<Seq<char>>, reported: Option<Seq<char>>)
    ensures
        stored is Some ==> refreshed(stored, reported) is Some,
        reported is Some ==> refreshed(stored, reported) == reported,
        reported is None ==> refreshed(stored, reported) == stored,
{
}

/// A check-in updates the device found by its RustDesk ID whenever there is
/// one; the device found by its hostname only when none has that ID; and
/// creates a new device when neither lookup found one.
pub proof fn lemma_rustdesk_id_match_wins(lookup: EnrollmentDeviceLookup)
    ensures
        lookup.by_rustdesk_id is Some ==> selected_device(lookup) == Some(
            lookup.by_rustdesk_id->0.device_uuid,
        ),
        (lookup.by_rustdesk_id is None && lookup.by_hostname is Some) ==> selected_device(lookup)
            == Some(lookup.by_hostname->0.device_uuid),
        (lookup.by_rustdesk_id is None && lookup.by_hostname is None) ==> selected_device(lookup)
            is None,
{
}

} // verus!
