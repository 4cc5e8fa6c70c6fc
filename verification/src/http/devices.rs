use std::collections::HashMap;

use vstd::prelude::*;

use crate::domain::device;
use crate::domain::device::{Device, DeviceDraft, DeviceModel};
use crate::domain::tag::Tag;
use crate::domain::device_list::DeviceSearchQuery;
use crate::http::views::DeviceRowView;
use crate::text;

verus! {

/// The device form as submitted.
#[derive(Debug, Clone, Default, PartialEq, Eq)]
pub struct DeviceForm {
    pub alias: String,
    pub rustdesk_id: Option<String>,
    pub hostname: Option<String>,
    pub owner: Option<String>,
    pub notes: Option<String>,
    pub site_uuid: Option<String>,
    pub tag_uuids: Vec<String>,
}

/// An optional text with a blank value dropped (the value itself is kept untrimmed).
pub open spec fn non_blank(o: Option<Seq<char>>) -> Option<Seq<char>> {
    match o {
        Some(s) => if text::trim(s).len() == 0 { None } else { Some(s) },
        None => None,
    }
}

fn keep_non_blank(o: Option<String>) -> (r: Option<String>)
    ensures
        r.deep_view() == non_blank(o.deep_view()),
{
    match o {
        Some(s) => if text::trimmed_chars(s.as_str()).len() == 0 {
            None
        } else {
            Some(s)
        },
        None => None,
    }
}

/// The site a form selects: the UUID its trimmed value reads as, or none when
/// the value is blank or not a UUID.
pub open spec fn form_site(o: Option<Seq<char>>) -> Option<u128> {
    match o {
        Some(s) => if text::trim(s).len() == 0 {
            None
        } else {
            crate::ids::uuid_parsed(text::trim(s))
        },
        None => None,
    }
}

/// The draft a device form gives: blank fields dropped, the site parsed, no
/// enrollment metadata.
pub open spec fn form_draft(form: DeviceForm) -> device::DeviceDraftModel {
    device::DeviceDraftModel {
        rustdesk_id: non_blank(form.rustdesk_id.deep_view()),
        alias: form.alias@,
        hostname: non_blank(form.hostname.deep_view()),
        os_family: None,
        os_version: None,
        architecture: None,
        rustdesk_version: None,
        site_uuid: form_site(form.site_uuid.deep_view()),
        owner: non_blank(form.owner.deep_view()),
        notes: non_blank(form.notes.deep_view()),
    }
}

pub fn device_form_to_draft(form: DeviceForm) -> (r: DeviceDraft)
    ensures
        r@ == form_draft(form),
{
    let ghost form_model = form;
    let DeviceForm { alias, rustdesk_id, hostname, owner, notes, site_uuid, .. } = form;
    let site = match site_uuid {
        Some(value) => {
            let trimmed = text::trim_str(value.as_str());
            if trimmed.as_str().is_empty() {
                None
            } else {
                crate::ids::parse_uuid(trimmed.as_str())
            }
        },
        None => None,
    };
    DeviceDraft {
        rustdesk_id: keep_non_blank(rustdesk_id),
        alias,
        hostname: keep_non_blank(hostname),
        owner: keep_non_blank(owner),
        notes: keep_non_blank(notes),
        site_uuid: site,
        os_family: None,
        os_version: None,
        architecture: None,
        rustdesk_version: None,
    }
}

/// An optional text, or "-" when there is none.
pub open spec fn or_dash(o: Option<Seq<char>>) -> Seq<char> {
    match o {
        Some(s) => s,
        None => "-"@,
    }
}

/// The row the device list shows for a device, given its site and tag names.
pub open spec fn row_of(d: DeviceModel, site: Option<Seq<char>>, tags: Seq<Seq<char>>) -> Seq<
    Seq<char>,
> {
    seq![
        crate::ids::uuid_text(d.device_uuid),
        d.alias,
        or_dash(site),
        crate::domain::tag::tag_names_display(tags),
        device::notes_display(d.notes),
        device::notes_title(d.notes),
        or_dash(d.rustdesk_id),
        or_dash(d.hostname),
        crate::time_format::last_checkin_display(d.last_checkin_at),
        if d.archived { "yes"@ } else { "no"@ },
    ]
}

impl View for DeviceRowView {
    type V = Seq<Seq<char>>;

    /// The ten cells in the order of the columns.
    open spec fn view(&self) -> Seq<Seq<char>> {
        seq![
            self.device_uuid@,
            self.alias@,
            self.site_display@,
            self.tags_display@,
            self.notes_display@,
            self.notes_title@,
            self.rustdesk_id_display@,
            self.hostname_display@,
            self.last_checkin_display@,
            self.archived_display@,
        ]
    }
}

fn dash_or(o: &Option<String>) -> (r: String)
    ensures
        r@ == or_dash(o.deep_view()),
{
    match o {
        Some(s) => s.clone(),
        None => String::from_str("-"),
    }
}

fn opt_as_str(o: &Option<String>) -> (r: Option<&str>)
    ensures
        device::opt_str(r) == o.deep_view(),
{
    match o {
        Some(s) => Some(s.as_str()),
        None => None,
    }
}

pub fn device_row_view(device: &Device, site_name: Option<&str>, tag_names: &[String]) -> (r:
    DeviceRowView)
    ensures
        r@ == row_of(device@, device::opt_str(site_name), text::strings_view(tag_names@)),
{
    let site_display = match site_name {
        Some(s) => String::from_str(s),
        None => String::from_str("-"),
    };
    DeviceRowView {
        device_uuid: crate::ids::uuid_to_string(device.device_uuid),
        alias: device.alias.clone(),
        site_display,
        tags_display: crate::domain::tag::format_tag_names_display(tag_names),
        notes_display: device::format_notes_display(opt_as_str(&device.notes)),
        notes_title: device::notes_list_title(opt_as_str(&device.notes)),
        rustdesk_id_display: dash_or(&device.rustdesk_id),
        hostname_display: dash_or(&device.hostname),
        last_checkin_display: crate::time_format::format_last_checkin_display(
            opt_as_str(&device.last_checkin_at),
        ),
        archived_display: if device.archived {
            String::from_str("yes")
        } else {
            String::from_str("no")
        },
    }
}

/// The rows of the device list: one per device of the default list, in order.
pub open spec fn list_rows(
    devices: Seq<Device>,
    term: Seq<char>,
    sites: Map<u128, String>,
    tags: Map<u128, Vec<String>>,
) -> Seq<Seq<Seq<char>>> {
    device::default_list(devices, term, sites, tags).map_values(
        |m: DeviceModel| row_of(m, device::site_of(m, sites), device::tags_of(m, tags)),
    )
}

pub fn devices_list_rows(
    devices: &[Device],
    query: &DeviceSearchQuery,
    site_names: &HashMap<u128, String>,
    device_tag_names: &HashMap<u128, Vec<String>>,
) -> (r: Vec<DeviceRowView>)
    ensures
        r@.map_values(|v: DeviceRowView| v@) == list_rows(
            devices@,
            query.term@,
            site_names@,
            device_tag_names@,
        ),
{
    let listed = crate::domain::device_list::devices_for_default_list(
        devices,
        query,
        site_names,
        device_tag_names,
    );
    let ghost models = listed@.map_values(|d: &Device| d@);
    let ghost row_fn = |m: DeviceModel|
        row_of(m, device::site_of(m, site_names@), device::tags_of(m, device_tag_names@));
    let mut rows: Vec<DeviceRowView> = Vec::new();
    let mut i: usize = 0;
    while i < listed.len()
        invariant
            i <= listed@.len(),
            models == listed@.map_values(|d: &Device| d@),
            row_fn == (|m: DeviceModel|
                row_of(m, device::site_of(m, site_names@), device::tags_of(m, device_tag_names@))),
            rows@.map_values(|v: DeviceRowView| v@) == models.take(i as int).map_values(row_fn),
        decreases listed@.len() - i,
    {
        let d = listed[i];
        let site_name = device::lookup_site_name(d, site_names);
        let tag_names = crate::domain::device_csv::lookup_tag_strings(d, device_tag_names);
        let row = device_row_view(d, site_name, tag_names.as_slice());
        let ghost prev = rows@;
        rows.push(row);
        proof {
            assert(models[i as int] == d@);
            assert(rows@.map_values(|v: DeviceRowView| v@) =~= prev.map_values(
                |v: DeviceRowView| v@,
            ).push(row@));
            assert(models.take(i + 1).map_values(row_fn) =~= models.take(i as int).map_values(
                row_fn,
            ).push(row_fn(models[i as int])));
        }
        i += 1;
    }
    assert(models.take(listed@.len() as int) == models);
    rows
}

/// The page of a device: `/devices/` and its UUID.
pub fn device_path(device_uuid: u128) -> (r: String)
    ensures
        r@ == "/devices/"@ + crate::ids::uuid_text(device_uuid),
{
    let mut r = String::from_str("/devices/");
    let id = crate::ids::uuid_to_string(device_uuid);
    r.append(id.as_str());
    r
}

/// The draft the edit form starts from: the stored fields of the device.
pub fn device_edit_draft(device: &Device) -> (r: DeviceDraft)
    ensures
        r.rustdesk_id == device.rustdesk_id,
        r.alias == device.alias,
        r.hostname == device.hostname,
        r.os_family == device.os_family,
        r.os_version == device.os_version,
        r.architecture == device.architecture,
        r.rustdesk_version == device.rustdesk_version,
        r.site_uuid == device.site_uuid,
        r.owner == device.owner,
        r.notes == device.notes,
{
    DeviceDraft {
        rustdesk_id: device::clone_opt(&device.rustdesk_id),
        alias: device.alias.clone(),
        hostname: device::clone_opt(&device.hostname),
        os_family: device::clone_opt(&device.os_family),
        os_version: device::clone_opt(&device.os_version),
        architecture: device::clone_opt(&device.architecture),
        rustdesk_version: device::clone_opt(&device.rustdesk_version),
        site_uuid: device.site_uuid,
        owner: device::clone_opt(&device.owner),
        notes: device::clone_opt(&device.notes),
    }
}

/// Whether a tag with this UUID exists.
pub open spec fn tag_known(tags: Seq<Tag>, id: u128) -> bool {
    exists|i: int| 0 <= i < tags.len() && tags[i].tag_uuid == id
}

/// The tags a device form assigns: each submitted value that reads as the
/// UUID of an existing tag, in the order submitted, each once. A form that
/// submits none clears the device's tags.
pub open spec fn tag_assignment(submitted: Seq<Seq<char>>, tags: Seq<Tag>) -> Seq<u128>
    decreases submitted.len(),
{
    if submitted.len() == 0 {
        Seq::empty()
    } else {
        let before = tag_assignment(submitted.drop_last(), tags);
        match crate::ids::uuid_parsed(submitted.last()) {
            Some(id) => if tag_known(tags, id) && !before.contains(id) {
                before.push(id)
            } else {
                before
            },
            None => before,
        }
    }
}

fn find_tag(tags: &[Tag], id: u128) -> (r: bool)
    ensures
        r == tag_known(tags@, id),
{
    let mut i: usize = 0;
    while i < tags.len()
        invariant
            i <= tags@.len(),
            forall|j: int| 0 <= j < i ==> tags@[j].tag_uuid != id,
        decreases tags@.len() - i,
    {
        if tags[i].tag_uuid == id {
            return true;
        }
        i += 1;
    }
    false
}

/// The tag set to store for a device from the submitted tag values.
pub fn assigned_tag_uuids(submitted: &[String], tags: &[Tag]) -> (r: Vec<u128>)
    ensures
        r@ == tag_assignment(text::strings_view(submitted@), tags@),
        r@.no_duplicates(),
        forall|i: int| 0 <= i < r@.len() ==> tag_known(tags@, #[trigger] r@[i]),
{
    let ghost views = text::strings_view(submitted@);
    let mut r: Vec<u128> = Vec::new();
    let mut i: usize = 0;
    while i < submitted.len()
        invariant
            i <= submitted@.len(),
            views == text::strings_view(submitted@),
            r@ == tag_assignment(views.take(i as int), tags@),
            r@.no_duplicates(),
            forall|k: int| 0 <= k < r@.len() ==> tag_known(tags@, #[trigger] r@[k]),
        decreases submitted@.len() - i,
    {
        assert(views.take(i + 1).drop_last() =~= views.take(i as int));
        assert(views.take(i + 1).last() == submitted@[i as int]@);
        match crate::ids::parse_uuid(submitted[i].as_str()) {
            Some(id) => {
                if find_tag(tags, id) && !crate::http::render::contains_uuid(r.as_slice(), id) {
                    r.push(id);
                }
            },
            None => {},
        }
        i += 1;
    }
    assert(views.take(submitted@.len() as int) =~= views);
    r
}

} // verus!
