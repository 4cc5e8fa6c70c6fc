use std::collections::HashMap;

use vstd::prelude::*;

use crate::domain::device;
use crate::domain::device::Device;

verus! {

/// The search box of the device list.
#[derive(Debug, Clone, Default, PartialEq, Eq)]
pub struct DeviceSearchQuery {
    pub term: String,
}

/// The longest notes text shown in full in the device list.
pub const NOTES_DISPLAY_MAX_LEN: usize = 64;

fn as_device_query(query: &DeviceSearchQuery) -> (r: device::DeviceSearchQuery)
    ensures
        r.term@ == query.term@,
{
    device::DeviceSearchQuery { term: query.term.clone() }
}

pub fn format_notes_display(notes: Option<&str>) -> (r: String)
    ensures
        r@ == device::notes_display(device::opt_str(notes)),
{
    device::format_notes_display(notes)
}

/// The text the copy button of the device list puts on the clipboard.
pub fn rustdesk_id_copy_text(rustdesk_id: Option<&str>) -> (r: Option<String>)
    ensures
        r.deep_view() == device::norm_opt(device::opt_str(rustdesk_id)),
{
    let owned = match rustdesk_id {
        Some(id) => Some(String::from_str(id)),
        None => None,
    };
    assert(owned.deep_view() == device::opt_str(rustdesk_id));
    device::normalize_optional_trimmed(owned)
}

pub fn notes_list_title(notes: Option<&str>) -> (r: String)
    ensures
        r@ == device::notes_title(device::opt_str(notes)),
{
    device::notes_list_title(notes)
}

pub fn device_matches_search(device: &Device, query: &DeviceSearchQuery) -> (r: bool)
    ensures
        r == device::matches_search(device@, query.term@),
{
    device::device_matches_search(device, &as_device_query(query))
}

pub fn device_in_default_list(
    device: &Device,
    query: &DeviceSearchQuery,
    site_name: Option<&str>,
    tag_names: &[&str],
) -> (r: bool)
    ensures
        r == device::in_default_list(
            device@,
            query.term@,
            device::opt_str(site_name),
            device::strs_view(tag_names@),
        ),
{
    device::device_in_default_list(device, &as_device_query(query), site_name, tag_names)
}

pub fn devices_for_default_list<'a>(
    devices: &'a [Device],
    query: &DeviceSearchQuery,
    site_names: &HashMap<u128, String>,
    device_tag_names: &HashMap<u128, Vec<String>>,
) -> (r: Vec<&'a Device>)
    ensures
        r@.map_values(|d: &Device| d@) == device::default_list(
            devices@,
            query.term@,
            site_names@,
            device_tag_names@,
        ),
{
    device::devices_for_default_list(devices, &as_device_query(query), site_names, device_tag_names)
}

pub fn device_matches_search_with_metadata(
    device: &Device,
    query: &DeviceSearchQuery,
    site_name: Option<&str>,
    tag_names: &[&str],
) -> (r: bool)
    ensures
        r == device::matches_with_metadata(
            device@,
            query.term@,
            device::opt_str(site_name),
            device::strs_view(tag_names@),
        ),
{
    device::device_matches_search_with_metadata(device, &as_device_query(query), site_name, tag_names)
}

pub fn device_matches_search_with_site_name(
    device: &Device,
    query: &DeviceSearchQuery,
    site_name: Option<&str>,
) -> (r: bool)
    ensures
        r == device::matches_with_metadata(
            device@,
            query.term@,
            device::opt_str(site_name),
            Seq::empty(),
        ),
{
    device::device_matches_search_with_site_name(device, &as_device_query(query), site_name)
}

} // verus!
