use std::collections::HashMap;

use vstd::prelude::*;

use crate::text;
use crate::text::{chars_of, contains_chars, lower_chars, trim_str, trimmed_chars};

verus! {

/// A managed endpoint. Identifiers are the 128-bit values of their UUIDs.
#[derive(Debug, Clone, PartialEq, Eq)]
pub struct Device {
    pub device_uuid: u128,
    pub rustdesk_id: Option<String>,
    pub alias: String,
    pub hostname: Option<String>,
    pub os_family: Option<String>,
    pub os_version: Option<String>,
    pub architecture: Option<String>,
    pub rustdesk_version: Option<String>,
    pub site_uuid: Option<u128>,
    pub owner: Option<String>,
    pub notes: Option<String>,
    pub archived: bool,
    pub last_checkin_at: Option<String>,
}

/// The fields an operator or an endpoint submits for a device.
#[derive(Debug, Clone, Default, PartialEq, Eq)]
pub struct DeviceDraft {
    pub rustdesk_id: Option<String>,
    pub alias: String,
    pub hostname: Option<String>,
    pub os_family: Option<String>,
    pub os_version: Option<String>,
    pub architecture: Option<String>,
    pub rustdesk_version: Option<String>,
    pub site_uuid: Option<u128>,
    pub owner: Option<String>,
    pub notes: Option<String>,
}

#[derive(Debug, Clone, Default, PartialEq, Eq)]
pub struct DeviceSearchQuery {
    pub term: String,
}

#[derive(Debug, Clone, Copy, PartialEq, Eq)]
pub enum DeviceValidationError {
    EmptyAlias,
    AliasTooLong,
    RustdeskIdTooLong,
}

impl DeviceValidationError {
    /// The message shown to the operator.
    pub fn message(&self) -> (r: &'static str)
        ensures
            r@ == match self {
                DeviceValidationError::EmptyAlias => "alias must not be empty"@,
                DeviceValidationError::AliasTooLong => "alias is too long"@,
                DeviceValidationError::RustdeskIdTooLong => "rustdesk_id is too long"@,
            },
    {
        match self {
            DeviceValidationError::EmptyAlias => "alias must not be empty",
            DeviceValidationError::AliasTooLong => "alias is too long",
            DeviceValidationError::RustdeskIdTooLong => "rustdesk_id is too long",
        }
    }
}

/// A device as mathematical values.
pub struct DeviceModel {
    pub device_uuid: u128,
    pub rustdesk_id: Option<Seq<char>>,
    pub alias: Seq<char>,
    pub hostname: Option<Seq<char>>,
    pub os_family: Option<Seq<char>>,
    pub os_version: Option<Seq<char>>,
    pub architecture: Option<Seq<char>>,
    pub rustdesk_version: Option<Seq<char>>,
    pub site_uuid: Option<u128>,
    pub owner: Option<Seq<char>>,
    pub notes: Option<Seq<char>>,
    pub archived: bool,
    pub last_checkin_at: Option<Seq<char>>,
}

/// A device draft as mathematical values.
pub struct DeviceDraftModel {
    pub rustdesk_id: Option<Seq<char>>,
    pub alias: Seq<char>,
    pub hostname: Option<Seq<char>>,
    pub os_family: Option<Seq<char>>,
    pub os_version: Option<Seq<char>>,
    pub architecture: Option<Seq<char>>,
    pub rustdesk_version: Option<Seq<char>>,
    pub site_uuid: Option<u128>,
    pub owner: Option<Seq<char>>,
    pub notes: Option<Seq<char>>,
}

impl View for Device {
    type V = DeviceModel;

    open spec fn view(&self) -> DeviceModel {
        DeviceModel {
            device_uuid: self.device_uuid,
            rustdesk_id: self.rustdesk_id.deep_view(),
            alias: self.alias@,
            hostname: self.hostname.deep_view(),
            os_family: self.os_family.deep_view(),
            os_version: self.os_version.deep_view(),
            architecture: self.architecture.deep_view(),
            rustdesk_version: self.rustdesk_version.deep_view(),
            site_uuid: self.site_uuid,
            owner: self.owner.deep_view(),
            notes: self.notes.deep_view(),
            archived: self.archived,
            last_checkin_at: self.last_checkin_at.deep_view(),
        }
    }
}

impl View for DeviceDraft {
    type V = DeviceDraftModel;

    open spec fn view(&self) -> DeviceDraftModel {
        DeviceDraftModel {
            rustdesk_id: self.rustdesk_id.deep_view(),
            alias: self.alias@,
            hostname: self.hostname.deep_view(),
            os_family: self.os_family.deep_view(),
            os_version: self.os_version.deep_view(),
            architecture: self.architecture.deep_view(),
            rustdesk_version: self.rustdesk_version.deep_view(),
            site_uuid: self.site_uuid,
            owner: self.owner.deep_view(),
            notes: self.notes.deep_view(),
        }
    }
}

/// An optional text, trimmed, with a blank value dropped.
pub open spec fn norm_opt(o: Option<Seq<char>>) -> Option<Seq<char>> {
    match o {
        Some(s) => if text::trim(s).len() == 0 { None } else { Some(text::trim(s)) },
        None => None,
    }
}

/// An optional borrowed text as a sequence.
pub open spec fn opt_str(o: Option<&str>) -> Option<Seq<char>> {
    match o {
        Some(s) => Some(s@),
        None => None,
    }
}

/// The text, or the empty text when there is none.
pub open spec fn or_empty(o: Option<Seq<char>>) -> Seq<char> {
    match o {
        Some(s) => s,
        None => Seq::empty(),
    }
}

/// The draft with the alias trimmed and every optional text normalized.
pub open spec fn normalized_draft(d: DeviceDraftModel) -> DeviceDraftModel {
    DeviceDraftModel {
        rustdesk_id: norm_opt(d.rustdesk_id),
        alias: text::trim(d.alias),
        hostname: norm_opt(d.hostname),
        os_family: norm_opt(d.os_family),
        os_version: norm_opt(d.os_version),
        architecture: norm_opt(d.architecture),
        rustdesk_version: norm_opt(d.rustdesk_version),
        site_uuid: d.site_uuid,
        owner: norm_opt(d.owner),
        notes: norm_opt(d.notes),
    }
}

pub fn normalize_optional_trimmed(value: Option<String>) -> (r: Option<String>)
    ensures
        r.deep_view() == norm_opt(value.deep_view()),
{
    match value {
        Some(v) => {
            let t = trim_str(v.as_str());
            if t.as_str().is_empty() {
                None
            } else {
                Some(t)
            }
        },
        None => None,
    }
}

pub fn normalize_device_draft(draft: DeviceDraft) -> (r: DeviceDraft)
    ensures
        r@ == normalized_draft(draft@),
{
    let DeviceDraft {
        rustdesk_id,
        alias,
        hostname,
        os_family,
        os_version,
        architecture,
        rustdesk_version,
        site_uuid,
        owner,
        notes,
    } = draft;
    DeviceDraft {
        alias: trim_str(alias.as_str()),
        rustdesk_id: normalize_optional_trimmed(rustdesk_id),
        hostname: normalize_optional_trimmed(hostname),
        owner: normalize_optional_trimmed(owner),
        os_family: normalize_optional_trimmed(os_family),
        os_version: normalize_optional_trimmed(os_version),
        architecture: normalize_optional_trimmed(architecture),
        rustdesk_version: normalize_optional_trimmed(rustdesk_version),
        notes: normalize_optional_trimmed(notes),
        site_uuid,
    }
}

proof fn lemma_norm_opt_idempotent(o: Option<Seq<char>>)
    ensures
        norm_opt(norm_opt(o)) == norm_opt(o),
{
    if let Some(s) = o {
        crate::text::lemma_trim_idempotent(s);
    }
}

/// Normalizing a draft twice gives what normalizing it once gives.
pub proof fn lemma_normalize_device_draft_idempotent(d: DeviceDraftModel)
    ensures
        normalized_draft(normalized_draft(d)) == normalized_draft(d),
{
    crate::text::lemma_trim_idempotent(d.alias);
    lemma_norm_opt_idempotent(d.rustdesk_id);
    lemma_norm_opt_idempotent(d.hostname);
    lemma_norm_opt_idempotent(d.os_family);
    lemma_norm_opt_idempotent(d.os_version);
    lemma_norm_opt_idempotent(d.architecture);
    lemma_norm_opt_idempotent(d.rustdesk_version);
    lemma_norm_opt_idempotent(d.owner);
    lemma_norm_opt_idempotent(d.notes);
}

/// The most bytes a device alias may hold once trimmed.
pub const ALIAS_MAX_BYTES: usize = 128;

/// The most bytes a RustDesk ID may hold once trimmed.
pub const RUSTDESK_ID_MAX_BYTES: usize = 64;

/// What `validate_device_draft` answers for a draft.
pub open spec fn device_draft_verdict(d: DeviceDraftModel) -> Result<(), DeviceValidationError> {
    if text::trim(d.alias).len() == 0 {
        Err(DeviceValidationError::EmptyAlias)
    } else if vstd::utf8::encode_utf8(text::trim(d.alias)).len() > ALIAS_MAX_BYTES {
        Err(DeviceValidationError::AliasTooLong)
    } else if d.rustdesk_id is Some && vstd::utf8::encode_utf8(text::trim(d.rustdesk_id->0)).len()
        > RUSTDESK_ID_MAX_BYTES {
        Err(DeviceValidationError::RustdeskIdTooLong)
    } else {
        Ok(())
    }
}

pub fn validate_device_draft(draft: &DeviceDraft) -> (r: Result<(), DeviceValidationError>)
    ensures
        r == device_draft_verdict(draft@),
{
    let alias = trim_str(draft.alias.as_str());
    if alias.as_str().is_empty() {
        return Err(DeviceValidationError::EmptyAlias);
    }
    if crate::text::str_utf8_longer_than(alias.as_str(), ALIAS_MAX_BYTES) {
        return Err(DeviceValidationError::AliasTooLong);
    }
    if let Some(rustdesk_id) = &draft.rustdesk_id {
        assert(draft@.rustdesk_id == Some(rustdesk_id@));
        let id = trim_str(rustdesk_id.as_str());
        if crate::text::str_utf8_longer_than(id.as_str(), RUSTDESK_ID_MAX_BYTES) {
            return Err(DeviceValidationError::RustdeskIdTooLong);
        }
    } else {
        assert(draft@.rustdesk_id is None);
    }
    Ok(())
}

/// The longest notes text shown in full in the device list.
pub const NOTES_DISPLAY_MAX_LEN: usize = 64;

/// The notes cell of the device list: trimmed notes, cut to 64 characters
/// with "..." appended, or "-" when there are none.
pub open spec fn notes_display(notes: Option<Seq<char>>) -> Seq<char> {
    match notes {
        Some(n) => if text::trim(n).len() == 0 {
            "-"@
        } else if text::trim(n).len() <= NOTES_DISPLAY_MAX_LEN {
            text::trim(n)
        } else {
            text::trim(n).take(NOTES_DISPLAY_MAX_LEN as int) + "..."@
        },
        None => "-"@,
    }
}

/// The notes tooltip: the trimmed notes, or the empty text.
pub open spec fn notes_title(notes: Option<Seq<char>>) -> Seq<char> {
    match notes {
        Some(n) => text::trim(n),
        None => Seq::empty(),
    }
}

pub fn format_notes_display(notes: Option<&str>) -> (r: String)
    ensures
        r@ == notes_display(opt_str(notes)),
{
    match notes {
        Some(n) => {
            let t = trimmed_chars(n);
            if t.len() == 0 {
                String::from_str("-")
            } else if t.len() <= NOTES_DISPLAY_MAX_LEN {
                crate::text::string_from_range(&t, 0, t.len())
            } else {
                let mut r = crate::text::string_from_range(&t, 0, NOTES_DISPLAY_MAX_LEN);
                r.append("...");
                r
            }
        },
        None => String::from_str("-"),
    }
}

/// The notes cell never runs past the cut plus the ellipsis.
pub proof fn lemma_notes_display_bounded(notes: Option<Seq<char>>)
    ensures
        notes_display(notes).len() <= NOTES_DISPLAY_MAX_LEN + 3,
{
    reveal_strlit("...");
    reveal_strlit("-");
}

pub fn notes_list_title(notes: Option<&str>) -> (r: String)
    ensures
        r@ == notes_title(opt_str(notes)),
{
    match notes {
        Some(n) => trim_str(n),
        None => String::new(),
    }
}

/// The search key of a query term: trimmed and lower-cased.
pub open spec fn search_key(term: Seq<char>) -> Seq<char> {
    text::lower(text::trim(term))
}

/// A text matches a key when its lower-cased form contains the key.
pub open spec fn text_matches(field: Seq<char>, key: Seq<char>) -> bool {
    text::contains_sub(text::lower(field), key)
}

/// Some searchable field of the device matches the key.
pub open spec fn device_fields_match(d: DeviceModel, key: Seq<char>) -> bool {
    ||| text_matches(d.alias, key)
    ||| text_matches(or_empty(d.hostname), key)
    ||| text_matches(or_empty(d.rustdesk_id), key)
    ||| text_matches(or_empty(d.owner), key)
    ||| text_matches(or_empty(d.notes), key)
    ||| text_matches(or_empty(d.os_family), key)
}

/// A device matches a search term when the term is blank or one of its fields matches.
pub open spec fn matches_search(d: DeviceModel, term: Seq<char>) -> bool {
    search_key(term).len() == 0 || device_fields_match(d, search_key(term))
}

/// Some tag name matches the key.
pub open spec fn some_tag_matches(tags: Seq<Seq<char>>, key: Seq<char>) -> bool {
    exists|i: int| 0 <= i < tags.len() && text_matches(#[trigger] tags[i], key)
}

/// A device matches a search term by its own fields, its site name or one of its tag names.
pub open spec fn matches_with_metadata(
    d: DeviceModel,
    term: Seq<char>,
    site: Option<Seq<char>>,
    tags: Seq<Seq<char>>,
) -> bool {
    ||| matches_search(d, term)
    ||| (site is Some && text_matches(site->0, search_key(term)))
    ||| some_tag_matches(tags, search_key(term))
}

/// A device belongs in the default list when it is not archived and matches.
pub open spec fn in_default_list(
    d: DeviceModel,
    term: Seq<char>,
    site: Option<Seq<char>>,
    tags: Seq<Seq<char>>,
) -> bool {
    !d.archived && matches_with_metadata(d, term, site, tags)
}

/// Borrowed texts as sequences.
pub open spec fn strs_view(s: Seq<&str>) -> Seq<Seq<char>> {
    s.map_values(|t: &str| t@)
}

/// Whether `field` matches the lower-cased key.
pub(crate) fn text_matches_key(field: &str, key: &Vec<char>) -> (r: bool)
    ensures
        r == text_matches(field@, key@),
{
    let chars = chars_of(field);
    let lowered = lower_chars(&chars);
    contains_chars(&lowered, key)
}

fn opt_matches_key(field: &Option<String>, key: &Vec<char>) -> (r: bool)
    ensures
        r == text_matches(or_empty(field.deep_view()), key@),
{
    match field {
        Some(f) => text_matches_key(f.as_str(), key),
        None => {
            let empty: Vec<char> = Vec::new();
            assert(empty@ == text::lower(Seq::<char>::empty()));
            contains_chars(&empty, key)
        },
    }
}

/// The search key of `term`.
pub(crate) fn search_key_of(term: &str) -> (r: Vec<char>)
    ensures
        r@ == search_key(term@),
{
    let t = trimmed_chars(term);
    lower_chars(&t)
}

fn device_fields_match_key(device: &Device, key: &Vec<char>) -> (r: bool)
    ensures
        r == device_fields_match(device@, key@),
{
    text_matches_key(device.alias.as_str(), key) || opt_matches_key(&device.hostname, key)
        || opt_matches_key(&device.rustdesk_id, key) || opt_matches_key(&device.owner, key)
        || opt_matches_key(&device.notes, key) || opt_matches_key(&device.os_family, key)
}

pub fn device_matches_search(device: &Device, query: &DeviceSearchQuery) -> (r: bool)
    ensures
        r == matches_search(device@, query.term@),
{
    let key = search_key_of(query.term.as_str());
    if key.len() == 0 {
        return true;
    }
    device_fields_match_key(device, &key)
}

fn some_tag_matches_key(tag_names: &[&str], key: &Vec<char>) -> (r: bool)
    ensures
        r == some_tag_matches(strs_view(tag_names@), key@),
{
    let mut i: usize = 0;
    while i < tag_names.len()
        invariant
            i <= tag_names@.len(),
            forall|j: int| 0 <= j < i ==> !text_matches(#[trigger] strs_view(tag_names@)[j], key@),
        decreases tag_names@.len() - i,
    {
        if text_matches_key(tag_names[i], key) {
            assert(text_matches(strs_view(tag_names@)[i as int], key@));
            return true;
        }
        i += 1;
    }
    false
}

pub fn device_matches_search_with_metadata(
    device: &Device,
    query: &DeviceSearchQuery,
    site_name: Option<&str>,
    tag_names: &[&str],
) -> (r: bool)
    ensures
        r == matches_with_metadata(device@, query.term@, opt_str(site_name), strs_view(tag_names@)),
{
    if device_matches_search(device, query) {
        return true;
    }
    let key = search_key_of(query.term.as_str());
    if key.len() == 0 {
        return true;
    }
    let site_hit = match site_name {
        Some(name) => text_matches_key(name, &key),
        None => false,
    };
    if site_hit {
        return true;
    }
    some_tag_matches_key(tag_names, &key)
}

pub fn device_matches_search_with_site_name(
    device: &Device,
    query: &DeviceSearchQuery,
    site_name: Option<&str>,
) -> (r: bool)
    ensures
        r == matches_with_metadata(device@, query.term@, opt_str(site_name), Seq::empty()),
{
    let no_tags: [&str; 0] = [];
    let r = device_matches_search_with_metadata(device, query, site_name, &no_tags);
    assert(strs_view(no_tags@) == Seq::<Seq<char>>::empty());
    r
}

pub fn device_in_default_list(
    device: &Device,
    query: &DeviceSearchQuery,
    site_name: Option<&str>,
    tag_names: &[&str],
) -> (r: bool)
    ensures
        r == in_default_list(device@, query.term@, opt_str(site_name), strs_view(tag_names@)),
{
    !device.archived && device_matches_search_with_metadata(device, query, site_name, tag_names)
}

/// The name of the device's site, when the site is known.
pub open spec fn site_of(d: DeviceModel, sites: Map<u128, String>) -> Option<Seq<char>> {
    match d.site_uuid {
        Some(u) => if sites.contains_key(u) { Some(sites[u]@) } else { None },
        None => None,
    }
}

/// The names of the device's tags, or none.
pub open spec fn tags_of(d: DeviceModel, tags: Map<u128, Vec<String>>) -> Seq<Seq<char>> {
    if tags.contains_key(d.device_uuid) {
        text::strings_view(tags[d.device_uuid]@)
    } else {
        Seq::empty()
    }
}

/// Whether the device belongs in the default list, its site and tag names looked up.
pub open spec fn listed(
    d: DeviceModel,
    term: Seq<char>,
    sites: Map<u128, String>,
    tags: Map<u128, Vec<String>>,
) -> bool {
    in_default_list(d, term, site_of(d, sites), tags_of(d, tags))
}

/// Devices as models.
pub open spec fn devices_view(v: Seq<Device>) -> Seq<DeviceModel> {
    v.map_values(|d: Device| d@)
}

/// The devices of the default list, in their order.
pub open spec fn default_list(
    devices: Seq<Device>,
    term: Seq<char>,
    sites: Map<u128, String>,
    tags: Map<u128, Vec<String>>,
) -> Seq<DeviceModel> {
    devices_view(devices).filter(|m: DeviceModel| listed(m, term, sites, tags))
}

/// The site name of a device, looked up.
pub(crate) fn lookup_site_name<'a>(device: &Device, site_names: &'a HashMap<u128, String>) -> (r:
    Option<&'a str>)
    ensures
        opt_str(r) == site_of(device@, site_names@),
{
    broadcast use vstd::std_specs::hash::group_hash_axioms;

    match device.site_uuid {
        Some(u) => match site_names.get(&u) {
            Some(name) => Some(name.as_str()),
            None => None,
        },
        None => None,
    }
}

/// The tag names of a device, looked up.
pub(crate) fn lookup_tag_names<'a>(device: &Device, device_tag_names: &'a HashMap<u128, Vec<String>>)
    -> (r: Vec<&'a str>)
    ensures
        strs_view(r@) == tags_of(device@, device_tag_names@),
{
    broadcast use vstd::std_specs::hash::group_hash_axioms;

    let mut r: Vec<&str> = Vec::new();
    match device_tag_names.get(&device.device_uuid) {
        Some(names) => {
            let mut i: usize = 0;
            while i < names.len()
                invariant
                    i <= names@.len(),
                    r@.len() == i,
                    strs_view(r@) == text::strings_view(names@.take(i as int)),
                decreases names@.len() - i,
            {
                let ghost old_r = r@;
                let name = names[i].as_str();
                r.push(name);
                assert(names@.take(i + 1) == names@.take(i as int).push(names@[i as int]));
                assert(r@ == old_r.push(name));
                assert(name@ == names@[i as int]@);
                assert(strs_view(r@) =~= strs_view(old_r).push(name@));
                assert(text::strings_view(names@.take(i + 1)) =~= text::strings_view(names@.take(i as int)).push(
                    names@[i as int]@,
                ));
                assert(strs_view(r@) =~= text::strings_view(names@.take(i + 1)));
                i += 1;
            }
            assert(names@.take(names@.len() as int) == names@);
        },
        None => {
            assert(strs_view(r@) == Seq::<Seq<char>>::empty());
        },
    }
    r
}

pub fn devices_for_default_list<'a>(
    devices: &'a [Device],
    query: &DeviceSearchQuery,
    site_names: &HashMap<u128, String>,
    device_tag_names: &HashMap<u128, Vec<String>>,
) -> (r: Vec<&'a Device>)
    ensures
        r@.map_values(|d: &Device| d@) == default_list(
            devices@,
            query.term@,
            site_names@,
            device_tag_names@,
        ),
{
    let ghost pred = |m: DeviceModel| listed(m, query.term@, site_names@, device_tag_names@);
    let mut r: Vec<&Device> = Vec::new();
    let mut i: usize = 0;
    while i < devices.len()
        invariant
            i <= devices@.len(),
            pred == (|m: DeviceModel| listed(m, query.term@, site_names@, device_tag_names@)),
            r@.map_values(|d: &Device| d@) == devices_view(devices@).take(i as int).filter(pred),
        decreases devices@.len() - i,
    {
        let device = &devices[i];
        let site_name = lookup_site_name(device, site_names);
        let tag_names = lookup_tag_names(device, device_tag_names);
        let keep = device_in_default_list(device, query, site_name, tag_names.as_slice());
        proof {
            reveal_with_fuel(Seq::<_>::filter, 1);
            let models = devices_view(devices@);
            assert(models.take(i + 1).drop_last() == models.take(i as int));
            assert(models.take(i + 1).last() == device@);
            assert(keep == pred(device@));
        }
        if keep {
            r.push(device);
        }
        assert(r@.map_values(|d: &Device| d@) == devices_view(devices@).take(i + 1).filter(pred));
        i += 1;
    }
    assert(devices_view(devices@).take(devices@.len() as int) == devices_view(devices@));
    r
}

/// A copy of an optional text.
pub(crate) fn clone_opt(o: &Option<String>) -> (r: Option<String>)
    ensures
        r == *o,
{
    match o {
        Some(s) => Some(s.clone()),
        None => None,
    }
}

/// The device with its archived flag set to `archived`.
pub open spec fn with_archived(d: DeviceModel, archived: bool) -> DeviceModel {
    DeviceModel { archived, ..d }
}

fn copy_with_archived(device: &Device, archived: bool) -> (r: Device)
    ensures
        r@ == with_archived(device@, archived),
{
    Device {
        device_uuid: device.device_uuid,
        rustdesk_id: clone_opt(&device.rustdesk_id),
        alias: device.alias.clone(),
        hostname: clone_opt(&device.hostname),
        os_family: clone_opt(&device.os_family),
        os_version: clone_opt(&device.os_version),
        architecture: clone_opt(&device.architecture),
        rustdesk_version: clone_opt(&device.rustdesk_version),
        site_uuid: device.site_uuid,
        owner: clone_opt(&device.owner),
        notes: clone_opt(&device.notes),
        archived,
        last_checkin_at: clone_opt(&device.last_checkin_at),
    }
}

pub fn archive_device(device: &Device) -> (r: Device)
    ensures
        r@ == with_archived(device@, true),
{
    copy_with_archived(device, true)
}

pub fn unarchive_device(device: &Device) -> (r: Device)
    ensures
        r@ == with_archived(device@, false),
{
    copy_with_archived(device, false)
}

/// Archiving and then unarchiving a device gives back the device with the
/// flag cleared; nothing else about it changes.
pub proof fn lemma_unarchive_undoes_archive(d: DeviceModel)
    ensures
        with_archived(with_archived(d, true), false) == with_archived(d, false),
        with_archived(d, false) == d <==> !d.archived,
{
}

/// The form's value, or the stored one when the form left it out.
pub open spec fn or_else(form: Option<Seq<char>>, stored: Option<Seq<char>>) -> Option<Seq<char>> {
    if form is Some { form } else { stored }
}

/// An edit keeps the enrollment metadata of the stored device: operator fields
/// come from the form (falling back to stored values), the OS and client
/// fields from the stored device, and the site exactly as the form says.
pub open spec fn merged_update(form: DeviceDraftModel, existing: DeviceModel) -> DeviceDraftModel {
    DeviceDraftModel {
        alias: form.alias,
        rustdesk_id: or_else(form.rustdesk_id, existing.rustdesk_id),
        hostname: or_else(form.hostname, existing.hostname),
        owner: or_else(form.owner, existing.owner),
        notes: or_else(form.notes, existing.notes),
        os_family: existing.os_family,
        os_version: existing.os_version,
        architecture: existing.architecture,
        rustdesk_version: existing.rustdesk_version,
        site_uuid: form.site_uuid,
    }
}

fn or_else_clone(form: Option<String>, stored: &Option<String>) -> (r: Option<String>)
    ensures
        r.deep_view() == or_else(form.deep_view(), stored.deep_view()),
{
    match form {
        Some(v) => Some(v),
        None => clone_opt(stored),
    }
}

/// Preserve enrollment/check-in metadata when the edit form only exposes operator fields.
pub fn merge_device_update(form: DeviceDraft, existing: &Device) -> (r: DeviceDraft)
    ensures
        r@ == merged_update(form@, existing@),
{
    let DeviceDraft { rustdesk_id, alias, hostname, owner, notes, site_uuid, .. } = form;
    DeviceDraft {
        alias,
        rustdesk_id: or_else_clone(rustdesk_id, &existing.rustdesk_id),
        hostname: or_else_clone(hostname, &existing.hostname),
        owner: or_else_clone(owner, &existing.owner),
        notes: or_else_clone(notes, &existing.notes),
        os_family: clone_opt(&existing.os_family),
        os_version: clone_opt(&existing.os_version),
        architecture: clone_opt(&existing.architecture),
        rustdesk_version: clone_opt(&existing.rustdesk_version),
        site_uuid,
    }
}

/// No archived device is ever in the default list, whatever the search term,
/// and every device the list holds matches the search.
pub proof fn lemma_default_list_excludes_archived(
    devices: Seq<Device>,
    term: Seq<char>,
    sites: Map<u128, String>,
    tags: Map<u128, Vec<String>>,
)
    ensures
        forall|k: int|
            0 <= k < default_list(devices, term, sites, tags).len() ==> {
                let m = #[trigger] default_list(devices, term, sites, tags)[k];
                &&& !m.archived
                &&& matches_with_metadata(m, term, site_of(m, sites), tags_of(m, tags))
            },
{
    broadcast use vstd::seq_lib::group_filter_ensures;

    let pred = |m: DeviceModel| listed(m, term, sites, tags);
    assert forall|k: int| 0 <= k < default_list(devices, term, sites, tags).len() implies pred(
        #[trigger] default_list(devices, term, sites, tags)[k],
    ) by {
        assert(default_list(devices, term, sites, tags) == devices_view(devices).filter(pred));
    }
}

/// A device that is not archived and matches the search is in the default list.
pub proof fn lemma_default_list_keeps_matching(
    devices: Seq<Device>,
    term: Seq<char>,
    sites: Map<u128, String>,
    tags: Map<u128, Vec<String>>,
    i: int,
)
    requires
        0 <= i < devices.len(),
        listed(devices[i]@, term, sites, tags),
    ensures
        default_list(devices, term, sites, tags).contains(devices[i]@),
{
    broadcast use vstd::seq_lib::group_filter_ensures;

    let pred = |m: DeviceModel| listed(m, term, sites, tags);
    assert(devices_view(devices)[i] == devices[i]@);
    assert(pred(devices_view(devices)[i]));
}

/// A device matches a search exactly when the trimmed, lower-cased term is
/// blank or occurs in the lower-cased alias, host name, RustDesk ID, owner,
/// notes or OS family of the device.
pub proof fn lemma_search_matches_fields(d: DeviceModel, term: Seq<char>)
    ensures
        matches_search(d, term) <==> ({
            let key = text::lower(text::trim(term));
            let hit = |s: Seq<char>| text::contains_sub(text::lower(s), key);
            ||| key.len() == 0
            ||| hit(d.alias)
            ||| (d.hostname is Some && hit(d.hostname->0))
            ||| (d.rustdesk_id is Some && hit(d.rustdesk_id->0))
            ||| (d.owner is Some && hit(d.owner->0))
            ||| (d.notes is Some && hit(d.notes->0))
            ||| (d.os_family is Some && hit(d.os_family->0))
        }),
{
    let key = text::lower(text::trim(term));
    assert(text::lower(Seq::empty()).len() == 0);
    if key.len() > 0 {
        assert(!text::contains_sub(text::lower(Seq::empty()), key));
    }
}

/// The default list holds, in their order, exactly the devices that are not
/// archived and are found by the search: the trimmed, lower-cased term is
/// blank or occurs in the lower-cased alias, host name, RustDesk ID, owner,
/// notes, OS family, site name or one of the tag names of the device.
pub proof fn lemma_default_list_is_search_filter(
    devices: Seq<Device>,
    term: Seq<char>,
    sites: Map<u128, String>,
    tags: Map<u128, Vec<String>>,
)
    ensures
        (default_list(devices, term, sites, tags) == devices_view(devices).filter(
            |m: DeviceModel|
                {
                    let key = text::lower(text::trim(term));
                    let hit = |s: Seq<char>| text::contains_sub(text::lower(s), key);
                    &&& !m.archived
                    &&& {
                        ||| key.len() == 0
                        ||| hit(m.alias)
                        ||| (m.hostname is Some && hit(m.hostname->0))
                        ||| (m.rustdesk_id is Some && hit(m.rustdesk_id->0))
                        ||| (m.owner is Some && hit(m.owner->0))
                        ||| (m.notes is Some && hit(m.notes->0))
                        ||| (m.os_family is Some && hit(m.os_family->0))
                        ||| (site_of(m, sites) is Some && hit(site_of(m, sites)->0))
                        ||| exists|j: int|
                            0 <= j < tags_of(m, tags).len() && hit(#[trigger] tags_of(m, tags)[j])
                    }
                },
        )),
{
    let found = |m: DeviceModel|
        {
            let key = text::lower(text::trim(term));
            let hit = |s: Seq<char>| text::contains_sub(text::lower(s), key);
            &&& !m.archived
            &&& {
                ||| key.len() == 0
                ||| hit(m.alias)
                ||| (m.hostname is Some && hit(m.hostname->0))
                ||| (m.rustdesk_id is Some && hit(m.rustdesk_id->0))
                ||| (m.owner is Some && hit(m.owner->0))
                ||| (m.notes is Some && hit(m.notes->0))
                ||| (m.os_family is Some && hit(m.os_family->0))
                ||| (site_of(m, sites) is Some && hit(site_of(m, sites)->0))
                ||| exists|j: int|
                    0 <= j < tags_of(m, tags).len() && hit(#[trigger] tags_of(m, tags)[j])
            }
        };
    let pred = |m: DeviceModel| listed(m, term, sites, tags);
    assert forall|m: DeviceModel| #[trigger] pred(m) == found(m) by {
        lemma_search_matches_fields(m, term);
    }
    assert(pred =~= found);
    assert(default_list(devices, term, sites, tags) == devices_view(devices).filter(pred));
}

/// An edit takes each operator field that the form submits and falls back to
/// the stored value only for one that the form leaves out; the alias and the
/// site come from the form, the OS and client fields from the stored device.
pub proof fn lemma_merge_prefers_form(form: DeviceDraftModel, existing: DeviceModel)
    ensures
        ({
            let m = merged_update(form, existing);
            &&& m.alias == form.alias
            &&& m.site_uuid == form.site_uuid
            &&& (form.rustdesk_id is Some ==> m.rustdesk_id == form.rustdesk_id)
            &&& (form.rustdesk_id is None ==> m.rustdesk_id == existing.rustdesk_id)
            &&& (form.hostname is Some ==> m.hostname == form.hostname)
            &&& (form.hostname is None ==> m.hostname == existing.hostname)
            &&& (form.owner is Some ==> m.owner == form.owner)
            &&& (form.owner is None ==> m.owner == existing.owner)
            &&& (form.notes is Some ==> m.notes == form.notes)
            &&& (form.notes is None ==> m.notes == existing.notes)
            &&& m.os_family == existing.os_family
            &&& m.os_version == existing.os_version
            &&& m.architecture == existing.architecture
            &&& m.rustdesk_version == existing.rustdesk_version
        }),
{
}

/// Normalizing a draft trims the alias and every optional text, drops an
/// optional text that is blank once trimmed, and keeps the site.
pub proof fn lemma_normalized_draft_trims_fields(d: DeviceDraftModel)
    ensures
        ({
            let n = normalized_draft(d);
            let norm = |o: Option<Seq<char>>|
                match o {
                    Some(s) => if text::trim(s).len() == 0 {
                        None
                    } else {
                        Some(text::trim(s))
                    },
                    None => None,
                };
            &&& n.alias == text::trim(d.alias)
            &&& n.rustdesk_id == norm(d.rustdesk_id)
            &&& n.hostname == norm(d.hostname)
            &&& n.os_family == norm(d.os_family)
            &&& n.os_version == norm(d.os_version)
            &&& n.architecture == norm(d.architecture)
            &&& n.rustdesk_version == norm(d.rustdesk_version)
            &&& n.owner == norm(d.owner)
            &&& n.notes == norm(d.notes)
            &&& n.site_uuid == d.site_uuid
        }),
{
}

/// A draft is accepted exactly when its trimmed alias is not blank and takes
/// at most 128 bytes, and its trimmed RustDesk ID, if it has one, takes at
/// most 64 bytes; a blank alias is refused before a long one, and the alias
/// is checked before the RustDesk ID.
pub proof fn lemma_device_draft_acceptance(d: DeviceDraftModel)
    ensures
        (device_draft_verdict(d) is Ok) <==> (text::trim(d.alias).len() > 0
            && vstd::utf8::encode_utf8(text::trim(d.alias)).len() <= 128 && (d.rustdesk_id is Some
            ==> vstd::utf8::encode_utf8(text::trim(d.rustdesk_id->0)).len() <= 64)),
        text::trim(d.alias).len() == 0 ==> device_draft_verdict(d) == Err::<(), DeviceValidationError>(
            DeviceValidationError::EmptyAlias,
        ),
        (text::trim(d.alias).len() > 0 && vstd::utf8::encode_utf8(text::trim(d.alias)).len() > 128)
            ==> device_draft_verdict(d) == Err::<(), DeviceValidationError>(
            DeviceValidationError::AliasTooLong,
        ),
        (text::trim(d.alias).len() > 0 && vstd::utf8::encode_utf8(text::trim(d.alias)).len() <= 128
            && d.rustdesk_id is Some && vstd::utf8::encode_utf8(text::trim(d.rustdesk_id->0)).len()
            > 64) ==> device_draft_verdict(d) == Err::<(), DeviceValidationError>(
            DeviceValidationError::RustdeskIdTooLong,
        ),
{
}

} // verus!
