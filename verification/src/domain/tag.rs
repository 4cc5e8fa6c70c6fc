use std::collections::HashMap;

use vstd::prelude::*;

use crate::text;

verus! {

#[derive(Debug, Clone, PartialEq, Eq)]
pub struct Tag {
    pub tag_uuid: u128,
    pub name: String,
}

#[derive(Debug, Clone, Default, PartialEq, Eq)]
pub struct TagDraft {
    pub name: String,
}

#[derive(Debug, Clone, Copy, PartialEq, Eq)]
pub enum TagValidationError {
    EmptyName,
    NameTooLong,
}

impl TagValidationError {
    /// The message shown to the operator.
    pub fn message(&self) -> (r: &'static str)
        ensures
            r@ == match self {
                TagValidationError::EmptyName => "tag name must not be empty"@,
                TagValidationError::NameTooLong => "tag name is too long"@,
            },
    {
        match self {
            TagValidationError::EmptyName => "tag name must not be empty",
            TagValidationError::NameTooLong => "tag name is too long",
        }
    }
}

/// What the tags page says when the name is taken.
pub const TAG_NAME_TAKEN_MESSAGE: &'static str = "tag name already exists";

/// The most bytes a tag name may hold once trimmed.
pub const TAG_NAME_MAX_BYTES: usize = 128;

pub fn normalize_tag_name(name: &str) -> (r: String)
    ensures
        r@ == text::trim(name@),
{
    text::trim_str(name)
}

/// What `validate_tag_draft` answers for a name.
pub open spec fn tag_name_verdict(name: Seq<char>) -> Result<(), TagValidationError> {
    if text::trim(name).len() == 0 {
        Err(TagValidationError::EmptyName)
    } else if vstd::utf8::encode_utf8(text::trim(name)).len() > TAG_NAME_MAX_BYTES {
        Err(TagValidationError::NameTooLong)
    } else {
        Ok(())
    }
}

pub fn validate_tag_draft(draft: &TagDraft) -> (r: Result<(), TagValidationError>)
    ensures
        r == tag_name_verdict(draft.name@),
{
    let name = normalize_tag_name(draft.name.as_str());
    if name.as_str().is_empty() {
        return Err(TagValidationError::EmptyName);
    }
    if text::str_utf8_longer_than(name.as_str(), TAG_NAME_MAX_BYTES) {
        return Err(TagValidationError::NameTooLong);
    }
    Ok(())
}

/// The tags cell of the device list: the names joined by ", ", or "-".
pub open spec fn tag_names_display(names: Seq<Seq<char>>) -> Seq<char> {
    if names.len() == 0 {
        "-"@
    } else {
        text::join(names, ", "@)
    }
}

pub fn format_tag_names_display(tag_names: &[String]) -> (r: String)
    ensures
        r@ == tag_names_display(text::strings_view(tag_names@)),
{
    if tag_names.len() == 0 {
        String::from_str("-")
    } else {
        text::join_strings(tag_names, ", ")
    }
}

/// The names that the device-tag rows give a device, in the order of the rows.
pub open spec fn names_of_device(rows: Seq<(u128, String)>, device: u128) -> Seq<Seq<char>>
    decreases rows.len(),
{
    if rows.len() == 0 {
        Seq::empty()
    } else {
        let before = names_of_device(rows.drop_last(), device);
        if rows.last().0 == device {
            before.push(rows.last().1@)
        } else {
            before
        }
    }
}

/// Groups (device, tag name) rows by device: a device that some row names
/// maps to its tag names in the order of the rows; no other device is a key.
pub fn device_tag_names_map(rows: &[(u128, String)]) -> (r: HashMap<u128, Vec<String>>)
    ensures
        forall|d: u128| #[trigger] r@.contains_key(d) <==> names_of_device(rows@, d).len() > 0,
        forall|d: u128|
            r@.contains_key(d) ==> text::strings_view(#[trigger] r@[d]@) == names_of_device(rows@, d),
{
    broadcast use vstd::std_specs::hash::group_hash_axioms;

    let mut map: HashMap<u128, Vec<String>> = HashMap::new();
    let mut i: usize = 0;
    while i < rows.len()
        invariant
            i <= rows@.len(),
            forall|d: u128|
                #[trigger] map@.contains_key(d) <==> names_of_device(rows@.take(i as int), d).len() > 0,
            forall|d: u128|
                map@.contains_key(d) ==> text::strings_view(#[trigger] map@[d]@) == names_of_device(
                    rows@.take(i as int),
                    d,
                ),
        decreases rows@.len() - i,
    {
        let device = rows[i].0;
        let name = rows[i].1.clone();
        let ghost before = map@;
        let ghost prefix = rows@.take(i as int);
        let ghost next = rows@.take(i + 1);
        assert(next.drop_last() =~= prefix);
        assert(next.last() == rows@[i as int]);
        let mut names = match map.remove(&device) {
            Some(v) => v,
            None => Vec::new(),
        };
        assert(text::strings_view(names@) == names_of_device(prefix, device));
        let ghost old_names = names@;
        names.push(name);
        assert(text::strings_view(names@) =~= text::strings_view(old_names).push(name@));
        map.insert(device, names);
        assert forall|d: u128| #[trigger] map@.contains_key(d) <==> names_of_device(next, d).len() > 0 by {
            if d != device {
                assert(map@.contains_key(d) == before.contains_key(d));
            }
        }
        assert forall|d: u128| map@.contains_key(d) implies text::strings_view(#[trigger] map@[d]@)
            == names_of_device(next, d) by {
            if d != device {
                assert(map@[d] == before[d]);
            }
        }
        i += 1;
    }
    assert(rows@.take(rows@.len() as int) =~= rows@);
    map
}

} // verus!
