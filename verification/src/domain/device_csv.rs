use std::collections::HashMap;

use vstd::prelude::*;

use crate::domain::device;
use crate::domain::device::{Device, DeviceModel};
use crate::domain::device_list::DeviceSearchQuery;
use crate::text;
use crate::text::push_char;

verus! {

/// The header line of the device export.
pub const DEVICE_CSV_HEADER: &'static str = "device_uuid,alias,rustdesk_id,hostname,site,tags,notes,owner,os_family,os_version,architecture,rustdesk_version,last_checkin_at";

/// One line of the device export, field by field.
#[derive(Debug, Clone, PartialEq, Eq)]
pub struct DeviceCsvRow {
    pub device_uuid: String,
    pub alias: String,
    pub rustdesk_id: String,
    pub hostname: String,
    pub site: String,
    pub tags: String,
    pub notes: String,
    pub owner: String,
    pub os_family: String,
    pub os_version: String,
    pub architecture: String,
    pub rustdesk_version: String,
    pub last_checkin_at: String,
}

impl View for DeviceCsvRow {
    type V = Seq<Seq<char>>;

    /// The thirteen fields in the order of the header.
    open spec fn view(&self) -> Seq<Seq<char>> {
        seq![
            self.device_uuid@,
            self.alias@,
            self.rustdesk_id@,
            self.hostname@,
            self.site@,
            self.tags@,
            self.notes@,
            self.owner@,
            self.os_family@,
            self.os_version@,
            self.architecture@,
            self.rustdesk_version@,
            self.last_checkin_at@,
        ]
    }
}

/// A character that forces a CSV field into quotes.
pub open spec fn is_csv_special(c: char) -> bool {
    c == '"' || c == ',' || c == '\n' || c == '\r'
}

pub open spec fn needs_quoting(s: Seq<char>) -> bool {
    exists|i: int| 0 <= i < s.len() && is_csv_special(#[trigger] s[i])
}

/// The text with every double quote doubled.
pub open spec fn double_quotes(s: Seq<char>) -> Seq<char>
    decreases s.len(),
{
    if s.len() == 0 {
        Seq::empty()
    } else {
        double_quotes(s.drop_last()) + if s.last() == '"' {
            seq!['"', '"']
        } else {
            seq![s.last()]
        }
    }
}

/// A CSV field: the text itself, or, when it holds a quote, a comma or a line
/// break, the text in double quotes with its quotes doubled.
pub open spec fn csv_escaped(s: Seq<char>) -> Seq<char> {
    if needs_quoting(s) {
        seq!['"'] + double_quotes(s) + seq!['"']
    } else {
        s
    }
}

fn has_csv_special(v: &Vec<char>) -> (r: bool)
    ensures
        r == needs_quoting(v@),
{
    let mut i: usize = 0;
    while i < v.len()
        invariant
            i <= v.len(),
            forall|j: int| 0 <= j < i ==> !is_csv_special(#[trigger] v@[j]),
        decreases v.len() - i,
    {
        let c = v[i];
        if c == '"' || c == ',' || c == '\n' || c == '\r' {
            return true;
        }
        i += 1;
    }
    false
}

pub fn escape_csv_field(value: &str) -> (r: String)
    ensures
        r@ == csv_escaped(value@),
{
    let v = text::chars_of(value);
    if !has_csv_special(&v) {
        return String::from_str(value);
    }
    let mut r = String::new();
    push_char(&mut r, '"');
    let mut i: usize = 0;
    while i < v.len()
        invariant
            i <= v.len(),
            r@ == seq!['"'] + double_quotes(v@.take(i as int)),
        decreases v.len() - i,
    {
        let c = v[i];
        push_char(&mut r, c);
        if c == '"' {
            push_char(&mut r, '"');
        }
        assert(v@.take(i + 1).drop_last() == v@.take(i as int));
        assert(r@ =~= seq!['"'] + double_quotes(v@.take(i + 1)));
        i += 1;
    }
    push_char(&mut r, '"');
    assert(v@.take(v.len() as int) == v@);
    r
}

/// An optional text, trimmed, or the empty text.
pub open spec fn optional_text(value: Option<Seq<char>>) -> Seq<char> {
    match value {
        Some(s) => text::trim(s),
        None => Seq::empty(),
    }
}

pub(crate) fn optional_field(value: Option<&str>) -> (r: String)
    ensures
        r@ == optional_text(device::opt_str(value)),
{
    match value {
        Some(v) => text::trim_str(v),
        None => String::new(),
    }
}

fn optional_field_of(value: &Option<String>) -> (r: String)
    ensures
        r@ == optional_text(value.deep_view()),
{
    match value {
        Some(v) => optional_field(Some(v.as_str())),
        None => optional_field(None),
    }
}

/// The export fields of a device, given its site name and tag names.
pub open spec fn csv_row_of(d: DeviceModel, site: Option<Seq<char>>, tags: Seq<Seq<char>>) -> Seq<
    Seq<char>,
> {
    seq![
        crate::ids::uuid_text(d.device_uuid),
        d.alias,
        optional_text(d.rustdesk_id),
        optional_text(d.hostname),
        device::or_empty(site),
        text::join(tags, ", "@),
        optional_text(d.notes),
        optional_text(d.owner),
        optional_text(d.os_family),
        optional_text(d.os_version),
        optional_text(d.architecture),
        optional_text(d.rustdesk_version),
        optional_text(d.last_checkin_at),
    ]
}

pub fn device_to_csv_row(device: &Device, site_name: Option<&str>, tag_names: &[String]) -> (r:
    DeviceCsvRow)
    ensures
        r@ == csv_row_of(device@, device::opt_str(site_name), text::strings_view(tag_names@)),
{
    let site = match site_name {
        Some(s) => String::from_str(s),
        None => String::new(),
    };
    DeviceCsvRow {
        device_uuid: crate::ids::uuid_to_string(device.device_uuid),
        alias: device.alias.clone(),
        rustdesk_id: optional_field_of(&device.rustdesk_id),
        hostname: optional_field_of(&device.hostname),
        site,
        tags: text::join_strings(tag_names, ", "),
        notes: optional_field_of(&device.notes),
        owner: optional_field_of(&device.owner),
        os_family: optional_field_of(&device.os_family),
        os_version: optional_field_of(&device.os_version),
        architecture: optional_field_of(&device.architecture),
        rustdesk_version: optional_field_of(&device.rustdesk_version),
        last_checkin_at: optional_field_of(&device.last_checkin_at),
    }
}

/// A line of fields, each escaped, separated by commas.
pub open spec fn csv_line(fields: Seq<Seq<char>>) -> Seq<char> {
    text::join(fields.map_values(|f: Seq<char>| csv_escaped(f)), ","@)
}

/// Reads the rest of a quoted field (after its opening quote): a doubled quote
/// is one quote, a single quote closes the field. Gives the value and what
/// follows the closing quote.
pub open spec fn read_quoted(s: Seq<char>) -> (Seq<char>, Seq<char>)
    decreases s.len(),
{
    if s.len() == 0 {
        (Seq::empty(), Seq::empty())
    } else if s[0] == '"' {
        if s.len() >= 2 && s[1] == '"' {
            let (v, r) = read_quoted(s.skip(2));
            (seq!['"'] + v, r)
        } else {
            (Seq::empty(), s.skip(1))
        }
    } else {
        let (v, r) = read_quoted(s.skip(1));
        (seq![s[0]] + v, r)
    }
}

/// Reads an unquoted field: everything up to the next ','.
pub open spec fn read_plain(s: Seq<char>) -> (Seq<char>, Seq<char>)
    decreases s.len(),
{
    if s.len() == 0 || s[0] == ',' {
        (Seq::empty(), s)
    } else {
        let (v, r) = read_plain(s.skip(1));
        (seq![s[0]] + v, r)
    }
}

/// Reads one field of a CSV record (RFC 4180): quoted when it starts with '"'.
pub open spec fn read_field(s: Seq<char>) -> (Seq<char>, Seq<char>) {
    if s.len() > 0 && s[0] == '"' {
        read_quoted(s.skip(1))
    } else {
        read_plain(s)
    }
}

pub proof fn lemma_read_quoted_shorter(s: Seq<char>)
    ensures
        read_quoted(s).1.len() <= s.len(),
    decreases s.len(),
{
    if s.len() > 0 {
        if s[0] == '"' {
            if s.len() >= 2 && s[1] == '"' {
                lemma_read_quoted_shorter(s.skip(2));
            }
        } else {
            lemma_read_quoted_shorter(s.skip(1));
        }
    }
}

pub proof fn lemma_read_plain_shorter(s: Seq<char>)
    ensures
        read_plain(s).1.len() <= s.len(),
    decreases s.len(),
{
    if s.len() > 0 && s[0] != ',' {
        lemma_read_plain_shorter(s.skip(1));
    }
}

pub proof fn lemma_read_field_shorter(s: Seq<char>)
    ensures
        read_field(s).1.len() <= s.len(),
{
    if s.len() > 0 && s[0] == '"' {
        lemma_read_quoted_shorter(s.skip(1));
    } else {
        lemma_read_plain_shorter(s);
    }
}

/// The fields of a CSV record: fields separated by ','.
pub open spec fn parse_record(s: Seq<char>) -> Seq<Seq<char>>
    decreases s.len(),
{
    let (v, r) = read_field(s);
    if r.len() > 0 && r[0] == ',' {
        proof {
            lemma_read_field_shorter(s);
        }
        seq![v] + parse_record(r.skip(1))
    } else {
        seq![v]
    }
}

/// What may follow a field in a record: nothing, or a ',' and more.
pub open spec fn at_separator(t: Seq<char>) -> bool {
    t.len() == 0 || t[0] == ','
}

proof fn lemma_read_plain_field(f: Seq<char>, t: Seq<char>)
    requires
        !needs_quoting(f),
        at_separator(t),
    ensures
        read_plain(f + t) == (f, t),
    decreases f.len(),
{
    if f.len() == 0 {
        assert(f + t =~= t);
    } else {
        assert(!is_csv_special(f[0]));
        assert((f + t)[0] == f[0]);
        assert((f + t).skip(1) =~= f.skip(1) + t);
        assert(!needs_quoting(f.skip(1))) by {
            if needs_quoting(f.skip(1)) {
                let i = choose|i: int| 0 <= i < f.skip(1).len() && is_csv_special(#[trigger] f.skip(1)[i]);
                assert(is_csv_special(f[i + 1]));
            }
        }
        lemma_read_plain_field(f.skip(1), t);
        assert(seq![f[0]] + f.skip(1) =~= f);
    }
}

proof fn lemma_read_quoted_doubled(f: Seq<char>, t: Seq<char>)
    ensures
        read_quoted(double_quotes(f) + t) == (f + read_quoted(t).0, read_quoted(t).1),
    decreases f.len(),
{
    if f.len() == 0 {
        assert(double_quotes(f) + t =~= t);
        assert(f + read_quoted(t).0 =~= read_quoted(t).0);
    } else {
        let front = f.drop_last();
        let c = f.last();
        let unit: Seq<char> = if c == '"' {
            seq!['"', '"']
        } else {
            seq![c]
        };
        let u = unit + t;
        assert(double_quotes(f) + t =~= double_quotes(front) + u);
        lemma_read_quoted_doubled(front, u);
        if c == '"' {
            assert(u.skip(2) =~= t);
        } else {
            assert(u.skip(1) =~= t);
        }
        assert(read_quoted(u) == (seq![c] + read_quoted(t).0, read_quoted(t).1));
        assert(front + (seq![c] + read_quoted(t).0) =~= f + read_quoted(t).0);
    }
}

proof fn lemma_read_escaped_field(f: Seq<char>, t: Seq<char>)
    requires
        at_separator(t),
    ensures
        read_field(csv_escaped(f) + t) == (f, t),
{
    if needs_quoting(f) {
        let s = csv_escaped(f) + t;
        let close = seq!['"'] + t;
        assert(s.skip(1) =~= double_quotes(f) + close);
        lemma_read_quoted_doubled(f, close);
        assert(close.skip(1) =~= t);
        assert(read_quoted(close) == (Seq::<char>::empty(), t));
        assert(f + Seq::<char>::empty() =~= f);
    } else {
        if f.len() > 0 {
            assert(!is_csv_special(f[0]));
        }
        lemma_read_plain_field(f, t);
    }
}

proof fn lemma_parse_joined(fields: Seq<Seq<char>>, t: Seq<char>)
    requires
        fields.len() >= 1,
    ensures
        parse_record(csv_line(fields) + seq![','] + t) == fields + parse_record(t),
    decreases fields.len(),
{
    let escaped = fields.map_values(|f: Seq<char>| csv_escaped(f));
    let last = fields.last();
    let tail = seq![','] + t;
    if fields.len() == 1 {
        assert(csv_line(fields) == csv_escaped(fields[0]));
        assert(csv_line(fields) + seq![','] + t =~= csv_escaped(last) + tail);
        lemma_read_escaped_field(last, tail);
        assert(tail.skip(1) =~= t);
        assert(parse_record(csv_escaped(last) + tail) == seq![last] + parse_record(t));
        assert(fields =~= seq![last]);
    } else {
        let front = fields.drop_last();
        assert(front.map_values(|f: Seq<char>| csv_escaped(f)) =~= escaped.drop_last());
        assert(csv_line(fields) == csv_line(front) + ","@ + csv_escaped(last));
        reveal_strlit(",");
        assert(","@ =~= seq![',']);
        let rest = csv_escaped(last) + tail;
        assert(csv_line(fields) + seq![','] + t =~= csv_line(front) + seq![','] + rest);
        lemma_parse_joined(front, rest);
        lemma_read_escaped_field(last, tail);
        assert(tail.skip(1) =~= t);
        assert(parse_record(rest) == seq![last] + parse_record(t));
        assert(parse_record(csv_line(fields) + seq![','] + t) == front + parse_record(rest));
        assert(front + (seq![last] + parse_record(t)) =~= fields + parse_record(t));
    }
}

/// Reading a rendered CSV line as one RFC 4180 record gives back exactly the
/// fields it was rendered from, in order.
pub proof fn lemma_csv_line_round_trip(fields: Seq<Seq<char>>)
    requires
        fields.len() >= 1,
    ensures
        parse_record(csv_line(fields)) == fields,
{
    let last = fields.last();
    if fields.len() == 1 {
        assert(csv_line(fields) == csv_escaped(fields[0]));
        lemma_read_escaped_field(last, Seq::empty());
        assert(csv_escaped(last) + Seq::<char>::empty() =~= csv_escaped(last));
        assert(fields =~= seq![last]);
    } else {
        let front = fields.drop_last();
        let escaped = fields.map_values(|f: Seq<char>| csv_escaped(f));
        assert(front.map_values(|f: Seq<char>| csv_escaped(f)) =~= escaped.drop_last());
        assert(csv_line(fields) == csv_line(front) + ","@ + csv_escaped(last));
        reveal_strlit(",");
        assert(","@ =~= seq![',']);
        assert(csv_line(fields) =~= csv_line(front) + seq![','] + csv_escaped(last));
        lemma_parse_joined(front, csv_escaped(last));
        lemma_read_escaped_field(last, Seq::empty());
        assert(csv_escaped(last) + Seq::<char>::empty() =~= csv_escaped(last));
        assert(parse_record(csv_escaped(last)) == seq![last]);
        assert(front + seq![last] =~= fields);
    }
}

pub fn render_csv_row(row: &DeviceCsvRow) -> (r: String)
    ensures
        r@ == csv_line(row@),
        parse_record(r@) == row@,
{
    proof {
        lemma_csv_line_round_trip(row@);
    }
    let fields: Vec<&String> = vec![
        &row.device_uuid,
        &row.alias,
        &row.rustdesk_id,
        &row.hostname,
        &row.site,
        &row.tags,
        &row.notes,
        &row.owner,
        &row.os_family,
        &row.os_version,
        &row.architecture,
        &row.rustdesk_version,
        &row.last_checkin_at,
    ];
    let mut escaped: Vec<String> = Vec::new();
    let mut i: usize = 0;
    while i < fields.len()
        invariant
            i <= fields.len() == 13,
            forall|k: int| 0 <= k < 13 ==> #[trigger] fields@[k]@ == row@[k],
            text::strings_view(escaped@) == row@.take(i as int).map_values(
                |f: Seq<char>| csv_escaped(f),
            ),
        decreases fields.len() - i,
    {
        let e = escape_csv_field(fields[i].as_str());
        let ghost prev = escaped@;
        escaped.push(e);
        assert(text::strings_view(escaped@) =~= text::strings_view(prev).push(e@));
        assert(row@.take(i + 1).map_values(|f: Seq<char>| csv_escaped(f)) =~= row@.take(
            i as int,
        ).map_values(|f: Seq<char>| csv_escaped(f)).push(csv_escaped(row@[i as int])));
        i += 1;
    }
    assert(row@.take(13) == row@);
    text::join_strings(escaped.as_slice(), ",")
}

/// The export: the header line, then one line per device of the default list,
/// each line ended by a line break.
pub open spec fn devices_csv(
    devices: Seq<Device>,
    term: Seq<char>,
    sites: Map<u128, String>,
    tags: Map<u128, Vec<String>>,
) -> Seq<char> {
    let rows = device::default_list(devices, term, sites, tags).map_values(
        |m: DeviceModel| csv_line(csv_row_of(m, device::site_of(m, sites), device::tags_of(m, tags))),
    );
    text::join(seq![DEVICE_CSV_HEADER@] + rows, "\n"@) + "\n"@
}

pub(crate) fn lookup_tag_strings(device: &Device, device_tag_names: &HashMap<u128, Vec<String>>) -> (r: Vec<
    String,
>)
    ensures
        text::strings_view(r@) == device::tags_of(device@, device_tag_names@),
{
    broadcast use vstd::std_specs::hash::group_hash_axioms;

    let mut r: Vec<String> = Vec::new();
    match device_tag_names.get(&device.device_uuid) {
        Some(names) => {
            let mut i: usize = 0;
            while i < names.len()
                invariant
                    i <= names@.len(),
                    text::strings_view(r@) == text::strings_view(names@.take(i as int)),
                decreases names@.len() - i,
            {
                let ghost prev = r@;
                r.push(names[i].clone());
                assert(names@.take(i + 1) == names@.take(i as int).push(names@[i as int]));
                assert(text::strings_view(r@) =~= text::strings_view(prev).push(names@[i as int]@));
                assert(text::strings_view(names@.take(i + 1)) =~= text::strings_view(
                    names@.take(i as int),
                ).push(names@[i as int]@));
                i += 1;
            }
            assert(names@.take(names@.len() as int) == names@);
        },
        None => {
            assert(text::strings_view(r@) == Seq::<Seq<char>>::empty());
        },
    }
    r
}

pub fn render_devices_csv(
    devices: &[Device],
    query: &DeviceSearchQuery,
    site_names: &HashMap<u128, String>,
    device_tag_names: &HashMap<u128, Vec<String>>,
) -> (r: String)
    ensures
        r@ == devices_csv(devices@, query.term@, site_names@, device_tag_names@),
{
    let listed = crate::domain::device_list::devices_for_default_list(
        devices,
        query,
        site_names,
        device_tag_names,
    );
    let ghost models = listed@.map_values(|d: &Device| d@);
    let ghost row_of = |m: DeviceModel|
        csv_line(
            csv_row_of(m, device::site_of(m, site_names@), device::tags_of(m, device_tag_names@)),
        );
    let mut lines: Vec<String> = Vec::new();
    lines.push(String::from_str(DEVICE_CSV_HEADER));
    let mut i: usize = 0;
    while i < listed.len()
        invariant
            i <= listed@.len(),
            models == listed@.map_values(|d: &Device| d@),
            row_of == (|m: DeviceModel|
                csv_line(
                    csv_row_of(
                        m,
                        device::site_of(m, site_names@),
                        device::tags_of(m, device_tag_names@),
                    ),
                )),
            text::strings_view(lines@) == seq![DEVICE_CSV_HEADER@] + models.take(
                i as int,
            ).map_values(row_of),
        decreases listed@.len() - i,
    {
        let device = listed[i];
        let site_name = device::lookup_site_name(device, site_names);
        let tag_names = lookup_tag_strings(device, device_tag_names);
        let row = device_to_csv_row(device, site_name, tag_names.as_slice());
        let line = render_csv_row(&row);
        let ghost prev = lines@;
        lines.push(line);
        proof {
            assert(models[i as int] == device@);
            assert(line@ == row_of(device@));
            assert(text::strings_view(lines@) =~= text::strings_view(prev).push(line@));
            assert(models.take(i + 1).map_values(row_of) =~= models.take(i as int).map_values(
                row_of,
            ).push(row_of(models[i as int])));
            assert(text::strings_view(lines@) =~= seq![DEVICE_CSV_HEADER@] + models.take(
                i + 1,
            ).map_values(row_of));
        }
        i += 1;
    }
    assert(models.take(listed@.len() as int) == models);
    let mut r = text::join_strings(lines.as_slice(), "\n");
    r.append("\n");
    r
}

/// The export is the header line followed, in their order, by one line for
/// each device that is not archived and that the search term finds: the
/// trimmed, lower-cased term is blank or occurs in the lower-cased alias, host
/// name, RustDesk ID, owner, notes, OS family, site name or one of the tag
/// names of the device. A device the search does not find has no line.
pub proof fn lemma_export_follows_search(
    devices: Seq<Device>,
    term: Seq<char>,
    sites: Map<u128, String>,
    tags: Map<u128, Vec<String>>,
)
    ensures
        (devices_csv(devices, term, sites, tags) == text::join(
            seq![DEVICE_CSV_HEADER@] + device::devices_view(devices).filter(
                |m: DeviceModel|
                    {
                        let key = text::lower(text::trim(term));
                        let hit = |s: Seq<char>| text::contains_sub(text::lower(s), key);
                        &&& !m.archived
                        &&& {
                            ||| key.len() == 0
                            ||| hit(m.alias)
                            ||| (m.hostname is Some && hit(m.hostname->0))
                            ||| (m.rustdesk_id is Some && hit(m.rustdesk_id->0))
                            ||| (m.owner is Some && hit(m.owner->0))
                            ||| (m.notes is Some && hit(m.notes->0))
                            ||| (m.os_family is Some && hit(m.os_family->0))
                            ||| (device::site_of(m, sites) is Some && hit(
                                device::site_of(m, sites)->0,
                            ))
                            ||| exists|j: int|
                                0 <= j < device::tags_of(m, tags).len() && hit(
                                    #[trigger] device::tags_of(m, tags)[j],
                                )
                        }
                    },
            ).map_values(
                |m: DeviceModel|
                    csv_line(csv_row_of(m, device::site_of(m, sites), device::tags_of(m, tags))),
            ),
            "\n"@,
        ) + "\n"@),
{
    device::lemma_default_list_is_search_filter(devices, term, sites, tags);
}

} // verus!
