use vstd::prelude::*;

use crate::domain::device::Device;
use crate::domain::enrollment_token::EnrollmentTokenRecord;
use crate::domain::server_config::ServerConfig;
use crate::domain::site::Site;
use crate::domain::tag::Tag;
use crate::text;
use crate::time_format::{format_timestamp, Timestamp};

verus! {

/// The backup format this version writes and accepts.
pub const BACKUP_SCHEMA_VERSION: u32 = 1;

/// What a backup holds and leaves out.
#[derive(Debug, Clone, PartialEq, Eq)]
pub struct BackupSensitivity {
    pub contains_password_hashes: bool,
    pub contains_enrollment_token_hashes: bool,
    pub excludes_sessions: bool,
    pub excludes_audit_events: bool,
    pub excludes_endpoint_checkins: bool,
}

impl Default for BackupSensitivity {
    /// Every backup holds the password and token hashes and leaves out
    /// sessions, audit events and endpoint check-ins.
    fn default() -> (r: Self)
        ensures
            r.contains_password_hashes,
            r.contains_enrollment_token_hashes,
            r.excludes_sessions,
            r.excludes_audit_events,
            r.excludes_endpoint_checkins,
    {
        Self {
            contains_password_hashes: true,
            contains_enrollment_token_hashes: true,
            excludes_sessions: true,
            excludes_audit_events: true,
            excludes_endpoint_checkins: true,
        }
    }
}

#[derive(Debug, Clone, PartialEq, Eq)]
pub struct BackupDeviceTag {
    pub device_uuid: u128,
    pub tag_uuid: u128,
}

#[derive(Debug, Clone, PartialEq, Eq)]
pub struct BackupUser {
    pub user_uuid: u128,
    pub username: String,
    pub password_hash: String,
    pub role: String,
}

#[derive(Debug, Clone, PartialEq, Eq)]
pub struct BackupEnrollmentToken {
    pub enrollment_token_uuid: u128,
    pub token_hash: String,
    pub label: String,
    pub site_uuid: Option<u128>,
    pub expires_at: Option<String>,
    pub revoked_at: Option<String>,
}

#[derive(Debug, Clone, PartialEq, Eq)]
pub struct BackupDocument {
    pub schema_version: u32,
    pub exported_at: String,
    pub sensitivity: BackupSensitivity,
    pub sites: Vec<Site>,
    pub tags: Vec<Tag>,
    pub devices: Vec<Device>,
    pub device_tags: Vec<BackupDeviceTag>,
    pub server_config: Option<ServerConfig>,
    pub enrollment_tokens: Vec<BackupEnrollmentToken>,
    pub users: Vec<BackupUser>,
}

#[derive(Debug, Clone, Copy, PartialEq, Eq)]
pub enum BackupValidationError {
    UnsupportedSchemaVersion,
    EmptyUsers,
}

impl BackupValidationError {
    /// The message shown to the operator.
    pub fn message(&self) -> (r: &'static str)
        ensures
            r@ == match self {
                BackupValidationError::UnsupportedSchemaVersion => "unsupported backup schema version"@,
                BackupValidationError::EmptyUsers => "backup must include at least one user"@,
            },
    {
        match self {
            BackupValidationError::UnsupportedSchemaVersion => "unsupported backup schema version",
            BackupValidationError::EmptyUsers => "backup must include at least one user",
        }
    }
}

/// What `validate_backup_document` answers: the schema must be the current
/// one and at least one user must be in the backup.
pub open spec fn backup_verdict(document: BackupDocument) -> Result<(), BackupValidationError> {
    if document.schema_version != BACKUP_SCHEMA_VERSION {
        Err(BackupValidationError::UnsupportedSchemaVersion)
    } else if document.users@.len() == 0 {
        Err(BackupValidationError::EmptyUsers)
    } else {
        Ok(())
    }
}

pub fn validate_backup_document(document: &BackupDocument) -> (r: Result<(), BackupValidationError>)
    ensures
        r == backup_verdict(*document),
{
    if document.schema_version != BACKUP_SCHEMA_VERSION {
        return Err(BackupValidationError::UnsupportedSchemaVersion);
    }
    if document.users.len() == 0 {
        return Err(BackupValidationError::EmptyUsers);
    }
    Ok(())
}

/// The value the restore form's confirmation box sends.
pub const RESTORE_CONFIRMATION: &'static str = "yes";

/// What the backup page says when a restore is not confirmed.
pub const RESTORE_NOT_CONFIRMED_MESSAGE: &'static str = "Restore requires confirmation.";

/// What the backup page says when the submitted text is not a backup.
pub const BACKUP_JSON_INVALID_MESSAGE: &'static str = "Backup JSON is invalid.";

/// A restore goes ahead only when the confirmation box was ticked.
pub fn restore_confirmed(confirm: Option<&str>) -> (r: bool)
    ensures
        r == (confirm matches Some(v) && v@ == RESTORE_CONFIRMATION@),
{
    match confirm {
        Some(v) => text::str_eq(v, RESTORE_CONFIRMATION),
        None => false,
    }
}

/// A table that a restore empties.
#[derive(Debug, Clone, Copy, PartialEq, Eq)]
pub enum RestoreTable {
    DeviceTags,
    EndpointCheckins,
    Devices,
    EnrollmentTokens,
    Tags,
    Sites,
    ServerConfigs,
    Sessions,
    Users,
}

/// One step of a restore; an insert names the entry of the backup by its position.
#[derive(Debug, Clone, Copy, PartialEq, Eq)]
pub enum RestoreStep {
    Clear(RestoreTable),
    InsertSite(usize),
    InsertTag(usize),
    InsertDevice(usize),
    InsertDeviceTag(usize),
    InsertServerConfig,
    InsertEnrollmentToken(usize),
    InsertUser(usize),
}

/// The tables a restore empties, links before what they link.
pub open spec fn clear_steps() -> Seq<RestoreStep> {
    seq![
        RestoreStep::Clear(RestoreTable::DeviceTags),
        RestoreStep::Clear(RestoreTable::EndpointCheckins),
        RestoreStep::Clear(RestoreTable::Devices),
        RestoreStep::Clear(RestoreTable::EnrollmentTokens),
        RestoreStep::Clear(RestoreTable::Tags),
        RestoreStep::Clear(RestoreTable::Sites),
        RestoreStep::Clear(RestoreTable::ServerConfigs),
        RestoreStep::Clear(RestoreTable::Sessions),
        RestoreStep::Clear(RestoreTable::Users),
    ]
}

/// The kind of backup entry an insert step copies.
#[derive(Debug, Clone, Copy, PartialEq, Eq)]
pub enum RestoreEntry {
    Site,
    Tag,
    Device,
    DeviceTag,
    EnrollmentToken,
    User,
}

/// The step that inserts entry `i` of the given kind.
pub open spec fn insert_step(kind: RestoreEntry, i: usize) -> RestoreStep {
    match kind {
        RestoreEntry::Site => RestoreStep::InsertSite(i),
        RestoreEntry::Tag => RestoreStep::InsertTag(i),
        RestoreEntry::Device => RestoreStep::InsertDevice(i),
        RestoreEntry::DeviceTag => RestoreStep::InsertDeviceTag(i),
        RestoreEntry::EnrollmentToken => RestoreStep::InsertEnrollmentToken(i),
        RestoreEntry::User => RestoreStep::InsertUser(i),
    }
}

/// Inserts of the entries `0..n` of a kind, in order.
pub open spec fn insert_steps(kind: RestoreEntry, n: nat) -> Seq<RestoreStep> {
    Seq::new(n, |i: int| insert_step(kind, i as usize))
}

/// The whole restore: empty every table, then insert the sites, tags,
/// devices, device tags, server configuration, enrollment tokens and users of
/// the backup, each in the order the backup lists them.
pub open spec fn restore_steps(document: BackupDocument) -> Seq<RestoreStep> {
    clear_steps() + insert_steps(RestoreEntry::Site, document.sites@.len()) + insert_steps(
        RestoreEntry::Tag,
        document.tags@.len(),
    ) + insert_steps(RestoreEntry::Device, document.devices@.len()) + insert_steps(
        RestoreEntry::DeviceTag,
        document.device_tags@.len(),
    ) + (if document.server_config is Some {
        seq![RestoreStep::InsertServerConfig]
    } else {
        Seq::empty()
    }) + insert_steps(RestoreEntry::EnrollmentToken, document.enrollment_tokens@.len())
        + insert_steps(RestoreEntry::User, document.users@.len())
}

fn make_insert(kind: RestoreEntry, i: usize) -> (r: RestoreStep)
    ensures
        r == insert_step(kind, i),
{
    match kind {
        RestoreEntry::Site => RestoreStep::InsertSite(i),
        RestoreEntry::Tag => RestoreStep::InsertTag(i),
        RestoreEntry::Device => RestoreStep::InsertDevice(i),
        RestoreEntry::DeviceTag => RestoreStep::InsertDeviceTag(i),
        RestoreEntry::EnrollmentToken => RestoreStep::InsertEnrollmentToken(i),
        RestoreEntry::User => RestoreStep::InsertUser(i),
    }
}

fn push_inserts(steps: &mut Vec<RestoreStep>, kind: RestoreEntry, n: usize)
    ensures
        final(steps)@ == old(steps)@ + insert_steps(kind, n as nat),
{
    let mut i: usize = 0;
    while i < n
        invariant
            i <= n,
            steps@ == old(steps)@ + insert_steps(kind, i as nat),
        decreases n - i,
    {
        steps.push(make_insert(kind, i));
        assert(insert_steps(kind, (i + 1) as nat) =~= insert_steps(kind, i as nat).push(
            insert_step(kind, i),
        ));
        i += 1;
    }
}

/// The steps that restore the backup, or why it is refused.
pub fn restore_plan(document: &BackupDocument) -> (r: Result<Vec<RestoreStep>, BackupValidationError>)
    ensures
        match backup_verdict(*document) {
            Err(e) => r == Err::<Vec<RestoreStep>, BackupValidationError>(e),
            Ok(()) => r matches Ok(steps) && steps@ == restore_steps(*document),
        },
{
    validate_backup_document(document)?;
    let mut steps: Vec<RestoreStep> = vec![
        RestoreStep::Clear(RestoreTable::DeviceTags),
        RestoreStep::Clear(RestoreTable::EndpointCheckins),
        RestoreStep::Clear(RestoreTable::Devices),
        RestoreStep::Clear(RestoreTable::EnrollmentTokens),
        RestoreStep::Clear(RestoreTable::Tags),
        RestoreStep::Clear(RestoreTable::Sites),
        RestoreStep::Clear(RestoreTable::ServerConfigs),
        RestoreStep::Clear(RestoreTable::Sessions),
        RestoreStep::Clear(RestoreTable::Users),
    ];
    assert(steps@ == clear_steps());
    push_inserts(&mut steps, RestoreEntry::Site, document.sites.len());
    push_inserts(&mut steps, RestoreEntry::Tag, document.tags.len());
    push_inserts(&mut steps, RestoreEntry::Device, document.devices.len());
    push_inserts(&mut steps, RestoreEntry::DeviceTag, document.device_tags.len());
    let ghost before_config = steps@;
    if document.server_config.is_some() {
        steps.push(RestoreStep::InsertServerConfig);
    }
    assert(steps@ == before_config + (if document.server_config is Some {
        seq![RestoreStep::InsertServerConfig]
    } else {
        Seq::<RestoreStep>::empty()
    }));
    push_inserts(&mut steps, RestoreEntry::EnrollmentToken, document.enrollment_tokens.len());
    push_inserts(&mut steps, RestoreEntry::User, document.users.len());
    Ok(steps)
}

/// A stored time as the backup writes it.
pub open spec fn backup_time(t: Option<Timestamp>) -> Option<Seq<char>> {
    match t {
        Some(t) => Some(crate::time_format::timestamp_text(t)),
        None => None,
    }
}

/// Stored times the time crate can hold.
pub open spec fn token_times_in_range(token: EnrollmentTokenRecord) -> bool {
    &&& (token.expires_at matches Some(t) ==> crate::time_format::in_range(t))
    &&& (token.revoked_at matches Some(t) ==> crate::time_format::in_range(t))
}

/// The backup entry of a stored enrollment token: the same fields, with the
/// times written as text.
pub open spec fn is_backup_token_of(entry: BackupEnrollmentToken, token: EnrollmentTokenRecord) -> bool {
    &&& entry.enrollment_token_uuid == token.enrollment_token_uuid
    &&& entry.token_hash@ == token.token_hash@
    &&& entry.label@ == token.label@
    &&& entry.site_uuid == token.site_uuid
    &&& entry.expires_at.deep_view() == backup_time(token.expires_at)
    &&& entry.revoked_at.deep_view() == backup_time(token.revoked_at)
}

fn backup_time_text(t: Option<Timestamp>) -> (r: Option<String>)
    requires
        t matches Some(t) ==> crate::time_format::in_range(t),
    ensures
        r.deep_view() == backup_time(t),
{
    match t {
        Some(t) => Some(format_timestamp(t)),
        None => None,
    }
}

/// The backup entry of a stored enrollment token.
pub fn backup_enrollment_token_of(token: &EnrollmentTokenRecord) -> (r: BackupEnrollmentToken)
    requires
        token_times_in_range(*token),
    ensures
        is_backup_token_of(r, *token),
{
    BackupEnrollmentToken {
        enrollment_token_uuid: token.enrollment_token_uuid,
        token_hash: token.token_hash.clone(),
        label: token.label.clone(),
        site_uuid: token.site_uuid,
        expires_at: backup_time_text(token.expires_at),
        revoked_at: backup_time_text(token.revoked_at),
    }
}

/// The backup document of what the store holds, exported at `exported_at`:
/// the current schema, the default sensitivity, the sites, tags, devices,
/// server configuration and users as given, each device-tag link as an entry,
/// and each enrollment token as its backup entry, in the order given.
pub fn assemble_backup_document(
    exported_at: Timestamp,
    sites: Vec<Site>,
    tags: Vec<Tag>,
    devices: Vec<Device>,
    links: &Vec<(u128, u128)>,
    server_config: Option<ServerConfig>,
    tokens: &Vec<EnrollmentTokenRecord>,
    users: Vec<BackupUser>,
) -> (r: BackupDocument)
    requires
        crate::time_format::in_range(exported_at),
        forall|i: int| 0 <= i < tokens@.len() ==> token_times_in_range(#[trigger] tokens@[i]),
    ensures
        r.schema_version == BACKUP_SCHEMA_VERSION,
        r.exported_at@ == crate::time_format::timestamp_text(exported_at),
        r.sensitivity.contains_password_hashes,
        r.sensitivity.contains_enrollment_token_hashes,
        r.sensitivity.excludes_sessions,
        r.sensitivity.excludes_audit_events,
        r.sensitivity.excludes_endpoint_checkins,
        r.sites@ == sites@,
        r.tags@ == tags@,
        r.devices@ == devices@,
        r.server_config == server_config,
        r.users@ == users@,
        r.device_tags@.len() == links@.len(),
        forall|i: int|
            0 <= i < links@.len() ==> (#[trigger] r.device_tags@[i]).device_uuid == links@[i].0
                && r.device_tags@[i].tag_uuid == links@[i].1,
        r.enrollment_tokens@.len() == tokens@.len(),
        forall|i: int|
            0 <= i < tokens@.len() ==> is_backup_token_of(#[trigger] r.enrollment_tokens@[i], tokens@[i]),
{
    let mut device_tags: Vec<BackupDeviceTag> = Vec::new();
    for i in 0..links.len()
        invariant
            device_tags@.len() == i,
            forall|j: int|
                0 <= j < i ==> (#[trigger] device_tags@[j]).device_uuid == links@[j].0
                    && device_tags@[j].tag_uuid == links@[j].1,
    {
        let (device_uuid, tag_uuid) = links[i];
        device_tags.push(BackupDeviceTag { device_uuid, tag_uuid });
    }
    let mut enrollment_tokens: Vec<BackupEnrollmentToken> = Vec::new();
    for i in 0..tokens.len()
        invariant
            enrollment_tokens@.len() == i,
            forall|j: int| 0 <= j < tokens@.len() ==> token_times_in_range(#[trigger] tokens@[j]),
            forall|j: int| 0 <= j < i ==> is_backup_token_of(#[trigger] enrollment_tokens@[j], tokens@[j]),
    {
        enrollment_tokens.push(backup_enrollment_token_of(&tokens[i]));
    }
    BackupDocument {
        schema_version: BACKUP_SCHEMA_VERSION,
        exported_at: format_timestamp(exported_at),
        sensitivity: BackupSensitivity::default(),
        sites,
        tags,
        devices,
        device_tags,
        server_config,
        enrollment_tokens,
        users,
    }
}

/// A backup written in the current schema is accepted for restore exactly
/// when it holds at least one user, and restoring it then empties every table
/// before it inserts each entry once, in the order of the backup.
pub proof fn lemma_current_backup_restorable(document: BackupDocument)
    requires
        document.schema_version == BACKUP_SCHEMA_VERSION,
    ensures
        backup_verdict(document) is Ok <==> document.users@.len() > 0,
        restore_steps(document).len() == 9 + document.sites@.len() + document.tags@.len()
            + document.devices@.len() + document.device_tags@.len() + (if document.server_config is Some {
            1int
        } else {
            0int
        }) + document.enrollment_tokens@.len() + document.users@.len(),
        restore_steps(document).take(9) == clear_steps(),
{
    let steps = restore_steps(document);
    assert(steps.take(9) =~= clear_steps());
}

/// Where the inserts of each kind of entry start in the restore of a document.
pub open spec fn site_steps_start(d: BackupDocument) -> int {
    9
}

pub open spec fn tag_steps_start(d: BackupDocument) -> int {
    site_steps_start(d) + d.sites@.len()
}

pub open spec fn device_steps_start(d: BackupDocument) -> int {
    tag_steps_start(d) + d.tags@.len()
}

pub open spec fn link_steps_start(d: BackupDocument) -> int {
    device_steps_start(d) + d.devices@.len()
}

pub open spec fn config_steps_start(d: BackupDocument) -> int {
    link_steps_start(d) + d.device_tags@.len()
}

pub open spec fn token_steps_start(d: BackupDocument) -> int {
    config_steps_start(d) + if d.server_config is Some {
        1int
    } else {
        0int
    }
}

pub open spec fn user_steps_start(d: BackupDocument) -> int {
    token_steps_start(d) + d.enrollment_tokens@.len()
}

/// Exporting then restoring gives back what was exported: a backup document
/// assembled from the stored sites, tags, devices, device-tag links, server
/// configuration, enrollment tokens and users (as `assemble_backup_document`
/// states it) is accepted whenever it holds a user, and its restore empties
/// every table and then inserts each exported row exactly once, kind after
/// kind, in the order of the export.
pub proof fn lemma_export_then_restore(
    doc: BackupDocument,
    sites: Seq<Site>,
    tags: Seq<Tag>,
    devices: Seq<Device>,
    links: Seq<(u128, u128)>,
    config: Option<ServerConfig>,
    tokens: Seq<EnrollmentTokenRecord>,
    users: Seq<BackupUser>,
)
    requires
        doc.schema_version == BACKUP_SCHEMA_VERSION,
        doc.sites@ == sites,
        doc.tags@ == tags,
        doc.devices@ == devices,
        doc.server_config == config,
        doc.users@ == users,
        doc.device_tags@.len() == links.len(),
        forall|i: int|
            0 <= i < links.len() ==> (#[trigger] doc.device_tags@[i]).device_uuid == links[i].0
                && doc.device_tags@[i].tag_uuid == links[i].1,
        doc.enrollment_tokens@.len() == tokens.len(),
        forall|i: int| 0 <= i < tokens.len() ==> is_backup_token_of(#[trigger] doc.enrollment_tokens@[i], tokens[i]),
        users.len() > 0,
    ensures
        backup_verdict(doc) is Ok,
        restore_steps(doc).len() == user_steps_start(doc) + users.len(),
        restore_steps(doc).take(9) == clear_steps(),
        forall|i: int|
            0 <= i < sites.len() ==> restore_steps(doc)[site_steps_start(doc) + i]
                == RestoreStep::InsertSite(i as usize) && #[trigger] doc.sites@[i] == sites[i],
        forall|i: int|
            0 <= i < tags.len() ==> restore_steps(doc)[tag_steps_start(doc) + i]
                == RestoreStep::InsertTag(i as usize) && #[trigger] doc.tags@[i] == tags[i],
        forall|i: int|
            0 <= i < devices.len() ==> restore_steps(doc)[device_steps_start(doc) + i]
                == RestoreStep::InsertDevice(i as usize) && #[trigger] doc.devices@[i] == devices[i],
        forall|i: int|
            0 <= i < links.len() ==> restore_steps(doc)[link_steps_start(doc) + i]
                == RestoreStep::InsertDeviceTag(i as usize) && (#[trigger] doc.device_tags@[i]).device_uuid
                == links[i].0 && doc.device_tags@[i].tag_uuid == links[i].1,
        config is Some ==> restore_steps(doc)[config_steps_start(doc)] == RestoreStep::InsertServerConfig
            && doc.server_config == config,
        forall|i: int|
            0 <= i < tokens.len() ==> restore_steps(doc)[token_steps_start(doc) + i]
                == RestoreStep::InsertEnrollmentToken(i as usize) && is_backup_token_of(
                #[trigger] doc.enrollment_tokens@[i],
                tokens[i],
            ),
        forall|i: int|
            0 <= i < users.len() ==> restore_steps(doc)[user_steps_start(doc) + i]
                == RestoreStep::InsertUser(i as usize) && #[trigger] doc.users@[i] == users[i],
{
    let a = clear_steps();
    let b = insert_steps(RestoreEntry::Site, doc.sites@.len());
    let c = insert_steps(RestoreEntry::Tag, doc.tags@.len());
    let d = insert_steps(RestoreEntry::Device, doc.devices@.len());
    let e = insert_steps(RestoreEntry::DeviceTag, doc.device_tags@.len());
    let f: Seq<RestoreStep> = if doc.server_config is Some {
        seq![RestoreStep::InsertServerConfig]
    } else {
        Seq::empty()
    };
    let g = insert_steps(RestoreEntry::EnrollmentToken, doc.enrollment_tokens@.len());
    let h = insert_steps(RestoreEntry::User, doc.users@.len());
    let steps = restore_steps(doc);
    assert(steps == a + b + c + d + e + f + g + h);
    assert(steps.take(9) =~= a);
    assert forall|i: int| #![trigger sites[i]] 0 <= i < sites.len() implies steps[site_steps_start(doc) + i]
        == RestoreStep::InsertSite(i as usize) by {
        assert(b[i] == RestoreStep::InsertSite(i as usize));
    }
    assert forall|i: int| #![trigger tags[i]] 0 <= i < tags.len() implies steps[tag_steps_start(doc) + i]
        == RestoreStep::InsertTag(i as usize) by {
        assert(c[i] == RestoreStep::InsertTag(i as usize));
    }
    assert forall|i: int| #![trigger devices[i]] 0 <= i < devices.len() implies steps[device_steps_start(doc) + i]
        == RestoreStep::InsertDevice(i as usize) by {
        assert(d[i] == RestoreStep::InsertDevice(i as usize));
    }
    assert forall|i: int| #![trigger links[i]] 0 <= i < links.len() implies steps[link_steps_start(doc) + i]
        == RestoreStep::InsertDeviceTag(i as usize) by {
        assert(e[i] == RestoreStep::InsertDeviceTag(i as usize));
    }
    if config is Some {
        assert(f[0] == RestoreStep::InsertServerConfig);
    }
    assert forall|i: int| #![trigger tokens[i]] 0 <= i < tokens.len() implies steps[token_steps_start(doc) + i]
        == RestoreStep::InsertEnrollmentToken(i as usize) by {
        assert(g[i] == RestoreStep::InsertEnrollmentToken(i as usize));
    }
    assert forall|i: int| #![trigger users[i]] 0 <= i < users.len() implies steps[user_steps_start(doc) + i]
        == RestoreStep::InsertUser(i as usize) by {
        assert(h[i] == RestoreStep::InsertUser(i as usize));
    }
}

} // verus!
