use vstd::prelude::*;

use crate::deployment::filename_config::generate_filename_custom_server;
use crate::deployment::linux_script::{render_linux_deployment_script, LinuxDeploymentScriptInput};
use crate::deployment::macos_script::{render_macos_deployment_script, MacosDeploymentScriptInput};
use crate::deployment::windows_script::{
    render_windows_deployment_script, WindowsDeploymentScriptInput,
};
use crate::domain::device::DeviceDraft;
use crate::domain::server_config::ServerConfig;
use crate::domain::enrollment_token::EnrollmentTokenRecord;
use crate::domain::site::Site;
use crate::domain::tag::Tag;
use crate::http::views::{
    DeploymentView, DeviceFormView, EnrollmentTokenOptionView, EnrollmentTokenRowView,
    SiteOptionView, SiteRowView, TagOptionView, TagRowView,
};
use crate::ids;
use crate::time_format;
use crate::time_format::Timestamp;

verus! {

/// The status of an enrollment token at `now`: revoked, expired or active.
pub open spec fn token_status_at(token: EnrollmentTokenRecord, now: Timestamp) -> Seq<char> {
    if token.revoked_at is Some {
        "revoked"@
    } else if token.expires_at is Some && now.unix_nanos >= token.expires_at->0.unix_nanos {
        "expired"@
    } else {
        "active"@
    }
}

pub fn enrollment_token_status_at(token: &EnrollmentTokenRecord, now: Timestamp) -> (r: String)
    ensures
        r@ == token_status_at(*token, now),
{
    if token.revoked_at.is_some() {
        return String::from_str("revoked");
    }
    if let Some(expires) = token.expires_at {
        if now.unix_nanos >= expires.unix_nanos {
            return String::from_str("expired");
        }
    }
    String::from_str("active")
}

/// The status of an enrollment token now.
pub fn enrollment_token_status(token: &EnrollmentTokenRecord) -> (r: String)
    ensures
        exists|now: Timestamp| now.offset_seconds == 0 && r@ == token_status_at(*token, now),
{
    let now = time_format::now_utc();
    enrollment_token_status_at(token, now)
}

impl View for SiteOptionView {
    type V = (Seq<char>, Seq<char>, bool);

    open spec fn view(&self) -> (Seq<char>, Seq<char>, bool) {
        (self.site_uuid@, self.name@, self.selected)
    }
}

impl View for TagOptionView {
    type V = (Seq<char>, Seq<char>, bool);

    open spec fn view(&self) -> (Seq<char>, Seq<char>, bool) {
        (self.tag_uuid@, self.name@, self.selected)
    }
}

/// The choice a site gives in the device form; selected when it is the device's site.
pub open spec fn site_option(site: Site, selected: Option<u128>) -> (Seq<char>, Seq<char>, bool) {
    (ids::uuid_text(site.site_uuid), site.name@, selected == Some(site.site_uuid))
}

/// The choice a tag gives in the device form; selected when the device has it.
pub open spec fn tag_option(tag: Tag, selected: Seq<u128>) -> (Seq<char>, Seq<char>, bool) {
    (ids::uuid_text(tag.tag_uuid), tag.name@, selected.contains(tag.tag_uuid))
}

pub fn site_options(sites: &[Site], selected: Option<u128>) -> (r: Vec<SiteOptionView>)
    ensures
        r@.map_values(|o: SiteOptionView| o@) == sites@.map_values(|s: Site| site_option(s, selected)),
{
    let mut r: Vec<SiteOptionView> = Vec::new();
    let mut i: usize = 0;
    while i < sites.len()
        invariant
            i <= sites@.len(),
            r@.map_values(|o: SiteOptionView| o@) == sites@.take(i as int).map_values(
                |s: Site| site_option(s, selected),
            ),
        decreases sites@.len() - i,
    {
        let site = &sites[i];
        let option = SiteOptionView {
            site_uuid: ids::uuid_to_string(site.site_uuid),
            name: site.name.clone(),
            selected: selected == Some(site.site_uuid),
        };
        let ghost prev = r@;
        r.push(option);
        assert(r@.map_values(|o: SiteOptionView| o@) =~= prev.map_values(|o: SiteOptionView| o@).push(
            option@,
        ));
        assert(sites@.take(i + 1).map_values(|s: Site| site_option(s, selected)) =~= sites@.take(
            i as int,
        ).map_values(|s: Site| site_option(s, selected)).push(site_option(sites@[i as int], selected)));
        i += 1;
    }
    assert(sites@.take(sites@.len() as int) == sites@);
    r
}

pub(crate) fn contains_uuid(v: &[u128], x: u128) -> (r: bool)
    ensures
        r == v@.contains(x),
{
    let mut i: usize = 0;
    while i < v.len()
        invariant
            i <= v@.len(),
            forall|j: int| 0 <= j < i ==> v@[j] != x,
        decreases v@.len() - i,
    {
        if v[i] == x {
            assert(v@[i as int] == x);
            return true;
        }
        i += 1;
    }
    false
}

pub fn tag_options(tags: &[Tag], selected: &[u128]) -> (r: Vec<TagOptionView>)
    ensures
        r@.map_values(|o: TagOptionView| o@) == tags@.map_values(|t: Tag| tag_option(t, selected@)),
{
    let mut r: Vec<TagOptionView> = Vec::new();
    let mut i: usize = 0;
    while i < tags.len()
        invariant
            i <= tags@.len(),
            r@.map_values(|o: TagOptionView| o@) == tags@.take(i as int).map_values(
                |t: Tag| tag_option(t, selected@),
            ),
        decreases tags@.len() - i,
    {
        let tag = &tags[i];
        let option = TagOptionView {
            tag_uuid: ids::uuid_to_string(tag.tag_uuid),
            name: tag.name.clone(),
            selected: contains_uuid(selected, tag.tag_uuid),
        };
        let ghost prev = r@;
        r.push(option);
        assert(r@.map_values(|o: TagOptionView| o@) =~= prev.map_values(|o: TagOptionView| o@).push(
            option@,
        ));
        assert(tags@.take(i + 1).map_values(|t: Tag| tag_option(t, selected@)) =~= tags@.take(
            i as int,
        ).map_values(|t: Tag| tag_option(t, selected@)).push(tag_option(tags@[i as int], selected@)));
        i += 1;
    }
    assert(tags@.take(tags@.len() as int) == tags@);
    r
}

fn text_or_empty(o: Option<String>) -> (r: String)
    ensures
        r@ == crate::domain::device::or_empty(o.deep_view()),
{
    match o {
        Some(s) => s,
        None => String::new(),
    }
}

/// The device form, filled from a draft, with the sites and tags to choose from.
pub fn device_form_view(
    heading: &str,
    form_action: &str,
    device_uuid: u128,
    draft: DeviceDraft,
    sites: &[Site],
    tags: &[Tag],
    selected_tag_uuids: &[u128],
    error_message: Option<String>,
    show_archive_actions: bool,
    show_unarchive_actions: bool,
) -> (r: DeviceFormView)
    ensures
        r.title@ == heading@,
        r.show_nav,
        r.heading@ == heading@,
        r.form_action@ == form_action@,
        r.device_uuid@ == ids::uuid_text(device_uuid),
        r.alias@ == draft.alias@,
        r.rustdesk_id@ == crate::domain::device::or_empty(draft.rustdesk_id.deep_view()),
        r.hostname@ == crate::domain::device::or_empty(draft.hostname.deep_view()),
        r.owner@ == crate::domain::device::or_empty(draft.owner.deep_view()),
        r.notes@ == crate::domain::device::or_empty(draft.notes.deep_view()),
        r.site_options@.map_values(|o: SiteOptionView| o@) == sites@.map_values(
            |s: Site| site_option(s, draft.site_uuid),
        ),
        r.tag_options@.map_values(|o: TagOptionView| o@) == tags@.map_values(
            |t: Tag| tag_option(t, selected_tag_uuids@),
        ),
        r.error_message == error_message,
        r.show_archive_actions == show_archive_actions,
        r.show_unarchive_actions == show_unarchive_actions,
{
    let site_options = site_options(sites, draft.site_uuid);
    let tag_options = tag_options(tags, selected_tag_uuids);
    let DeviceDraft { alias, rustdesk_id, hostname, owner, notes, .. } = draft;
    DeviceFormView {
        title: String::from_str(heading),
        show_nav: true,
        heading: String::from_str(heading),
        form_action: String::from_str(form_action),
        device_uuid: ids::uuid_to_string(device_uuid),
        alias,
        rustdesk_id: text_or_empty(rustdesk_id),
        hostname: text_or_empty(hostname),
        owner: text_or_empty(owner),
        notes: text_or_empty(notes),
        site_options,
        tag_options,
        error_message,
        show_archive_actions,
        show_unarchive_actions,
    }
}

impl View for EnrollmentTokenRowView {
    type V = (Seq<char>, Seq<char>, Seq<char>, bool);

    open spec fn view(&self) -> (Seq<char>, Seq<char>, Seq<char>, bool) {
        (self.enrollment_token_uuid@, self.label@, self.status@, self.can_revoke)
    }
}

impl View for EnrollmentTokenOptionView {
    type V = (Seq<char>, Seq<char>, Seq<char>, bool);

    open spec fn view(&self) -> (Seq<char>, Seq<char>, Seq<char>, bool) {
        (self.enrollment_token_uuid@, self.label@, self.status@, self.selected)
    }
}

/// The row of the token list: a token can be revoked until it is.
pub open spec fn token_row(t: EnrollmentTokenRecord, now: Timestamp) -> (
    Seq<char>,
    Seq<char>,
    Seq<char>,
    bool,
) {
    (ids::uuid_text(t.enrollment_token_uuid), t.label@, token_status_at(t, now), t.revoked_at is None)
}

pub fn enrollment_token_rows(tokens: &[EnrollmentTokenRecord], now: Timestamp) -> (r: Vec<
    EnrollmentTokenRowView,
>)
    ensures
        r@.map_values(|v: EnrollmentTokenRowView| v@) == tokens@.map_values(
            |t: EnrollmentTokenRecord| token_row(t, now),
        ),
{
    let mut r: Vec<EnrollmentTokenRowView> = Vec::new();
    let mut i: usize = 0;
    while i < tokens.len()
        invariant
            i <= tokens@.len(),
            r@.map_values(|v: EnrollmentTokenRowView| v@) == tokens@.take(i as int).map_values(
                |t: EnrollmentTokenRecord| token_row(t, now),
            ),
        decreases tokens@.len() - i,
    {
        let token = &tokens[i];
        let row = EnrollmentTokenRowView {
            enrollment_token_uuid: ids::uuid_to_string(token.enrollment_token_uuid),
            label: token.label.clone(),
            status: enrollment_token_status_at(token, now),
            can_revoke: token.revoked_at.is_none(),
        };
        let ghost prev = r@;
        r.push(row);
        assert(r@.map_values(|v: EnrollmentTokenRowView| v@) =~= prev.map_values(
            |v: EnrollmentTokenRowView| v@,
        ).push(row@));
        assert(tokens@.take(i + 1).map_values(|t: EnrollmentTokenRecord| token_row(t, now))
            =~= tokens@.take(i as int).map_values(|t: EnrollmentTokenRecord| token_row(t, now)).push(
            token_row(tokens@[i as int], now),
        ));
        i += 1;
    }
    assert(tokens@.take(tokens@.len() as int) == tokens@);
    r
}

/// The token the deployment page preselects: the one asked for, else the first listed.
pub open spec fn selected_token(tokens: Seq<EnrollmentTokenRecord>, requested: Option<u128>) -> Option<
    u128,
> {
    if requested is Some {
        requested
    } else if tokens.len() > 0 {
        Some(tokens[0].enrollment_token_uuid)
    } else {
        None
    }
}

/// The choice a token gives on the deployment page.
pub open spec fn token_option(t: EnrollmentTokenRecord, now: Timestamp, selected: Option<u128>) -> (
    Seq<char>,
    Seq<char>,
    Seq<char>,
    bool,
) {
    (
        ids::uuid_text(t.enrollment_token_uuid),
        t.label@,
        token_status_at(t, now),
        selected == Some(t.enrollment_token_uuid),
    )
}

pub fn deployment_token_options(
    tokens: &[EnrollmentTokenRecord],
    requested: Option<u128>,
    now: Timestamp,
) -> (r: Vec<EnrollmentTokenOptionView>)
    ensures
        r@.map_values(|v: EnrollmentTokenOptionView| v@) == tokens@.map_values(
            |t: EnrollmentTokenRecord| token_option(t, now, selected_token(tokens@, requested)),
        ),
{
    let selected = match requested {
        Some(u) => Some(u),
        None => if tokens.len() > 0 {
            Some(tokens[0].enrollment_token_uuid)
        } else {
            None
        },
    };
    assert(selected == selected_token(tokens@, requested));
    let mut r: Vec<EnrollmentTokenOptionView> = Vec::new();
    let mut i: usize = 0;
    while i < tokens.len()
        invariant
            i <= tokens@.len(),
            r@.map_values(|v: EnrollmentTokenOptionView| v@) == tokens@.take(i as int).map_values(
                |t: EnrollmentTokenRecord| token_option(t, now, selected),
            ),
        decreases tokens@.len() - i,
    {
        let token = &tokens[i];
        let option = EnrollmentTokenOptionView {
            enrollment_token_uuid: ids::uuid_to_string(token.enrollment_token_uuid),
            label: token.label.clone(),
            status: enrollment_token_status_at(token, now),
            selected: selected == Some(token.enrollment_token_uuid),
        };
        let ghost prev = r@;
        r.push(option);
        assert(r@.map_values(|v: EnrollmentTokenOptionView| v@) =~= prev.map_values(
            |v: EnrollmentTokenOptionView| v@,
        ).push(option@));
        assert(tokens@.take(i + 1).map_values(
            |t: EnrollmentTokenRecord| token_option(t, now, selected),
        ) =~= tokens@.take(i as int).map_values(
            |t: EnrollmentTokenRecord| token_option(t, now, selected),
        ).push(token_option(tokens@[i as int], now, selected)));
        i += 1;
    }
    assert(tokens@.take(tokens@.len() as int) == tokens@);
    r
}

/// The token the deployment scripts carry until an operator pastes a real one.
pub const DEPLOYMENT_TOKEN_PLACEHOLDER: &'static str = "REPLACE_WITH_ENROLLMENT_TOKEN";

/// The address of the OpenDesk server that the deployment scripts call.
pub const DEPLOYMENT_BASE_URL: &'static str = "https://rd-admin.example.com";

/// The deployment page: the token choices, the Linux, macOS and Windows
/// scripts for the server configuration with the placeholder token, and the
/// file name that configures a Windows installer for the servers.
pub fn deployment_view(
    config: &ServerConfig,
    tokens: &[EnrollmentTokenRecord],
    requested: Option<u128>,
    now: Timestamp,
) -> (r: DeploymentView)
    ensures
        r.title@ == "Deployment"@,
        r.show_nav,
        r.tokens@.map_values(|v: EnrollmentTokenOptionView| v@) == tokens@.map_values(
            |t: EnrollmentTokenRecord| token_option(t, now, selected_token(tokens@, requested)),
        ),
        r.enrollment_token_value@ == DEPLOYMENT_TOKEN_PLACEHOLDER@,
        r.public_base_url@ == DEPLOYMENT_BASE_URL@,
        r.linux_script@ == crate::deployment::linux_script::linux_script(
            DEPLOYMENT_BASE_URL@,
            DEPLOYMENT_TOKEN_PLACEHOLDER@,
            *config,
        ),
        r.macos_script@ == crate::deployment::macos_script::macos_script(
            DEPLOYMENT_BASE_URL@,
            DEPLOYMENT_TOKEN_PLACEHOLDER@,
            *config,
        ),
        r.windows_script@ == crate::deployment::windows_script::windows_script(
            DEPLOYMENT_BASE_URL@,
            DEPLOYMENT_TOKEN_PLACEHOLDER@,
            *config,
        ),
        r.installer_filename@ == crate::deployment::filename_config::custom_server_filename(*config),
{
    let token_options = deployment_token_options(tokens, requested, now);
    let linux_script = render_linux_deployment_script(
        &LinuxDeploymentScriptInput {
            server_config: config,
            enrollment_token: DEPLOYMENT_TOKEN_PLACEHOLDER,
            opendesk_base_url: DEPLOYMENT_BASE_URL,
        },
    );
    let macos_script = render_macos_deployment_script(
        &MacosDeploymentScriptInput {
            server_config: config,
            enrollment_token: DEPLOYMENT_TOKEN_PLACEHOLDER,
            opendesk_base_url: DEPLOYMENT_BASE_URL,
        },
    );
    let windows_script = render_windows_deployment_script(
        &WindowsDeploymentScriptInput {
            server_config: config,
            enrollment_token: DEPLOYMENT_TOKEN_PLACEHOLDER,
            opendesk_base_url: DEPLOYMENT_BASE_URL,
        },
    );
    DeploymentView {
        title: String::from_str("Deployment"),
        show_nav: true,
        tokens: token_options,
        enrollment_token_value: String::from_str(DEPLOYMENT_TOKEN_PLACEHOLDER),
        public_base_url: String::from_str(DEPLOYMENT_BASE_URL),
        linux_script,
        macos_script,
        windows_script,
        installer_filename: generate_filename_custom_server(config),
    }
}

impl View for SiteRowView {
    type V = (Seq<char>, Seq<char>);

    open spec fn view(&self) -> (Seq<char>, Seq<char>) {
        (self.site_uuid@, self.name@)
    }
}

impl View for TagRowView {
    type V = (Seq<char>, Seq<char>);

    open spec fn view(&self) -> (Seq<char>, Seq<char>) {
        (self.tag_uuid@, self.name@)
    }
}

/// The row a site shows in the sites list.
pub open spec fn site_row(site: Site) -> (Seq<char>, Seq<char>) {
    (ids::uuid_text(site.site_uuid), site.name@)
}

/// The row a tag shows in the tags list.
pub open spec fn tag_row(tag: Tag) -> (Seq<char>, Seq<char>) {
    (ids::uuid_text(tag.tag_uuid), tag.name@)
}

/// The rows of the sites list, in the order given.
pub fn site_rows(sites: &[Site]) -> (r: Vec<SiteRowView>)
    ensures
        r@.map_values(|v: SiteRowView| v@) == sites@.map_values(|s: Site| site_row(s)),
{
    let mut r: Vec<SiteRowView> = Vec::new();
    let mut i: usize = 0;
    while i < sites.len()
        invariant
            i <= sites@.len(),
            r@.map_values(|v: SiteRowView| v@) == sites@.take(i as int).map_values(|s: Site| site_row(s)),
        decreases sites@.len() - i,
    {
        let row = SiteRowView { site_uuid: ids::uuid_to_string(sites[i].site_uuid), name: sites[i].name.clone() };
        let ghost prev = r@;
        r.push(row);
        assert(r@.map_values(|v: SiteRowView| v@) =~= prev.map_values(|v: SiteRowView| v@).push(row@));
        assert(sites@.take(i + 1).map_values(|s: Site| site_row(s)) =~= sites@.take(i as int).map_values(
            |s: Site| site_row(s),
        ).push(site_row(sites@[i as int])));
        i += 1;
    }
    assert(sites@.take(sites@.len() as int) == sites@);
    r
}

/// The rows of the tags list, in the order given.
pub fn tag_rows(tags: &[Tag]) -> (r: Vec<TagRowView>)
    ensures
        r@.map_values(|v: TagRowView| v@) == tags@.map_values(|t: Tag| tag_row(t)),
{
    let mut r: Vec<TagRowView> = Vec::new();
    let mut i: usize = 0;
    while i < tags.len()
        invariant
            i <= tags@.len(),
            r@.map_values(|v: TagRowView| v@) == tags@.take(i as int).map_values(|t: Tag| tag_row(t)),
        decreases tags@.len() - i,
    {
        let row = TagRowView { tag_uuid: ids::uuid_to_string(tags[i].tag_uuid), name: tags[i].name.clone() };
        let ghost prev = r@;
        r.push(row);
        assert(r@.map_values(|v: TagRowView| v@) =~= prev.map_values(|v: TagRowView| v@).push(row@));
        assert(tags@.take(i + 1).map_values(|t: Tag| tag_row(t)) =~= tags@.take(i as int).map_values(
            |t: Tag| tag_row(t),
        ).push(tag_row(tags@[i as int])));
        i += 1;
    }
    assert(tags@.take(tags@.len() as int) == tags@);
    r
}

/// The server configuration an operator submitted; an omitted API server or
/// public key is empty.
pub fn server_config_from_form(
    id_server: String,
    relay_server: String,
    api_server: Option<String>,
    public_key: Option<String>,
) -> (r: ServerConfig)
    ensures
        r.id_server == id_server,
        r.relay_server == relay_server,
        r.api_server@ == (match api_server {
            Some(s) => s@,
            None => Seq::<char>::empty(),
        }),
        r.public_key@ == (match public_key {
            Some(s) => s@,
            None => Seq::<char>::empty(),
        }),
{
    ServerConfig {
        id_server,
        relay_server,
        api_server: text_or_empty(api_server),
        public_key: text_or_empty(public_key),
    }
}

} // verus!
