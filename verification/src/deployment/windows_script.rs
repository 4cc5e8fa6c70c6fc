use vstd::prelude::*;

use crate::domain::server_config::ServerConfig;
use crate::text::contains_sub;

verus! {

/// Script text piece 0 of the windows deployment script.
pub const WINDOWS_SCRIPT_PART_0: &'static str = r##"#requires -Version 5.1
$ErrorActionPreference = "Stop"

$OpenDeskBaseUrl = ""##;
/// Script text piece 1 of the windows deployment script.
pub const WINDOWS_SCRIPT_PART_1: &'static str = r##""
$EnrollmentToken = ""##;
/// Script text piece 2 of the windows deployment script.
pub const WINDOWS_SCRIPT_PART_2: &'static str = r##""
$IdServer = ""##;
/// Script text piece 3 of the windows deployment script.
pub const WINDOWS_SCRIPT_PART_3: &'static str = r##""
$RelayServer = ""##;
/// Script text piece 4 of the windows deployment script.
pub const WINDOWS_SCRIPT_PART_4: &'static str = r##""
$ApiServer = ""##;
/// Script text piece 5 of the windows deployment script.
pub const WINDOWS_SCRIPT_PART_5: &'static str = r##""
$PublicKey = ""##;
/// Script text piece 6 of the windows deployment script: the quote that closes the last value.
pub const WINDOWS_SCRIPT_PART_6: &'static str = "\"";
/// Script text piece 7 of the windows deployment script.
pub const WINDOWS_SCRIPT_PART_7: &'static str = r##"

$RustDeskCmd = Get-Command rustdesk -ErrorAction SilentlyContinue
if (-not $RustDeskCmd) {
    throw "rustdesk client is required; install the official package first"
}

& rustdesk --option custom-rendezvous-server $IdServer
& rustdesk --option relay-server $RelayServer
if ($ApiServer) {
    & rustdesk --option api-server $ApiServer
}
if ($PublicKey) {
    & rustdesk --option key $PublicKey
}

$RustDeskId = (& rustdesk --get-id 2>$null)
if (-not $RustDeskId) { $RustDeskId = "" }
$HostnameValue = $env:COMPUTERNAME
$OsFamily = "windows"
$ArchValue = $env:PROCESSOR_ARCHITECTURE

$Body = @{
    enrollment_token = $EnrollmentToken
    rustdesk_id = $RustDeskId
    hostname = $HostnameValue
    os_family = $OsFamily
    architecture = $ArchValue
} | ConvertTo-Json -Compress

Invoke-RestMethod -Method Post -Uri "$OpenDeskBaseUrl/api/enrollments/check-in" -ContentType "application/json" -Body $Body
"##;

/// What the windows deployment script needs.
pub struct WindowsDeploymentScriptInput<'a> {
    pub server_config: &'a ServerConfig,
    pub enrollment_token: &'a str,
    pub opendesk_base_url: &'a str,
}

/// The windows deployment script: the fixed script text with the base URL, the
/// enrollment token and the four server values written into its variables.
pub open spec fn windows_script(base_url: Seq<char>, token: Seq<char>, config: ServerConfig) -> Seq<char> {
    WINDOWS_SCRIPT_PART_0@ + base_url + WINDOWS_SCRIPT_PART_1@ + token + WINDOWS_SCRIPT_PART_2@ + config.id_server@ + WINDOWS_SCRIPT_PART_3@ + config.relay_server@ + WINDOWS_SCRIPT_PART_4@ + config.api_server@ + WINDOWS_SCRIPT_PART_5@ + config.public_key@ + WINDOWS_SCRIPT_PART_6@ + WINDOWS_SCRIPT_PART_7@
}

pub fn render_windows_deployment_script(input: &WindowsDeploymentScriptInput<'_>) -> (r: String)
    ensures
        r@ == windows_script(input.opendesk_base_url@, input.enrollment_token@, *input.server_config),
{
    let mut r = String::new();
    r.append(WINDOWS_SCRIPT_PART_0);
    r.append(input.opendesk_base_url);
    r.append(WINDOWS_SCRIPT_PART_1);
    r.append(input.enrollment_token);
    r.append(WINDOWS_SCRIPT_PART_2);
    r.append(input.server_config.id_server.as_str());
    r.append(WINDOWS_SCRIPT_PART_3);
    r.append(input.server_config.relay_server.as_str());
    r.append(WINDOWS_SCRIPT_PART_4);
    r.append(input.server_config.api_server.as_str());
    r.append(WINDOWS_SCRIPT_PART_5);
    r.append(input.server_config.public_key.as_str());
    r.append(WINDOWS_SCRIPT_PART_6);
    r.append(WINDOWS_SCRIPT_PART_7);
    r
}

/// The Windows script gives each of its six variables the value it was handed:
/// it holds the line `$Name = "value"` for the base URL, the enrollment token,
/// the ID server, the relay server, the API server and the public key.
pub proof fn lemma_windows_script_assigns_variables(base_url: Seq<char>, token: Seq<char>, config: ServerConfig)
    ensures
        contains_sub(windows_script(base_url, token, config), "\n$OpenDeskBaseUrl = \""@ + base_url + "\""@),
        contains_sub(windows_script(base_url, token, config), "\n$EnrollmentToken = \""@ + token + "\""@),
        contains_sub(windows_script(base_url, token, config), "\n$IdServer = \""@ + config.id_server@ + "\""@),
        contains_sub(windows_script(base_url, token, config), "\n$RelayServer = \""@ + config.relay_server@ + "\""@),
        contains_sub(windows_script(base_url, token, config), "\n$ApiServer = \""@ + config.api_server@ + "\""@),
        contains_sub(windows_script(base_url, token, config), "\n$PublicKey = \""@ + config.public_key@ + "\""@),
{
    let s = windows_script(base_url, token, config);
    reveal_strlit("\"");
    reveal_strlit("#requires -Version 5.1\n$ErrorActionPreference = \"Stop\"\n\n$OpenDeskBaseUrl = \"");
    reveal_strlit("#requires -Version 5.1\n$ErrorActionPreference = \"Stop\"\n");
    reveal_strlit("\n$OpenDeskBaseUrl = \"");
    reveal_strlit("\n$EnrollmentToken = \"");
    reveal_strlit("\n$IdServer = \"");
    reveal_strlit("\n$RelayServer = \"");
    reveal_strlit("\n$ApiServer = \"");
    reveal_strlit("\n$PublicKey = \"");
    reveal_strlit("\"\n$EnrollmentToken = \"");
    reveal_strlit("\"\n$IdServer = \"");
    reveal_strlit("\"\n$RelayServer = \"");
    reveal_strlit("\"\n$ApiServer = \"");
    reveal_strlit("\"\n$PublicKey = \"");
    let q = "\""@;
    let p0a = "#requires -Version 5.1\n$ErrorActionPreference = \"Stop\"\n"@;
    let n0 = "\n$OpenDeskBaseUrl = \""@;
    let n1 = "\n$EnrollmentToken = \""@;
    let n2 = "\n$IdServer = \""@;
    let n3 = "\n$RelayServer = \""@;
    let n4 = "\n$ApiServer = \""@;
    let n5 = "\n$PublicKey = \""@;
    assert(WINDOWS_SCRIPT_PART_0@ =~= p0a + n0);
    assert(WINDOWS_SCRIPT_PART_1@ =~= q + n1);
    assert(WINDOWS_SCRIPT_PART_2@ =~= q + n2);
    assert(WINDOWS_SCRIPT_PART_3@ =~= q + n3);
    assert(WINDOWS_SCRIPT_PART_4@ =~= q + n4);
    assert(WINDOWS_SCRIPT_PART_5@ =~= q + n5);
    assert(WINDOWS_SCRIPT_PART_6@ =~= q);
    let v0 = n0 + base_url + q;
    let v1 = n1 + token + q;
    let v2 = n2 + config.id_server@ + q;
    let v3 = n3 + config.relay_server@ + q;
    let v4 = n4 + config.api_server@ + q;
    let v5 = n5 + config.public_key@ + q;
    let l0 = (p0a).len() as int;
    assert(s.subrange(l0, l0 + v0.len()) =~= v0);
    let l1 = (p0a + n0 + base_url + q).len() as int;
    assert(s.subrange(l1, l1 + v1.len()) =~= v1);
    let l2 = (p0a + n0 + base_url + q + n1 + token + q).len() as int;
    assert(s.subrange(l2, l2 + v2.len()) =~= v2);
    let l3 = (p0a + n0 + base_url + q + n1 + token + q + n2 + config.id_server@ + q).len() as int;
    assert(s.subrange(l3, l3 + v3.len()) =~= v3);
    let l4 = (p0a + n0 + base_url + q + n1 + token + q + n2 + config.id_server@ + q + n3 + config.relay_server@ + q).len() as int;
    assert(s.subrange(l4, l4 + v4.len()) =~= v4);
    let l5 = (p0a + n0 + base_url + q + n1 + token + q + n2 + config.id_server@ + q + n3 + config.relay_server@ + q + n4 + config.api_server@ + q).len() as int;
    assert(s.subrange(l5, l5 + v5.len()) =~= v5);
}

} // verus!
