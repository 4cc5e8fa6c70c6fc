use vstd::prelude::*;

use crate::deployment::linux_script::{
    LINUX_SCRIPT_PART_0, LINUX_SCRIPT_PART_1, LINUX_SCRIPT_PART_2, LINUX_SCRIPT_PART_3,
    LINUX_SCRIPT_PART_4, LINUX_SCRIPT_PART_5, LINUX_SCRIPT_PART_6,
};
use crate::domain::server_config::ServerConfig;
use crate::text::contains_sub;

verus! {

/// The macOS steps that follow the variable block shared with the Linux
/// script (after the quote that closes its last value): configure the RustDesk app bundle, then check in as `macos`.
pub const MACOS_SCRIPT_TAIL: &'static str = r##"

RUSTDESK_BIN="/Applications/RustDesk.app/Contents/MacOS/RustDesk"
if [ ! -x "${RUSTDESK_BIN}" ]; then
  echo "RustDesk.app is required; install the official release first" >&2
  exit 1
fi

"${RUSTDESK_BIN}" --option custom-rendezvous-server "${ID_SERVER}"
"${RUSTDESK_BIN}" --option relay-server "${RELAY_SERVER}"
if [ -n "${API_SERVER}" ]; then
  "${RUSTDESK_BIN}" --option api-server "${API_SERVER}"
fi
if [ -n "${PUBLIC_KEY}" ]; then
  "${RUSTDESK_BIN}" --option key "${PUBLIC_KEY}"
fi

RUSTDESK_ID="$("${RUSTDESK_BIN}" --get-id 2>/dev/null || true)"
HOSTNAME_VALUE="$(scutil --get LocalHostName 2>/dev/null || hostname)"
OS_FAMILY="macos"
ARCH_VALUE="$(uname -m)"

CHECKIN_HTTP_CODE="$(curl -fsS -o /dev/null -w '%{http_code}' -X POST "${OPENDESK_BASE_URL}/api/enrollments/check-in" \
  -H "Content-Type: application/json" \
  -d "{\"enrollment_token\":\"${ENROLLMENT_TOKEN}\",\"rustdesk_id\":\"${RUSTDESK_ID}\",\"hostname\":\"${HOSTNAME_VALUE}\",\"os_family\":\"${OS_FAMILY}\",\"architecture\":\"${ARCH_VALUE}\"}")"
echo "opendesk enrollment check-in http_status=${CHECKIN_HTTP_CODE}"
if [ "${CHECKIN_HTTP_CODE}" != "204" ]; then
  echo "opendesk enrollment check-in failed" >&2
  exit 1
fi
"##;

/// What the macOS deployment script needs.
pub struct MacosDeploymentScriptInput<'a> {
    pub server_config: &'a ServerConfig,
    pub enrollment_token: &'a str,
    pub opendesk_base_url: &'a str,
}

/// The macOS deployment script: the variable block of the Linux script with
/// the base URL, the enrollment token and the four server values, then the
/// macOS steps, which report the platform as `macos`.
pub open spec fn macos_script(base_url: Seq<char>, token: Seq<char>, config: ServerConfig) -> Seq<char> {
    LINUX_SCRIPT_PART_0@ + base_url + LINUX_SCRIPT_PART_1@ + token + LINUX_SCRIPT_PART_2@
        + config.id_server@ + LINUX_SCRIPT_PART_3@ + config.relay_server@ + LINUX_SCRIPT_PART_4@
        + config.api_server@ + LINUX_SCRIPT_PART_5@ + config.public_key@ + LINUX_SCRIPT_PART_6@ + MACOS_SCRIPT_TAIL@
}

pub fn render_macos_deployment_script(input: &MacosDeploymentScriptInput<'_>) -> (r: String)
    ensures
        r@ == macos_script(input.opendesk_base_url@, input.enrollment_token@, *input.server_config),
{
    let mut r = String::new();
    r.append(LINUX_SCRIPT_PART_0);
    r.append(input.opendesk_base_url);
    r.append(LINUX_SCRIPT_PART_1);
    r.append(input.enrollment_token);
    r.append(LINUX_SCRIPT_PART_2);
    r.append(input.server_config.id_server.as_str());
    r.append(LINUX_SCRIPT_PART_3);
    r.append(input.server_config.relay_server.as_str());
    r.append(LINUX_SCRIPT_PART_4);
    r.append(input.server_config.api_server.as_str());
    r.append(LINUX_SCRIPT_PART_5);
    r.append(input.server_config.public_key.as_str());
    r.append(LINUX_SCRIPT_PART_6);
    r.append(MACOS_SCRIPT_TAIL);
    r
}

/// The macOS script gives each of its six variables the value it was handed:
/// it holds the line `NAME="value"` for the base URL, the enrollment token,
/// the ID server, the relay server, the API server and the public key.
pub proof fn lemma_macos_script_assigns_variables(base_url: Seq<char>, token: Seq<char>, config: ServerConfig)
    ensures
        contains_sub(macos_script(base_url, token, config), "\nOPENDESK_BASE_URL=\""@ + base_url + "\""@),
        contains_sub(macos_script(base_url, token, config), "\nENROLLMENT_TOKEN=\""@ + token + "\""@),
        contains_sub(macos_script(base_url, token, config), "\nID_SERVER=\""@ + config.id_server@ + "\""@),
        contains_sub(macos_script(base_url, token, config), "\nRELAY_SERVER=\""@ + config.relay_server@ + "\""@),
        contains_sub(macos_script(base_url, token, config), "\nAPI_SERVER=\""@ + config.api_server@ + "\""@),
        contains_sub(macos_script(base_url, token, config), "\nPUBLIC_KEY=\""@ + config.public_key@ + "\""@),
{
    let s = macos_script(base_url, token, config);
    reveal_strlit("\"");
    reveal_strlit("#!/usr/bin/env bash\nset -euo pipefail\n\nOPENDESK_BASE_URL=\"");
    reveal_strlit("#!/usr/bin/env bash\nset -euo pipefail\n");
    reveal_strlit("\nOPENDESK_BASE_URL=\"");
    reveal_strlit("\nENROLLMENT_TOKEN=\"");
    reveal_strlit("\nID_SERVER=\"");
    reveal_strlit("\nRELAY_SERVER=\"");
    reveal_strlit("\nAPI_SERVER=\"");
    reveal_strlit("\nPUBLIC_KEY=\"");
    reveal_strlit("\"\nENROLLMENT_TOKEN=\"");
    reveal_strlit("\"\nID_SERVER=\"");
    reveal_strlit("\"\nRELAY_SERVER=\"");
    reveal_strlit("\"\nAPI_SERVER=\"");
    reveal_strlit("\"\nPUBLIC_KEY=\"");
    let q = "\""@;
    let p0a = "#!/usr/bin/env bash\nset -euo pipefail\n"@;
    let n0 = "\nOPENDESK_BASE_URL=\""@;
    let n1 = "\nENROLLMENT_TOKEN=\""@;
    let n2 = "\nID_SERVER=\""@;
    let n3 = "\nRELAY_SERVER=\""@;
    let n4 = "\nAPI_SERVER=\""@;
    let n5 = "\nPUBLIC_KEY=\""@;
    assert(LINUX_SCRIPT_PART_0@ =~= p0a + n0);
    assert(LINUX_SCRIPT_PART_1@ =~= q + n1);
    assert(LINUX_SCRIPT_PART_2@ =~= q + n2);
    assert(LINUX_SCRIPT_PART_3@ =~= q + n3);
    assert(LINUX_SCRIPT_PART_4@ =~= q + n4);
    assert(LINUX_SCRIPT_PART_5@ =~= q + n5);
    assert(LINUX_SCRIPT_PART_6@ =~= q);
    let v0 = n0 + base_url + q;
    let v1 = n1 + token + q;
    let v2 = n2 + config.id_server@ + q;
    let v3 = n3 + config.relay_server@ + q;
    let v4 = n4 + config.api_server@ + q;
    let v5 = n5 + config.public_key@ + q;
    let l0 = (p0a).len() as int;
    assert(s.subrange(l0, l0 + v0.len()) =~= v0);
    let l1 = (p0a + n0 + base_url + q).len() as int;
    assert(s.subrange(l1, l1 + v1.len()) =~= v1);
    let l2 = (p0a + n0 + base_url + q + n1 + token + q).len() as int;
    assert(s.subrange(l2, l2 + v2.len()) =~= v2);
    let l3 = (p0a + n0 + base_url + q + n1 + token + q + n2 + config.id_server@ + q).len() as int;
    assert(s.subrange(l3, l3 + v3.len()) =~= v3);
    let l4 = (p0a + n0 + base_url + q + n1 + token + q + n2 + config.id_server@ + q + n3 + config.relay_server@ + q).len() as int;
    assert(s.subrange(l4, l4 + v4.len()) =~= v4);
    let l5 = (p0a + n0 + base_url + q + n1 + token + q + n2 + config.id_server@ + q + n3 + config.relay_server@ + q + n4 + config.api_server@ + q).len() as int;
    assert(s.subrange(l5, l5 + v5.len()) =~= v5);
}

} // verus!
