use vstd::prelude::*;

use crate::domain::server_config::ServerConfig;
use crate::text::contains_sub;

verus! {

/// Script text piece 0 of the linux deployment script.
pub const LINUX_SCRIPT_PART_0: &'static str = r##"#!/usr/bin/env bash
set -euo pipefail

OPENDESK_BASE_URL=""##;
/// Script text piece 1 of the linux deployment script.
pub const LINUX_SCRIPT_PART_1: &'static str = r##""
ENROLLMENT_TOKEN=""##;
/// Script text piece 2 of the linux deployment script.
pub const LINUX_SCRIPT_PART_2: &'static str = r##""
ID_SERVER=""##;
/// Script text piece 3 of the linux deployment script.
pub const LINUX_SCRIPT_PART_3: &'static str = r##""
RELAY_SERVER=""##;
/// Script text piece 4 of the linux deployment script.
pub const LINUX_SCRIPT_PART_4: &'static str = r##""
API_SERVER=""##;
/// Script text piece 5 of the linux deployment script.
pub const LINUX_SCRIPT_PART_5: &'static str = r##""
PUBLIC_KEY=""##;
/// Script text piece 6 of the linux deployment script: the quote that closes the last value.
pub const LINUX_SCRIPT_PART_6: &'static str = "\"";
/// Script text piece 7 of the linux deployment script.
pub const LINUX_SCRIPT_PART_7: &'static str = r##"

if ! command -v rustdesk >/dev/null 2>&1; then
  echo "rustdesk client is required; install the official package first" >&2
  exit 1
fi

rustdesk --option custom-rendezvous-server "${ID_SERVER}"
rustdesk --option relay-server "${RELAY_SERVER}"
if [ -n "${API_SERVER}" ]; then
  rustdesk --option api-server "${API_SERVER}"
fi
if [ -n "${PUBLIC_KEY}" ]; then
  rustdesk --option key "${PUBLIC_KEY}"
fi

RUSTDESK_ID="$(rustdesk --get-id 2>/dev/null || true)"
HOSTNAME_VALUE="$(hostname)"
OS_FAMILY="linux"
ARCH_VALUE="$(uname -m)"

CHECKIN_HTTP_CODE="$(curl -fsS -o /dev/null -w '%{http_code}' -X POST "${OPENDESK_BASE_URL}/api/enrollments/check-in" \
  -H "Content-Type: application/json" \
  -d "{\"enrollment_token\":\"${ENROLLMENT_TOKEN}\",\"rustdesk_id\":\"${RUSTDESK_ID}\",\"hostname\":\"${HOSTNAME_VALUE}\",\"os_family\":\"${OS_FAMILY}\",\"architecture\":\"${ARCH_VALUE}\"}")"
echo "opendesk enrollment check-in http_status=${CHECKIN_HTTP_CODE}"
if [ "${CHECKIN_HTTP_CODE}" != "204" ]; then
  echo "opendesk enrollment check-in failed" >&2
  exit 1
fi
"##;

/// What the linux deployment script needs.
pub struct LinuxDeploymentScriptInput<'a> {
    pub server_config: &'a ServerConfig,
    pub enrollment_token: &'a str,
    pub opendesk_base_url: &'a str,
}

/// The linux deployment script: the fixed script text with the base URL, the
/// enrollment token and the four server values written into its variables.
pub open spec fn linux_script(base_url: Seq<char>, token: Seq<char>, config: ServerConfig) -> Seq<char> {
    LINUX_SCRIPT_PART_0@ + base_url + LINUX_SCRIPT_PART_1@ + token + LINUX_SCRIPT_PART_2@ + config.id_server@ + LINUX_SCRIPT_PART_3@ + config.relay_server@ + LINUX_SCRIPT_PART_4@ + config.api_server@ + LINUX_SCRIPT_PART_5@ + config.public_key@ + LINUX_SCRIPT_PART_6@ + LINUX_SCRIPT_PART_7@
}

pub fn render_linux_deployment_script(input: &LinuxDeploymentScriptInput<'_>) -> (r: String)
    ensures
        r@ == linux_script(input.opendesk_base_url@, input.enrollment_token@, *input.server_config),
{
    let mut r = String::new();
    r.append(LINUX_SCRIPT_PART_0);
    r.append(input.opendesk_base_url);
    r.append(LINUX_SCRIPT_PART_1);
    r.append(input.enrollment_token);
    r.append(LINUX_SCRIPT_PART_2);
    r.append(input.server_config.id_server.as_str());
    r.append(LINUX_SCRIPT_PART_3);
    r.append(input.server_config.relay_server.as_str());
    r.append(LINUX_SCRIPT_PART_4);
    r.append(input.server_config.api_server.as_str());
    r.append(LINUX_SCRIPT_PART_5);
    r.append(input.server_config.public_key.as_str());
    r.append(LINUX_SCRIPT_PART_6);
    r.append(LINUX_SCRIPT_PART_7);
    r
}

/// The linux script gives each of its six variables the value it was handed:
/// it holds the line `NAME="value"` for the base URL, the enrollment token,
/// the ID server, the relay server, the API server and the public key.
pub proof fn lemma_linux_script_assigns_variables(base_url: Seq<char>, token: Seq<char>, config: ServerConfig)
    ensures
        contains_sub(linux_script(base_url, token, config), "\nOPENDESK_BASE_URL=\""@ + base_url + "\""@),
        contains_sub(linux_script(base_url, token, config), "\nENROLLMENT_TOKEN=\""@ + token + "\""@),
        contains_sub(linux_script(base_url, token, config), "\nID_SERVER=\""@ + config.id_server@ + "\""@),
        contains_sub(linux_script(base_url, token, config), "\nRELAY_SERVER=\""@ + config.relay_server@ + "\""@),
        contains_sub(linux_script(base_url, token, config), "\nAPI_SERVER=\""@ + config.api_server@ + "\""@),
        contains_sub(linux_script(base_url, token, config), "\nPUBLIC_KEY=\""@ + config.public_key@ + "\""@),
{
    let s = linux_script(base_url, token, config);
    reveal_strlit("\"");
    reveal_strlit("#!/usr/bin/env bash\nset -euo pipefail\n\nOPENDESK_BASE_URL=\"");
    reveal_strlit("#!/usr/bin/env bash\nset -euo pipefail\n");
    reveal_strlit("\nOPENDESK_BASE_URL=\"");
    reveal_strlit("\"\nENROLLMENT_TOKEN=\"");
    reveal_strlit("\nENROLLMENT_TOKEN=\"");
    reveal_strlit("\"\nID_SERVER=\"");
    reveal_strlit("\nID_SERVER=\"");
    reveal_strlit("\"\nRELAY_SERVER=\"");
    reveal_strlit("\nRELAY_SERVER=\"");
    reveal_strlit("\"\nAPI_SERVER=\"");
    reveal_strlit("\nAPI_SERVER=\"");
    reveal_strlit("\"\nPUBLIC_KEY=\"");
    reveal_strlit("\nPUBLIC_KEY=\"");
    let q = "\""@;
    let p0a = "#!/usr/bin/env bash\nset -euo pipefail\n"@;
    let n0 = "\nOPENDESK_BASE_URL=\""@;
    let n1 = "\nENROLLMENT_TOKEN=\""@;
    let n2 = "\nID_SERVER=\""@;
    let n3 = "\nRELAY_SERVER=\""@;
    let n4 = "\nAPI_SERVER=\""@;
    let n5 = "\nPUBLIC_KEY=\""@;
    assert(LINUX_SCRIPT_PART_0@ =~= p0a + n0);
    assert(LINUX_SCRIPT_PART_1@ =~= q + n1);
    assert(LINUX_SCRIPT_PART_2@ =~= q + n2);
    assert(LINUX_SCRIPT_PART_3@ =~= q + n3);
    assert(LINUX_SCRIPT_PART_4@ =~= q + n4);
    assert(LINUX_SCRIPT_PART_5@ =~= q + n5);
    assert(LINUX_SCRIPT_PART_6@ =~= q);
    let id = config.id_server@;
    let relay = config.relay_server@;
    let api = config.api_server@;
    let pk = config.public_key@;
    let tail = LINUX_SCRIPT_PART_7@;
    let v0 = n0 + base_url + q;
    let v1 = n1 + token + q;
    let v2 = n2 + id + q;
    let v3 = n3 + relay + q;
    let v4 = n4 + api + q;
    let v5 = n5 + pk + q;
    let l0 = p0a.len() as int;
    assert(s.subrange(l0, l0 + v0.len()) =~= v0);
    let l1 = (p0a + n0 + base_url + q).len() as int;
    assert(s.subrange(l1, l1 + v1.len()) =~= v1);
    let l2 = (p0a + n0 + base_url + q + n1 + token + q).len() as int;
    assert(s.subrange(l2, l2 + v2.len()) =~= v2);
    let l3 = (p0a + n0 + base_url + q + n1 + token + q + n2 + id + q).len() as int;
    assert(s.subrange(l3, l3 + v3.len()) =~= v3);
    let l4 = (p0a + n0 + base_url + q + n1 + token + q + n2 + id + q + n3 + relay + q).len() as int;
    assert(s.subrange(l4, l4 + v4.len()) =~= v4);
    let l5 = (p0a + n0 + base_url + q + n1 + token + q + n2 + id + q + n3 + relay + q + n4 + api + q).len() as int;
    assert(s.subrange(l5, l5 + v5.len()) =~= v5);
}

} // verus!
