use vstd::prelude::*;

use crate::domain::device;
use crate::domain::health;
use crate::domain::server_config::ServerConfig;
use crate::text;
use crate::text::push_char;

verus! {

/// The port the explicit connection helper names by default (the relay port).
pub const EXPLICIT_HELPER_DEFAULT_PORT: u16 = 21117;

/// The default helper: the trimmed RustDesk ID, when there is one.
pub fn generate_default_server_helper(rustdesk_id: Option<&str>) -> (r: Option<String>)
    ensures
        r.deep_view() == device::norm_opt(device::opt_str(rustdesk_id)),
{
    match rustdesk_id {
        Some(id) => {
            let t = text::trim_str(id);
            if t.as_str().is_empty() {
                None
            } else {
                Some(t)
            }
        },
        None => None,
    }
}

/// The explicit helper `ID@HOST:PORT?key=KEY`, when the ID, the host of the
/// ID server and the public key are all present.
pub open spec fn explicit_helper(rustdesk_id: Option<Seq<char>>, config: ServerConfig, port: u16) -> Option<
    Seq<char>,
> {
    match rustdesk_id {
        Some(raw) => {
            let id = text::trim(raw);
            let host = health::host_part(config.id_server@);
            let key = text::trim(config.public_key@);
            if id.len() == 0 || host.len() == 0 || key.len() == 0 {
                None
            } else {
                Some(id + "@"@ + host + ":"@ + text::decimal(port as nat) + "?key="@ + key)
            }
        },
        None => None,
    }
}

pub fn generate_explicit_server_helper(rustdesk_id: Option<&str>, config: &ServerConfig, port: u16) -> (r:
    Option<String>)
    ensures
        r.deep_view() == explicit_helper(device::opt_str(rustdesk_id), *config, port),
{
    let raw = match rustdesk_id {
        Some(raw) => raw,
        None => {
            return None;
        },
    };
    let id = text::trim_str(raw);
    let host = health::host_from_server_value(config.id_server.as_str());
    let key = text::trim_str(config.public_key.as_str());
    if id.as_str().is_empty() || host.as_str().is_empty() || key.as_str().is_empty() {
        return None;
    }
    let mut r = id;
    push_char(&mut r, '@');
    r.append(host.as_str());
    push_char(&mut r, ':');
    let port_text = text::u64_to_decimal(port as u64);
    r.append(port_text.as_str());
    r.append("?key=");
    r.append(key.as_str());
    proof {
        reveal_strlit("@");
        reveal_strlit(":");
    }
    Some(r)
}

pub fn explicit_server_helper_for_device(rustdesk_id: Option<&str>, config: &ServerConfig) -> (r:
    Option<String>)
    ensures
        r.deep_view() == explicit_helper(
            device::opt_str(rustdesk_id),
            *config,
            EXPLICIT_HELPER_DEFAULT_PORT,
        ),
{
    generate_explicit_server_helper(rustdesk_id, config, EXPLICIT_HELPER_DEFAULT_PORT)
}

} // verus!
