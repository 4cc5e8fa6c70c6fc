use vstd::prelude::*;

use crate::domain::server_config::ServerConfig;
use crate::text;

verus! {

/// The file name a Windows client installer is renamed to so that it starts
/// configured: host, then API and key and relay when known.
pub open spec fn custom_server_filename(config: ServerConfig) -> Seq<char> {
    let host = text::trim(config.id_server@);
    let relay = text::trim(config.relay_server@);
    let key = text::trim(config.public_key@);
    let api = text::trim(config.api_server@);
    if api.len() > 0 && key.len() > 0 {
        "rustdesk-host="@ + host + ",api="@ + api + ",key="@ + key + ",relay="@ + relay + ".exe"@
    } else if key.len() > 0 && relay.len() > 0 {
        "rustdesk-host="@ + host + ",key="@ + key + ",relay="@ + relay + ".exe"@
    } else {
        "rustdesk-host="@ + host + ".exe"@
    }
}

pub fn generate_filename_custom_server(config: &ServerConfig) -> (r: String)
    ensures
        r@ == custom_server_filename(*config),
{
    let host = text::trim_str(config.id_server.as_str());
    let relay = text::trim_str(config.relay_server.as_str());
    let key = text::trim_str(config.public_key.as_str());
    let api = text::trim_str(config.api_server.as_str());
    let mut r = String::from_str("rustdesk-host=");
    r.append(host.as_str());
    if !api.as_str().is_empty() && !key.as_str().is_empty() {
        r.append(",api=");
        r.append(api.as_str());
        r.append(",key=");
        r.append(key.as_str());
        r.append(",relay=");
        r.append(relay.as_str());
    } else if !key.as_str().is_empty() && !relay.as_str().is_empty() {
        r.append(",key=");
        r.append(key.as_str());
        r.append(",relay=");
        r.append(relay.as_str());
    }
    r.append(".exe");
    r
}

/// The installer file name starts with `rustdesk-host=` and the trimmed ID
/// server; when a key is set together with an API or relay server it carries
/// the trimmed key and relay server at its end, and the API server before
/// them when that is set too; otherwise it is the host part alone. It always
/// ends in `.exe`.
pub proof fn lemma_installer_filename_parts(config: ServerConfig)
    ensures
        ({
            let f = custom_server_filename(config);
            let host = text::trim(config.id_server@);
            let relay = text::trim(config.relay_server@);
            let key = text::trim(config.public_key@);
            let api = text::trim(config.api_server@);
            let head = "rustdesk-host="@ + host;
            let tail = ",key="@ + key + ",relay="@ + relay + ".exe"@;
            &&& head.len() <= f.len() && f.subrange(0, head.len() as int) == head
            &&& 4 <= f.len() && f.subrange(f.len() - 4, f.len() as int) == ".exe"@
            &&& (key.len() > 0 && (api.len() > 0 || relay.len() > 0)) ==> (tail.len() <= f.len()
                && f.subrange(f.len() - tail.len(), f.len() as int) == tail)
            &&& (key.len() > 0 && api.len() > 0) ==> f == head + ",api="@ + api + tail
            &&& (key.len() > 0 && api.len() == 0 && relay.len() > 0) ==> f == head + tail
            &&& (key.len() == 0 || (api.len() == 0 && relay.len() == 0)) ==> f == head + ".exe"@
        }),
{
    let f = custom_server_filename(config);
    let host = text::trim(config.id_server@);
    let relay = text::trim(config.relay_server@);
    let key = text::trim(config.public_key@);
    let api = text::trim(config.api_server@);
    let head = "rustdesk-host="@ + host;
    let tail = ",key="@ + key + ",relay="@ + relay + ".exe"@;
    reveal_strlit(".exe");
    if key.len() > 0 && api.len() > 0 {
        assert(f =~= head + (",api="@ + api + tail));
        assert(f.subrange(0, head.len() as int) =~= head);
        assert(f.subrange(f.len() - tail.len(), f.len() as int) =~= tail);
        assert(tail =~= (",key="@ + key + ",relay="@ + relay) + ".exe"@);
        assert(f.subrange(f.len() - 4, f.len() as int) =~= ".exe"@);
    } else if key.len() > 0 && relay.len() > 0 {
        assert(f =~= head + tail);
        assert(f.subrange(0, head.len() as int) =~= head);
        assert(f.subrange(f.len() - tail.len(), f.len() as int) =~= tail);
        assert(f.subrange(f.len() - 4, f.len() as int) =~= ".exe"@);
    } else {
        assert(f.subrange(0, head.len() as int) =~= head);
        assert(f.subrange(f.len() - 4, f.len() as int) =~= ".exe"@);
    }
}

} // verus!
