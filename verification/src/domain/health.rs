use vstd::prelude::*;

use crate::domain::server_config::ServerConfig;
use crate::text;
use crate::text::push_char;

verus! {

/// The TCP port of the RustDesk rendezvous server (hbbs).
pub const HBBS_TCP_PORT: u16 = 21116;

/// The TCP port of the RustDesk relay server (hbbr).
pub const HBBR_TCP_PORT: u16 = 21117;

/// How long a TCP probe waits for a connection.
pub const HEALTH_PROBE_TIMEOUT_MS: u64 = 1500;

#[derive(Debug, Clone, PartialEq, Eq)]
pub struct HealthCheckResult {
    pub label: String,
    pub target: String,
    pub status: String,
    pub detail: String,
}

impl View for HealthCheckResult {
    type V = (Seq<char>, Seq<char>, Seq<char>, Seq<char>);

    /// Label, target, status and detail.
    open spec fn view(&self) -> (Seq<char>, Seq<char>, Seq<char>, Seq<char>) {
        (self.label@, self.target@, self.status@, self.detail@)
    }
}

/// What a name lookup of a configured host gave.
#[derive(Debug, Clone, PartialEq, Eq)]
pub enum DnsLookup {
    /// The host resolved; the text of the first address.
    Resolved(String),
    /// The lookup succeeded but gave no address.
    NoAddresses,
    /// The lookup failed; the error text.
    Failed(String),
}

/// What a TCP probe of a configured host gave.
#[derive(Debug, Clone, PartialEq, Eq)]
pub enum TcpProbe {
    /// Resolving the host failed; the error text.
    ResolveFailed(String),
    /// Resolving gave no socket address.
    NoAddresses,
    /// The connection was accepted.
    Connected,
    /// Connecting failed; the error text.
    ConnectFailed(String),
}

/// Where the first ':' of the text stands, or its length when it holds none.
pub open spec fn colon_pos(s: Seq<char>) -> int
    decreases s.len(),
{
    if s.len() == 0 {
        0
    } else if s[0] == ':' {
        0
    } else {
        1 + colon_pos(s.drop_first())
    }
}

/// The host of a `host[:port]` server value: the text before the first ':', trimmed.
pub open spec fn host_part(s: Seq<char>) -> Seq<char> {
    text::trim(s.take(colon_pos(s)))
}

proof fn lemma_colon_pos(s: Seq<char>, i: int)
    requires
        0 <= i <= s.len(),
        forall|k: int| 0 <= k < i ==> #[trigger] s[k] != ':',
        i == s.len() || s[i] == ':',
    ensures
        colon_pos(s) == i,
    decreases i,
{
    if i > 0 {
        lemma_colon_pos(s.drop_first(), i - 1);
    }
}

pub fn host_from_server_value(value: &str) -> (r: String)
    ensures
        r@ == host_part(value@),
{
    let v = text::chars_of(value);
    let mut i: usize = 0;
    while i < v.len() && v[i] != ':'
        invariant
            i <= v.len(),
            forall|k: int| 0 <= k < i ==> #[trigger] v@[k] != ':',
        decreases v.len() - i,
    {
        i += 1;
    }
    proof {
        lemma_colon_pos(v@, i as int);
    }
    let head = text::string_from_range(&v, 0, i);
    assert(v@.subrange(0, i as int) == v@.take(i as int));
    text::trim_str(head.as_str())
}

/// A host taken from a server value is its own host: taking the host twice
/// gives what taking it once gives.
pub proof fn lemma_host_part_idempotent(s: Seq<char>)
    ensures
        host_part(host_part(s)) == host_part(s),
{
    let h = host_part(s);
    lemma_colon_pos_bound(s);
    let t = s.take(colon_pos(s));
    assert(forall|k: int| 0 <= k < t.len() ==> #[trigger] t[k] != ':') by {
        assert forall|k: int| 0 <= k < t.len() implies #[trigger] t[k] != ':' by {
            lemma_before_colon(s, k);
        }
    }
    let (a, b) = text::lemma_trim_bounds(t);
    assert forall|k: int| 0 <= k < h.len() implies #[trigger] h[k] != ':' by {
        assert(h[k] == t[k + a]);
    }
    lemma_colon_pos(h, h.len() as int);
    assert(h.take(h.len() as int) == h);
    text::lemma_trim_idempotent(t);
}

proof fn lemma_colon_pos_bound(s: Seq<char>)
    ensures
        0 <= colon_pos(s) <= s.len(),
    decreases s.len(),
{
    if s.len() > 0 && s[0] != ':' {
        lemma_colon_pos_bound(s.drop_first());
    }
}

proof fn lemma_before_colon(s: Seq<char>, k: int)
    requires
        0 <= k < colon_pos(s),
    ensures
        k < s.len(),
        s[k] != ':',
    decreases k,
{
    lemma_colon_pos_bound(s);
    if k > 0 {
        lemma_before_colon(s.drop_first(), k - 1);
        assert(s[k] == s.drop_first()[k - 1]);
    }
}

/// The result of a name lookup check of a server value.
pub open spec fn dns_check(server: Seq<char>, lookup: DnsLookup) -> (Seq<char>, Seq<char>, Seq<char>, Seq<char>) {
    let host = host_part(server);
    let target = "dns:"@ + host;
    if host.len() == 0 {
        ("DNS"@, target, "skipped"@, "hostname not configured"@)
    } else {
        match lookup {
            DnsLookup::Resolved(addr) => ("DNS"@, target, "ok"@, "resolved to "@ + addr@),
            DnsLookup::NoAddresses => ("DNS"@, target, "failed"@, "no addresses returned"@),
            DnsLookup::Failed(e) => ("DNS"@, target, "failed"@, e@),
        }
    }
}

fn lit(s: &str) -> (r: String)
    ensures
        r@ == s@,
{
    String::from_str(s)
}

/// The DNS check of a server value, from what the lookup of its host gave;
/// a blank host is reported as skipped whatever the lookup gave.
pub fn dns_resolve_check(hostname: &str, lookup: DnsLookup) -> (r: HealthCheckResult)
    ensures
        r@ == dns_check(hostname@, lookup),
{
    let host = host_from_server_value(hostname);
    let mut target = lit("dns:");
    target.append(host.as_str());
    if host.as_str().is_empty() {
        return HealthCheckResult {
            label: lit("DNS"),
            target,
            status: lit("skipped"),
            detail: lit("hostname not configured"),
        };
    }
    match lookup {
        DnsLookup::Resolved(addr) => {
            let mut detail = lit("resolved to ");
            detail.append(addr.as_str());
            HealthCheckResult { label: lit("DNS"), target, status: lit("ok"), detail }
        },
        DnsLookup::NoAddresses => HealthCheckResult {
            label: lit("DNS"),
            target,
            status: lit("failed"),
            detail: lit("no addresses returned"),
        },
        DnsLookup::Failed(e) => HealthCheckResult {
            label: lit("DNS"),
            target,
            status: lit("failed"),
            detail: e,
        },
    }
}

/// The result of a TCP check of a server value and port.
pub open spec fn tcp_check(server: Seq<char>, port: u16, probe: TcpProbe) -> (
    Seq<char>,
    Seq<char>,
    Seq<char>,
    Seq<char>,
) {
    let host = host_part(server);
    let label = "TCP "@ + text::decimal(port as nat);
    let target = "tcp:"@ + host + ":"@ + text::decimal(port as nat);
    if host.len() == 0 {
        (label, target, "skipped"@, "host not configured"@)
    } else {
        match probe {
            TcpProbe::ResolveFailed(e) => (label, target, "failed"@, e@),
            TcpProbe::NoAddresses => (label, target, "failed"@, "no socket addresses returned"@),
            TcpProbe::Connected => (label, target, "ok"@, "connection accepted"@),
            TcpProbe::ConnectFailed(e) => (label, target, "failed"@, e@),
        }
    }
}

/// The TCP check of a server value and port, from what the probe of its host
/// gave; a blank host is reported as skipped whatever the probe gave.
pub fn tcp_port_check(host: &str, port: u16, probe: TcpProbe) -> (r: HealthCheckResult)
    ensures
        r@ == tcp_check(host@, port, probe),
{
    let hostname = host_from_server_value(host);
    let port_text = text::u64_to_decimal(port as u64);
    let mut label = lit("TCP ");
    label.append(port_text.as_str());
    let mut target = lit("tcp:");
    target.append(hostname.as_str());
    push_char(&mut target, ':');
    target.append(port_text.as_str());
    proof {
        reveal_strlit(":");
        assert(target@ == "tcp:"@ + hostname@ + ":"@ + port_text@);
    }
    if hostname.as_str().is_empty() {
        return HealthCheckResult {
            label,
            target,
            status: lit("skipped"),
            detail: lit("host not configured"),
        };
    }
    match probe {
        TcpProbe::ResolveFailed(e) => HealthCheckResult {
            label,
            target,
            status: lit("failed"),
            detail: e,
        },
        TcpProbe::NoAddresses => HealthCheckResult {
            label,
            target,
            status: lit("failed"),
            detail: lit("no socket addresses returned"),
        },
        TcpProbe::Connected => HealthCheckResult {
            label,
            target,
            status: lit("ok"),
            detail: lit("connection accepted"),
        },
        TcpProbe::ConnectFailed(e) => HealthCheckResult {
            label,
            target,
            status: lit("failed"),
            detail: e,
        },
    }
}

/// What the probes of the configured servers gave.
#[derive(Debug, Clone, PartialEq, Eq)]
pub struct HealthProbes {
    pub id_server_dns: DnsLookup,
    pub relay_server_dns: DnsLookup,
    pub id_server_tcp: TcpProbe,
    pub relay_server_tcp: TcpProbe,
}

/// The four checks of the status page: DNS of the ID and relay servers, then
/// TCP to the rendezvous port of the ID server and the relay port of the relay server.
pub fn build_health_checks(config: &ServerConfig, probes: HealthProbes) -> (r: Vec<
    HealthCheckResult,
>)
    ensures
        r@.len() == 4,
        r@[0]@ == dns_check(config.id_server@, probes.id_server_dns),
        r@[1]@ == dns_check(config.relay_server@, probes.relay_server_dns),
        r@[2]@ == tcp_check(config.id_server@, HBBS_TCP_PORT, probes.id_server_tcp),
        r@[3]@ == tcp_check(config.relay_server@, HBBR_TCP_PORT, probes.relay_server_tcp),
{
    let HealthProbes { id_server_dns, relay_server_dns, id_server_tcp, relay_server_tcp } = probes;
    let mut r: Vec<HealthCheckResult> = Vec::new();
    r.push(dns_resolve_check(config.id_server.as_str(), id_server_dns));
    r.push(dns_resolve_check(config.relay_server.as_str(), relay_server_dns));
    r.push(tcp_port_check(config.id_server.as_str(), HBBS_TCP_PORT, id_server_tcp));
    r.push(tcp_port_check(config.relay_server.as_str(), HBBR_TCP_PORT, relay_server_tcp));
    r
}

/// The fingerprint shown for a public key: "sha256:" and the hexadecimal
/// SHA-256 digest of the trimmed key's UTF-8 bytes, or "-" for a blank key.
pub open spec fn key_fingerprint(public_key: Seq<char>) -> Seq<char> {
    if text::trim(public_key).len() == 0 {
        "-"@
    } else {
        "sha256:"@ + crate::digest::hex_text(
            crate::digest::sha256_of(vstd::utf8::encode_utf8(text::trim(public_key))),
        )
    }
}

pub fn public_key_fingerprint(public_key: &str) -> (r: String)
    ensures
        r@ == key_fingerprint(public_key@),
        text::trim(public_key@).len() > 0 ==> r@.len() == 71,
{
    let trimmed = text::trim_str(public_key);
    if trimmed.as_str().is_empty() {
        return lit("-");
    }
    let digest = crate::digest::sha256(trimmed.as_str().as_bytes());
    let hex = crate::digest::hex_encode(digest.as_slice());
    let mut r = lit("sha256:");
    r.append(hex.as_str());
    proof {
        reveal_strlit("sha256:");
    }
    r
}

} // verus!
