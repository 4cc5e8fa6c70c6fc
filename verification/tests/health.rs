use opendesk::domain::health::{
    build_health_checks, dns_resolve_check, host_from_server_value, public_key_fingerprint,
    tcp_port_check, DnsLookup, HealthProbes, TcpProbe,
};
use opendesk::domain::server_config::default_server_config;

fn unreachable_probes() -> HealthProbes {
    HealthProbes {
        id_server_dns: DnsLookup::Failed("lookup failed".to_string()),
        relay_server_dns: DnsLookup::Failed("lookup failed".to_string()),
        id_server_tcp: TcpProbe::ConnectFailed("connection refused".to_string()),
        relay_server_tcp: TcpProbe::ConnectFailed("connection refused".to_string()),
    }
}

#[test]
fn host_from_server_value_strips_port_suffix() {
    assert_eq!(host_from_server_value("rd.example.com:21116"), "rd.example.com");
}

#[test]
fn public_key_fingerprint_is_stable_sha256_prefix() {
    let fingerprint = public_key_fingerprint("test-key-material");
    assert!(fingerprint.starts_with("sha256:"));
    assert_eq!(fingerprint.len(), 7 + 64);
}

#[test]
fn build_health_checks_includes_dns_and_tcp_targets() {
    let config = default_server_config();
    let checks = build_health_checks(&config, unreachable_probes());
    assert_eq!(checks.len(), 4);
    assert!(checks.iter().any(|check| check.target.starts_with("dns:rd.example.com")));
    assert!(checks.iter().any(|check| check.target == "tcp:rd.example.com:21116"));
    assert!(checks.iter().any(|check| check.target == "tcp:rd.example.com:21117"));
}

#[test]
fn tcp_port_check_reports_failure_for_unreachable_host() {
    let result = tcp_port_check(
        "127.0.0.1",
        1,
        TcpProbe::ConnectFailed("Connection refused (os error 111)".to_string()),
    );
    assert_eq!(result.status, "failed");
    assert_eq!(result.target, "tcp:127.0.0.1:1");
}

#[test]
fn public_key_fingerprint_exact_digest() {
    assert_eq!(
        public_key_fingerprint("  test-key-material  "),
        "sha256:b9b2486dbb917609db547976a17df65a2a6f7a7e94d6147bdb11fb26f16b9323"
    );
    assert_eq!(public_key_fingerprint("   "), "-");
}

#[test]
fn host_from_server_value_is_idempotent() {
    let once = host_from_server_value("  rd.example.com :21116:x");
    assert_eq!(once, "rd.example.com");
    assert_eq!(host_from_server_value(&once), once);
    assert_eq!(host_from_server_value(""), "");
}

#[test]
fn dns_check_reports_each_outcome() {
    let ok = dns_resolve_check("rd.example.com:21116", DnsLookup::Resolved("10.0.0.1:0".to_string()));
    assert_eq!(ok.label, "DNS");
    assert_eq!(ok.target, "dns:rd.example.com");
    assert_eq!(ok.status, "ok");
    assert_eq!(ok.detail, "resolved to 10.0.0.1:0");
    let none = dns_resolve_check("rd.example.com", DnsLookup::NoAddresses);
    assert_eq!(none.status, "failed");
    assert_eq!(none.detail, "no addresses returned");
    let skipped = dns_resolve_check("  ", DnsLookup::Failed("x".to_string()));
    assert_eq!(skipped.status, "skipped");
    assert_eq!(skipped.detail, "hostname not configured");
    assert_eq!(skipped.target, "dns:");
}

#[test]
fn tcp_check_reports_each_outcome() {
    let ok = tcp_port_check("rd.example.com", 21116, TcpProbe::Connected);
    assert_eq!(ok.label, "TCP 21116");
    assert_eq!(ok.status, "ok");
    assert_eq!(ok.detail, "connection accepted");
    let none = tcp_port_check("rd.example.com", 21116, TcpProbe::NoAddresses);
    assert_eq!(none.detail, "no socket addresses returned");
    let resolve = tcp_port_check("rd.example.com", 21116, TcpProbe::ResolveFailed("bad name".to_string()));
    assert_eq!(resolve.status, "failed");
    assert_eq!(resolve.detail, "bad name");
    let skipped = tcp_port_check(":21116", 21116, TcpProbe::Connected);
    assert_eq!(skipped.status, "skipped");
    assert_eq!(skipped.detail, "host not configured");
}
