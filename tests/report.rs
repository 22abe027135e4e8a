use netpeek::echo::EchoReply;
use netpeek::prober::Prober;
use netpeek::report::{diagnose, DiagnosticReport};
use netpeek::resolver::resolved_addresses;

fn strings(v: &[&str]) -> Vec<String> {
    v.iter().map(|s| s.to_string()).collect()
}

/// One run with fake capabilities: `lookup` is the resolver's answer,
/// `reply` the echo service's, and `up` the addresses that accept a
/// connection. Returns the report and the addresses that were dialed.
fn run(
    timestamp: &str,
    domain: &str,
    lookup: Option<Vec<String>>,
    reply: Option<EchoReply>,
    up: &[&str],
) -> (DiagnosticReport, Vec<String>) {
    let addresses = resolved_addresses(lookup);
    let external_ip = netpeek::echo::external_address(reply);
    let mut probe = Prober::new(addresses, 80, 2000);
    let mut dialed: Vec<String> = Vec::new();
    while let Some(dial) = probe.next_dial() {
        let connected = up.contains(&dial.address.as_str());
        dialed.push(dial.address);
        probe.record(connected);
    }
    let report = DiagnosticReport::assemble(timestamp.to_string(), domain.to_string(), external_ip, probe);
    (report, dialed)
}

fn echo(ip: &str) -> Option<EchoReply> {
    Some(EchoReply { status: 200, body: format!("{{\"origin\": \"{}\"}}", ip) })
}

#[test]
fn resolver_keeps_order_and_duplicates() {
    let got = resolved_addresses(Some(strings(&["2001:db8::1", "192.0.2.1", "192.0.2.1"])));
    assert_eq!(got, strings(&["2001:db8::1", "192.0.2.1", "192.0.2.1"]));
}

#[test]
fn resolver_failure_gives_no_address() {
    assert!(resolved_addresses(None).is_empty());
    assert!(resolved_addresses(Some(Vec::new())).is_empty());
}

#[test]
fn scenario_single_address_reachable() {
    let (report, dialed) = run("2024-01-01T00:00:00Z", "example.com", Some(strings(&["93.184.216.34"])), echo("198.51.100.4"), &["93.184.216.34"]);
    assert_eq!(report.resolved_ips(), &strings(&["93.184.216.34"]));
    assert!(report.reachable());
    assert_eq!(report.external_ip(), "198.51.100.4");
    assert_eq!(report.domain(), "example.com");
    assert_eq!(report.timestamp(), "2024-01-01T00:00:00Z");
    assert_eq!(dialed, strings(&["93.184.216.34"]));
}

#[test]
fn scenario_nxdomain_and_echo_failure() {
    let (report, dialed) = run("2024-01-01T00:00:00Z", "no-such-host.invalid", None, None, &["93.184.216.34"]);
    assert!(report.resolved_ips().is_empty());
    assert_eq!(report.external_ip(), "Unknown");
    assert!(!report.reachable());
    assert!(dialed.is_empty());
}

#[test]
fn scenario_first_times_out_second_connects() {
    let (report, dialed) = run("2024-01-01T00:00:00Z", "example.net", Some(strings(&["192.0.2.10", "192.0.2.20"])), echo("198.51.100.4"), &["192.0.2.20"]);
    assert!(report.reachable());
    assert_eq!(dialed, strings(&["192.0.2.10", "192.0.2.20"]));
    assert_eq!(report.resolved_ips(), &strings(&["192.0.2.10", "192.0.2.20"]));
}

#[test]
fn zero_records_is_unreachable_without_attempt() {
    let (report, dialed) = run("t", "empty.example", Some(Vec::new()), echo("198.51.100.4"), &[]);
    assert!(report.resolved_ips().is_empty());
    assert!(!report.reachable());
    assert!(dialed.is_empty());
}

#[test]
fn two_runs_differ_only_in_timestamp() {
    let lookup = strings(&["192.0.2.10", "192.0.2.20"]);
    let (a, _) = run("2024-01-01T00:00:00Z", "example.org", Some(lookup.clone()), echo("198.51.100.4"), &["192.0.2.20"]);
    let (b, _) = run("2024-01-01T00:00:05Z", "example.org", Some(lookup), echo("198.51.100.4"), &["192.0.2.20"]);
    assert_ne!(a.timestamp(), b.timestamp());
    assert_eq!(a.domain(), b.domain());
    assert_eq!(a.resolved_ips(), b.resolved_ips());
    assert_eq!(a.external_ip(), b.external_ip());
    assert_eq!(a.reachable(), b.reachable());
}

#[test]
fn diagnose_on_recorded_answers() {
    let report = diagnose(
        "2024-01-01T00:00:00Z".to_string(),
        "example.net".to_string(),
        Some(strings(&["192.0.2.10", "192.0.2.20"])),
        echo("198.51.100.4"),
        80,
        2000,
        &vec![false, true],
    );
    assert!(report.reachable());
    assert_eq!(report.resolved_ips(), &strings(&["192.0.2.10", "192.0.2.20"]));
    assert_eq!(report.external_ip(), "198.51.100.4");
}

#[test]
fn diagnose_with_no_answer_connecting() {
    let report = diagnose(
        "t".to_string(),
        "example.net".to_string(),
        Some(strings(&["192.0.2.10", "192.0.2.20"])),
        Some(EchoReply { status: 500, body: String::new() }),
        80,
        2000,
        &vec![false, false],
    );
    assert!(!report.reachable());
    assert_eq!(report.external_ip(), "Unknown");
}

#[test]
fn diagnose_after_failed_lookup() {
    let report = diagnose("t".to_string(), "x.invalid".to_string(), None, None, 80, 2000, &Vec::new());
    assert!(report.resolved_ips().is_empty());
    assert!(!report.reachable());
    assert_eq!(report.external_ip(), "Unknown");
}
