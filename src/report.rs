//! The diagnostic report and its assembly from the three probes.

use vstd::prelude::*;
use crate::echo::{external_address, external_address_of, reply_view, EchoReply};
use crate::prober::{drive, start_probe, texts_of, ProbeView, Prober};
use crate::resolver::{lookup_view, resolved_addresses, resolved_of};

verus! {

/// Abstract content of a report.
pub struct ReportView {
    pub timestamp: Seq<char>,
    pub domain: Seq<char>,
    pub resolved_ips: Seq<Seq<char>>,
    pub external_ip: Seq<char>,
    pub reachable: bool,
}

/// The report of a finished probe: its addresses are the resolved ones, and
/// it is reachable exactly when one of them connected.
pub open spec fn report_of(
    timestamp: Seq<char>,
    domain: Seq<char>,
    external_ip: Seq<char>,
    probe: ProbeView,
) -> ReportView {
    ReportView {
        timestamp,
        domain,
        resolved_ips: probe.addresses,
        external_ip,
        reachable: probe.reachable(),
    }
}

/// The report of a whole run, given what each capability answered: the
/// lookup (`None` where it failed), the echo reply (`None` where the request
/// failed), and the dial capability's answer for each resolved address.
pub open spec fn diagnosis_of(
    timestamp: Seq<char>,
    domain: Seq<char>,
    lookup: Option<Seq<String>>,
    reply: Option<(u16, Seq<char>)>,
    port: u16,
    timeout_ms: u64,
    answers: Seq<bool>,
) -> ReportView {
    let probe = drive(start_probe(texts_of(resolved_of(lookup)), port, timeout_ms), answers);
    report_of(timestamp, domain, external_address_of(reply), probe)
}

/// The findings of one run. Every field is always present: a failed step
/// leaves an empty address list, the `"Unknown"` address, or `false`.
pub struct DiagnosticReport {
    timestamp: String,
    domain: String,
    resolved_ips: Vec<String>,
    external_ip: String,
    reachable: bool,
}

impl View for DiagnosticReport {
    type V = ReportView;

    closed spec fn view(&self) -> ReportView {
        ReportView {
            timestamp: self.timestamp@,
            domain: self.domain@,
            resolved_ips: texts_of(self.resolved_ips@),
            external_ip: self.external_ip@,
            reachable: self.reachable,
        }
    }
}

impl DiagnosticReport {
    /// Assembles the report of a run from its timestamp, its domain, the
    /// public address found, and the finished probe of the resolved
    /// addresses.
    pub fn assemble(timestamp: String, domain: String, external_ip: String, probe: Prober) -> (r:
        DiagnosticReport)
        requires
            probe@.wf(),
            probe@.finished(),
        ensures
            r@ == report_of(timestamp@, domain@, external_ip@, probe@),
    {
        let (resolved_ips, reachable) = probe.into_parts();
        DiagnosticReport { timestamp, domain, resolved_ips, external_ip, reachable }
    }

    /// When the run started, as RFC 3339 text.
    pub fn timestamp(&self) -> (r: &str)
        ensures
            r@ == self@.timestamp,
    {
        self.timestamp.as_str()
    }

    /// The host that was examined.
    pub fn domain(&self) -> (r: &str)
        ensures
            r@ == self@.domain,
    {
        self.domain.as_str()
    }

    /// The host's addresses, in the order the resolver gave them.
    pub fn resolved_ips(&self) -> (r: &Vec<String>)
        ensures
            texts_of(r@) == self@.resolved_ips,
    {
        &self.resolved_ips
    }

    /// The caller's public address, or `"Unknown"`.
    pub fn external_ip(&self) -> (r: &str)
        ensures
            r@ == self@.external_ip,
    {
        self.external_ip.as_str()
    }

    /// Whether one of the addresses accepted a connection.
    pub fn reachable(&self) -> (r: bool)
        ensures
            r == self@.reachable,
    {
        self.reachable
    }
}

/// Runs the diagnosis on what each capability answered: the lookup of the
/// domain, the echo reply, and `answers[i]`, whether a connect to the `i`-th
/// resolved address would succeed. Only the attempts that a probe makes read
/// `answers`; the others are never looked at.
pub fn diagnose(
    timestamp: String,
    domain: String,
    lookup: Option<Vec<String>>,
    reply: Option<EchoReply>,
    port: u16,
    timeout_ms: u64,
    answers: &Vec<bool>,
) -> (r: DiagnosticReport)
    requires
        answers@.len() == resolved_of(lookup_view(lookup)).len(),
    ensures
        r@ == diagnosis_of(
            timestamp@,
            domain@,
            lookup_view(lookup),
            reply_view(reply),
            port,
            timeout_ms,
            answers@,
        ),
{
    let ghost lookup_seq = lookup_view(lookup);
    let addresses = resolved_addresses(lookup);
    let external_ip = external_address(reply);
    let mut probe = Prober::new(addresses, port, timeout_ms);
    let ghost start = probe@;
    while !probe.is_finished()
        invariant
            probe@.wf(),
            probe@.addresses == start.addresses,
            start == start_probe(texts_of(resolved_of(lookup_seq)), port, timeout_ms),
            answers@.len() == start.addresses.len(),
            drive(probe@, answers@) == drive(start, answers@),
        decreases probe@.addresses.len() - probe@.outcomes.len(),
    {
        let i = probe.attempts();
        probe.record(answers[i]);
    }
    DiagnosticReport::assemble(timestamp, domain, external_ip, probe)
}

/// A host with no address, because the lookup failed or found no record,
/// is unreachable, has no address in its report, and is never dialed.
pub proof fn lemma_no_records_unreachable(
    timestamp: Seq<char>,
    domain: Seq<char>,
    lookup: Option<Seq<String>>,
    reply: Option<(u16, Seq<char>)>,
    port: u16,
    timeout_ms: u64,
    answers: Seq<bool>,
)
    requires
        match lookup {
            Some(addresses) => addresses.len() == 0,
            None => true,
        },
    ensures
        ({
            let r = diagnosis_of(timestamp, domain, lookup, reply, port, timeout_ms, answers);
            &&& r.resolved_ips.len() == 0
            &&& !r.reachable
        }),
        drive(start_probe(texts_of(resolved_of(lookup)), port, timeout_ms), answers).outcomes.len()
            == 0,
{
}

/// Two runs on the same answers of every capability give the same report,
/// but for the timestamp.
pub proof fn lemma_runs_differ_only_in_timestamp(
    first_timestamp: Seq<char>,
    second_timestamp: Seq<char>,
    domain: Seq<char>,
    lookup: Option<Seq<String>>,
    reply: Option<(u16, Seq<char>)>,
    port: u16,
    timeout_ms: u64,
    answers: Seq<bool>,
)
    ensures
        ({
            let first = diagnosis_of(first_timestamp, domain, lookup, reply, port, timeout_ms, answers);
            let second = diagnosis_of(second_timestamp, domain, lookup, reply, port, timeout_ms, answers);
            &&& first.timestamp == first_timestamp
            &&& second.timestamp == second_timestamp
            &&& first.domain == second.domain
            &&& first.resolved_ips == second.resolved_ips
            &&& first.external_ip == second.external_ip
            &&& first.reachable == second.reachable
        }),
{
}

} // verus!
