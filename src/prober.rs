//! Reachability prober: tries the addresses of a host in order, one TCP
//! connect each, and stops at the first that connects.
//!
//! The prober does not dial by itself. It is a step machine: `next_dial`
//! names the connect attempt to make, the caller performs it, and `record`
//! takes the outcome. The run is over when an attempt has connected or when
//! every address has been tried.

use vstd::prelude::*;

verus! {

/// The text of each address in a list.
pub open spec fn texts_of(v: Seq<String>) -> Seq<Seq<char>> {
    v.map_values(|s: String| s@)
}

/// Abstract state of a probe run.
pub struct ProbeView {
    pub addresses: Seq<Seq<char>>,
    pub port: u16,
    pub timeout_ms: u64,
    /// Outcome of each attempt so far; attempt `i` dialed `addresses[i]`.
    pub outcomes: Seq<bool>,
}

impl ProbeView {
    /// Attempts are made in order, and only a failed attempt is followed by
    /// another one.
    pub open spec fn wf(self) -> bool {
        &&& self.outcomes.len() <= self.addresses.len()
        &&& forall|i: int| 0 <= i < self.outcomes.len() - 1 ==> !self.outcomes[i]
    }

    /// Some attempt connected (it can only be the last one).
    pub open spec fn reachable(self) -> bool {
        self.outcomes.len() > 0 && self.outcomes.last()
    }

    /// No further attempt is due.
    pub open spec fn finished(self) -> bool {
        self.reachable() || self.outcomes.len() >= self.addresses.len()
    }

    /// The addresses dialed so far, in the order they were dialed.
    pub open spec fn dialed(self) -> Seq<Seq<char>> {
        self.addresses.take(self.outcomes.len() as int)
    }

    /// The state after one more attempt, which connected or not.
    pub open spec fn record(self, connected: bool) -> ProbeView {
        ProbeView { outcomes: self.outcomes.push(connected), ..self }
    }
}

/// A probe of `addresses` before any attempt.
pub open spec fn start_probe(addresses: Seq<Seq<char>>, port: u16, timeout_ms: u64) -> ProbeView {
    ProbeView { addresses, port, timeout_ms, outcomes: Seq::empty() }
}

/// Runs a probe to its end against a dial capability whose answer to the
/// attempt on `addresses[i]` is `answers[i]`.
pub open spec fn drive(p: ProbeView, answers: Seq<bool>) -> ProbeView
    decreases p.addresses.len() - p.outcomes.len(),
{
    if p.finished() {
        p
    } else {
        drive(p.record(answers[p.outcomes.len() as int]), answers)
    }
}

/// Driving a well-formed probe keeps it well formed, ends it, keeps the
/// attempts already made, and takes each new outcome from the dial
/// capability's answer for that address.
pub proof fn lemma_drive(p: ProbeView, answers: Seq<bool>)
    requires
        p.wf(),
        answers.len() == p.addresses.len(),
        forall|i: int| 0 <= i < p.outcomes.len() ==> p.outcomes[i] == answers[i],
    ensures
        ({
            let q = drive(p, answers);
            &&& q.wf()
            &&& q.finished()
            &&& q.addresses == p.addresses
            &&& q.port == p.port
            &&& q.timeout_ms == p.timeout_ms
            &&& q.outcomes.len() >= p.outcomes.len()
            &&& !p.finished() ==> q.outcomes.len() > p.outcomes.len()
            &&& forall|i: int| 0 <= i < q.outcomes.len() ==> q.outcomes[i] == answers[i]
        }),
    decreases p.addresses.len() - p.outcomes.len(),
{
    if !p.finished() {
        let n = p.outcomes.len() as int;
        let next = p.record(answers[n]);
        assert(next.wf());
        assert forall|i: int| 0 <= i < next.outcomes.len() implies next.outcomes[i] == answers[i] by {
            if i < n {
                assert(next.outcomes[i] == p.outcomes[i]);
            }
        }
        lemma_drive(next, answers);
    }
}

/// An empty address list is unreachable, and no attempt is made.
pub proof fn lemma_empty_list_makes_no_attempt(port: u16, timeout_ms: u64, answers: Seq<bool>)
    ensures
        ({
            let q = drive(start_probe(Seq::empty(), port, timeout_ms), answers);
            &&& q.outcomes.len() == 0
            &&& !q.reachable()
        }),
{
}

/// Where the first address connects, the probe is reachable and stops
/// after that one attempt.
pub proof fn lemma_first_connect_stops(
    addresses: Seq<Seq<char>>,
    port: u16,
    timeout_ms: u64,
    answers: Seq<bool>,
)
    requires
        addresses.len() > 0,
        answers.len() == addresses.len(),
        answers[0],
    ensures
        ({
            let q = drive(start_probe(addresses, port, timeout_ms), answers);
            &&& q.reachable()
            &&& q.outcomes == seq![true]
            &&& q.dialed() == seq![addresses[0]]
        }),
{
    let p = start_probe(addresses, port, timeout_ms);
    lemma_drive(p, answers);
    let q = drive(p, answers);
    if q.outcomes.len() > 1 {
        assert(!q.outcomes[0]);
    }
    assert(q.outcomes =~= seq![true]);
    assert(q.dialed() =~= seq![addresses[0]]);
}

/// Where no address connects, the probe is unreachable and every address
/// was dialed exactly once, in the order given.
pub proof fn lemma_no_connect_tries_each_once(
    addresses: Seq<Seq<char>>,
    port: u16,
    timeout_ms: u64,
    answers: Seq<bool>,
)
    requires
        answers.len() == addresses.len(),
        forall|i: int| 0 <= i < answers.len() ==> !answers[i],
    ensures
        ({
            let q = drive(start_probe(addresses, port, timeout_ms), answers);
            &&& !q.reachable()
            &&& q.outcomes.len() == addresses.len()
            &&& q.dialed() == addresses
        }),
{
    let p = start_probe(addresses, port, timeout_ms);
    lemma_drive(p, answers);
    let q = drive(p, answers);
    if q.outcomes.len() > 0 {
        let k = q.outcomes.len() - 1;
        assert(q.outcomes[k] == answers[k]);
        assert(!answers[k]);
    }
    assert(q.outcomes.len() == addresses.len());
    assert(q.dialed() =~= addresses);
}

/// A probe is reachable exactly when some address connects.
pub proof fn lemma_reachable_iff_some_connects(
    addresses: Seq<Seq<char>>,
    port: u16,
    timeout_ms: u64,
    answers: Seq<bool>,
)
    requires
        answers.len() == addresses.len(),
    ensures
        drive(start_probe(addresses, port, timeout_ms), answers).reachable() <==> exists|i: int|
            0 <= i < answers.len() && #[trigger] answers[i],
{
    let p = start_probe(addresses, port, timeout_ms);
    lemma_drive(p, answers);
    let q = drive(p, answers);
    if q.reachable() {
        let k = q.outcomes.len() - 1;
        assert(answers[k]);
    }
    if exists|i: int| 0 <= i < answers.len() && #[trigger] answers[i] {
        let i = choose|i: int| 0 <= i < answers.len() && #[trigger] answers[i];
        if !q.reachable() {
            assert(q.outcomes[i] == answers[i]);
        }
    }
}

/// One connect attempt: the address to dial, the port, and how long to wait.
pub struct Dial {
    pub address: String,
    pub port: u16,
    pub timeout_ms: u64,
}

/// A probe run in progress.
pub struct Prober {
    addresses: Vec<String>,
    port: u16,
    timeout_ms: u64,
    outcomes: Vec<bool>,
}

impl View for Prober {
    type V = ProbeView;

    closed spec fn view(&self) -> ProbeView {
        ProbeView {
            addresses: texts_of(self.addresses@),
            port: self.port,
            timeout_ms: self.timeout_ms,
            outcomes: self.outcomes@,
        }
    }
}

impl Prober {
    /// Starts a probe of `addresses` on `port`, each attempt bounded by
    /// `timeout_ms` milliseconds.
    pub fn new(addresses: Vec<String>, port: u16, timeout_ms: u64) -> (p: Prober)
        ensures
            p@ == start_probe(texts_of(addresses@), port, timeout_ms),
            p@.wf(),
    {
        Prober { addresses, port, timeout_ms, outcomes: Vec::new() }
    }

    /// Whether the run is over.
    pub fn is_finished(&self) -> (r: bool)
        requires
            self@.wf(),
        ensures
            r == self@.finished(),
    {
        self.reachable() || self.outcomes.len() >= self.addresses.len()
    }

    /// Whether an attempt connected.
    pub fn reachable(&self) -> (r: bool)
        ensures
            r == self@.reachable(),
    {
        let n = self.outcomes.len();
        n > 0 && self.outcomes[n - 1]
    }

    /// The number of attempts made so far.
    pub fn attempts(&self) -> (r: usize)
        ensures
            r == self@.outcomes.len(),
    {
        self.outcomes.len()
    }

    /// The next connect attempt to make: the first address not yet tried,
    /// or `None` once the run is over.
    pub fn next_dial(&self) -> (r: Option<Dial>)
        requires
            self@.wf(),
        ensures
            r is None <==> self@.finished(),
            r matches Some(d) ==> {
                &&& d.address@ == self@.addresses[self@.outcomes.len() as int]
                &&& d.port == self@.port
                &&& d.timeout_ms == self@.timeout_ms
            },
    {
        if self.is_finished() {
            None
        } else {
            let i = self.outcomes.len();
            Some(Dial { address: self.addresses[i].clone(), port: self.port, timeout_ms: self.timeout_ms })
        }
    }

    /// Takes the outcome of the attempt that `next_dial` named.
    pub fn record(&mut self, connected: bool)
        requires
            old(self)@.wf(),
            !old(self)@.finished(),
        ensures
            final(self)@ == old(self)@.record(connected),
            final(self)@.wf(),
    {
        self.outcomes.push(connected);
        assert(self@.outcomes =~= old(self)@.outcomes.push(connected));
    }

    /// Ends the run, handing back the probed addresses and whether one of
    /// them connected.
    pub fn into_parts(self) -> (r: (Vec<String>, bool))
        ensures
            texts_of(r.0@) == self@.addresses,
            r.1 == self@.reachable(),
    {
        let reachable = self.reachable();
        (self.addresses, reachable)
    }
}

} // verus!
