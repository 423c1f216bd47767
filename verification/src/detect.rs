//! Finding out, once, whether the process runs on Google Compute Engine.
//!
//! A metadata host named by the environment settles the question at once. Failing
//! that, two probes are sent out together, one asking the metadata address over
//! HTTP and one resolving the metadata host name, and the first good news wins.
use vstd::prelude::*;
use crate::text::{chars_of, trim_bounds, trimmed};
use crate::wire::{
    header_of,
    header_value,
    same_text,
    Reply,
    ReplyView,
    FLAVOR_NAME,
    FLAVOR_VALUE,
};

verus! {

/// What reaches the race from outside.
#[derive(Clone, Copy, Debug, PartialEq, Eq, Structural)]
pub enum Signal {
    /// One of the two probes has ended, with good news or bad.
    Probe(bool),
    /// The time allowed for probing is over.
    Timeout,
}

/// The race between the two probes and the clock.
#[derive(Clone, Copy, Debug, PartialEq, Eq, Structural)]
pub enum Race {
    /// Both probes are out.
    Both,
    /// One probe has come back with bad news; the other is out.
    One,
    /// The question is settled.
    Decided(bool),
}

impl Race {
    /// The race as it starts: settled where the environment names a metadata host,
    /// else with both probes out.
    pub open spec fn begin(env_marker: bool) -> Race {
        if env_marker {
            Race::Decided(true)
        } else {
            Race::Both
        }
    }

    /// The race after one signal. Good news settles it at once. So does the clock,
    /// and so does the second probe. Nothing unsettles it.
    pub open spec fn after(self, signal: Signal) -> Race {
        match self {
            Race::Decided(on) => Race::Decided(on),
            Race::Both => match signal {
                Signal::Probe(true) => Race::Decided(true),
                Signal::Probe(false) => Race::One,
                Signal::Timeout => Race::Decided(false),
            },
            Race::One => match signal {
                Signal::Probe(true) => Race::Decided(true),
                Signal::Probe(false) => Race::Decided(false),
                Signal::Timeout => Race::Decided(false),
            },
        }
    }

    /// The race after one signal where bad news from the first probe is taken as
    /// final unless the machine says that it is made by Google. A variant for callers
    /// who would rather not wait for the second probe on foreign hardware.
    pub open spec fn after_on(self, signal: Signal, google_hardware: bool) -> Race {
        if self is Both && signal == Signal::Probe(false) && !google_hardware {
            Race::Decided(false)
        } else {
            self.after(signal)
        }
    }

    /// The race after a series of signals.
    pub open spec fn run(self, signals: Seq<Signal>) -> Race
        decreases signals.len(),
    {
        if signals.len() == 0 {
            self
        } else {
            self.after(signals.first()).run(signals.drop_first())
        }
    }

    /// The answer, once the race is settled.
    pub open spec fn decision(self) -> Option<bool> {
        match self {
            Race::Decided(on) => Some(on),
            _ => None,
        }
    }

    /// Starts the race. With `env_marker` set there is nothing to wait for, and no
    /// probe is to be sent.
    pub fn start(env_marker: bool) -> (race: Race)
        ensures
            race == Race::begin(env_marker),
    {
        if env_marker {
            Race::Decided(true)
        } else {
            Race::Both
        }
    }

    /// Takes one signal in.
    pub fn observe(self, signal: Signal) -> (race: Race)
        ensures
            race == self.after(signal),
    {
        match self {
            Race::Decided(on) => Race::Decided(on),
            Race::Both => match signal {
                Signal::Probe(true) => Race::Decided(true),
                Signal::Probe(false) => Race::One,
                Signal::Timeout => Race::Decided(false),
            },
            Race::One => match signal {
                Signal::Probe(true) => Race::Decided(true),
                _ => Race::Decided(false),
            },
        }
    }

    /// Takes one signal in, giving up after the first bad news unless the machine
    /// is made by Google.
    pub fn observe_on(self, signal: Signal, google_hardware: bool) -> (race: Race)
        ensures
            race == self.after_on(signal, google_hardware),
    {
        let next = self.observe(signal);
        match next {
            Race::One => if google_hardware {
                Race::One
            } else {
                Race::Decided(false)
            },
            other => other,
        }
    }

    /// The answer, or `None` while the race is on.
    pub fn verdict(&self) -> (v: Option<bool>)
        ensures
            v == self.decision(),
    {
        match self {
            Race::Decided(on) => Some(*on),
            _ => None,
        }
    }
}

// ---------------------------------------------------------------------------
// The probes
// ---------------------------------------------------------------------------

/// Whether a reply comes from a metadata server: it is an answer, of any status,
/// whose identification header has the expected value.
pub open spec fn announces_flavor(reply: ReplyView) -> bool {
    reply matches ReplyView::Answered(response) && header_of(response.headers, FLAVOR_NAME@)
        == Some(FLAVOR_VALUE@)
}

/// Tells whether the reply to the probing request comes from a metadata server.
pub fn has_meta_header(reply: &Reply) -> (found: bool)
    ensures
        found == announces_flavor(reply@),
{
    match reply {
        Reply::Failed(_) => false,
        Reply::Answered(response) => match header_value(&response.headers, FLAVOR_NAME) {
            Some(value) => same_text(value, FLAVOR_VALUE),
            None => false,
        },
    }
}

/// The signal that the probe over HTTP gives when its reply is in.
pub fn header_signal(reply: &Reply) -> (signal: Signal)
    ensures
        signal == Signal::Probe(announces_flavor(reply@)),
{
    Signal::Probe(has_meta_header(reply))
}

/// The signal that the probe by name gives when the resolver has answered: good
/// news where the name resolved to any address.
pub fn name_signal(resolved: Option<&Vec<Addr>>) -> (signal: Signal)
    ensures
        signal == Signal::Probe(resolved matches Some(addrs) && addrs@.len() > 0),
{
    Signal::Probe(resolves(resolved))
}

/// An internet address: version 4 as 32 bits, version 6 as 128 bits.
#[derive(Clone, Copy, Debug, PartialEq, Eq, Structural)]
pub enum Addr {
    V4(u32),
    V6(u128),
}

/// Tells whether a host name resolved at all. `resolved` holds the addresses that
/// came back, or `None` where the name did not resolve.
pub fn resolves(resolved: Option<&Vec<Addr>>) -> (found: bool)
    ensures
        found == (resolved matches Some(addrs) && addrs@.len() > 0),
{
    match resolved {
        None => false,
        Some(addrs) => addrs.len() > 0,
    }
}

/// Tells whether the probe by name found the metadata server. `ip` is the address
/// at which the server is expected. It does not decide: any address that the name
/// resolves to is good news, since only inside the cloud does the name resolve at
/// all.
#[allow(unused_variables)]
pub fn has_target_ip(resolved: Option<&Vec<Addr>>, ip: Addr) -> (found: bool)
    ensures
        found == (resolved matches Some(addrs) && addrs@.len() > 0),
{
    resolves(resolved)
}

/// Whether a product name, as the firmware reports it, is one that Google gives
/// its machines.
pub open spec fn google_product(name: Seq<char>) -> bool {
    trimmed(name) == "Google"@ || trimmed(name) == "Google Compute Engine"@
}

/// Tells whether the machine is made by Google, going by the product name that the
/// firmware reports. `None` stands for a name that could not be read.
pub fn running_on_gce(product_name: Option<&str>) -> (hosted: bool)
    ensures
        hosted == (product_name matches Some(name) && google_product(name@)),
{
    match product_name {
        None => false,
        Some(name) => {
            let cs = chars_of(name);
            let (a, b) = trim_bounds(&cs, 0, cs.len());
            proof {
                assert(cs@.subrange(0, cs@.len() as int) == cs@);
            }
            let core = name.substring_char(a, b);
            same_text(core, "Google") || same_text(core, "Google Compute Engine")
        },
    }
}

// ---------------------------------------------------------------------------
// Detection
// ---------------------------------------------------------------------------

/// The decision that a series of signals leads to when they are taken in this
/// order, or `None` where the race is still on after the last of them.
pub open spec fn decision_of(signals: Seq<Signal>) -> Option<bool> {
    Race::Both.run(signals).decision()
}

/// Decides the race over the signals that came in, in the order in which they
/// came.
pub fn decide(signals: &Vec<Signal>) -> (r: Option<bool>)
    ensures
        r == decision_of(signals@),
{
    let mut race = Race::Both;
    let mut i: usize = 0;
    proof {
        assert(signals@.skip(0) == signals@);
    }
    while i < signals.len()
        invariant
            i <= signals.len(),
            Race::Both.run(signals@) == race.run(signals@.skip(i as int)),
        decreases signals.len() - i,
    {
        proof {
            let rest = signals@.skip(i as int);
            assert(rest.first() == signals@[i as int]);
            assert(rest.drop_first() == signals@.skip(i + 1));
        }
        race = race.observe(signals[i]);
        i += 1;
    }
    race.verdict()
}

/// Whether `signals` are what `next` gave, the first when asked for the first
/// signal, the second when asked for the second, and so on.
pub open spec fn taken<N: Fn(usize) -> Signal>(next: N, signals: Seq<Signal>) -> bool {
    forall|i: int|
        0 <= i < signals.len() ==> call_ensures(next, (i as usize,), #[trigger] signals[i])
}

/// Whether `next` can be asked for all that `test_on_gce` asks of it: for nothing
/// where `env_marker` is set; else for the first signal, and for the second only
/// where a first signal leaves the question open.
pub open spec fn awaited<N: Fn(usize) -> Signal>(env_marker: bool, next: N) -> bool {
    !env_marker ==> {
        &&& call_requires(next, (0usize,))
        &&& forall|first: Signal| #[trigger]
            call_ensures(next, (0usize,), first) && Race::Both.after(first).decision() is None
                ==> call_requires(next, (1usize,))
    }
}

/// What the second signal makes of a race that the first one may have settled:
/// nothing where it is settled, else the decision, with the signal that `next`
/// gave second.
pub open spec fn settled<N: Fn(usize) -> Signal>(next: N, race: Race, on: bool) -> bool {
    match race {
        Race::Decided(known) => on == known,
        _ => exists|second: Signal| #[trigger]
            call_ensures(next, (1usize,), second) && race.after(second) == Race::Decided(on),
    }
}

/// What `test_on_gce` returns: `true` under the environment's marker; else what
/// the signal that `next` gave first decides, and where that leaves the question
/// open, what the signal that `next` gave second decides.
pub open spec fn detected<N: Fn(usize) -> Signal>(env_marker: bool, next: N, on: bool) -> bool {
    if env_marker {
        on
    } else {
        exists|first: Signal| #[trigger]
            call_ensures(next, (0usize,), first) && settled(next, Race::Both.after(first), on)
    }
}

/// The same as a race over a series of signals: `on` is the decision over the
/// signals that `next` gave, in their order, and they are no more than the
/// decision needed.
pub open spec fn raced<N: Fn(usize) -> Signal>(next: N, on: bool) -> bool {
    exists|signals: Seq<Signal>|
        {
            &&& #[trigger] taken(next, signals)
            &&& 1 <= signals.len() <= 2
            &&& decision_of(signals) == Some(on)
            &&& decision_of(signals.drop_last()) is None
        }
}

/// Finds out whether the process runs on Google Compute Engine.
///
/// `next` waits for a signal, the end of a probe or of the time allowed, and is
/// told the number of signals that came before. It is asked only while the
/// question is open: never where `env_marker` is set, and not for a second signal
/// where the first one has settled the race.
pub fn test_on_gce<N>(env_marker: bool, next: N) -> (on: bool) where N: Fn(usize) -> Signal
    requires
        awaited(env_marker, next),
    ensures
        detected(env_marker, next, on),
        !env_marker ==> raced(next, on),
{
    if let Some(on) = Race::start(env_marker).verdict() {
        return on;
    }
    let mut signals: Vec<Signal> = Vec::new();
    let first = next(0);
    signals.push(first);
    proof {
        assert(signals@ == seq![first]);
        assert(signals@.drop_last() == Seq::<Signal>::empty());
        assert(Race::Both.run(Seq::<Signal>::empty()) == Race::Both);
        lemma_run_one(Race::Both, first);
    }
    if let Some(on) = decide(&signals) {
        proof {
            assert(taken(next, signals@));
        }
        return on;
    }
    let second = next(1);
    signals.push(second);
    proof {
        assert(signals@ == seq![first, second]);
        assert(signals@.drop_last() == seq![first]);
        lemma_run_two(Race::Both, first, second);
        assert(taken(next, signals@));
    }
    match decide(&signals) {
        Some(on) => on,
        // The second signal settles every race.
        None => false,
    }
}

// ---------------------------------------------------------------------------
// Laws
// ---------------------------------------------------------------------------

/// A race over one signal is one step.
pub proof fn lemma_run_one(race: Race, signal: Signal)
    ensures
        race.run(seq![signal]) == race.after(signal),
{
    let signals = seq![signal];
    assert(signals.first() == signal);
    assert(signals.drop_first() == Seq::<Signal>::empty());
    assert(race.after(signal).run(Seq::<Signal>::empty()) == race.after(signal));
}

/// A race over two signals is two steps.
pub proof fn lemma_run_two(race: Race, first: Signal, second: Signal)
    ensures
        race.run(seq![first, second]) == race.after(first).after(second),
{
    let signals = seq![first, second];
    assert(signals.first() == first);
    assert(signals.drop_first() == seq![second]);
    lemma_run_one(race.after(first), second);
}

/// A settled race stays settled: what arrives late is dropped.
pub proof fn lemma_decided_is_final(on: bool, signals: Seq<Signal>)
    ensures
        Race::Decided(on).run(signals) == Race::Decided(on),
    decreases signals.len(),
{
    if signals.len() > 0 {
        lemma_decided_is_final(on, signals.drop_first());
    }
}

/// Where the environment names a metadata host, the answer is yes before any
/// signal, and no signal changes it.
pub proof fn lemma_env_marker_short_circuit(signals: Seq<Signal>)
    ensures
        Race::begin(true).decision() == Some(true),
        Race::begin(true).run(signals) == Race::Decided(true),
{
    lemma_decided_is_final(true, signals);
}

/// The first good news wins: it settles the race with yes whether it comes from
/// the first probe to end or, after bad news from that one, from the second, and
/// whatever follows it.
pub proof fn lemma_first_success_wins(signals: Seq<Signal>, i: int)
    requires
        0 <= i < signals.len(),
        i <= 1,
        signals[i] == Signal::Probe(true),
        forall|j: int| 0 <= j < i ==> signals[j] == Signal::Probe(false),
    ensures
        Race::Both.run(signals) == Race::Decided(true),
        Race::Both.run(signals.take(i + 1)) == Race::Decided(true),
{
    let head = signals.take(i + 1);
    if i == 0 {
        assert(signals.first() == Signal::Probe(true));
        lemma_decided_is_final(true, signals.drop_first());
        assert(head == seq![signals[0]]);
        lemma_run_one(Race::Both, signals[0]);
    } else {
        let rest = signals.drop_first();
        assert(signals.first() == Signal::Probe(false));
        assert(rest.first() == Signal::Probe(true));
        lemma_decided_is_final(true, rest.drop_first());
        assert(Race::Both.run(signals) == Race::One.run(rest));
        assert(Race::One.run(rest) == Race::Decided(true).run(rest.drop_first()));
        assert(head.first() == Signal::Probe(false));
        assert(head.drop_first() == seq![signals[1]]);
        lemma_run_one(Race::One, signals[1]);
    }
}

/// Without good news there is no yes: when the time is over before either probe
/// has brought any, the answer is no, whatever follows.
pub proof fn lemma_timeout_fallback(signals: Seq<Signal>, i: int)
    requires
        0 <= i < signals.len(),
        signals[i] == Signal::Timeout,
        forall|j: int| 0 <= j < i ==> signals[j] == Signal::Probe(false),
    ensures
        Race::Both.run(signals) == Race::Decided(false),
{
    lemma_no_good_news(Race::Both, signals, i);
}

/// Two probes with bad news settle the race with no, whatever follows.
pub proof fn lemma_both_probes_fail(signals: Seq<Signal>)
    requires
        signals.len() >= 2,
        signals[0] == Signal::Probe(false),
        signals[1] == Signal::Probe(false),
    ensures
        Race::Both.run(signals) == Race::Decided(false),
{
    let rest = signals.drop_first();
    assert(signals.first() == Signal::Probe(false));
    assert(rest.first() == Signal::Probe(false));
    lemma_decided_is_final(false, rest.drop_first());
    assert(Race::Both.run(signals) == Race::One.run(rest));
    assert(Race::One.run(rest) == Race::Decided(false).run(rest.drop_first()));
}

/// From any state but "yes", bad news up to a timeout ends in "no".
proof fn lemma_no_good_news(race: Race, signals: Seq<Signal>, i: int)
    requires
        race != Race::Decided(true),
        0 <= i < signals.len(),
        signals[i] == Signal::Timeout,
        forall|j: int| 0 <= j < i ==> signals[j] == Signal::Probe(false),
    ensures
        race.run(signals) == Race::Decided(false),
    decreases signals.len(),
{
    let rest = signals.drop_first();
    if i == 0 {
        assert(signals.first() == Signal::Timeout);
        lemma_decided_is_final(false, rest);
    } else {
        assert(signals.first() == Signal::Probe(false));
        assert(rest[i - 1] == signals[i]);
        assert forall|j: int| 0 <= j < i - 1 implies rest[j] == Signal::Probe(false) by {
            assert(rest[j] == signals[j + 1]);
        }
        lemma_no_good_news(race.after(signals.first()), rest, i - 1);
    }
}

/// Every race is settled by its second signal at the latest.
pub proof fn lemma_two_signals_settle(first: Signal, second: Signal)
    ensures
        Race::Both.after(first).after(second).decision() is Some,
{
}

/// The first good news wins, whoever brings it: where the signal that comes
/// first can only be good news, the answer is yes, and `next` need not be able to
/// give a second signal.
pub proof fn lemma_yes_on_first_good_news<N: Fn(usize) -> Signal>(next: N, on: bool)
    requires
        detected(false, next, on),
        forall|first: Signal| call_ensures(next, (0usize,), first) ==> first == Signal::Probe(true),
    ensures
        on,
{
}

/// Good news from the probe that ends second wins too, where the first brought
/// bad news.
pub proof fn lemma_yes_on_second_good_news<N: Fn(usize) -> Signal>(next: N, on: bool)
    requires
        detected(false, next, on),
        forall|first: Signal| call_ensures(next, (0usize,), first) ==> first == Signal::Probe(false),
        forall|second: Signal|
            call_ensures(next, (1usize,), second) ==> second == Signal::Probe(true),
    ensures
        on,
{
}

/// Without good news in time the answer is no: where neither the first signal nor
/// the second can be good news, because the probes fail or the time is over
/// before they end, the answer is no.
pub proof fn lemma_no_without_good_news<N: Fn(usize) -> Signal>(next: N, on: bool)
    requires
        detected(false, next, on),
        forall|first: Signal| call_ensures(next, (0usize,), first) ==> first != Signal::Probe(true),
        forall|second: Signal|
            call_ensures(next, (1usize,), second) ==> second != Signal::Probe(true),
    ensures
        !on,
{
}

/// Good news that comes after the time is over comes too late: where the first
/// signal can only be the end of the time allowed, the answer is no, whatever
/// `next` would give second.
pub proof fn lemma_no_after_timeout<N: Fn(usize) -> Signal>(next: N, on: bool)
    requires
        detected(false, next, on),
        forall|first: Signal| call_ensures(next, (0usize,), first) ==> first == Signal::Timeout,
    ensures
        !on,
{
}

/// What `test_on_gce` promises in its two ways of saying it is one and the same:
/// the decision over the signals in their order.
pub proof fn lemma_raced_is_detected<N: Fn(usize) -> Signal>(next: N, on: bool)
    requires
        raced(next, on),
    ensures
        detected(false, next, on),
{
    let signals = choose|signals: Seq<Signal>|
        {
            &&& #[trigger] taken(next, signals)
            &&& 1 <= signals.len() <= 2
            &&& decision_of(signals) == Some(on)
            &&& decision_of(signals.drop_last()) is None
        };
    let first = signals[0];
    assert(call_ensures(next, (0usize,), first));
    if signals.len() == 1 {
        assert(signals == seq![first]);
        lemma_run_one(Race::Both, first);
    } else {
        let second = signals[1];
        assert(call_ensures(next, (1usize,), second));
        assert(signals == seq![first, second]);
        assert(signals.drop_last() == seq![first]);
        lemma_run_one(Race::Both, first);
        lemma_run_two(Race::Both, first, second);
    }
}

} // verus!
