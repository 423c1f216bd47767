//! A cell that holds a value which is expensive to get and never changes once it
//! is known. At most one caller at a time is told to compute it; the others wait
//! for that caller or take the value that is there.
use vstd::prelude::*;
use crate::error::{Error, ErrorKind, Failure};

verus! {

/// The state of one cached value.
#[derive(Debug)]
pub enum State<T> {
    /// No value, and nobody is computing one.
    Empty,
    /// No value yet; one caller is computing it.
    InFlight,
    /// The value, for good.
    Filled(T),
}

/// One cached value. Its state changes only as `State::after` says.
#[derive(Debug)]
pub struct CacheEntry<T> {
    state: State<T>,
}

impl<T> View for CacheEntry<T> {
    type V = State<T>;

    closed spec fn view(&self) -> State<T> {
        self.state
    }
}

/// What a caller who asks for the value is told.
#[derive(Debug)]
pub enum Claim<'a, T> {
    /// The value is there.
    Hit(&'a T),
    /// The value is missing and this caller is the one to compute it. The caller
    /// owes the entry a call of `settle`.
    Compute,
    /// Another caller is computing the value: wait until that caller has settled.
    Wait,
}

/// What a caller who has waited finds.
#[derive(Debug)]
pub enum Outcome<'a, T> {
    /// The computation succeeded.
    Ready(&'a T),
    /// The computation is still going on: wait longer.
    Pending,
    /// The computation ended without a value.
    Failed,
}

/// What can happen to an entry.
pub enum Event<T> {
    /// A caller asks for the value.
    Claim,
    /// The computing caller reports a value, or `None` for a failure.
    Settle(Option<T>),
}

/// What one call of `get_or_compute` makes of an entry, and what its caller gets:
/// a filled entry stays and gives its value; an entry in flight stays and gives
/// none; an empty entry is filled with the value that the caller gets, or stays
/// empty where the caller gets none.
pub open spec fn served<T>(before: State<T>, after: State<T>, got: Option<T>) -> bool {
    match before {
        State::Filled(v) => after == before && got == Some(v),
        State::InFlight => after == before && got is None,
        State::Empty => match got {
            Some(v) => after == State::Filled(v),
            None => after is Empty,
        },
    }
}

/// The value of a successful outcome.
pub open spec fn value_of<T, E>(outcome: Result<T, E>) -> Option<T> {
    match outcome {
        Ok(v) => Some(v),
        Err(_) => None,
    }
}

impl<T> State<T> {
    /// Whether a caller who asks now is told to compute.
    pub open spec fn grants(self) -> bool {
        self is Empty
    }

    /// The state after a caller has asked.
    pub open spec fn after_claim(self) -> Self {
        match self {
            State::Empty => State::InFlight,
            other => other,
        }
    }

    /// The state after a computation has been reported. A value that is there stays.
    pub open spec fn after_settle(self, outcome: Option<T>) -> Self {
        match self {
            State::Filled(v) => State::Filled(v),
            _ => match outcome {
                Some(v) => State::Filled(v),
                None => State::Empty,
            },
        }
    }

    /// The state after one event.
    pub open spec fn after(self, event: Event<T>) -> Self {
        match event {
            Event::Claim => self.after_claim(),
            Event::Settle(outcome) => self.after_settle(outcome),
        }
    }

    /// The state after a series of events.
    pub open spec fn run(self, events: Seq<Event<T>>) -> Self
        decreases events.len(),
    {
        if events.len() == 0 {
            self
        } else {
            self.after(events.first()).run(events.drop_first())
        }
    }

    /// How many callers are told to compute in the course of a series of events.
    pub open spec fn computations(self, events: Seq<Event<T>>) -> nat
        decreases events.len(),
    {
        if events.len() == 0 {
            0
        } else {
            let here: nat = if events.first() is Claim && self.grants() {
                1
            } else {
                0
            };
            here + self.after(events.first()).computations(events.drop_first())
        }
    }
}

impl<T> CacheEntry<T> {
    /// An entry without a value.
    pub fn new() -> (entry: Self)
        ensures
            entry@ is Empty,
    {
        CacheEntry { state: State::Empty }
    }

    /// The state of the entry.
    pub fn state(&self) -> (state: &State<T>)
        ensures
            *state == self@,
    {
        &self.state
    }

    /// The value, if it is there.
    pub fn get(&self) -> (r: Option<&T>)
        ensures
            match self@ {
                State::Filled(v) => r == Some(&v),
                _ => r is None,
            },
    {
        match &self.state {
            State::Filled(v) => Some(v),
            _ => None,
        }
    }

    /// Asks for the value on behalf of one caller. An empty entry is marked as in
    /// flight and the caller is told to compute; while it is in flight every other
    /// caller is told to wait.
    pub fn claim(&mut self) -> (c: Claim<'_, T>)
        ensures
            final(self)@ == old(self)@.after_claim(),
            match old(self)@ {
                State::Empty => c is Compute,
                State::InFlight => c is Wait,
                State::Filled(v) => c == Claim::Hit(&v),
            },
    {
        if let State::Empty = self.state {
            self.state = State::InFlight;
            return Claim::Compute;
        }
        match &self.state {
            State::Filled(v) => Claim::Hit(v),
            _ => Claim::Wait,
        }
    }

    /// Reports how the computation ended. A value fills the entry for good; a
    /// failure empties it, so that a later caller computes again. An entry that is
    /// filled already keeps its value, whatever is reported.
    pub fn settle<E>(&mut self, outcome: Result<T, E>) -> (r: Result<&T, E>)
        ensures
            final(self)@ == old(self)@.after_settle(value_of(outcome)),
            match old(self)@ {
                State::Filled(v) => r == Ok::<&T, E>(&v),
                _ => match outcome {
                    Ok(v) => r == Ok::<&T, E>(&v),
                    Err(e) => r == Err::<&T, E>(e),
                },
            },
    {
        if let State::Filled(_) = self.state {
        } else {
            match outcome {
                Ok(v) => {
                    self.state = State::Filled(v);
                },
                Err(e) => {
                    self.state = State::Empty;
                    return Err(e);
                },
            }
        }
        Ok(self.get().unwrap())
    }

    /// Fills the entry with a value that cannot fail to be there, and returns the
    /// value that the entry holds from now on: `value`, unless another was there.
    pub fn fill(&mut self, value: T) -> (r: &T)
        ensures
            final(self)@ == old(self)@.after_settle(Some(value)),
            final(self)@ == State::Filled(*r),
    {
        if let State::Filled(_) = self.state {
        } else {
            self.state = State::Filled(value);
        }
        self.get().unwrap()
    }

    /// What a caller who was told to wait finds when it looks again.
    pub fn outcome(&self) -> (o: Outcome<'_, T>)
        ensures
            match self@ {
                State::Filled(v) => o == Outcome::Ready(&v),
                State::InFlight => o is Pending,
                State::Empty => o is Failed,
            },
    {
        match &self.state {
            State::Filled(v) => Outcome::Ready(v),
            State::InFlight => Outcome::Pending,
            State::Empty => Outcome::Failed,
        }
    }

    /// Returns the value, computing it first where the entry is empty.
    ///
    /// `compute` is called on an empty entry and on no other: a filled entry
    /// answers by itself. Where `compute` fails, its error is returned and the entry
    /// is empty again. The caller holds the entry alone, so an entry found in flight
    /// belongs to a computation that will not end: that is reported as
    /// `Uninitialized`.
    pub fn get_or_compute<F>(&mut self, compute: F) -> (r: Result<&T, Error>) where
        F: FnOnce() -> Result<T, Error>,

        requires
            old(self)@ is Empty ==> call_requires(compute, ()),
        ensures
            match old(self)@ {
                State::Filled(v) => r == Ok::<&T, Error>(&v) && final(self)@ == old(self)@,
                State::InFlight => r matches Err(e) && e@ == Failure::Uninitialized && final(self)@
                    == old(self)@,
                State::Empty => match r {
                    Ok(v) => call_ensures(compute, (), Ok::<T, Error>(*v)) && final(self)@
                        == State::Filled(*v),
                    Err(e) => call_ensures(compute, (), Err::<T, Error>(e)) && final(self)@
                        is Empty,
                },
            },
            served(
                old(self)@,
                final(self)@,
                match r {
                    Ok(v) => Some(*v),
                    Err(_) => None,
                },
            ),
    {
        if let State::InFlight = self.state {
            return Err(Error::new(ErrorKind::Uninitialized));
        }
        if let State::Empty = self.state {
            self.state = State::InFlight;
            let outcome = compute();
            return self.settle(outcome);
        }
        Ok(self.get().unwrap())
    }
}

// ---------------------------------------------------------------------------
// Laws
// ---------------------------------------------------------------------------

/// `n` claims in a row.
pub open spec fn claims<T>(n: nat) -> Seq<Event<T>> {
    Seq::new(n, |i: int| Event::Claim)
}

/// However many callers ask for a value while none is there, exactly one is told
/// to compute, and the entry is in flight until that caller settles.
pub proof fn lemma_single_flight<T>(n: nat)
    requires
        n >= 1,
    ensures
        State::<T>::Empty.computations(claims(n)) == 1,
        State::<T>::Empty.run(claims(n)) == State::<T>::InFlight,
{
    let events = claims::<T>(n);
    assert(events.first() == Event::<T>::Claim);
    assert(events.drop_first() == claims::<T>((n - 1) as nat));
    lemma_claims_while_in_flight::<T>((n - 1) as nat);
}

/// Callers who ask while a computation is in flight are told to wait, all of them.
pub proof fn lemma_claims_while_in_flight<T>(n: nat)
    ensures
        State::<T>::InFlight.computations(claims(n)) == 0,
        State::<T>::InFlight.run(claims(n)) == State::<T>::InFlight,
    decreases n,
{
    if n > 0 {
        let events = claims::<T>(n);
        assert(events.first() == Event::<T>::Claim);
        assert(events.drop_first() == claims::<T>((n - 1) as nat));
        lemma_claims_while_in_flight::<T>((n - 1) as nat);
    }
}

/// After `n` callers have asked and the one computation has succeeded with `v`,
/// the entry holds `v`: the computing caller gets it from `settle`, every waiter
/// from `outcome`, and every later caller from `claim`.
pub proof fn lemma_all_callers_agree<T>(n: nat, v: T)
    requires
        n >= 1,
    ensures
        State::<T>::Empty.run(claims(n)).after_settle(Some(v)) == State::Filled(v),
        State::<T>::Empty.run(claims(n).push(Event::Settle(Some(v)))) == State::Filled(v),
        State::<T>::Empty.computations(claims(n).push(Event::Settle(Some(v)))) == 1,
{
    lemma_single_flight::<T>(n);
    lemma_run_push(State::<T>::Empty, claims(n), Event::Settle(Some(v)));
}

/// A series of events with one more at its end is the series, then that event.
pub proof fn lemma_run_push<T>(entry: State<T>, events: Seq<Event<T>>, last: Event<T>)
    ensures
        entry.run(events.push(last)) == entry.run(events).after(last),
        entry.computations(events.push(last)) == entry.computations(events) + (if last is Claim
            && entry.run(events).grants() {
            1nat
        } else {
            0nat
        }),
    decreases events.len(),
{
    let longer = events.push(last);
    if events.len() == 0 {
        assert(longer.first() == last);
        assert(longer.drop_first() == Seq::<Event<T>>::empty());
        assert(entry.after(last).computations(Seq::<Event<T>>::empty()) == 0);
        assert(entry.after(last).run(Seq::<Event<T>>::empty()) == entry.after(last));
        assert(entry.computations(events) == 0);
        assert(entry.run(events) == entry);
    } else {
        assert(longer.first() == events.first());
        assert(longer.drop_first() == events.drop_first().push(last));
        lemma_run_push(entry.after(events.first()), events.drop_first(), last);
    }
}

/// A failed computation leaves no trace: the entry is empty again, and the next
/// caller is told to compute.
pub proof fn lemma_no_poisoning<T>()
    ensures
        State::<T>::InFlight.after_settle(None) == State::<T>::Empty,
        State::<T>::InFlight.after_settle(None).grants(),
        State::<T>::InFlight.after_settle(None).after_claim() == State::<T>::InFlight,
{
}

/// A filled entry never changes and never asks for a computation again, whatever
/// happens to it: later callers get the same value, and a result that arrives late
/// is dropped.
pub proof fn lemma_filled_is_final<T>(v: T, events: Seq<Event<T>>)
    ensures
        State::Filled(v).run(events) == State::Filled(v),
        State::Filled(v).computations(events) == 0,
    decreases events.len(),
{
    if events.len() > 0 {
        lemma_filled_is_final(v, events.drop_first());
    }
}

/// A series of events followed by another is the first, then the second from
/// where the first left the entry.
pub proof fn lemma_run_concat<T>(entry: State<T>, first: Seq<Event<T>>, second: Seq<Event<T>>)
    ensures
        entry.run(first + second) == entry.run(first).run(second),
    decreases first.len(),
{
    if first.len() == 0 {
        assert(first + second == second);
    } else {
        let all = first + second;
        assert(all.first() == first.first());
        assert(all.drop_first() == first.drop_first() + second);
        lemma_run_concat(entry.after(first.first()), first.drop_first(), second);
    }
}

/// All callers get the same value: a value that is there at some moment is the
/// value that is there at every later moment, whatever happens in between.
pub proof fn lemma_value_is_stable<T>(entry: State<T>, events: Seq<Event<T>>, i: int, v: T)
    requires
        0 <= i <= events.len(),
        entry.run(events.take(i)) == State::Filled(v),
    ensures
        entry.run(events) == State::Filled(v),
{
    assert(events.take(i) + events.skip(i) == events);
    lemma_run_concat(entry, events.take(i), events.skip(i));
    lemma_filled_is_final(v, events.skip(i));
}

/// Whether every settlement in a series of events finds the entry in flight: only
/// a caller who was told to compute settles, and only once.
pub open spec fn orderly<T>(entry: State<T>, events: Seq<Event<T>>) -> bool
    decreases events.len(),
{
    if events.len() == 0 {
        true
    } else {
        &&& events.first() is Settle ==> entry is InFlight
        &&& orderly(entry.after(events.first()), events.drop_first())
    }
}

/// The number of settlements in a series of events.
pub open spec fn settlements<T>(events: Seq<Event<T>>) -> nat
    decreases events.len(),
{
    if events.len() == 0 {
        0
    } else {
        (if events.first() is Settle {
            1nat
        } else {
            0nat
        }) + settlements(events.drop_first())
    }
}

/// How many computations are under way: one where the entry is in flight, else
/// none.
pub open spec fn under_way<T>(entry: State<T>) -> nat {
    if entry is InFlight {
        1
    } else {
        0
    }
}

/// At any moment at most one computation is under way: in an orderly series of
/// events the callers told to compute are as many as the settlements, and one more
/// while the entry is in flight.
pub proof fn lemma_one_computation_at_a_time<T>(entry: State<T>, events: Seq<Event<T>>)
    requires
        orderly(entry, events),
    ensures
        under_way(entry) + entry.computations(events) == settlements(events) + under_way(
            entry.run(events),
        ),
    decreases events.len(),
{
    if events.len() > 0 {
        lemma_one_computation_at_a_time(entry.after(events.first()), events.drop_first());
    }
}

/// Callers who take their turns one after another, as callers do who wait for
/// one another at a lock, all get the value that the first successful one got, and
/// from then on the entry is filled, so that nothing is computed again.
pub proof fn lemma_callers_in_turn_agree<T>(
    states: Seq<State<T>>,
    gots: Seq<Option<T>>,
    i: int,
    j: int,
    v: T,
)
    requires
        states.len() == gots.len() + 1,
        forall|k: int| 0 <= k < gots.len() ==> served(states[k], #[trigger] states[k + 1], gots[k]),
        0 <= i <= j < gots.len(),
        gots[i] == Some(v),
    ensures
        gots[j] == Some(v),
        states[j + 1] == State::Filled(v),
    decreases j - i,
{
    assert(served(states[i], states[i + 1], gots[i]));
    if i < j {
        lemma_callers_in_turn_agree(states, gots, i, j - 1, v);
        assert(served(states[j], states[j + 1], gots[j]));
    }
}

/// Whether no settlement in a series of events reports a failure.
pub open spec fn unfailing<T>(events: Seq<Event<T>>) -> bool {
    forall|i: int| 0 <= i < events.len() ==> !(#[trigger] events[i] matches Event::Settle(None))
}

/// One value costs one computation: however the callers' steps fall in with one
/// another, as long as no computation fails, at most one caller is ever told to
/// compute, and exactly one where the value is there in the end.
pub proof fn lemma_one_computation_per_value<T>(events: Seq<Event<T>>)
    requires
        orderly(State::<T>::Empty, events),
        unfailing(events),
    ensures
        State::<T>::Empty.computations(events) <= 1,
        State::<T>::Empty.run(events) is Filled ==> State::<T>::Empty.computations(
            events,
        ) == 1,
{
    lemma_computations_from(State::<T>::Empty, events);
}

/// From any state, as long as no computation fails: a computation is asked for
/// only where none was asked for before, and where the value is there in the end
/// one was asked for.
proof fn lemma_computations_from<T>(entry: State<T>, events: Seq<Event<T>>)
    requires
        orderly(entry, events),
        unfailing(events),
    ensures
        !(entry is Empty) ==> entry.computations(events) == 0,
        entry is Empty ==> entry.computations(events) <= 1,
        entry is Empty && entry.run(events) is Filled ==> entry.computations(events) == 1,
    decreases events.len(),
{
    if events.len() > 0 {
        let rest = events.drop_first();
        assert(!(events[0] matches Event::Settle(None)));
        assert forall|i: int| 0 <= i < rest.len() implies !(#[trigger] rest[i] matches Event::Settle(
            None,
        )) by {
            assert(rest[i] == events[i + 1]);
        }
        lemma_computations_from(entry.after(events.first()), rest);
    }
}

} // verus!
