use std::cell::Cell;

use gcemeta::cache::{CacheEntry, Claim, Outcome, State};
use gcemeta::error::{Error, ErrorKind};

/// An entry on which one caller has yet to settle.
fn in_flight<T>() -> CacheEntry<T> {
    let mut entry = CacheEntry::new();
    assert!(matches!(entry.claim(), Claim::Compute));
    entry
}

/// An entry that holds `value`.
fn filled<T>(value: T) -> CacheEntry<T> {
    let mut entry = in_flight();
    entry.fill(value);
    entry
}

#[test]
fn new_entry_is_empty() {
    let entry: CacheEntry<String> = CacheEntry::new();
    assert!(matches!(entry.state(), State::Empty));
    assert_eq!(entry.get(), None);
}

#[test]
fn single_flight() {
    // Five callers ask before the value is there: one computes, four wait.
    let mut entry: CacheEntry<String> = CacheEntry::new();
    let mut computing = 0;
    let mut waiting = 0;
    for _ in 0..5 {
        match entry.claim() {
            Claim::Compute => computing += 1,
            Claim::Wait => waiting += 1,
            Claim::Hit(_) => unreachable!(),
        }
    }
    assert_eq!(computing, 1);
    assert_eq!(waiting, 4);
    assert!(matches!(entry.outcome(), Outcome::Pending));

    // The one computation ends; everybody finds the same value.
    let settled: Result<&String, Error> = entry.settle(Ok("value".to_owned()));
    assert_eq!(settled.unwrap(), "value");
    for _ in 0..4 {
        match entry.outcome() {
            Outcome::Ready(v) => assert_eq!(v, "value"),
            _ => unreachable!(),
        }
    }
    match entry.claim() {
        Claim::Hit(v) => assert_eq!(v, "value"),
        _ => unreachable!(),
    }
}

#[test]
fn no_poisoning() {
    let calls = Cell::new(0);
    let mut entry: CacheEntry<u32> = CacheEntry::new();
    let first = entry.get_or_compute(|| {
        calls.set(calls.get() + 1);
        Err(Error::new(ErrorKind::HttpResponse(503)))
    });
    assert!(matches!(first.map_err(|e| e.into_kind()), Err(ErrorKind::HttpResponse(503))));
    assert!(matches!(entry.state(), State::Empty));
    let second = entry.get_or_compute(|| {
        calls.set(calls.get() + 1);
        Ok(7)
    });
    assert_eq!(*second.unwrap(), 7);
    assert_eq!(calls.get(), 2);
    assert!(matches!(entry.state(), State::Filled(7)));
}

#[test]
fn idempotence() {
    let calls = Cell::new(0);
    let mut entry: CacheEntry<String> = CacheEntry::new();
    for _ in 0..3 {
        let r = entry.get_or_compute(|| {
            calls.set(calls.get() + 1);
            Ok("v".to_owned())
        });
        assert_eq!(r.unwrap(), "v");
    }
    assert_eq!(calls.get(), 1);
}

#[test]
fn filled_entry_does_not_compute() {
    let mut entry = filled(1u8);
    let r = entry.get_or_compute(|| -> Result<u8, Error> { unreachable!() });
    assert_eq!(*r.unwrap(), 1);
}

#[test]
fn entry_in_flight_is_reported() {
    let mut entry: CacheEntry<u8> = in_flight();
    let r = entry.get_or_compute(|| -> Result<u8, Error> { unreachable!() });
    assert!(matches!(r.map_err(|e| e.into_kind()), Err(ErrorKind::Uninitialized)));
    assert!(matches!(entry.state(), State::InFlight));
}

#[test]
fn failed_computation_wakes_waiters_with_failure() {
    let mut entry: CacheEntry<u8> = CacheEntry::new();
    assert!(matches!(entry.claim(), Claim::Compute));
    assert!(matches!(entry.claim(), Claim::Wait));
    let settled: Result<&u8, &str> = entry.settle(Err("boom"));
    assert_eq!(settled, Err("boom"));
    assert!(matches!(entry.outcome(), Outcome::Failed));
    // The next caller tries again.
    assert!(matches!(entry.claim(), Claim::Compute));
}

#[test]
fn late_result_does_not_overwrite() {
    let mut entry = filled(1u8);
    let settled: Result<&u8, &str> = entry.settle(Ok(2));
    assert_eq!(settled, Ok(&1));
    let settled: Result<&u8, &str> = entry.settle(Err("late"));
    assert_eq!(settled, Ok(&1));
    assert_eq!(entry.get(), Some(&1));
}

#[test]
fn claim_on_filled_entry_changes_nothing() {
    let mut entry = filled(3u8);
    assert!(matches!(entry.claim(), Claim::Hit(&3)));
    assert!(matches!(entry.state(), State::Filled(3)));
}

#[test]
fn fill_keeps_the_first_value() {
    let mut entry = CacheEntry::new();
    assert_eq!(*entry.fill(1u8), 1);
    assert_eq!(*entry.fill(2u8), 1);
    assert!(matches!(entry.state(), State::Filled(1)));
}

#[test]
fn states_follow_one_another() {
    let mut entry: CacheEntry<u8> = CacheEntry::new();
    assert!(matches!(entry.state(), State::Empty));
    assert!(matches!(entry.claim(), Claim::Compute));
    assert!(matches!(entry.state(), State::InFlight));
    assert!(matches!(entry.claim(), Claim::Wait));
    assert!(matches!(entry.state(), State::InFlight));
    let settled: Result<&u8, ()> = entry.settle(Ok(9));
    assert_eq!(settled, Ok(&9));
    assert!(matches!(entry.state(), State::Filled(9)));
}
