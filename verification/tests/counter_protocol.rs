use std::collections::hash_map::DefaultHasher;
use std::hash::{Hash, Hasher};

use tiptoe::ref_counter_api::{
    after_decrement, after_increment, after_revert, Breach, DecrementFollowup, IncrementFollowup,
    RefCounterExt, Sealed, Severity, EXCLUSIVITY_MARKER, SHARE_LIMIT,
};
use tiptoe::TipToe;

fn counter_holding(count: usize) -> TipToe {
    let mut counter = TipToe::new();
    *counter.refcount_ptr() = count;
    counter
}

#[test]
fn thresholds_have_their_exact_values() {
    assert_eq!(SHARE_LIMIT, isize::MAX as usize);
    assert_eq!(
        EXCLUSIVITY_MARKER,
        usize::MAX - (usize::MAX - isize::MAX as usize) / 2
    );
    assert_eq!(EXCLUSIVITY_MARKER, usize::MAX / 4 * 3 + 2);
    assert!(SHARE_LIMIT < EXCLUSIVITY_MARKER);
    assert!(EXCLUSIVITY_MARKER < usize::MAX);
}

#[test]
fn a_new_counter_counts_no_owners() {
    assert_eq!(TipToe::new().refcount(), 0);
    assert_eq!(TipToe::default().refcount(), 0);
}

#[test]
fn increment_counts_one_more_owner() {
    let mut counter = TipToe::new();
    counter.increment();
    assert_eq!(counter.refcount(), 1);
    counter.increment();
    assert_eq!(counter.refcount(), 2);
}

#[test]
fn the_last_owner_below_the_limit_is_counted() {
    let mut counter = counter_holding(SHARE_LIMIT - 1);
    assert_eq!(after_increment(counter.refcount()), IncrementFollowup::Proceed);
    counter.increment();
    assert_eq!(counter.refcount(), SHARE_LIMIT);
    assert_eq!(after_increment(counter.refcount()), IncrementFollowup::GiveUp);
}

#[test]
fn increment_at_the_limit_is_fatal_and_does_not_wrap() {
    let mut counter = counter_holding(SHARE_LIMIT - 2);
    counter.increment();
    counter.increment();
    for step in 1..=5usize {
        let old_count = counter.fetch_add();
        assert_eq!(old_count, SHARE_LIMIT + step - 1);
        assert_eq!(after_increment(old_count), IncrementFollowup::GiveUp);
        assert_eq!(Breach::TooManyOwners.severity(), Severity::Fatal);
        assert_eq!(counter.refcount(), SHARE_LIMIT + step);
    }
}

#[test]
fn increment_just_below_the_marker_is_fatal() {
    let counter = counter_holding(EXCLUSIVITY_MARKER - 1);
    assert_eq!(after_increment(counter.refcount()), IncrementFollowup::GiveUp);
}

#[test]
fn increment_during_exclusivity_is_a_contract_violation() {
    let mut counter = TipToe::new();
    counter.increment();
    let token = counter.acquire().expect("one owner");
    assert_eq!(token.displaced_refcount(), 1);
    assert_eq!(counter.refcount(), EXCLUSIVITY_MARKER);

    for _ in 0..3 {
        let old_count = counter.fetch_add();
        assert_eq!(after_increment(old_count), IncrementFollowup::Revert);
        let refused = after_revert(counter.fetch_sub());
        assert_eq!(refused, Breach::DuringExclusivity);
        assert_eq!(refused.severity(), Severity::ContractViolation);
        assert_eq!(counter.refcount(), EXCLUSIVITY_MARKER);
    }

    token.release(&mut counter);
    assert_eq!(counter.refcount(), 1);
    assert!(counter.acquire_relaxed().is_some());
}

#[test]
fn increment_above_the_marker_is_taken_back() {
    let mut counter = counter_holding(EXCLUSIVITY_MARKER + 3);
    let old_count = counter.fetch_add();
    assert_eq!(after_increment(old_count), IncrementFollowup::Revert);
    assert_eq!(after_revert(counter.fetch_sub()), Breach::DuringExclusivity);
    assert_eq!(counter.refcount(), EXCLUSIVITY_MARKER + 3);
}

#[test]
fn increment_of_a_full_counter_reports_corruption() {
    let mut counter = counter_holding(usize::MAX);
    let old_count = counter.fetch_add();
    assert_eq!(after_increment(old_count), IncrementFollowup::Revert);
    assert_eq!(after_revert(counter.fetch_sub()), Breach::Corrupted);
    assert_eq!(counter.refcount(), usize::MAX);
}

#[test]
fn an_increment_that_lost_the_marker_reports_corruption() {
    // One owner borrows exclusively; a second increments; the first ends
    // its borrow before the second has taken its increment back.
    let mut counter = counter_holding(1);
    let token = counter.acquire().expect("one owner");
    let old_count = counter.fetch_add();
    assert_eq!(after_increment(old_count), IncrementFollowup::Revert);
    token.release(&mut counter);
    let seen = counter.fetch_sub();
    assert_eq!(seen, 1);
    assert_eq!(after_revert(seen), Breach::Corrupted);
    assert_eq!(after_revert(seen).severity(), Severity::Fatal);
}

#[test]
fn the_decisions_after_an_increment() {
    assert_eq!(after_increment(0), IncrementFollowup::Proceed);
    assert_eq!(after_increment(SHARE_LIMIT - 1), IncrementFollowup::Proceed);
    assert_eq!(after_increment(SHARE_LIMIT), IncrementFollowup::GiveUp);
    assert_eq!(
        after_increment(EXCLUSIVITY_MARKER - 1),
        IncrementFollowup::GiveUp
    );
    assert_eq!(after_increment(EXCLUSIVITY_MARKER), IncrementFollowup::Revert);
    assert_eq!(after_increment(usize::MAX), IncrementFollowup::Revert);
    assert_eq!(after_revert(EXCLUSIVITY_MARKER + 1), Breach::DuringExclusivity);
    assert_eq!(after_revert(EXCLUSIVITY_MARKER), Breach::Corrupted);
    assert_eq!(after_revert(0), Breach::Corrupted);
}

#[test]
fn the_decisions_after_a_decrement() {
    assert_eq!(after_decrement(1), DecrementFollowup::DropOrMoveIt);
    assert_eq!(after_decrement(2), DecrementFollowup::LeakIt);
    assert_eq!(after_decrement(0), DecrementFollowup::LeakIt);
    assert_eq!(
        after_decrement(EXCLUSIVITY_MARKER),
        DecrementFollowup::LeakIt
    );
    assert_eq!(after_decrement(usize::MAX), DecrementFollowup::LeakIt);
}

#[test]
fn decrement_says_when_the_last_owner_left() {
    let mut counter = counter_holding(2);
    assert_eq!(counter.decrement(), DecrementFollowup::LeakIt);
    assert_eq!(counter.refcount(), 1);
    assert_eq!(counter.decrement(), DecrementFollowup::DropOrMoveIt);
    assert_eq!(counter.refcount(), 0);
}

#[test]
fn decrement_of_an_empty_counter_wraps_round() {
    let mut counter = TipToe::new();
    assert_eq!(counter.decrement(), DecrementFollowup::LeakIt);
    assert_eq!(counter.refcount(), usize::MAX);
}

#[test]
fn decrement_relaxed_decides_as_decrement_does() {
    for count in [0, 1, 2, 3, SHARE_LIMIT, EXCLUSIVITY_MARKER, usize::MAX] {
        let mut strict = counter_holding(count);
        let mut relaxed = counter_holding(count);
        assert_eq!(relaxed.decrement_relaxed(), strict.decrement());
        assert_eq!(relaxed.refcount(), strict.refcount());
    }

    let mut counter = counter_holding(2);
    assert_eq!(counter.decrement_relaxed(), DecrementFollowup::LeakIt);
    assert_eq!(counter.decrement_relaxed(), DecrementFollowup::DropOrMoveIt);
    assert_eq!(counter.refcount(), 0);
}

#[test]
fn decrement_relaxed_during_exclusivity_takes_one_off_and_retains() {
    let mut counter = counter_holding(1);
    let token = counter.acquire_relaxed().expect("one owner");
    assert_eq!(counter.decrement_relaxed(), DecrementFollowup::LeakIt);
    assert_eq!(counter.refcount(), EXCLUSIVITY_MARKER - 1);
    token.release(&mut counter);
    assert_eq!(counter.refcount(), 1);
}

#[test]
fn acquire_needs_exactly_one_owner() {
    let mut counter = TipToe::new();
    assert!(counter.acquire().is_none());
    assert_eq!(counter.refcount(), 0);

    let mut counter = counter_holding(2);
    assert!(counter.acquire().is_none());
    assert!(counter.acquire_relaxed().is_none());
    assert_eq!(counter.refcount(), 2);

    let mut counter = counter_holding(1);
    let token = counter.acquire().expect("one owner");
    assert_eq!(counter.refcount(), EXCLUSIVITY_MARKER);
    assert!(counter.acquire().is_none());
    assert!(counter.acquire_relaxed().is_none());
    assert_eq!(counter.refcount(), EXCLUSIVITY_MARKER);
    token.release(&mut counter);
    assert_eq!(counter.refcount(), 1);
}

#[test]
fn fetch_steps_wrap_round() {
    let mut counter = counter_holding(usize::MAX);
    assert_eq!(counter.fetch_add(), usize::MAX);
    assert_eq!(counter.refcount(), 0);
    assert_eq!(counter.fetch_sub(), 0);
    assert_eq!(counter.refcount(), usize::MAX);
}

#[test]
fn severities() {
    assert_eq!(
        Breach::DuringExclusivity.severity(),
        Severity::ContractViolation
    );
    assert_eq!(Breach::TooManyOwners.severity(), Severity::Fatal);
    assert_eq!(Breach::Corrupted.severity(), Severity::Fatal);
}

fn hash_of(counter: &TipToe) -> u64 {
    let mut state = DefaultHasher::new();
    counter.hash(&mut state);
    state.finish()
}

#[test]
fn a_counter_is_transparent_to_comparison_and_cloned_fresh() {
    let one = counter_holding(1);
    let five = counter_holding(5);
    assert!(one == five);
    assert_eq!(one.partial_cmp(&five), Some(std::cmp::Ordering::Equal));
    assert_eq!(hash_of(&one), hash_of(&five));
    assert_eq!(hash_of(&one), DefaultHasher::new().finish());
    assert_eq!(five.clone().refcount(), 0);
}
