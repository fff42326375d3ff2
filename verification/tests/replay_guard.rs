use mirage_bridge::pubkey::Pubkey;
use mirage_bridge::state::bridge_state::{Admission, BridgeState};
use mirage_bridge::utils::bitmap::is_bit_set;

fn fresh_guard() -> BridgeState {
    BridgeState {
        bump: 7,
        authority: Pubkey { bytes: [1u8; 32] },
        orchestrator: Pubkey { bytes: [2u8; 32] },
        last_sequence: 0,
        replay_bitmap: [0u128; 8],
    }
}

#[test]
fn fresh_guard_allows_everything() {
    let guard = fresh_guard();
    assert_eq!(guard.check_sequence(0), Admission::Allowed);
    assert_eq!(guard.check_sequence(1), Admission::Allowed);
    assert_eq!(guard.check_sequence(u64::MAX), Admission::Allowed);
}

#[test]
fn settled_sequence_is_refused_when_it_comes_again() {
    let mut guard = fresh_guard();
    guard.settle(5);
    assert_eq!(guard.last_sequence, 5);
    assert!(is_bit_set(&guard.replay_bitmap, 0));
    assert_eq!(guard.check_sequence(5), Admission::AlreadySettled);
    assert_eq!(guard.check_sequence(4), Admission::Allowed);
    assert_eq!(guard.check_sequence(6), Admission::Allowed);
}

#[test]
fn settling_inside_the_window_marks_its_bit() {
    let mut guard = fresh_guard();
    guard.settle(10);
    guard.settle(7);
    assert_eq!(guard.last_sequence, 10);
    assert!(is_bit_set(&guard.replay_bitmap, 0));
    assert!(is_bit_set(&guard.replay_bitmap, 3));
    assert_eq!(guard.replay_bitmap[0], 0b1001);
    assert_eq!(guard.check_sequence(7), Admission::AlreadySettled);
    assert_eq!(guard.check_sequence(8), Admission::Allowed);
}

#[test]
fn sequence_behind_the_window_is_too_old() {
    let mut guard = fresh_guard();
    guard.settle(5000);
    assert_eq!(guard.check_sequence(5000 - 1023), Admission::Allowed);
    assert_eq!(guard.check_sequence(5000 - 1024), Admission::TooOld);
    assert_eq!(guard.check_sequence(5000 - 1025), Admission::TooOld);
    assert_eq!(guard.check_sequence(0), Admission::TooOld);
}

#[test]
fn settling_ahead_moves_marks_by_the_distance() {
    let mut guard = fresh_guard();
    guard.settle(100);
    guard.settle(98);
    guard.settle(130);
    assert_eq!(guard.last_sequence, 130);
    assert!(is_bit_set(&guard.replay_bitmap, 0));
    assert!(is_bit_set(&guard.replay_bitmap, 30));
    assert!(is_bit_set(&guard.replay_bitmap, 32));
    assert!(!is_bit_set(&guard.replay_bitmap, 2));
    assert_eq!(guard.check_sequence(100), Admission::AlreadySettled);
    assert_eq!(guard.check_sequence(98), Admission::AlreadySettled);
    assert_eq!(guard.check_sequence(99), Admission::Allowed);
}

#[test]
fn marks_that_leave_the_window_are_dropped() {
    let mut guard = fresh_guard();
    guard.settle(100);
    guard.settle(90);
    guard.settle(100 + 1020);
    assert!(is_bit_set(&guard.replay_bitmap, 1020));
    assert!(!is_bit_set(&guard.replay_bitmap, 1023));
    assert_eq!(guard.check_sequence(100), Admission::AlreadySettled);
    assert_eq!(guard.check_sequence(90), Admission::TooOld);
}

#[test]
fn settling_far_ahead_clears_the_window() {
    let mut guard = fresh_guard();
    guard.settle(5);
    assert_eq!(guard.check_sequence(1030), Admission::Allowed);
    guard.settle(1030);
    assert_eq!(guard.last_sequence, 1030);
    assert_eq!(guard.replay_bitmap, [1u128, 0, 0, 0, 0, 0, 0, 0]);
    assert_eq!(guard.check_sequence(1030), Admission::AlreadySettled);
    assert_eq!(guard.check_sequence(5), Admission::TooOld);
    assert_eq!(guard.check_sequence(7), Admission::Allowed);
}

#[test]
fn settling_behind_the_window_changes_nothing() {
    let mut guard = fresh_guard();
    guard.settle(3000);
    let before = guard;
    guard.settle(10);
    assert_eq!(guard, before);
}

#[test]
fn settle_leaves_the_keys_alone() {
    let mut guard = fresh_guard();
    guard.settle(42);
    assert_eq!(guard.bump, 7);
    assert_eq!(guard.authority, Pubkey { bytes: [1u8; 32] });
    assert_eq!(guard.orchestrator, Pubkey { bytes: [2u8; 32] });
}

#[test]
fn refused_sequence_stays_refused() {
    let mut guard = fresh_guard();
    guard.settle(50);
    for later in [10u64, 51, 60, 500, 1073, 1074, 3000] {
        guard.settle(later);
        assert_ne!(guard.check_sequence(50), Admission::Allowed);
    }
    assert_eq!(guard.check_sequence(50), Admission::TooOld);
}
