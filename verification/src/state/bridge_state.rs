//! The replay guard: which sequence numbers have been settled already.
//!
//! The guard remembers the highest sequence number settled so far and, in a bitmap,
//! which of the 1024 sequence numbers counted back from it are settled: bit `i`
//! stands for `last_sequence - i`. What lies further back is refused for good.

use vstd::prelude::*;
use crate::constants::REPLAY_WINDOW;
use crate::pubkey::Pubkey;
use crate::utils::bitmap::{bit_at, is_bit_set, set_bit, shift_bitmap};

verus! {

/// What the replay guard says of a sequence number.
#[derive(Clone, Copy, Debug, PartialEq, Eq, Structural)]
pub enum Admission {
    /// Not settled yet: ahead of the last settled number, or unmarked in the window.
    Allowed,
    /// 1024 or more behind the last settled number.
    TooOld,
    /// Marked as settled in the window.
    AlreadySettled,
}

/// The replay guard as stored, with the keys that govern the bridge.
#[derive(Clone, Copy, Debug, PartialEq, Eq)]
pub struct BridgeState {
    pub bump: u8,
    pub authority: Pubkey,
    pub orchestrator: Pubkey,
    /// The highest sequence number settled so far.
    pub last_sequence: u64,
    /// Bit `i` is set when `last_sequence - i` is settled.
    pub replay_bitmap: [u128; 8],
}

/// The replay guard as a set: the last sequence number, and the sequence numbers in
/// the window that are settled.
pub struct ReplayWindow {
    pub last_sequence: u64,
    pub settled: Set<u64>,
}

impl ReplayWindow {
    /// Whether `sequence` lies in the window: at most 1023 behind the last one.
    pub open spec fn tracks(self, sequence: u64) -> bool {
        sequence <= self.last_sequence && self.last_sequence - sequence < REPLAY_WINDOW
    }

    /// What the guard says of `sequence`.
    pub open spec fn admission(self, sequence: u64) -> Admission {
        if sequence > self.last_sequence {
            Admission::Allowed
        } else if self.last_sequence - sequence >= REPLAY_WINDOW {
            Admission::TooOld
        } else if self.settled.contains(sequence) {
            Admission::AlreadySettled
        } else {
            Admission::Allowed
        }
    }

    /// The guard after `sequence` is settled. Ahead of the last number the window
    /// moves up to `sequence` and forgets what falls out of it; inside the window
    /// `sequence` is marked; behind the window nothing changes.
    pub open spec fn settle(self, sequence: u64) -> ReplayWindow {
        let last = if sequence > self.last_sequence {
            sequence
        } else {
            self.last_sequence
        };
        ReplayWindow {
            last_sequence: last,
            settled: Set::new(
                |s: u64|
                    (s == sequence || self.settled.contains(s)) && s <= last && last - s < REPLAY_WINDOW,
            ),
        }
    }
}

/// A sequence number that is settled is refused when it comes again: settling one
/// that the guard did not find too old leaves it marked as settled.
pub proof fn lemma_settled_sequence_is_refused(window: ReplayWindow, sequence: u64)
    requires
        window.admission(sequence) != Admission::TooOld,
    ensures
        window.settle(sequence).admission(sequence) == Admission::AlreadySettled,
{
}

/// A refusal is final: whatever is settled later, a sequence number that the guard
/// refuses is never allowed again. One that is marked stays marked for as long as the
/// window reaches it, and is too old from then on.
pub proof fn lemma_refusal_is_final(window: ReplayWindow, sequence: u64, later: u64)
    requires
        window.admission(sequence) != Admission::Allowed,
    ensures
        window.settle(later).admission(sequence) != Admission::Allowed,
        window.admission(sequence) == Admission::TooOld ==> window.settle(later).admission(sequence)
            == Admission::TooOld,
        window.admission(sequence) == Admission::AlreadySettled && window.settle(later).tracks(
            sequence,
        ) ==> window.settle(later).admission(sequence) == Admission::AlreadySettled,
{
}

/// A sequence number 1024 or more behind the last one is too old.
pub proof fn lemma_behind_window_is_too_old(window: ReplayWindow, sequence: u64)
    requires
        sequence + REPLAY_WINDOW <= window.last_sequence,
    ensures
        window.admission(sequence) == Admission::TooOld,
{
}

/// When the window moves ahead by `shift`, a settled sequence number that stood `i`
/// behind the last one stands `i + shift` behind the new one. It is still marked if
/// that is less than 1024, and has left the window otherwise.
pub proof fn lemma_settle_ahead_moves_window(window: ReplayWindow, sequence: u64, recorded: u64)
    requires
        sequence > window.last_sequence,
        window.tracks(recorded),
        window.settled.contains(recorded),
    ensures
        ({
            let shift = sequence - window.last_sequence;
            let i = window.last_sequence - recorded;
            let after = window.settle(sequence);
            &&& after.last_sequence - recorded == i + shift
            &&& i + shift < REPLAY_WINDOW ==> after.settled.contains(recorded) && after.admission(recorded)
                == Admission::AlreadySettled
            &&& i + shift >= REPLAY_WINDOW ==> !after.settled.contains(recorded) && !after.tracks(recorded)
                && after.admission(recorded) == Admission::TooOld
        }),
{
}

/// Bit `j` of the bitmap after `sequence` is settled on a guard that held `bitmap`
/// and `last`.
pub open spec fn bit_after_settle(bitmap: Seq<u128>, last: u64, sequence: u64, j: int) -> bool {
    if sequence > last {
        j == 0 || (sequence - last <= j < 1024 && bit_at(bitmap, j - (sequence - last)))
    } else {
        bit_at(bitmap, j) || (j == last - sequence && j < 1024)
    }
}

impl View for BridgeState {
    type V = ReplayWindow;

    /// The sequence numbers in the window whose bit is set.
    open spec fn view(&self) -> ReplayWindow {
        ReplayWindow {
            last_sequence: self.last_sequence,
            settled: Set::new(
                |s: u64|
                    s <= self.last_sequence && self.last_sequence - s < REPLAY_WINDOW && bit_at(
                        self.replay_bitmap@,
                        self.last_sequence - s,
                    ),
            ),
        }
    }
}

impl BridgeState {
    /// Asks the guard about `sequence`. A number ahead of the last one is allowed; one
    /// 1024 or more behind it is too old; one in between is allowed unless its bit is set.
    pub fn check_sequence(&self, sequence: u64) -> (admission: Admission)
        ensures
            admission == self@.admission(sequence),
            sequence > self.last_sequence ==> admission == Admission::Allowed,
            self.last_sequence - sequence >= REPLAY_WINDOW ==> admission == Admission::TooOld,
            self@.tracks(sequence) ==> (admission == Admission::AlreadySettled) == bit_at(
                self.replay_bitmap@,
                self.last_sequence - sequence,
            ),
    {
        if sequence <= self.last_sequence {
            let diff: u64 = self.last_sequence - sequence;
            if diff >= REPLAY_WINDOW {
                return Admission::TooOld;
            }
            if is_bit_set(&self.replay_bitmap, diff as usize) {
                return Admission::AlreadySettled;
            }
        }
        Admission::Allowed
    }

    /// Records that `sequence` is settled. Ahead of the last number, every bit moves up
    /// by the distance, bits that leave the window are dropped, `sequence` becomes the
    /// last number and bit 0 is set. Inside the window, the bit of `sequence` is set.
    pub fn settle(&mut self, sequence: u64)
        ensures
            final(self)@ == old(self)@.settle(sequence),
            final(self).last_sequence == if sequence > old(self).last_sequence {
                sequence
            } else {
                old(self).last_sequence
            },
            forall|j: int|
                bit_at(final(self).replay_bitmap@, j) == bit_after_settle(
                    old(self).replay_bitmap@,
                    old(self).last_sequence,
                    sequence,
                    j,
                ),
            final(self).bump == old(self).bump,
            final(self).authority == old(self).authority,
            final(self).orchestrator == old(self).orchestrator,
    {
        if sequence > self.last_sequence {
            let distance: u64 = sequence - self.last_sequence;
            let shift: usize = if distance >= REPLAY_WINDOW {
                1024
            } else {
                distance as usize
            };
            shift_bitmap(&mut self.replay_bitmap, shift);
            self.last_sequence = sequence;
            set_bit(&mut self.replay_bitmap, 0);
        } else {
            let diff: u64 = self.last_sequence - sequence;
            if diff < REPLAY_WINDOW {
                set_bit(&mut self.replay_bitmap, diff as usize);
            }
        }
        proof {
            assert(self@.settled =~= old(self)@.settle(sequence).settled);
        }
    }
}

} // verus!
