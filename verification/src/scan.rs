//! The scanning algorithm as a state machine over line operations.
//!
//! A key is probed in ten operations: every column is driven low, the key's
//! column is driven high, the key's row is read, and every column is driven
//! low again. A scan probes a range of keys one after the other, in
//! enumeration order, and collects those whose row read high.

use crate::key::{enumeration, Key};
use crate::line::{Level, LineEvent, LineOp};
use vstd::prelude::*;

verus! {

/// The four operations that drive every column to `level`, in column order.
pub open spec fn drive_columns(level: Level) -> Seq<LineOp> {
    Seq::new(4, |column: int| LineOp::DriveColumn { column: column as usize, level })
}

/// The four operations that drive every column low, in column order.
pub open spec fn clear_columns() -> Seq<LineOp> {
    drive_columns(Level::Low)
}

/// The operations that probe one key: clear the columns, activate the key's
/// column, read the key's row, clear the columns.
pub open spec fn probe_script(key: Key) -> Seq<LineOp> {
    clear_columns() + seq![
        LineOp::DriveColumn { column: key.column() as usize, level: Level::High },
        LineOp::ReadRow { row: key.row() as usize },
    ] + clear_columns()
}

/// The state of a scan in progress.
pub struct ScanState {
    /// Index of the key that is being probed.
    pub key_index: int,
    /// Index at which the scan ends: the keys from `key_index` up to, but
    /// not including, `end` are still to be probed.
    pub end: int,
    /// How many operations of the current probe have been performed.
    pub stage: int,
    /// The keys found pressed so far.
    pub pressed: Set<Key>,
}

/// What a scan has come to after an operation ended.
pub enum ScanStep {
    /// The scan goes on from this state.
    Continue(ScanState),
    /// The scan is complete; these keys are pressed.
    Done(Set<Key>),
    /// The operation failed: the scan is abandoned without a result.
    Fault,
}

impl ScanState {
    /// A scan that is about to probe the keys with indexes from `first` up
    /// to, but not including, `end`.
    pub open spec fn start(first: int, end: int) -> ScanState {
        ScanState { key_index: first, end, stage: 0, pressed: Set::empty() }
    }

    /// Whether the state is one that a scan can be in.
    pub open spec fn wf(self) -> bool {
        &&& 0 <= self.key_index < self.end <= 16
        &&& 0 <= self.stage < 10
    }

    /// The key that is being probed.
    pub open spec fn key(self) -> Key {
        enumeration()[self.key_index]
    }

    /// The operation to perform now.
    pub open spec fn pending(self) -> LineOp {
        probe_script(self.key())[self.stage]
    }

    /// The keys found pressed once the pending operation has ended with
    /// `event`: a row that reads high adds the key that is being probed.
    pub open spec fn found(self, event: LineEvent) -> Set<Key> {
        if event == LineEvent::Read(Level::High) {
            self.pressed.insert(self.key())
        } else {
            self.pressed
        }
    }

    /// The step that the scan takes when the pending operation ends with
    /// `event`.
    ///
    /// An event that is not a successful end of the pending operation, a
    /// reported fault among them, abandons the scan. Otherwise the scan moves
    /// to the next operation of the probe, to the next key, or is done.
    pub open spec fn step(self, event: LineEvent) -> ScanStep {
        if !self.pending().answered_by(event) {
            ScanStep::Fault
        } else if self.stage + 1 < 10 {
            ScanStep::Continue(ScanState { stage: self.stage + 1, pressed: self.found(event), ..self })
        } else if self.key_index + 1 < self.end {
            ScanStep::Continue(
                ScanState {
                    key_index: self.key_index + 1,
                    stage: 0,
                    pressed: self.found(event),
                    ..self
                },
            )
        } else {
            ScanStep::Done(self.found(event))
        }
    }
}

/// A step from a well-formed state leads to a well-formed state, and no
/// step loses a key that was found.
pub proof fn lemma_step_keeps_wf(state: ScanState, event: LineEvent)
    requires
        state.wf(),
    ensures
        state.step(event) matches ScanStep::Continue(next) ==> next.wf() && next.end == state.end
            && state.pressed.subset_of(next.pressed),
        state.step(event) matches ScanStep::Done(pressed) ==> state.pressed.subset_of(pressed),
{
}

} // verus!
