//! The row and column lines of the matrix, as the scanner speaks of them.
//!
//! The scanner never touches a pin. It names the operation to perform next,
//! and is told how that operation ended.

use vstd::prelude::*;

verus! {

/// The electrical level of a line.
///
/// A column is active while it is driven `High`. A row reads `High` while a
/// pressed key connects it to an active column, and `Low` otherwise.
#[derive(Clone, Copy, PartialEq, Eq, Debug, Hash, Structural)]
pub enum Level {
    Low,
    High,
}

/// One operation on the lines of the matrix.
#[derive(Clone, Copy, PartialEq, Eq, Debug, Hash, Structural)]
pub enum LineOp {
    /// Drive the column output `column` to `level`.
    DriveColumn { column: usize, level: Level },
    /// Read the row input `row`.
    ReadRow { row: usize },
}

/// How an operation on a line ended.
#[derive(Clone, Copy, PartialEq, Eq, Debug, Hash, Structural)]
pub enum LineEvent {
    /// The column was driven.
    Driven,
    /// The row was read at this level.
    Read(Level),
    /// The pin reported a hardware fault.
    Fault,
}

impl LineOp {
    /// Whether `event` is a successful end of this operation: `Driven` for a
    /// drive, a level for a read.
    pub open spec fn answered_by(self, event: LineEvent) -> bool {
        match self {
            LineOp::DriveColumn { .. } => event is Driven,
            LineOp::ReadRow { .. } => event is Read,
        }
    }

    /// Whether `event` is a successful end of this operation.
    pub fn is_answered_by(&self, event: &LineEvent) -> (answered: bool)
        ensures
            answered == self.answered_by(*event),
    {
        match (self, event) {
            (LineOp::DriveColumn { .. }, LineEvent::Driven) => true,
            (LineOp::ReadRow { .. }, LineEvent::Read(_)) => true,
            _ => false,
        }
    }
}

} // verus!
