//! The matrix scanner.
//!
//! `Keypad4x4` stands for a pad whose rows were found idle at startup. It
//! starts scans; a `Scan` names the line operation to perform next and takes
//! the outcome of each, until it yields the set of pressed keys.

use crate::key::{lemma_enumeration_lists_every_key, Key};
use crate::line::{Level, LineEvent, LineOp};
use crate::pressed::PressedKeys;
use crate::scan::{drive_columns, ScanState, ScanStep};
use vstd::prelude::*;

verus! {

/// Why a keypad could not be taken into use.
#[derive(Clone, Copy, PartialEq, Eq, Debug, Structural)]
pub enum StartupFault {
    /// The row input `row` reads high although no column has been activated:
    /// the pad is wired wrongly or the input is not pulled low. It is the
    /// first such row.
    RowNotIdle { row: usize },
}

/// A 4x4 keypad whose rows read idle when it was taken into use.
#[derive(Clone, Copy, Debug)]
pub struct Keypad4x4 {
    checked: (),
}

/// A scan in progress.
#[derive(Clone, Copy, PartialEq, Eq, Debug)]
pub struct Scan {
    place: usize,
    end: usize,
    stage: usize,
    pressed: PressedKeys,
}

/// What a scan has come to after an operation ended.
#[derive(Clone, Copy, PartialEq, Eq, Debug)]
pub enum Progress {
    /// The scan goes on: perform its pending operation next.
    Continue(Scan),
    /// The scan is complete; these keys are pressed.
    Done(PressedKeys),
    /// The operation failed. The scan is abandoned and has no result.
    Fault,
}

impl View for Scan {
    type V = ScanState;

    closed spec fn view(&self) -> ScanState {
        ScanState {
            key_index: self.place as int,
            end: self.end as int,
            stage: self.stage as int,
            pressed: self.pressed@,
        }
    }
}

impl View for Progress {
    type V = ScanStep;

    open spec fn view(&self) -> ScanStep {
        match self {
            Progress::Continue(scan) => ScanStep::Continue(scan@),
            Progress::Done(pressed) => ScanStep::Done(pressed@),
            Progress::Fault => ScanStep::Fault,
        }
    }
}

impl Keypad4x4 {
    /// Takes a keypad into use, given the level that each row input reads
    /// before any column has been activated.
    ///
    /// Every row must read low. A row that reads high would show as a key
    /// that is always pressed, so the keypad is refused.
    pub fn new(rows: [Level; 4]) -> (keypad: Result<Keypad4x4, StartupFault>)
        ensures
            keypad is Ok <==> forall|row: int| 0 <= row < 4 ==> rows@[row] == Level::Low,
            keypad matches Err(StartupFault::RowNotIdle { row }) ==> {
                &&& row < 4
                &&& rows@[row as int] == Level::High
                &&& forall|before: int| 0 <= before < row ==> rows@[before] == Level::Low
            },
    {
        let mut row: usize = 0;
        while row < 4
            invariant
                row <= 4,
                forall|before: int| 0 <= before < row ==> rows@[before] == Level::Low,
            decreases 4 - row,
        {
            match rows[row] {
                Level::High => {
                    return Err(StartupFault::RowNotIdle { row });
                },
                Level::Low => {},
            }
            row = row + 1;
        }
        Ok(Keypad4x4 { checked: () })
    }

    /// The four operations that drive every column to `level`, in column
    /// order.
    ///
    /// A scan clears the columns by itself. Driving them all high is for the
    /// time between scans, where a wake signal is to tell of a pressed key:
    /// a key can raise its row only while its column is active.
    pub fn set_outputs(&self, level: Level) -> (ops: [LineOp; 4])
        ensures
            ops@ == drive_columns(level),
    {
        let ops = [
            LineOp::DriveColumn { column: 0, level },
            LineOp::DriveColumn { column: 1, level },
            LineOp::DriveColumn { column: 2, level },
            LineOp::DriveColumn { column: 3, level },
        ];
        assert(ops@ =~= drive_columns(level));
        ops
    }

    /// Starts a scan of the whole pad: every key is probed, in enumeration
    /// order.
    pub fn scan(&self) -> (scan: Scan)
        ensures
            scan@ == ScanState::start(0, 16),
    {
        Scan { place: 0, end: 16, stage: 0, pressed: PressedKeys::new() }
    }

    /// Starts a scan that probes `key` alone.
    pub fn check_key_state(&self, key: Key) -> (scan: Scan)
        ensures
            scan@ == ScanState::start(key.index(), key.index() + 1),
            scan@.key() == key,
    {
        let place = key.ordinal();
        proof {
            lemma_enumeration_lists_every_key(key);
        }
        Scan { place, end: place + 1, stage: 0, pressed: PressedKeys::new() }
    }

    /// Starts a scan that probes the key `0` alone.
    pub fn key_0(&self) -> (scan: Scan)
        ensures
            scan@ == ScanState::start(Key::Num0.index(), Key::Num0.index() + 1),
    {
        self.check_key_state(Key::Num0)
    }

    /// Starts a scan that probes the key `1` alone.
    pub fn key_1(&self) -> (scan: Scan)
        ensures
            scan@ == ScanState::start(Key::Num1.index(), Key::Num1.index() + 1),
    {
        self.check_key_state(Key::Num1)
    }

    /// Starts a scan that probes the key `2` alone.
    pub fn key_2(&self) -> (scan: Scan)
        ensures
            scan@ == ScanState::start(Key::Num2.index(), Key::Num2.index() + 1),
    {
        self.check_key_state(Key::Num2)
    }

    /// Starts a scan that probes the key `3` alone.
    pub fn key_3(&self) -> (scan: Scan)
        ensures
            scan@ == ScanState::start(Key::Num3.index(), Key::Num3.index() + 1),
    {
        self.check_key_state(Key::Num3)
    }

    /// Starts a scan that probes the key `4` alone.
    pub fn key_4(&self) -> (scan: Scan)
        ensures
            scan@ == ScanState::start(Key::Num4.index(), Key::Num4.index() + 1),
    {
        self.check_key_state(Key::Num4)
    }

    /// Starts a scan that probes the key `5` alone.
    pub fn key_5(&self) -> (scan: Scan)
        ensures
            scan@ == ScanState::start(Key::Num5.index(), Key::Num5.index() + 1),
    {
        self.check_key_state(Key::Num5)
    }

    /// Starts a scan that probes the key `6` alone.
    pub fn key_6(&self) -> (scan: Scan)
        ensures
            scan@ == ScanState::start(Key::Num6.index(), Key::Num6.index() + 1),
    {
        self.check_key_state(Key::Num6)
    }

    /// Starts a scan that probes the key `7` alone.
    pub fn key_7(&self) -> (scan: Scan)
        ensures
            scan@ == ScanState::start(Key::Num7.index(), Key::Num7.index() + 1),
    {
        self.check_key_state(Key::Num7)
    }

    /// Starts a scan that probes the key `8` alone.
    pub fn key_8(&self) -> (scan: Scan)
        ensures
            scan@ == ScanState::start(Key::Num8.index(), Key::Num8.index() + 1),
    {
        self.check_key_state(Key::Num8)
    }

    /// Starts a scan that probes the key `9` alone.
    pub fn key_9(&self) -> (scan: Scan)
        ensures
            scan@ == ScanState::start(Key::Num9.index(), Key::Num9.index() + 1),
    {
        self.check_key_state(Key::Num9)
    }

    /// Starts a scan that probes the key `A` alone.
    pub fn key_a(&self) -> (scan: Scan)
        ensures
            scan@ == ScanState::start(Key::A.index(), Key::A.index() + 1),
    {
        self.check_key_state(Key::A)
    }

    /// Starts a scan that probes the key `B` alone.
    pub fn key_b(&self) -> (scan: Scan)
        ensures
            scan@ == ScanState::start(Key::B.index(), Key::B.index() + 1),
    {
        self.check_key_state(Key::B)
    }

    /// Starts a scan that probes the key `C` alone.
    pub fn key_c(&self) -> (scan: Scan)
        ensures
            scan@ == ScanState::start(Key::C.index(), Key::C.index() + 1),
    {
        self.check_key_state(Key::C)
    }

    /// Starts a scan that probes the key `D` alone.
    pub fn key_d(&self) -> (scan: Scan)
        ensures
            scan@ == ScanState::start(Key::D.index(), Key::D.index() + 1),
    {
        self.check_key_state(Key::D)
    }

    /// Starts a scan that probes the key `*` alone.
    pub fn key_star(&self) -> (scan: Scan)
        ensures
            scan@ == ScanState::start(Key::Star.index(), Key::Star.index() + 1),
    {
        self.check_key_state(Key::Star)
    }

    /// Starts a scan that probes the key `#` alone.
    pub fn key_pound(&self) -> (scan: Scan)
        ensures
            scan@ == ScanState::start(Key::Pound.index(), Key::Pound.index() + 1),
    {
        self.check_key_state(Key::Pound)
    }
}

impl Scan {
    #[verifier::type_invariant]
    spec fn well_formed(&self) -> bool {
        self@.wf()
    }

    /// The key that is being probed.
    pub fn key(&self) -> (key: Key)
        ensures
            self@.wf(),
            key == self@.key(),
    {
        proof {
            use_type_invariant(self);
        }
        Key::from_ordinal(self.place).unwrap()
    }

    /// The operation to perform now.
    pub fn pending(&self) -> (op: LineOp)
        ensures
            self@.wf(),
            op == self@.pending(),
    {
        proof {
            use_type_invariant(self);
        }
        let position = self.key().get_indexes();
        if self.stage < 4 {
            LineOp::DriveColumn { column: self.stage, level: Level::Low }
        } else if self.stage == 4 {
            LineOp::DriveColumn { column: position.column_index, level: Level::High }
        } else if self.stage == 5 {
            LineOp::ReadRow { row: position.row_index }
        } else {
            LineOp::DriveColumn { column: self.stage - 6, level: Level::Low }
        }
    }

    /// The keys found pressed so far.
    pub fn pressed(&self) -> (pressed: PressedKeys)
        ensures
            pressed@ == self@.pressed,
    {
        self.pressed
    }

    /// Takes the outcome of the pending operation and says how the scan goes
    /// on.
    ///
    /// An outcome that is not a successful end of the pending operation, a
    /// reported fault among them, ends the scan without a result: no key
    /// state is made up for a line that could not be driven or read.
    pub fn advance(self, event: LineEvent) -> (progress: Progress)
        ensures
            self@.wf(),
            progress@ == self@.step(event),
    {
        proof {
            use_type_invariant(&self);
        }
        let op = self.pending();
        if !op.is_answered_by(&event) {
            return Progress::Fault;
        }
        let mut pressed = self.pressed;
        match event {
            LineEvent::Read(Level::High) => {
                pressed.insert(self.key());
            },
            _ => {},
        }
        if self.stage + 1 < 10 {
            Progress::Continue(
                Scan { place: self.place, end: self.end, stage: self.stage + 1, pressed },
            )
        } else if self.place + 1 < self.end {
            Progress::Continue(Scan { place: self.place + 1, end: self.end, stage: 0, pressed })
        } else {
            Progress::Done(pressed)
        }
    }
}

} // verus!
