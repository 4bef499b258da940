//! What a scan does to the column lines, and what it finds on an ideal
//! matrix.
//!
//! The matrix is modelled by the level of its four columns and the set of
//! keys that are held down. A row of the ideal matrix reads high exactly
//! when a held key connects it to a column that is driven high.

use crate::key::{
    lemma_enumeration_lists_every_key, lemma_index_of_enumerated, lemma_key_is_at_its_position,
    lemma_position_is_injective, Key,
};
use crate::line::{Level, LineEvent, LineOp};
use crate::report::{lemma_pressed_in_order_lists, pressed_in_order, KeyboardReport};
use crate::scan::{drive_columns, probe_script, ScanState, ScanStep};
use vstd::prelude::*;

verus! {

/// All four columns low.
pub open spec fn all_low() -> Seq<Level> {
    Seq::new(4, |column: int| Level::Low)
}

/// The column levels once `op` has been performed on columns at `levels`.
pub open spec fn levels_after_op(levels: Seq<Level>, op: LineOp) -> Seq<Level> {
    match op {
        LineOp::DriveColumn { column, level } => if column < levels.len() {
            levels.update(column as int, level)
        } else {
            levels
        },
        LineOp::ReadRow { .. } => levels,
    }
}

/// The column levels once `ops` have been performed in order.
pub open spec fn levels_after(levels: Seq<Level>, ops: Seq<LineOp>) -> Seq<Level>
    decreases ops.len(),
{
    if ops.len() == 0 {
        levels
    } else {
        levels_after_op(levels_after(levels, ops.drop_last()), ops.last())
    }
}

/// The level that row `row` of the ideal matrix reads while the keys `held`
/// are down and the columns are at `columns`.
pub open spec fn row_level(held: Set<Key>, columns: Seq<Level>, row: int) -> Level {
    if exists|key: Key|
        held.contains(key) && key.row() == row && #[trigger] columns[key.column()] == Level::High {
        Level::High
    } else {
        Level::Low
    }
}

/// How `op` ends on the ideal matrix: a drive succeeds, a read gives the
/// level of the row.
pub open spec fn ideal_outcome(held: Set<Key>, columns: Seq<Level>, op: LineOp) -> LineEvent {
    match op {
        LineOp::DriveColumn { .. } => LineEvent::Driven,
        LineOp::ReadRow { row } => LineEvent::Read(row_level(held, columns, row as int)),
    }
}

/// Where a scan stands, and where the columns are, after up to `steps`
/// operations on the ideal matrix with the keys `held` down.
pub open spec fn run(state: ScanState, held: Set<Key>, columns: Seq<Level>, steps: nat) -> (
    ScanStep,
    Seq<Level>,
)
    decreases steps,
{
    if steps == 0 {
        (ScanStep::Continue(state), columns)
    } else {
        let op = state.pending();
        let driven = levels_after_op(columns, op);
        match state.step(ideal_outcome(held, columns, op)) {
            ScanStep::Continue(next) => run(next, held, driven, (steps - 1) as nat),
            ended => (ended, driven),
        }
    }
}

/// The held keys with an index from `first` up to, but not including, `end`.
pub open spec fn held_between(held: Set<Key>, first: int, end: int) -> Set<Key> {
    Set::new(|key: Key| held.contains(key) && first <= key.index() < end)
}

/// The ten operations of a probe, one by one.
pub proof fn lemma_probe_script(key: Key)
    ensures
        probe_script(key).len() == 10,
        forall|column: int|
            0 <= column < 4 ==> #[trigger] probe_script(key)[column] == (LineOp::DriveColumn {
                column: column as usize,
                level: Level::Low,
            }),
        probe_script(key)[4] == (LineOp::DriveColumn {
            column: key.column() as usize,
            level: Level::High,
        }),
        probe_script(key)[5] == (LineOp::ReadRow { row: key.row() as usize }),
        forall|column: int|
            0 <= column < 4 ==> #[trigger] probe_script(key)[6 + column] == (LineOp::DriveColumn {
                column: column as usize,
                level: Level::Low,
            }),
{
}

/// Driving every column to a level leaves every column at that level,
/// whatever the columns were at before.
pub proof fn lemma_drive_columns_sets_every_column(before: Seq<Level>, level: Level)
    requires
        before.len() == 4,
    ensures
        levels_after(before, drive_columns(level)) == Seq::new(4, |column: int| level),
{
    let ops = drive_columns(level);
    let one = levels_after(before, ops.take(1));
    let two = levels_after(before, ops.take(2));
    let three = levels_after(before, ops.take(3));
    assert(ops.take(0).len() == 0);
    assert(ops.take(1).drop_last() =~= ops.take(0));
    assert(ops.take(2).drop_last() =~= ops.take(1));
    assert(ops.take(3).drop_last() =~= ops.take(2));
    assert(ops.drop_last() =~= ops.take(3));
    assert(levels_after(before, ops.take(0)) == before);
    assert(one == levels_after_op(before, ops[0]));
    assert(two == levels_after_op(one, ops[1]));
    assert(three == levels_after_op(two, ops[2]));
    assert(levels_after(before, ops) == levels_after_op(three, ops[3]));
    assert(levels_after(before, ops) =~= Seq::new(4, |column: int| level));
}

/// While a key is probed, no other column is active.
///
/// Take the columns at any levels `before` the probe and perform the first
/// `done` of its operations. Then every column but the key's is low as soon
/// as the probe has cleared it, and all along if it was low before. When
/// the row is read, the key's column is high. When the probe is over, every
/// column is low, so that each probe of a scan but the first begins, and
/// therefore proceeds, with no other column active.
pub proof fn lemma_probe_activates_one_column(key: Key, before: Seq<Level>, done: int)
    requires
        before.len() == 4,
        0 <= done <= 10,
    ensures
        levels_after(before, probe_script(key).take(done)).len() == 4,
        forall|column: int|
            0 <= column < 4 && column != key.column() && (column < done || before[column]
                == Level::Low) ==> #[trigger] levels_after(
                before,
                probe_script(key).take(done),
            )[column] == Level::Low,
        done == 5 ==> levels_after(before, probe_script(key).take(done))[key.column()]
            == Level::High,
        done == 10 ==> levels_after(before, probe_script(key).take(done)) == all_low(),
{
    lemma_levels_during_probe(key, before, done);
    if done == 10 {
        assert(levels_after(before, probe_script(key).take(done)) =~= all_low());
    }
}

/// The level of each column after the first `done` operations of a probe.
proof fn lemma_levels_during_probe(key: Key, before: Seq<Level>, done: int)
    requires
        before.len() == 4,
        0 <= done <= 10,
    ensures
        levels_after(before, probe_script(key).take(done)).len() == 4,
        forall|column: int|
            0 <= column < 4 ==> #[trigger] levels_after(
                before,
                probe_script(key).take(done),
            )[column] == if done <= column {
                before[column]
            } else if column == key.column() && 5 <= done <= 6 + column {
                Level::High
            } else {
                Level::Low
            },
    decreases done,
{
    lemma_probe_script(key);
    let ops = probe_script(key).take(done);
    if done > 0 {
        lemma_levels_during_probe(key, before, done - 1);
        assert(ops.drop_last() =~= probe_script(key).take(done - 1));
        assert(ops.last() == probe_script(key)[done - 1]);
        if done - 1 >= 6 {
            assert(probe_script(key)[6 + (done - 7)] == probe_script(key)[done - 1]);
        }
    }
}

/// Whether at most the column of the key that is being probed is high, and
/// that only between its activation and its restoration.
pub open spec fn one_column_active(state: ScanState, columns: Seq<Level>) -> bool {
    &&& columns.len() == 4
    &&& forall|column: int|
        0 <= column < 4 && #[trigger] columns[column] == Level::High ==> column
            == state.key().column() && 5 <= state.stage <= 6 + column
}

/// A scan never has two columns active, and the one that is active is the
/// column of the key that is being probed.
///
/// Let a scan run on the ideal matrix from a state in which this holds, as
/// it does at the start of a scan with every column low. Then it holds
/// after any number of operations, and when the scan is over every column
/// is low.
pub proof fn lemma_scan_keeps_one_column_active(
    state: ScanState,
    held: Set<Key>,
    columns: Seq<Level>,
    steps: nat,
)
    requires
        state.wf(),
        one_column_active(state, columns),
    ensures
        run(state, held, columns, steps).0 matches ScanStep::Continue(reached) ==> reached.wf()
            && one_column_active(reached, run(state, held, columns, steps).1),
        run(state, held, columns, steps).0 is Done ==> run(state, held, columns, steps).1
            == all_low(),
        !(run(state, held, columns, steps).0 is Fault),
    decreases steps,
{
    if steps > 0 {
        let key = state.key();
        let op = state.pending();
        let driven = levels_after_op(columns, op);
        lemma_probe_script(key);
        lemma_enumeration_lists_every_key(key);
        lemma_index_of_enumerated(state.key_index);
        lemma_run_step(state, held, columns, steps);
        if state.stage >= 6 {
            assert(probe_script(key)[6 + (state.stage - 6)] == op);
        }
        match state.step(ideal_outcome(held, columns, op)) {
            ScanStep::Continue(next) => {
                if state.stage == 9 {
                    lemma_index_of_enumerated(next.key_index);
                    lemma_enumeration_lists_every_key(next.key());
                }
                assert(one_column_active(next, driven));
                lemma_scan_keeps_one_column_active(next, held, driven, (steps - 1) as nat);
            },
            ScanStep::Done(_) => {
                assert(driven =~= all_low());
            },
            ScanStep::Fault => {},
        }
    }
}

/// One step of `run`, written out.
proof fn lemma_run_step(state: ScanState, held: Set<Key>, columns: Seq<Level>, steps: nat)
    requires
        steps > 0,
    ensures
        run(state, held, columns, steps) == match state.step(
            ideal_outcome(held, columns, state.pending()),
        ) {
            ScanStep::Continue(next) => run(
                next,
                held,
                levels_after_op(columns, state.pending()),
                (steps - 1) as nat,
            ),
            ended => (ended, levels_after_op(columns, state.pending())),
        },
{
}

/// Running on from where a shorter run stopped is the longer run.
proof fn lemma_run_in_two(
    state: ScanState,
    held: Set<Key>,
    columns: Seq<Level>,
    first: nat,
    second: nat,
)
    ensures
        run(state, held, columns, first + second) == match run(state, held, columns, first) {
            (ScanStep::Continue(next), driven) => run(next, held, driven, second),
            ended => ended,
        },
    decreases first,
{
    if first > 0 {
        lemma_run_step(state, held, columns, first);
        lemma_run_step(state, held, columns, first + second);
        let op = state.pending();
        match state.step(ideal_outcome(held, columns, op)) {
            ScanStep::Continue(next) => {
                lemma_run_in_two(
                    next,
                    held,
                    levels_after_op(columns, op),
                    (first - 1) as nat,
                    second,
                );
            },
            _ => {},
        }
    }
}

/// A drive of the probe on the ideal matrix: the scan moves to the next
/// stage, and nothing is found.
proof fn lemma_drive_step(state: ScanState, held: Set<Key>, columns: Seq<Level>, steps: nat)
    requires
        state.wf(),
        state.stage != 5,
        state.stage < 9,
        steps > 0,
    ensures
        run(state, held, columns, steps) == run(
            ScanState { stage: state.stage + 1, ..state },
            held,
            levels_after_op(columns, state.pending()),
            (steps - 1) as nat,
        ),
{
    lemma_probe_script(state.key());
    lemma_run_step(state, held, columns, steps);
    if state.stage >= 6 {
        assert(probe_script(state.key())[6 + (state.stage - 6)] == state.pending());
    }
}

/// The probe of one key on the ideal matrix finds the key exactly when it is
/// held, and leaves every column low.
pub proof fn lemma_probe_finds_held_key(state: ScanState, held: Set<Key>, columns: Seq<Level>)
    requires
        state.wf(),
        state.stage == 0,
        columns.len() == 4,
    ensures
        ({
            let found = if held.contains(state.key()) {
                state.pressed.insert(state.key())
            } else {
                state.pressed
            };
            run(state, held, columns, 10) == if state.key_index + 1 < state.end {
                (
                    ScanStep::Continue(
                        ScanState { key_index: state.key_index + 1, pressed: found, ..state },
                    ),
                    all_low(),
                )
            } else {
                (ScanStep::Done(found), all_low())
            }
        }),
{
    let key = state.key();
    lemma_probe_script(key);
    lemma_index_of_enumerated(state.key_index);
    lemma_enumeration_lists_every_key(key);
    // The four drives that clear the columns.
    let s1 = ScanState { stage: 1, ..state };
    let s2 = ScanState { stage: 2, ..state };
    let s3 = ScanState { stage: 3, ..state };
    let s4 = ScanState { stage: 4, ..state };
    let s5 = ScanState { stage: 5, ..state };
    let c1 = levels_after_op(columns, state.pending());
    let c2 = levels_after_op(c1, s1.pending());
    let c3 = levels_after_op(c2, s2.pending());
    let c4 = levels_after_op(c3, s3.pending());
    lemma_drive_step(state, held, columns, 10);
    lemma_drive_step(s1, held, c1, 9);
    lemma_drive_step(s2, held, c2, 8);
    lemma_drive_step(s3, held, c3, 7);
    assert(c4 =~= all_low());
    // The drive that activates the key's column.
    let c5 = levels_after_op(c4, s4.pending());
    lemma_drive_step(s4, held, c4, 6);
    assert(c5 =~= all_low().update(key.column(), Level::High));
    // The read of the key's row.
    assert(row_level(held, c5, key.row()) == Level::High <==> held.contains(key)) by {
        if held.contains(key) {
            assert(c5[key.column()] == Level::High);
        }
        if row_level(held, c5, key.row()) == Level::High {
            let other = choose|other: Key|
                held.contains(other) && other.row() == key.row() && #[trigger] c5[other.column()]
                    == Level::High;
            lemma_enumeration_lists_every_key(other);
            lemma_key_is_at_its_position(other);
            lemma_position_is_injective(other, key);
        }
    }
    let found = if held.contains(key) {
        state.pressed.insert(key)
    } else {
        state.pressed
    };
    let s6 = ScanState { stage: 6, pressed: found, ..state };
    let s7 = ScanState { stage: 7, ..s6 };
    let s8 = ScanState { stage: 8, ..s6 };
    let s9 = ScanState { stage: 9, ..s6 };
    lemma_run_step(s5, held, c5, 5);
    assert(s5.pending() == (LineOp::ReadRow { row: key.row() as usize }));
    assert(s5.step(ideal_outcome(held, c5, s5.pending())) == ScanStep::Continue(s6));
    assert(run(s5, held, c5, 5) == run(s6, held, c5, 4));
    // The four drives that clear the columns again.
    let c7 = levels_after_op(c5, s6.pending());
    let c8 = levels_after_op(c7, s7.pending());
    let c9 = levels_after_op(c8, s8.pending());
    let c10 = levels_after_op(c9, s9.pending());
    lemma_drive_step(s6, held, c5, 4);
    lemma_drive_step(s7, held, c7, 3);
    lemma_drive_step(s8, held, c8, 2);
    lemma_run_step(s9, held, c9, 1);
    assert(probe_script(key)[6 + 3int] == s9.pending());
    assert(c10 =~= all_low());
}

/// A scan of the ideal matrix finds exactly the held keys in its range,
/// whatever the columns were at before, and leaves every column low.
pub proof fn lemma_scan_finds_held_keys(state: ScanState, held: Set<Key>, columns: Seq<Level>)
    requires
        state.wf(),
        state.stage == 0,
        columns.len() == 4,
    ensures
        run(state, held, columns, (10 * (state.end - state.key_index)) as nat) == (
            ScanStep::Done(state.pressed + held_between(held, state.key_index, state.end)),
            all_low(),
        ),
    decreases state.end - state.key_index,
{
    let key = state.key();
    let found = if held.contains(key) {
        state.pressed.insert(key)
    } else {
        state.pressed
    };
    lemma_index_of_enumerated(state.key_index);
    lemma_probe_finds_held_key(state, held, columns);
    assert(found + held_between(held, state.key_index + 1, state.end) =~= state.pressed
        + held_between(held, state.key_index, state.end)) by {
        assert forall|other: Key| other.index() == state.key_index implies other == key by {
            lemma_enumeration_lists_every_key(other);
        }
    }
    if state.key_index + 1 < state.end {
        let next = ScanState { key_index: state.key_index + 1, pressed: found, ..state };
        let rest = (10 * (state.end - state.key_index - 1)) as nat;
        assert(10 + rest == (10 * (state.end - state.key_index)) as nat);
        lemma_run_in_two(state, held, columns, 10, rest);
        lemma_scan_finds_held_keys(next, held, all_low());
    } else {
        assert(state.end - state.key_index == 1);
        assert(found =~= found + held_between(held, state.key_index + 1, state.end));
    }
}

/// A scan of the whole ideal matrix finds the held keys and no others.
pub proof fn lemma_full_scan_finds_held_keys(held: Set<Key>, columns: Seq<Level>)
    requires
        columns.len() == 4,
    ensures
        run(ScanState::start(0, 16), held, columns, 160) == (ScanStep::Done(held), all_low()),
{
    lemma_scan_finds_held_keys(ScanState::start(0, 16), held, columns);
    assert(Set::<Key>::empty() + held_between(held, 0, 16) =~= held) by {
        assert forall|key: Key| 0 <= #[trigger] key.index() < 16 by {
            lemma_enumeration_lists_every_key(key);
        }
    }
}

/// With one key held, a scan of the whole pad finds that key alone, and the
/// report composed from the scan holds the key's usage code in its first
/// slot and zeros in the other five.
pub proof fn lemma_single_key_is_scanned_and_reported(
    key: Key,
    columns: Seq<Level>,
    report: KeyboardReport,
)
    requires
        columns.len() == 4,
        report.reports(set![key]),
    ensures
        run(ScanState::start(0, 16), set![key], columns, 160).0 == ScanStep::Done(set![key]),
        set![key].len() == 1,
        report.keycodes@ == seq![key.usage(), 0u8, 0u8, 0u8, 0u8, 0u8],
{
    lemma_full_scan_finds_held_keys(set![key], columns);
    lemma_pressed_in_order_lists(set![key]);
    let listed = pressed_in_order(set![key]);
    assert(listed.contains(key));
    assert(listed[0] == key);
    assert(report.keycodes@ =~= seq![key.usage(), 0u8, 0u8, 0u8, 0u8, 0u8]);
}

} // verus!
