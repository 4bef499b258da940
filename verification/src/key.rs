//! The sixteen keys of the pad: where each sits in the matrix, its place in
//! the enumeration order, and the usage code it is reported as.

use crate::hid_usage;
use vstd::prelude::*;

verus! {

/// One of the sixteen physical keys.
///
/// The declaration order is the enumeration order of the keys: the digits,
/// then the letters, then `*` and `#`. A scan visits the keys in this order,
/// and a report lists pressed keys in it.
#[derive(Clone, Copy, PartialEq, Eq, Debug, Hash, Structural)]
pub enum Key {
    Num0,
    Num1,
    Num2,
    Num3,
    Num4,
    Num5,
    Num6,
    Num7,
    Num8,
    Num9,
    A,
    B,
    C,
    D,
    Star,
    Pound,
}

/// Where a key sits in the matrix: its row line and its column line.
#[derive(Clone, Copy, PartialEq, Eq, Debug, Hash, Structural)]
pub struct KeyPosition {
    pub row_index: usize,
    pub column_index: usize,
}

/// The keys as they are printed on the pad, row by row.
pub open spec fn legend() -> Seq<Seq<Key>> {
    seq![
        seq![Key::Num1, Key::Num2, Key::Num3, Key::A],
        seq![Key::Num4, Key::Num5, Key::Num6, Key::B],
        seq![Key::Num7, Key::Num8, Key::Num9, Key::C],
        seq![Key::Star, Key::Num0, Key::Pound, Key::D],
    ]
}

/// The keys in enumeration order.
pub open spec fn enumeration() -> Seq<Key> {
    seq![
        Key::Num0,
        Key::Num1,
        Key::Num2,
        Key::Num3,
        Key::Num4,
        Key::Num5,
        Key::Num6,
        Key::Num7,
        Key::Num8,
        Key::Num9,
        Key::A,
        Key::B,
        Key::C,
        Key::D,
        Key::Star,
        Key::Pound,
    ]
}

impl Key {
    /// The row line of the key.
    pub open spec fn row(self) -> int {
        match self {
            Key::Num1 | Key::Num2 | Key::Num3 | Key::A => 0,
            Key::Num4 | Key::Num5 | Key::Num6 | Key::B => 1,
            Key::Num7 | Key::Num8 | Key::Num9 | Key::C => 2,
            Key::Star | Key::Num0 | Key::Pound | Key::D => 3,
        }
    }

    /// The column line of the key.
    pub open spec fn column(self) -> int {
        match self {
            Key::Num1 | Key::Num4 | Key::Num7 | Key::Star => 0,
            Key::Num2 | Key::Num5 | Key::Num8 | Key::Num0 => 1,
            Key::Num3 | Key::Num6 | Key::Num9 | Key::Pound => 2,
            Key::A | Key::B | Key::C | Key::D => 3,
        }
    }

    /// The place of the key in the enumeration order, from 0.
    pub open spec fn index(self) -> int {
        match self {
            Key::Num0 => 0,
            Key::Num1 => 1,
            Key::Num2 => 2,
            Key::Num3 => 3,
            Key::Num4 => 4,
            Key::Num5 => 5,
            Key::Num6 => 6,
            Key::Num7 => 7,
            Key::Num8 => 8,
            Key::Num9 => 9,
            Key::A => 10,
            Key::B => 11,
            Key::C => 12,
            Key::D => 13,
            Key::Star => 14,
            Key::Pound => 15,
        }
    }

    /// The HID keyboard usage code that stands for the key in a report.
    pub open spec fn usage(self) -> u8 {
        match self {
            Key::Num0 => 0x27,
            Key::Num1 => 0x1E,
            Key::Num2 => 0x1F,
            Key::Num3 => 0x20,
            Key::Num4 => 0x21,
            Key::Num5 => 0x22,
            Key::Num6 => 0x23,
            Key::Num7 => 0x24,
            Key::Num8 => 0x25,
            Key::Num9 => 0x26,
            Key::A => 0x04,
            Key::B => 0x05,
            Key::C => 0x06,
            Key::D => 0x07,
            Key::Star => 0x55,
            Key::Pound => 0x2D,
        }
    }

    /// The matrix position of the key.
    pub fn get_indexes(self) -> (position: KeyPosition)
        ensures
            position.row_index == self.row(),
            position.column_index == self.column(),
    {
        match self {
            Key::Num1 => KeyPosition { row_index: 0, column_index: 0 },
            Key::Num2 => KeyPosition { row_index: 0, column_index: 1 },
            Key::Num3 => KeyPosition { row_index: 0, column_index: 2 },
            Key::A => KeyPosition { row_index: 0, column_index: 3 },
            Key::Num4 => KeyPosition { row_index: 1, column_index: 0 },
            Key::Num5 => KeyPosition { row_index: 1, column_index: 1 },
            Key::Num6 => KeyPosition { row_index: 1, column_index: 2 },
            Key::B => KeyPosition { row_index: 1, column_index: 3 },
            Key::Num7 => KeyPosition { row_index: 2, column_index: 0 },
            Key::Num8 => KeyPosition { row_index: 2, column_index: 1 },
            Key::Num9 => KeyPosition { row_index: 2, column_index: 2 },
            Key::C => KeyPosition { row_index: 2, column_index: 3 },
            Key::Star => KeyPosition { row_index: 3, column_index: 0 },
            Key::Num0 => KeyPosition { row_index: 3, column_index: 1 },
            Key::Pound => KeyPosition { row_index: 3, column_index: 2 },
            Key::D => KeyPosition { row_index: 3, column_index: 3 },
        }
    }

    /// The key at a matrix position, or `None` where a line index is out of
    /// range.
    pub fn at(row_index: usize, column_index: usize) -> (key: Option<Key>)
        ensures
            row_index < 4 && column_index < 4 ==> key == Some(
                legend()[row_index as int][column_index as int],
            ),
            row_index >= 4 || column_index >= 4 ==> key.is_none(),
    {
        match (row_index, column_index) {
            (0, 0) => Some(Key::Num1),
            (0, 1) => Some(Key::Num2),
            (0, 2) => Some(Key::Num3),
            (0, 3) => Some(Key::A),
            (1, 0) => Some(Key::Num4),
            (1, 1) => Some(Key::Num5),
            (1, 2) => Some(Key::Num6),
            (1, 3) => Some(Key::B),
            (2, 0) => Some(Key::Num7),
            (2, 1) => Some(Key::Num8),
            (2, 2) => Some(Key::Num9),
            (2, 3) => Some(Key::C),
            (3, 0) => Some(Key::Star),
            (3, 1) => Some(Key::Num0),
            (3, 2) => Some(Key::Pound),
            (3, 3) => Some(Key::D),
            _ => None,
        }
    }

    /// The place of the key in the enumeration order, from 0.
    pub fn ordinal(self) -> (i: usize)
        ensures
            i == self.index(),
            i < 16,
    {
        match self {
            Key::Num0 => 0,
            Key::Num1 => 1,
            Key::Num2 => 2,
            Key::Num3 => 3,
            Key::Num4 => 4,
            Key::Num5 => 5,
            Key::Num6 => 6,
            Key::Num7 => 7,
            Key::Num8 => 8,
            Key::Num9 => 9,
            Key::A => 10,
            Key::B => 11,
            Key::C => 12,
            Key::D => 13,
            Key::Star => 14,
            Key::Pound => 15,
        }
    }

    /// The key at a place of the enumeration order, or `None` from 16 on.
    pub fn from_ordinal(i: usize) -> (key: Option<Key>)
        ensures
            i < 16 ==> key == Some(enumeration()[i as int]),
            i >= 16 ==> key.is_none(),
    {
        match i {
            0 => Some(Key::Num0),
            1 => Some(Key::Num1),
            2 => Some(Key::Num2),
            3 => Some(Key::Num3),
            4 => Some(Key::Num4),
            5 => Some(Key::Num5),
            6 => Some(Key::Num6),
            7 => Some(Key::Num7),
            8 => Some(Key::Num8),
            9 => Some(Key::Num9),
            10 => Some(Key::A),
            11 => Some(Key::B),
            12 => Some(Key::C),
            13 => Some(Key::D),
            14 => Some(Key::Star),
            15 => Some(Key::Pound),
            _ => None,
        }
    }

    /// The HID keyboard usage code that stands for the key in a report.
    pub fn usage_code(self) -> (code: u8)
        ensures
            code == self.usage(),
    {
        match self {
            Key::Num0 => hid_usage::keyboard_0(),
            Key::Num1 => hid_usage::keyboard_1(),
            Key::Num2 => hid_usage::keyboard_2(),
            Key::Num3 => hid_usage::keyboard_3(),
            Key::Num4 => hid_usage::keyboard_4(),
            Key::Num5 => hid_usage::keyboard_5(),
            Key::Num6 => hid_usage::keyboard_6(),
            Key::Num7 => hid_usage::keyboard_7(),
            Key::Num8 => hid_usage::keyboard_8(),
            Key::Num9 => hid_usage::keyboard_9(),
            Key::A => hid_usage::keyboard_a(),
            Key::B => hid_usage::keyboard_b(),
            Key::C => hid_usage::keyboard_c(),
            Key::D => hid_usage::keyboard_d(),
            Key::Star => hid_usage::keypad_multiply(),
            Key::Pound => hid_usage::keyboard_dash(),
        }
    }
}

/// Every key sits at the position of the legend that shows it, inside the
/// four by four grid.
pub proof fn lemma_key_is_at_its_position(key: Key)
    ensures
        0 <= key.row() < 4,
        0 <= key.column() < 4,
        legend()[key.row()][key.column()] == key,
{
}

/// Every position of the grid holds a key, and that key's position is the
/// one it was found at. With `lemma_key_is_at_its_position` this makes keys
/// and positions a bijection.
pub proof fn lemma_position_holds_one_key(row: int, column: int)
    requires
        0 <= row < 4,
        0 <= column < 4,
    ensures
        legend()[row][column].row() == row,
        legend()[row][column].column() == column,
{
}

/// No two keys share a position.
pub proof fn lemma_position_is_injective(a: Key, b: Key)
    requires
        a.row() == b.row(),
        a.column() == b.column(),
    ensures
        a == b,
{
}

/// The enumeration lists each of the sixteen keys once, at its index.
pub proof fn lemma_enumeration_lists_every_key(key: Key)
    ensures
        enumeration().len() == 16,
        0 <= key.index() < 16,
        enumeration()[key.index()] == key,
        enumeration().no_duplicates(),
{
    assert forall|i: int, j: int|
        0 <= i < enumeration().len() && 0 <= j < enumeration().len() && i != j implies enumeration()[i]
        != enumeration()[j] by {
        lemma_index_of_enumerated(i);
        lemma_index_of_enumerated(j);
    }
}

/// The key at place `i` of the enumeration has index `i`.
pub proof fn lemma_index_of_enumerated(i: int)
    requires
        0 <= i < 16,
    ensures
        enumeration()[i].index() == i,
{
}

/// No two keys share a usage code, and no key has the code 0, which marks
/// an empty slot of a report.
pub proof fn lemma_usage_is_injective(a: Key, b: Key)
    ensures
        a.usage() != 0,
        a.usage() == b.usage() ==> a == b,
{
}

} // verus!
