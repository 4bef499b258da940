//! The HID keyboard input report and how it is composed from a scan.

use crate::key::{enumeration, lemma_index_of_enumerated, lemma_usage_is_injective, Key};
use crate::pressed::{keys_below, lemma_keys_below_is_finite, PressedKeys};
use vstd::prelude::*;

verus! {

/// A HID keyboard input report: the modifier byte, the reserved byte and six
/// slots for usage codes, where 0 marks an empty slot.
#[derive(Clone, Copy, PartialEq, Eq, Debug)]
pub struct KeyboardReport {
    pub modifier: u8,
    pub reserved: u8,
    pub keycodes: [u8; 6],
}

/// The test "is in `pressed`" as a predicate on keys.
pub open spec fn is_pressed(pressed: Set<Key>) -> spec_fn(Key) -> bool {
    |key: Key| pressed.contains(key)
}

/// The pressed keys among the first `bound` keys of the enumeration, in
/// enumeration order.
pub open spec fn pressed_below(pressed: Set<Key>, bound: int) -> Seq<Key> {
    enumeration().take(bound).filter(is_pressed(pressed))
}

/// The pressed keys in enumeration order.
pub open spec fn pressed_in_order(pressed: Set<Key>) -> Seq<Key> {
    enumeration().filter(is_pressed(pressed))
}

/// The usage codes of the given keys, in the same order.
pub open spec fn usage_codes(keys: Seq<Key>) -> Seq<u8> {
    Seq::new(keys.len(), |i: int| keys[i].usage())
}

/// The six slots that hold `codes` from the left: the first six codes where
/// there are more, zeros after the last code where there are fewer.
pub open spec fn left_packed(codes: Seq<u8>) -> Seq<u8> {
    Seq::new(
        6,
        |slot: int|
            if slot < codes.len() {
                codes[slot]
            } else {
                0u8
            },
    )
}

/// The pressed keys that get a slot: all of them up to six, else the first
/// six in enumeration order.
pub open spec fn reported_keys(pressed: Set<Key>) -> Seq<Key> {
    if pressed_in_order(pressed).len() <= 6 {
        pressed_in_order(pressed)
    } else {
        pressed_in_order(pressed).take(6)
    }
}

/// The slots of the report for a set of pressed keys.
pub open spec fn report_slots(pressed: Set<Key>) -> Seq<u8> {
    left_packed(usage_codes(pressed_in_order(pressed)))
}

impl KeyboardReport {
    /// Whether this is the report for `pressed`: both leading bytes zero and
    /// the slots filled from the pressed keys in enumeration order.
    pub open spec fn reports(self, pressed: Set<Key>) -> bool {
        &&& self.modifier == 0
        &&& self.reserved == 0
        &&& self.keycodes@ == report_slots(pressed)
    }

    /// The eight bytes of the report as they go to the host.
    pub open spec fn wire(self) -> Seq<u8> {
        seq![self.modifier, self.reserved] + self.keycodes@
    }

    /// The report with nothing pressed: every byte is zero.
    pub fn released() -> (report: KeyboardReport)
        ensures
            report.reports(Set::<Key>::empty()),
            report.wire() == Seq::new(8, |i: int| 0u8),
    {
        let report = KeyboardReport { modifier: 0, reserved: 0, keycodes: [0; 6] };
        proof {
            lemma_pressed_below_step(Set::<Key>::empty(), 0);
            lemma_nothing_pressed(16);
            assert(enumeration().take(16) =~= enumeration());
            assert(report.keycodes@ =~= report_slots(Set::<Key>::empty()));
            assert(report.wire() =~= Seq::new(8, |i: int| 0u8));
        }
        report
    }

    /// Composes the report for a set of pressed keys.
    ///
    /// Each pressed key contributes its usage code; the codes fill the slots
    /// from the left in enumeration order. Where more than six keys are
    /// pressed, the first six in that order are reported and the others are
    /// left out.
    pub fn compose(pressed: &PressedKeys) -> (report: KeyboardReport)
        ensures
            report.reports(pressed@),
    {
        let mut keycodes: [u8; 6] = [0; 6];
        let mut filled: usize = 0;
        let mut place: usize = 0;
        proof {
            lemma_pressed_below_step(pressed@, 0);
        }
        while place < 16
            invariant
                place <= 16,
                filled <= 6,
                filled <= pressed_below(pressed@, place as int).len(),
                filled < 6 ==> filled == pressed_below(pressed@, place as int).len(),
                keycodes@ == left_packed(usage_codes(pressed_below(pressed@, place as int))),
            decreases 16 - place,
        {
            proof {
                lemma_pressed_below_step(pressed@, place as int);
            }
            let key = Key::from_ordinal(place).unwrap();
            if pressed.contains(key) && filled < 6 {
                keycodes[filled] = key.usage_code();
                filled = filled + 1;
            }
            place = place + 1;
            assert(keycodes@ =~= left_packed(
                usage_codes(pressed_below(pressed@, place as int)),
            ));
        }
        assert(enumeration().take(16) =~= enumeration());
        KeyboardReport { modifier: 0, reserved: 0, keycodes }
    }

    /// The eight bytes of the report as they go to the host: the modifier
    /// byte, the reserved byte, then the six slots.
    pub fn to_bytes(&self) -> (bytes: [u8; 8])
        ensures
            bytes@ == self.wire(),
    {
        let bytes: [u8; 8] = [
            self.modifier,
            self.reserved,
            self.keycodes[0],
            self.keycodes[1],
            self.keycodes[2],
            self.keycodes[3],
            self.keycodes[4],
            self.keycodes[5],
        ];
        assert(bytes@ =~= self.wire());
        bytes
    }
}

/// Looking one key further adds that key at the end if it is pressed, and
/// nothing otherwise. Before the first key nothing is listed.
pub proof fn lemma_pressed_below_step(pressed: Set<Key>, bound: int)
    requires
        0 <= bound < 16,
    ensures
        pressed_below(pressed, 0) == Seq::<Key>::empty(),
        pressed_below(pressed, bound + 1) == if pressed.contains(enumeration()[bound]) {
            pressed_below(pressed, bound).push(enumeration()[bound])
        } else {
            pressed_below(pressed, bound)
        },
{
    reveal(Seq::filter);
    assert(enumeration().take(0) =~= Seq::<Key>::empty());
    assert(enumeration().take(bound + 1).drop_last() =~= enumeration().take(bound));
    assert(enumeration().take(bound + 1).last() == enumeration()[bound]);
}

/// With no key pressed nothing is listed.
proof fn lemma_nothing_pressed(bound: int)
    requires
        0 <= bound <= 16,
    ensures
        pressed_below(Set::<Key>::empty(), bound) == Seq::<Key>::empty(),
    decreases bound,
{
    if bound == 0 {
        lemma_pressed_below_step(Set::<Key>::empty(), 0);
    } else {
        lemma_nothing_pressed(bound - 1);
        lemma_pressed_below_step(Set::<Key>::empty(), bound - 1);
    }
}

/// What `pressed_below` lists: as many keys as are pressed below the bound,
/// each of them pressed, in rising order of their index, and none left out.
pub proof fn lemma_pressed_below_lists(pressed: Set<Key>, bound: int)
    requires
        0 <= bound <= 16,
    ensures
        pressed_below(pressed, bound).len() == keys_below(pressed, bound).len(),
        forall|i: int|
            0 <= i < pressed_below(pressed, bound).len() ==> pressed.contains(
                #[trigger] pressed_below(pressed, bound)[i],
            ) && 0 <= pressed_below(pressed, bound)[i].index() < bound,
        forall|i: int, j: int|
            0 <= i < j < pressed_below(pressed, bound).len() ==> (#[trigger] pressed_below(
                pressed,
                bound,
            )[i]).index() < (#[trigger] pressed_below(pressed, bound)[j]).index(),
        forall|key: Key|
            pressed.contains(key) && key.index() < bound ==> #[trigger] pressed_below(
                pressed,
                bound,
            ).contains(key),
    decreases bound,
{
    if bound == 0 {
        lemma_pressed_below_step(pressed, 0);
        lemma_keys_below_is_finite(pressed, 0);
        assert(keys_below(pressed, 0) =~= Set::<Key>::empty());
    } else {
        let before = pressed_below(pressed, bound - 1);
        let now = pressed_below(pressed, bound);
        let next = enumeration()[bound - 1];
        lemma_pressed_below_lists(pressed, bound - 1);
        lemma_pressed_below_step(pressed, bound - 1);
        lemma_keys_below_is_finite(pressed, bound - 1);
        lemma_index_of_enumerated(bound - 1);
        assert forall|key: Key| pressed.contains(key) && key.index() < bound implies now.contains(
            key,
        ) by {
            if key.index() < bound - 1 {
                assert(before.contains(key));
                let i = choose|i: int| 0 <= i < before.len() && before[i] == key;
                assert(now[i] == key);
            } else {
                assert(key == next);
                assert(now[now.len() - 1] == key);
            }
        }
    }
}

/// The pressed keys are listed in enumeration order, each once and none
/// left out.
pub proof fn lemma_pressed_in_order_lists(pressed: Set<Key>)
    ensures
        pressed.finite(),
        pressed_in_order(pressed).len() == pressed.len(),
        pressed_in_order(pressed).no_duplicates(),
        forall|key: Key| pressed.contains(key) <==> pressed_in_order(pressed).contains(key),
        forall|i: int, j: int|
            0 <= i < j < pressed_in_order(pressed).len() ==> (#[trigger] pressed_in_order(
                pressed,
            )[i]).index() < (#[trigger] pressed_in_order(pressed)[j]).index(),
{
    lemma_pressed_below_lists(pressed, 16);
    lemma_keys_below_is_finite(pressed, 16);
    assert(enumeration().take(16) =~= enumeration());
    assert(keys_below(pressed, 16) =~= pressed);
}

/// Up to six pressed keys are all reported: the slots hold exactly their
/// usage codes, in enumeration order from the left, each code once, and
/// zeros in the slots that are left.
pub proof fn lemma_report_holds_every_pressed_key(pressed: Set<Key>)
    requires
        pressed.len() <= 6,
    ensures
        usage_codes(pressed_in_order(pressed)).len() == pressed.len(),
        report_slots(pressed).take(pressed.len() as int) == usage_codes(pressed_in_order(pressed)),
        forall|slot: int| pressed.len() <= slot < 6 ==> report_slots(pressed)[slot] == 0,
        usage_codes(pressed_in_order(pressed)).no_duplicates(),
        forall|key: Key|
            pressed.contains(key) <==> usage_codes(pressed_in_order(pressed)).contains(key.usage()),
{
    lemma_usage_codes_match_keys(pressed);
    assert(report_slots(pressed).take(pressed.len() as int) =~= usage_codes(
        pressed_in_order(pressed),
    ));
}

/// The usage codes of the pressed keys are as many as the keys, differ from
/// one another, and are the codes of pressed keys and of no others.
pub proof fn lemma_usage_codes_match_keys(pressed: Set<Key>)
    ensures
        usage_codes(pressed_in_order(pressed)).len() == pressed.len(),
        usage_codes(pressed_in_order(pressed)).no_duplicates(),
        forall|key: Key|
            pressed.contains(key) <==> usage_codes(pressed_in_order(pressed)).contains(key.usage()),
{
    let keys = pressed_in_order(pressed);
    let codes = usage_codes(keys);
    lemma_pressed_in_order_lists(pressed);
    assert forall|i: int, j: int| 0 <= i < codes.len() && 0 <= j < codes.len() && i != j implies codes[i]
        != codes[j] by {
        lemma_usage_is_injective(keys[i], keys[j]);
    }
    assert forall|key: Key| pressed.contains(key) <==> codes.contains(key.usage()) by {
        if pressed.contains(key) {
            let i = choose|i: int| 0 <= i < keys.len() && keys[i] == key;
            assert(codes[i] == key.usage());
        }
        if codes.contains(key.usage()) {
            let i = choose|i: int| 0 <= i < codes.len() && codes[i] == key.usage();
            lemma_usage_is_injective(keys[i], key);
            assert(keys.contains(keys[i]));
        }
    }
}

/// Of more than six pressed keys the first six in enumeration order are
/// reported, one in each slot.
pub proof fn lemma_report_keeps_first_six(pressed: Set<Key>)
    requires
        pressed.len() > 6,
    ensures
        pressed_in_order(pressed).len() > 6,
        reported_keys(pressed) == pressed_in_order(pressed).take(6),
        report_slots(pressed) == usage_codes(reported_keys(pressed)),
{
    lemma_pressed_in_order_lists(pressed);
    assert(report_slots(pressed) =~= usage_codes(reported_keys(pressed)));
}

/// A pressed key that is not among the reported ones has no effect on the
/// report: without it the slots are the same.
pub proof fn lemma_dropped_key_has_no_effect(pressed: Set<Key>, key: Key)
    requires
        pressed.contains(key),
        !reported_keys(pressed).contains(key),
    ensures
        pressed.len() > 6,
        report_slots(pressed.remove(key)) == report_slots(pressed),
{
    let without = pressed.remove(key);
    let all = pressed_in_order(pressed);
    let other = pressed_in_order(without);
    let bound = key.index();
    let head = pressed_below(pressed, bound);
    let tail = enumeration().skip(bound).filter(is_pressed(pressed));
    lemma_pressed_in_order_lists(pressed);
    lemma_pressed_below_lists(pressed, bound);
    lemma_split_at(pressed, bound);
    lemma_split_at(without, bound);
    lemma_same_below(pressed, without, bound, bound);
    let place = choose|i: int| 0 <= i < all.len() && all[i] == key;
    assert(place >= 6) by {
        if place < 6 {
            assert(reported_keys(pressed)[place] == key);
        }
    }
    assert(head.len() >= place) by {
        if head.len() < place {
            // The key listed at `head.len()` comes before `key`, yet it lies
            // at or after `key` in the enumeration.
            let early = all[head.len() as int];
            assert(early == tail[0]);
            enumeration().skip(bound).lemma_filter_contains_rev(is_pressed(pressed), early);
            let k = choose|k: int|
                0 <= k < enumeration().skip(bound).len() && enumeration().skip(bound)[k] == early;
            lemma_index_of_enumerated(bound + k);
            assert(early.index() < key.index());
        }
    }
    assert forall|slot: int| 0 <= slot < 6 implies report_slots(without)[slot] == report_slots(
        pressed,
    )[slot] by {
        assert(all[slot] == head[slot]);
        assert(other[slot] == head[slot]);
    }
    assert(report_slots(without) =~= report_slots(pressed));
}

/// The pressed keys in order are those below a bound followed by those from
/// the bound on.
proof fn lemma_split_at(pressed: Set<Key>, bound: int)
    requires
        0 <= bound <= 16,
    ensures
        pressed_in_order(pressed) == pressed_below(pressed, bound) + enumeration().skip(
            bound,
        ).filter(is_pressed(pressed)),
{
    assert(enumeration() =~= enumeration().take(bound) + enumeration().skip(bound));
    Seq::filter_distributes_over_add(
        enumeration().take(bound),
        enumeration().skip(bound),
        is_pressed(pressed),
    );
}

/// Two sets that agree on the keys below `limit` list the same keys below
/// any bound up to `limit`.
proof fn lemma_same_below(first: Set<Key>, second: Set<Key>, limit: int, bound: int)
    requires
        0 <= bound <= limit <= 16,
        forall|key: Key| key.index() < limit ==> (first.contains(key) <==> second.contains(key)),
    ensures
        pressed_below(first, bound) == pressed_below(second, bound),
    decreases bound,
{
    if bound == 0 {
        lemma_pressed_below_step(first, 0);
        lemma_pressed_below_step(second, 0);
    } else {
        lemma_same_below(first, second, limit, bound - 1);
        lemma_pressed_below_step(first, bound - 1);
        lemma_pressed_below_step(second, bound - 1);
        lemma_index_of_enumerated(bound - 1);
    }
}

/// Composing is a function of the set alone: two reports composed from one
/// set of pressed keys are equal, byte for byte.
pub proof fn lemma_compose_is_deterministic(
    first: KeyboardReport,
    second: KeyboardReport,
    pressed: Set<Key>,
)
    requires
        first.reports(pressed),
        second.reports(pressed),
    ensures
        first == second,
        first.wire() == second.wire(),
{
    assert(first.keycodes@ =~= second.keycodes@);
    assert(first.keycodes == second.keycodes);
}

/// The report with no key is eight zero bytes on the wire.
pub proof fn lemma_release_is_all_zero(report: KeyboardReport)
    requires
        report.reports(Set::<Key>::empty()),
    ensures
        report.wire() == Seq::new(8, |i: int| 0u8),
{
    lemma_pressed_in_order_lists(Set::<Key>::empty());
    assert(pressed_in_order(Set::<Key>::empty()).len() == 0);
    assert(report.wire() =~= Seq::new(8, |i: int| 0u8));
}

/// The report of a pad with a key pressed is not the report with no key:
/// its first slot holds a usage code, and no usage code is 0.
pub proof fn lemma_report_of_a_press_is_not_a_release(report: KeyboardReport, pressed: Set<Key>)
    requires
        report.reports(pressed),
        pressed != Set::<Key>::empty(),
    ensures
        report.keycodes@[0] != 0,
        report.wire() != Seq::new(8, |i: int| 0u8),
{
    lemma_pressed_in_order_lists(pressed);
    if pressed.len() == 0 {
        assert(pressed =~= Set::<Key>::empty());
    }
    let first = pressed_in_order(pressed)[0];
    lemma_usage_is_injective(first, first);
    assert(report.keycodes@[0] == first.usage());
    assert(report.wire()[2] == report.keycodes@[0]);
}

} // verus!
