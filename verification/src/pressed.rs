//! The set of keys found pressed by one scan.

use crate::key::{enumeration, lemma_index_of_enumerated, Key};
use vstd::prelude::*;

verus! {

/// The keys found pressed during one scan.
///
/// Its view is the mathematical set of those keys.
#[derive(Clone, Copy, PartialEq, Eq, Debug)]
pub struct PressedKeys {
    /// One flag for each key, at the key's place in the enumeration order.
    held: [bool; 16],
}

impl View for PressedKeys {
    type V = Set<Key>;

    closed spec fn view(&self) -> Set<Key> {
        Set::new(|key: Key| self.held@[key.index()])
    }
}

/// The keys of `keys` whose index is below `bound`.
pub open spec fn keys_below(keys: Set<Key>, bound: int) -> Set<Key> {
    Set::new(|key: Key| keys.contains(key) && key.index() < bound)
}

/// A set of keys is finite and holds sixteen keys at most.
pub proof fn lemma_key_set_is_finite(keys: Set<Key>)
    ensures
        keys.finite(),
        keys.len() <= 16,
{
    lemma_keys_below_is_finite(keys, 16);
    assert(keys_below(keys, 16) =~= keys);
}

/// The keys with an index below `bound` are `bound` at most, and the next
/// index adds its key or nothing.
pub proof fn lemma_keys_below_is_finite(keys: Set<Key>, bound: int)
    requires
        0 <= bound <= 16,
    ensures
        keys_below(keys, bound).finite(),
        keys_below(keys, bound).len() <= bound,
        bound < 16 ==> keys_below(keys, bound + 1) == if keys.contains(enumeration()[bound]) {
            keys_below(keys, bound).insert(enumeration()[bound])
        } else {
            keys_below(keys, bound)
        },
        bound < 16 ==> !keys_below(keys, bound).contains(enumeration()[bound]),
    decreases bound,
{
    if bound == 0 {
        assert(keys_below(keys, 0) =~= Set::<Key>::empty());
    } else {
        lemma_keys_below_is_finite(keys, bound - 1);
        lemma_index_of_enumerated(bound - 1);
    }
    if bound < 16 {
        lemma_index_of_enumerated(bound);
        let next = enumeration()[bound];
        assert forall|key: Key| key.index() < bound + 1 <==> key.index() < bound || key
            == next by {}
        if keys.contains(next) {
            assert(keys_below(keys, bound + 1) =~= keys_below(keys, bound).insert(next));
        } else {
            assert(keys_below(keys, bound + 1) =~= keys_below(keys, bound));
        }
    }
}

impl PressedKeys {
    /// The empty set: no key is pressed.
    pub fn new() -> (pressed: PressedKeys)
        ensures
            pressed@ == Set::<Key>::empty(),
    {
        let pressed = PressedKeys { held: [false; 16] };
        assert(pressed@ =~= Set::<Key>::empty());
        pressed
    }

    /// Adds `key` to the set.
    pub fn insert(&mut self, key: Key)
        ensures
            final(self)@ == old(self)@.insert(key),
    {
        let place = key.ordinal();
        self.held[place] = true;
        assert(self@ =~= old(self)@.insert(key));
    }

    /// Whether `key` is in the set.
    pub fn contains(&self, key: Key) -> (held: bool)
        ensures
            held == self@.contains(key),
    {
        self.held[key.ordinal()]
    }

    /// The number of keys in the set.
    pub fn len(&self) -> (count: usize)
        ensures
            count == self@.len(),
            count <= 16,
    {
        let mut count: usize = 0;
        let mut place: usize = 0;
        proof {
            lemma_keys_below_is_finite(self@, 0);
            assert(keys_below(self@, 0) =~= Set::<Key>::empty());
        }
        while place < 16
            invariant
                place <= 16,
                count == keys_below(self@, place as int).len(),
                count <= place,
            decreases 16 - place,
        {
            proof {
                lemma_keys_below_is_finite(self@, place as int);
                lemma_index_of_enumerated(place as int);
            }
            if self.held[place] {
                count = count + 1;
            }
            place = place + 1;
        }
        assert(keys_below(self@, 16) =~= self@);
        count
    }

    /// Whether no key is in the set.
    pub fn is_empty(&self) -> (empty: bool)
        ensures
            empty == (self@ == Set::<Key>::empty()),
    {
        let count = self.len();
        proof {
            lemma_key_set_is_finite(self@);
            if count == 0 {
                assert(self@ =~= Set::<Key>::empty());
            }
        }
        count == 0
    }
}

} // verus!
