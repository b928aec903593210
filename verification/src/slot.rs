//! Typed access to native value slots.
//!
//! A native value slot is one fixed-width `u64` word, used uniformly for
//! arguments and results whatever their logical type. A type that fits in
//! one slot implements [`SlotValue`]: it says which word stores a value
//! (narrower values are zero-extended, so the slot is zero-padded) and which
//! value a word reads back as, and proves that the two are inverse.

use vstd::prelude::*;

verus! {

/// A value that occupies one native value slot.
pub trait SlotValue: Copy + Sized {
    /// The slot word that stores this value. Values narrower than a slot
    /// are zero-extended into the word.
    spec fn word_of(self) -> u64;

    /// The value that a slot word reads back as.
    spec fn value_of(w: u64) -> Self;

    /// Storing a value and reading the slot back is the identity.
    proof fn lemma_slot_round_trip(v: Self)
        ensures
            Self::value_of(v.word_of()) == v,
    ;

    /// Encodes the value into a slot word.
    fn to_word(self) -> (w: u64)
        ensures
            w == self.word_of(),
    ;

    /// Decodes a slot word into a value.
    fn of_word(w: u64) -> (v: Self)
        ensures
            v == Self::value_of(w),
    ;
}

impl SlotValue for u64 {
    open spec fn word_of(self) -> u64 {
        self
    }

    open spec fn value_of(w: u64) -> u64 {
        w
    }

    proof fn lemma_slot_round_trip(v: u64) {
    }

    fn to_word(self) -> u64 {
        self
    }

    fn of_word(w: u64) -> u64 {
        w
    }
}

impl SlotValue for u32 {
    open spec fn word_of(self) -> u64 {
        self as u64
    }

    open spec fn value_of(w: u64) -> u32 {
        w as u32
    }

    proof fn lemma_slot_round_trip(v: u32) {
    }

    fn to_word(self) -> u64 {
        self as u64
    }

    fn of_word(w: u64) -> u32 {
        w as u32
    }
}

impl SlotValue for u16 {
    open spec fn word_of(self) -> u64 {
        self as u64
    }

    open spec fn value_of(w: u64) -> u16 {
        w as u16
    }

    proof fn lemma_slot_round_trip(v: u16) {
    }

    fn to_word(self) -> u64 {
        self as u64
    }

    fn of_word(w: u64) -> u16 {
        w as u16
    }
}

impl SlotValue for u8 {
    open spec fn word_of(self) -> u64 {
        self as u64
    }

    open spec fn value_of(w: u64) -> u8 {
        w as u8
    }

    proof fn lemma_slot_round_trip(v: u8) {
    }

    fn to_word(self) -> u64 {
        self as u64
    }

    fn of_word(w: u64) -> u8 {
        w as u8
    }
}

impl SlotValue for i64 {
    open spec fn word_of(self) -> u64 {
        self as u64
    }

    open spec fn value_of(w: u64) -> i64 {
        w as i64
    }

    proof fn lemma_slot_round_trip(v: i64) {
        assert((v as u64) as i64 == v) by (bit_vector);
    }

    fn to_word(self) -> u64 {
        self as u64
    }

    fn of_word(w: u64) -> i64 {
        w as i64
    }
}

impl SlotValue for i32 {
    open spec fn word_of(self) -> u64 {
        (self as u32) as u64
    }

    open spec fn value_of(w: u64) -> i32 {
        (w as u32) as i32
    }

    proof fn lemma_slot_round_trip(v: i32) {
        assert((((v as u32) as u64) as u32) as i32 == v) by (bit_vector);
    }

    fn to_word(self) -> u64 {
        (self as u32) as u64
    }

    fn of_word(w: u64) -> i32 {
        (w as u32) as i32
    }
}

impl SlotValue for i16 {
    open spec fn word_of(self) -> u64 {
        (self as u16) as u64
    }

    open spec fn value_of(w: u64) -> i16 {
        (w as u16) as i16
    }

    proof fn lemma_slot_round_trip(v: i16) {
        assert((((v as u16) as u64) as u16) as i16 == v) by (bit_vector);
    }

    fn to_word(self) -> u64 {
        (self as u16) as u64
    }

    fn of_word(w: u64) -> i16 {
        (w as u16) as i16
    }
}

impl SlotValue for i8 {
    open spec fn word_of(self) -> u64 {
        (self as u8) as u64
    }

    open spec fn value_of(w: u64) -> i8 {
        (w as u8) as i8
    }

    proof fn lemma_slot_round_trip(v: i8) {
        assert((((v as u8) as u64) as u8) as i8 == v) by (bit_vector);
    }

    fn to_word(self) -> u64 {
        (self as u8) as u64
    }

    fn of_word(w: u64) -> i8 {
        (w as u8) as i8
    }
}

impl SlotValue for bool {
    open spec fn word_of(self) -> u64 {
        if self {
            1u64
        } else {
            0u64
        }
    }

    open spec fn value_of(w: u64) -> bool {
        w != 0
    }

    proof fn lemma_slot_round_trip(v: bool) {
    }

    fn to_word(self) -> u64 {
        if self {
            1u64
        } else {
            0u64
        }
    }

    fn of_word(w: u64) -> bool {
        w != 0
    }
}

} // verus!
