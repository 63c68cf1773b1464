//! A one-word tagged-union primitive.
//!
//! A small integer tag lives in the high bits of a single 64-bit machine
//! word; the payload's raw bit pattern lives in the low bits.  The
//! [`TaggedPointer`] type owns the bit-layout arithmetic, and the
//! [`TaggedPointerValue`] trait is the per-type contract that converts a
//! payload value to and from its raw word-sized bit pattern.

use vstd::prelude::*;

pub mod decimal;
pub mod declare_tags;
pub mod tagged_enum;
mod tagged_pointer;
mod tagged_pointer_value;

pub use tagged_pointer::{
    lemma_empty_word, lemma_pack_tag, lemma_pack_untag, lemma_round_trip, lemma_tag_bound,
    lemma_tag_isolation, lemma_untag_bound, spec_pack, spec_tag_mask, spec_tag_of, spec_untag,
    TaggedPointer,
};
pub use tagged_pointer_value::{
    lemma_option_word_niche_none, lemma_option_word_niche_some, NonZeroWord, TaggedPointerValue,
};

use decimal::{i64_to_decimal, spec_decimal, spec_decimal_signed, u64_to_decimal};
use vstd::string::StringExecFns;

verus! {

// ---------------------------------------------------------------------------
// Payload conversions for scalars narrower than a word.
//
// Each scalar is stored zero-extended in the low bits of the word; signed
// scalars are stored as their two's-complement bit pattern, again
// zero-extended.
// ---------------------------------------------------------------------------
impl TaggedPointerValue for bool {
    open spec fn inv(self) -> bool {
        true
    }

    open spec fn bits_spec(self) -> u64 {
        if self {
            1
        } else {
            0
        }
    }

    open spec fn valid_bits(b: u64) -> bool {
        b < 2
    }

    open spec fn of_bits(b: u64) -> Self {
        b == 1
    }

    proof fn lemma_encode_decode(self) {
    }

    proof fn lemma_decode_encode(b: u64) {
    }

    fn as_untagged_ptr(this: Self) -> (r: u64) {
        if this {
            1
        } else {
            0
        }
    }

    fn from_untagged_ptr(untagged_ptr: u64) -> (v: Self) {
        untagged_ptr == 1
    }

    fn eq_value(a: &Self, b: &Self) -> (r: bool) {
        *a == *b
    }

    fn clone_value(this: &Self) -> (r: Self) {
        *this
    }

    open spec fn debug_spec(self) -> Seq<char> {
        if self {
            seq!['t', 'r', 'u', 'e']
        } else {
            seq!['f', 'a', 'l', 's', 'e']
        }
    }

    fn debug_value(this: &Self) -> (s: String) {
        proof {
            reveal_strlit("true");
            reveal_strlit("false");
        }
        let s = if *this {
            String::from_str("true")
        } else {
            String::from_str("false")
        };
        proof {
            assert(s@ =~= this.debug_spec());
        }
        s
    }
}

impl TaggedPointerValue for u8 {
    open spec fn inv(self) -> bool {
        true
    }

    open spec fn bits_spec(self) -> u64 {
        self as u64
    }

    open spec fn valid_bits(b: u64) -> bool {
        b < 0x100
    }

    open spec fn of_bits(b: u64) -> Self {
        b as u8
    }

    proof fn lemma_encode_decode(self) {
    }

    proof fn lemma_decode_encode(b: u64) {
    }

    fn as_untagged_ptr(this: Self) -> (r: u64) {
        this as u64
    }

    fn from_untagged_ptr(untagged_ptr: u64) -> (v: Self) {
        untagged_ptr as u8
    }

    fn eq_value(a: &Self, b: &Self) -> (r: bool) {
        *a == *b
    }

    fn clone_value(this: &Self) -> (r: Self) {
        *this
    }

    open spec fn debug_spec(self) -> Seq<char> {
        spec_decimal(self as nat)
    }

    fn debug_value(this: &Self) -> (s: String) {
        u64_to_decimal(*this as u64)
    }
}

impl TaggedPointerValue for u16 {
    open spec fn inv(self) -> bool {
        true
    }

    open spec fn bits_spec(self) -> u64 {
        self as u64
    }

    open spec fn valid_bits(b: u64) -> bool {
        b < 0x1_0000
    }

    open spec fn of_bits(b: u64) -> Self {
        b as u16
    }

    proof fn lemma_encode_decode(self) {
    }

    proof fn lemma_decode_encode(b: u64) {
    }

    fn as_untagged_ptr(this: Self) -> (r: u64) {
        this as u64
    }

    fn from_untagged_ptr(untagged_ptr: u64) -> (v: Self) {
        untagged_ptr as u16
    }

    fn eq_value(a: &Self, b: &Self) -> (r: bool) {
        *a == *b
    }

    fn clone_value(this: &Self) -> (r: Self) {
        *this
    }

    open spec fn debug_spec(self) -> Seq<char> {
        spec_decimal(self as nat)
    }

    fn debug_value(this: &Self) -> (s: String) {
        u64_to_decimal(*this as u64)
    }
}

impl TaggedPointerValue for u32 {
    open spec fn inv(self) -> bool {
        true
    }

    open spec fn bits_spec(self) -> u64 {
        self as u64
    }

    open spec fn valid_bits(b: u64) -> bool {
        b < 0x1_0000_0000
    }

    open spec fn of_bits(b: u64) -> Self {
        b as u32
    }

    proof fn lemma_encode_decode(self) {
    }

    proof fn lemma_decode_encode(b: u64) {
    }

    fn as_untagged_ptr(this: Self) -> (r: u64) {
        this as u64
    }

    fn from_untagged_ptr(untagged_ptr: u64) -> (v: Self) {
        untagged_ptr as u32
    }

    fn eq_value(a: &Self, b: &Self) -> (r: bool) {
        *a == *b
    }

    fn clone_value(this: &Self) -> (r: Self) {
        *this
    }

    open spec fn debug_spec(self) -> Seq<char> {
        spec_decimal(self as nat)
    }

    fn debug_value(this: &Self) -> (s: String) {
        u64_to_decimal(*this as u64)
    }
}

impl TaggedPointerValue for i8 {
    open spec fn inv(self) -> bool {
        true
    }

    open spec fn bits_spec(self) -> u64 {
        if self >= 0 {
            self as u64
        } else {
            (self + 0x100) as u64
        }
    }

    open spec fn valid_bits(b: u64) -> bool {
        b < 0x100
    }

    open spec fn of_bits(b: u64) -> Self {
        if b < 0x80 {
            b as i8
        } else {
            (b - 0x100) as i8
        }
    }

    proof fn lemma_encode_decode(self) {
    }

    proof fn lemma_decode_encode(b: u64) {
    }

    fn as_untagged_ptr(this: Self) -> (r: u64) {
        if this >= 0 {
            this as u64
        } else {
            ((this as i64) + 0x100) as u64
        }
    }

    fn from_untagged_ptr(untagged_ptr: u64) -> (v: Self) {
        if untagged_ptr < 0x80 {
            untagged_ptr as i8
        } else {
            ((untagged_ptr as i64) - 0x100) as i8
        }
    }

    fn eq_value(a: &Self, b: &Self) -> (r: bool) {
        *a == *b
    }

    fn clone_value(this: &Self) -> (r: Self) {
        *this
    }

    open spec fn debug_spec(self) -> Seq<char> {
        spec_decimal_signed(self as int)
    }

    fn debug_value(this: &Self) -> (s: String) {
        i64_to_decimal(*this as i64)
    }
}

impl TaggedPointerValue for i16 {
    open spec fn inv(self) -> bool {
        true
    }

    open spec fn bits_spec(self) -> u64 {
        if self >= 0 {
            self as u64
        } else {
            (self + 0x1_0000) as u64
        }
    }

    open spec fn valid_bits(b: u64) -> bool {
        b < 0x1_0000
    }

    open spec fn of_bits(b: u64) -> Self {
        if b < 0x8000 {
            b as i16
        } else {
            (b - 0x1_0000) as i16
        }
    }

    proof fn lemma_encode_decode(self) {
    }

    proof fn lemma_decode_encode(b: u64) {
    }

    fn as_untagged_ptr(this: Self) -> (r: u64) {
        if this >= 0 {
            this as u64
        } else {
            ((this as i64) + 0x1_0000) as u64
        }
    }

    fn from_untagged_ptr(untagged_ptr: u64) -> (v: Self) {
        if untagged_ptr < 0x8000 {
            untagged_ptr as i16
        } else {
            ((untagged_ptr as i64) - 0x1_0000) as i16
        }
    }

    fn eq_value(a: &Self, b: &Self) -> (r: bool) {
        *a == *b
    }

    fn clone_value(this: &Self) -> (r: Self) {
        *this
    }

    open spec fn debug_spec(self) -> Seq<char> {
        spec_decimal_signed(self as int)
    }

    fn debug_value(this: &Self) -> (s: String) {
        i64_to_decimal(*this as i64)
    }
}

impl TaggedPointerValue for i32 {
    open spec fn inv(self) -> bool {
        true
    }

    open spec fn bits_spec(self) -> u64 {
        if self >= 0 {
            self as u64
        } else {
            (self + 0x1_0000_0000) as u64
        }
    }

    open spec fn valid_bits(b: u64) -> bool {
        b < 0x1_0000_0000
    }

    open spec fn of_bits(b: u64) -> Self {
        if b < 0x8000_0000 {
            b as i32
        } else {
            (b - 0x1_0000_0000) as i32
        }
    }

    proof fn lemma_encode_decode(self) {
    }

    proof fn lemma_decode_encode(b: u64) {
    }

    fn as_untagged_ptr(this: Self) -> (r: u64) {
        if this >= 0 {
            this as u64
        } else {
            ((this as i64) + 0x1_0000_0000) as u64
        }
    }

    fn from_untagged_ptr(untagged_ptr: u64) -> (v: Self) {
        if untagged_ptr < 0x8000_0000 {
            untagged_ptr as i32
        } else {
            ((untagged_ptr as i64) - 0x1_0000_0000) as i32
        }
    }

    fn eq_value(a: &Self, b: &Self) -> (r: bool) {
        *a == *b
    }

    fn clone_value(this: &Self) -> (r: Self) {
        *this
    }

    open spec fn debug_spec(self) -> Seq<char> {
        spec_decimal_signed(self as int)
    }

    fn debug_value(this: &Self) -> (s: String) {
        i64_to_decimal(*this as i64)
    }
}

// ---------------------------------------------------------------------------
// Payload conversion for a full raw word.
//
// This is the stand-in for word-sized owning handles: a handle that is
// already a bit pattern (for example an address produced by an unverified
// caller) passes through unchanged, and the caller keeps the obligation
// that its high bits stay clear of the tag region.
// ---------------------------------------------------------------------------
impl TaggedPointerValue for u64 {
    open spec fn inv(self) -> bool {
        true
    }

    open spec fn bits_spec(self) -> u64 {
        self
    }

    open spec fn valid_bits(b: u64) -> bool {
        true
    }

    open spec fn of_bits(b: u64) -> Self {
        b
    }

    proof fn lemma_encode_decode(self) {
    }

    proof fn lemma_decode_encode(b: u64) {
    }

    fn as_untagged_ptr(this: Self) -> (r: u64) {
        this
    }

    fn from_untagged_ptr(untagged_ptr: u64) -> (v: Self) {
        untagged_ptr
    }

    fn eq_value(a: &Self, b: &Self) -> (r: bool) {
        *a == *b
    }

    fn clone_value(this: &Self) -> (r: Self) {
        *this
    }

    open spec fn debug_spec(self) -> Seq<char> {
        spec_decimal(self as nat)
    }

    fn debug_value(this: &Self) -> (s: String) {
        u64_to_decimal(*this)
    }
}

} // verus!

