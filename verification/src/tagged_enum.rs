//! A tagged union written out by hand, exactly as the union builder
//! produces it from the declaration
//! `{ bits: 8, variants: [U8(u8), U32(u32), OptWord(Option<NonZeroWord>)] }`.
//!
//! The builder assigns the variants the sequential tags 1, 2, 3 (tag zero
//! stays reserved for the empty word), generates one constructor per
//! variant, and generates the structural behaviors — destruction,
//! comparison, duplication, debug rendering — as chains of equality checks
//! against the known tag values, each arm using the statically known
//! payload type for its tag.

use crate::tagged_pointer::TaggedPointer;
use crate::tagged_pointer_value::{NonZeroWord, TaggedPointerValue};
use vstd::prelude::*;
use vstd::std_specs::cmp::PartialEqSpec;

verus! {

/// Tag of the `U8` variant: first declared, so tag one.
pub const TAG_U8: u64 = 1;

/// Tag of the `U32` variant: second declared, so tag two.
pub const TAG_U32: u64 = 2;

/// Tag of the `OptWord` variant: third declared, so tag three.
pub const TAG_OPT_WORD: u64 = 3;

/// The logical value of a [`SampleUnion`]: which variant it holds and that
/// variant's payload.
pub enum SampleValue {
    U8(u8),
    U32(u32),
    OptWord(Option<NonZeroWord>),
}

/// The generated union type: logically a closed sum over the three
/// declared variants, physically a single tagged word.
pub struct SampleUnion {
    pointer: TaggedPointer<8>,
}

/// The shift bounds the constructors need: with eight tag bits, tags live
/// below `2^8` and payload patterns below `2^56`.
proof fn lemma_sample_widths()
    ensures
        (1u64 << 8u64) == 0x100,
        (1u64 << 56u64) == 0x100_0000_0000_0000,
{
    assert((1u64 << 8u64) == 0x100) by (bit_vector);
    assert((1u64 << 56u64) == 0x100_0000_0000_0000) by (bit_vector);
}

impl SampleUnion {
    /// Every instance carries one of the three declared tags, with payload
    /// bits that decode under that tag's payload type.
    #[verifier::type_invariant]
    pub closed spec fn wf(self) -> bool {
        ||| (self.pointer.spec_tag() == TAG_U8 && self.pointer.spec_untagged() < 0x100)
        ||| (self.pointer.spec_tag() == TAG_U32 && self.pointer.spec_untagged()
            < 0x1_0000_0000)
        ||| (self.pointer.spec_tag() == TAG_OPT_WORD)
    }

    /// The stored tag.
    pub closed spec fn spec_tag(self) -> u64 {
        self.pointer.spec_tag()
    }

    /// The stored untagged payload bit pattern.
    pub closed spec fn spec_untagged(self) -> u64 {
        self.pointer.spec_untagged()
    }

    /// Construct the `U8` variant, packing the payload under tag one.
    #[allow(non_snake_case)]
    pub fn U8(value: u8) -> (r: Self)
        ensures
            r@ == SampleValue::U8(value),
            r.spec_tag() == TAG_U8,
            r.spec_untagged() == value.bits_spec(),
    {
        proof {
            lemma_sample_widths();
        }
        Self { pointer: TaggedPointer::<8>::new::<u8>(value, TAG_U8) }
    }

    /// Construct the `U32` variant, packing the payload under tag two.
    #[allow(non_snake_case)]
    pub fn U32(value: u32) -> (r: Self)
        ensures
            r@ == SampleValue::U32(value),
            r.spec_tag() == TAG_U32,
            r.spec_untagged() == value.bits_spec(),
    {
        proof {
            lemma_sample_widths();
        }
        Self { pointer: TaggedPointer::<8>::new::<u32>(value, TAG_U32) }
    }

    /// Construct the `OptWord` variant, packing the payload under tag
    /// three.  The handle's bit pattern must leave the eight tag bits
    /// clear; that is the caller's obligation, as it is for any word-sized
    /// handle.
    #[allow(non_snake_case)]
    pub fn OptWord(value: Option<NonZeroWord>) -> (r: Self)
        requires
            value.inv(),
            value.bits_spec() < 0x100_0000_0000_0000,
        ensures
            r@ == SampleValue::OptWord(value),
            r.spec_tag() == TAG_OPT_WORD,
            r.spec_untagged() == value.bits_spec(),
    {
        proof {
            lemma_sample_widths();
        }
        Self { pointer: TaggedPointer::<8>::new::<Option<NonZeroWord>>(value, TAG_OPT_WORD) }
    }

    /// The stored tag.
    pub fn tag(&self) -> (t: u64)
        ensures
            t == self.spec_tag(),
    {
        self.pointer.tag()
    }

    /// Whether the stored tag equals `tag`.
    pub fn is(&self, tag: u64) -> (r: bool)
        ensures
            r == (self.spec_tag() == tag),
    {
        self.pointer.is(tag)
    }

    /// Consume the union and extract the payload as a `U`.
    ///
    /// Extraction is typed by the caller: `U` must be the payload type of
    /// the variant actually stored, which is exactly what `U::valid_bits`
    /// of the stored pattern demands.  The checked per-variant extractors
    /// below are the safer default.
    pub fn unwrap<U: TaggedPointerValue>(self) -> (v: U)
        requires
            U::valid_bits(self.spec_untagged()),
        ensures
            v == U::of_bits(self.spec_untagged()),
    {
        self.pointer.unwrap::<U>()
    }

    /// Read the payload as a fresh copy of a duplicable payload type
    /// without consuming the union.
    pub fn borrow_value<T: TaggedPointerValue + Copy>(&self) -> (v: T)
        requires
            T::valid_bits(self.spec_untagged()),
        ensures
            v == T::of_bits(self.spec_untagged()),
    {
        self.pointer.borrow_value::<T>()
    }

    /// Extract the `U8` payload if that is the stored variant: extraction
    /// checked against the stored tag.
    pub fn try_unwrap_u8(self) -> (r: Option<u8>)
        ensures
            self@ matches SampleValue::U8(v) ==> r == Some(v),
            !(self@ is U8) ==> r == None::<u8>,
    {
        proof {
            use_type_invariant(&self);
        }
        if self.is(TAG_U8) {
            Some(self.unwrap::<u8>())
        } else {
            None
        }
    }

    /// Extract the `U32` payload if that is the stored variant.
    pub fn try_unwrap_u32(self) -> (r: Option<u32>)
        ensures
            self@ matches SampleValue::U32(v) ==> r == Some(v),
            !(self@ is U32) ==> r == None::<u32>,
    {
        proof {
            use_type_invariant(&self);
        }
        if self.is(TAG_U32) {
            Some(self.unwrap::<u32>())
        } else {
            None
        }
    }

    /// Extract the `OptWord` payload if that is the stored variant.
    pub fn try_unwrap_opt_word(self) -> (r: Option<Option<NonZeroWord>>)
        ensures
            self@ matches SampleValue::OptWord(v) ==> r == Some(v),
            !(self@ is OptWord) ==> r == None::<Option<NonZeroWord>>,
    {
        proof {
            use_type_invariant(&self);
        }
        if self.is(TAG_OPT_WORD) {
            Some(self.unwrap::<Option<NonZeroWord>>())
        } else {
            None
        }
    }

    /// The destruction dispatch the builder generates: a chain of equality
    /// checks over the closed tag set, releasing the payload through the
    /// matching variant's payload type.
    pub fn dispose(self) {
        proof {
            use_type_invariant(&self);
        }
        let Self { mut pointer } = self;
        let tag = pointer.tag();
        if tag == TAG_U8 {
            pointer.drop_as::<u8>();
        } else if tag == TAG_U32 {
            pointer.drop_as::<u32>();
        } else {
            pointer.drop_as::<Option<NonZeroWord>>();
        }
    }

    /// The duplication dispatch the builder generates: decode under the
    /// stored tag's payload type, duplicate, and re-encode under the same
    /// tag.
    pub fn duplicate(&self) -> (r: Self)
        ensures
            r@ == self@,
            r.spec_tag() == self.spec_tag(),
    {
        proof {
            use_type_invariant(self);
        }
        let tag = self.tag();
        let pointer = if tag == TAG_U8 {
            self.pointer.clone_as::<u8>()
        } else if tag == TAG_U32 {
            self.pointer.clone_as::<u32>()
        } else {
            self.pointer.clone_as::<Option<NonZeroWord>>()
        };
        Self { pointer }
    }

    /// The characters of the debug rendering: the variant name around the
    /// payload's own rendering.
    pub open spec fn spec_debug(self) -> Seq<char> {
        match self@ {
            SampleValue::U8(v) => seq!['U', '8', '('] + v.debug_spec() + seq![')'],
            SampleValue::U32(v) => seq!['U', '3', '2', '('] + v.debug_spec() + seq![')'],
            SampleValue::OptWord(v) => seq!['O', 'p', 't', 'W', 'o', 'r', 'd', '(']
                + v.debug_spec() + seq![')'],
        }
    }

    /// The debug dispatch the builder generates: render the payload under
    /// the stored tag's payload type, wrapped in the variant's name.
    pub fn debug_string(&self) -> (s: String)
        ensures
            s@ == self.spec_debug(),
    {
        proof {
            use_type_invariant(self);
            reveal_strlit("U8");
            reveal_strlit("U32");
            reveal_strlit("OptWord");
        }
        let tag = self.tag();
        let s = if tag == TAG_U8 {
            self.pointer.format_as::<u8>("U8")
        } else if tag == TAG_U32 {
            self.pointer.format_as::<u32>("U32")
        } else {
            self.pointer.format_as::<Option<NonZeroWord>>("OptWord")
        };
        proof {
            assert(s@ =~= self.spec_debug());
        }
        s
    }
}

impl View for SampleUnion {
    type V = SampleValue;

    /// The logical value: decode the stored payload bits under the payload
    /// type that belongs to the stored tag.
    closed spec fn view(&self) -> SampleValue {
        if self.spec_tag() == TAG_U8 {
            SampleValue::U8(<u8 as TaggedPointerValue>::of_bits(self.spec_untagged()))
        } else if self.spec_tag() == TAG_U32 {
            SampleValue::U32(<u32 as TaggedPointerValue>::of_bits(self.spec_untagged()))
        } else {
            SampleValue::OptWord(
                <Option<NonZeroWord> as TaggedPointerValue>::of_bits(self.spec_untagged()),
            )
        }
    }
}

impl PartialEq for SampleUnion {
    /// The comparison dispatch the builder generates: differing tags
    /// compare unequal without erroring; equal tags decode both payloads
    /// under the shared variant's payload type and compare them
    /// structurally.
    fn eq(&self, other: &Self) -> (r: bool) {
        proof {
            use_type_invariant(self);
            use_type_invariant(other);
        }
        let l_tag = self.tag();
        let r_tag = other.tag();
        if l_tag == TAG_U8 && r_tag == TAG_U8 {
            self.pointer.compare_as::<u8>(&other.pointer)
        } else if l_tag == TAG_U32 && r_tag == TAG_U32 {
            self.pointer.compare_as::<u32>(&other.pointer)
        } else if l_tag == TAG_OPT_WORD && r_tag == TAG_OPT_WORD {
            self.pointer.compare_as::<Option<NonZeroWord>>(&other.pointer)
        } else {
            false
        }
    }
}

impl Eq for SampleUnion {

}

impl vstd::std_specs::cmp::PartialEqSpecImpl for SampleUnion {
    open spec fn obeys_eq_spec() -> bool {
        true
    }

    open spec fn eq_spec(&self, other: &Self) -> bool {
        self@ == other@
    }
}

/// Comparison dispatches on the tag before it looks at any payload bits:
/// instances of different variants are never equal, even when their
/// untagged payload bits coincide, and instances of the same variant are
/// equal exactly when their payloads are.
pub proof fn lemma_comparison_dispatch(a: SampleUnion, b: SampleUnion)
    requires
        a.wf(),
        b.wf(),
    ensures
        a.spec_tag() != b.spec_tag() ==> !a.eq_spec(&b),
        a.spec_tag() == b.spec_tag() && a.spec_untagged() == b.spec_untagged() ==> a.eq_spec(
            &b,
        ),
{
}

} // verus!
