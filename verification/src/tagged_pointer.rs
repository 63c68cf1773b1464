//! The tagged word itself: a single `u64` whose high `BITS` bits hold a
//! tag and whose low `64 - BITS` bits hold an untagged payload bit pattern.

use crate::tagged_pointer_value::TaggedPointerValue;
use vstd::prelude::*;
use vstd::string::StringExecFns;

verus! {

/// The tag stored in the high `bits` bits of `word`.
pub open spec fn spec_tag_of(bits: u8, word: u64) -> u64 {
    word >> ((64 - bits) as u64)
}

/// The tag of `word` moved back into the high bits, with the low bits zero.
pub open spec fn spec_tag_mask(bits: u8, word: u64) -> u64 {
    spec_tag_of(bits, word) << ((64 - bits) as u64)
}

/// The untagged payload bit pattern of `word`: the word with its tag bits
/// cleared.
pub open spec fn spec_untag(bits: u8, word: u64) -> u64 {
    word ^ spec_tag_of(bits, word) << ((64 - bits) as u64)
}

/// A word carrying `tag` in its high `bits` bits and `value` in the rest.
pub open spec fn spec_pack(bits: u8, tag: u64, value: u64) -> u64 {
    value | tag << ((64 - bits) as u64)
}

/// Packing puts the tag exactly into the high bits: reading the tag of a
/// packed word gives back the tag that was packed.
pub proof fn lemma_pack_tag(bits: u8, tag: u64, value: u64)
    requires
        0 < bits < 64,
        tag < (1u64 << (bits as u64)),
        value < (1u64 << ((64 - bits) as u64)),
    ensures
        spec_tag_of(bits, spec_pack(bits, tag, value)) == tag,
{
    assert((value | tag << ((64 - bits) as u64)) >> ((64 - bits) as u64) == tag)
        by (bit_vector)
        requires
            0 < bits < 64,
            tag < (1u64 << (bits as u64)),
            value < (1u64 << ((64 - bits) as u64)),
    ;
}

/// Clearing the tag of a packed word gives back exactly the value bits that
/// were packed, whatever the tag was.
pub proof fn lemma_pack_untag(bits: u8, tag: u64, value: u64)
    requires
        0 < bits < 64,
        tag < (1u64 << (bits as u64)),
        value < (1u64 << ((64 - bits) as u64)),
    ensures
        spec_untag(bits, spec_pack(bits, tag, value)) == value,
{
    lemma_pack_tag(bits, tag, value);
    assert((value | tag << ((64 - bits) as u64)) ^ tag << ((64 - bits) as u64) == value)
        by (bit_vector)
        requires
            0 < bits < 64,
            tag < (1u64 << (bits as u64)),
            value < (1u64 << ((64 - bits) as u64)),
    ;
}

/// The tag read from any word fits in `bits` bits.
pub proof fn lemma_tag_bound(bits: u8, word: u64)
    requires
        0 < bits < 64,
    ensures
        spec_tag_of(bits, word) < (1u64 << (bits as u64)),
{
    assert(word >> ((64 - bits) as u64) < (1u64 << (bits as u64))) by (bit_vector)
        requires
            0 < bits < 64,
    ;
}

/// The untagged payload bits of any word fit under the tag region.
pub proof fn lemma_untag_bound(bits: u8, word: u64)
    requires
        0 < bits < 64,
    ensures
        spec_untag(bits, word) < (1u64 << ((64 - bits) as u64)),
{
    assert(word ^ (word >> ((64 - bits) as u64)) << ((64 - bits) as u64) < (1u64 << ((
    64 - bits) as u64))) by (bit_vector)
        requires
            0 < bits < 64,
    ;
}

/// The all-zero word decodes as tag zero with an all-zero payload.
pub proof fn lemma_empty_word(bits: u8)
    requires
        0 < bits < 64,
    ensures
        spec_tag_of(bits, 0) == 0,
        spec_untag(bits, 0) == 0,
{
    assert(0u64 >> ((64 - bits) as u64) == 0u64) by (bit_vector);
    assert(0u64 ^ 0u64 << ((64 - bits) as u64) == 0u64) by (bit_vector);
}

/// Round trip: packing a well-formed payload value under any in-range tag
/// and decoding under the same payload type yields the value again.
pub proof fn lemma_round_trip<T: TaggedPointerValue>(bits: u8, tag: u64, v: T)
    requires
        0 < bits < 64,
        v.inv(),
        tag < (1u64 << (bits as u64)),
        v.bits_spec() < (1u64 << ((64 - bits) as u64)),
    ensures
        spec_tag_of(bits, spec_pack(bits, tag, v.bits_spec())) == tag,
        T::valid_bits(spec_untag(bits, spec_pack(bits, tag, v.bits_spec()))),
        T::of_bits(spec_untag(bits, spec_pack(bits, tag, v.bits_spec()))) == v,
{
    lemma_pack_tag(bits, tag, v.bits_spec());
    lemma_pack_untag(bits, tag, v.bits_spec());
    v.lemma_encode_decode();
}

/// Tag isolation: packing the same payload bits under two different
/// in-range tags gives words with different tags, while clearing the tag
/// recovers the identical untagged payload bits from either word.
pub proof fn lemma_tag_isolation(bits: u8, tag1: u64, tag2: u64, value: u64)
    requires
        0 < bits < 64,
        tag1 != tag2,
        tag1 < (1u64 << (bits as u64)),
        tag2 < (1u64 << (bits as u64)),
        value < (1u64 << ((64 - bits) as u64)),
    ensures
        spec_tag_of(bits, spec_pack(bits, tag1, value)) != spec_tag_of(
            bits,
            spec_pack(bits, tag2, value),
        ),
        spec_untag(bits, spec_pack(bits, tag1, value)) == spec_untag(
            bits,
            spec_pack(bits, tag2, value),
        ),
{
    lemma_pack_tag(bits, tag1, value);
    lemma_pack_tag(bits, tag2, value);
    lemma_pack_untag(bits, tag1, value);
    lemma_pack_untag(bits, tag2, value);
}

/// A single 64-bit machine word holding a tag in its high `BITS` bits and
/// an untagged payload bit pattern in its low `64 - BITS` bits.
///
/// The all-zero word is the reserved "empty" sentinel: tag zero, payload
/// zero, owning nothing.
pub struct TaggedPointer<const BITS: u8> {
    ptr: u64,
}

impl<const BITS: u8> TaggedPointer<BITS> {
    /// A tag width of zero would leave no tag, and one of 64 or more would
    /// leave no payload; every tagged word is built with a width strictly
    /// between the two.
    #[verifier::type_invariant]
    spec fn width_invariant(self) -> bool {
        0 < BITS < 64
    }

    /// The raw 64-bit word.
    pub closed spec fn spec_word(self) -> u64 {
        self.ptr
    }

    /// The tag stored in the high `BITS` bits.
    pub open spec fn spec_tag(self) -> u64 {
        spec_tag_of(BITS, self.spec_word())
    }

    /// The untagged payload bit pattern stored in the low bits.
    pub open spec fn spec_untagged(self) -> u64 {
        spec_untag(BITS, self.spec_word())
    }

    /// Whether this word is the empty sentinel, owning nothing.
    pub open spec fn spec_is_empty(self) -> bool {
        self.spec_word() == 0
    }

    /// Build a tagged word from an already-converted payload bit pattern.
    ///
    /// The payload bits must leave the high `BITS` bits clear, and the tag
    /// must fit its width; both are the caller's obligation.
    pub fn new_from_word(value: u64, tag: u64) -> (r: Self)
        requires
            0 < BITS < 64,
            tag < (1u64 << (BITS as u64)),
            value < (1u64 << ((64 - BITS) as u64)),
        ensures
            r.spec_tag() == tag,
            r.spec_untagged() == value,
            r.spec_word() == spec_pack(BITS, tag, value),
    {
        let value_bits: u8 = 64 - BITS;
        let tag_mask: u64 = tag << value_bits;
        let ptr = value | tag_mask;
        proof {
            lemma_pack_tag(BITS, tag, value);
            lemma_pack_untag(BITS, tag, value);
        }
        Self { ptr }
    }

    /// Convert a payload value to its raw bit pattern and pack it together
    /// with `tag` into a single word.  Ownership of the value moves into
    /// the word.
    pub fn new<T: TaggedPointerValue>(value: T, tag: u64) -> (r: Self)
        requires
            0 < BITS < 64,
            tag < (1u64 << (BITS as u64)),
            value.inv(),
            value.bits_spec() < (1u64 << ((64 - BITS) as u64)),
        ensures
            r.spec_tag() == tag,
            r.spec_untagged() == value.bits_spec(),
            T::valid_bits(r.spec_untagged()),
            T::of_bits(r.spec_untagged()) == value,
    {
        proof {
            value.lemma_encode_decode();
        }
        Self::new_from_word(T::as_untagged_ptr(value), tag)
    }

    /// The stored tag.
    pub fn tag(&self) -> (t: u64)
        ensures
            t == self.spec_tag(),
    {
        proof {
            use_type_invariant(self);
        }
        let value_bits: u8 = 64 - BITS;
        self.ptr >> value_bits
    }

    /// Whether the stored tag equals `tag`.
    pub fn is(&self, tag: u64) -> (r: bool)
        ensures
            r == (self.spec_tag() == tag),
    {
        self.tag() == tag
    }

    /// The stored tag moved back into the high bits, low bits zero.
    fn tag_mask(&self) -> (m: u64)
        ensures
            m == spec_tag_mask(BITS, self.spec_word()),
    {
        proof {
            use_type_invariant(self);
        }
        let value_bits: u8 = 64 - BITS;
        self.tag() << value_bits
    }

    /// The untagged payload bit pattern: the word with its tag cleared.
    pub fn without_tag(&self) -> (v: u64)
        ensures
            v == self.spec_untagged(),
    {
        self.ptr ^ self.tag_mask()
    }

    /// Consume the word and reconstruct the payload as an owned `T`.
    ///
    /// Extraction is typed by the caller: `T` must be the payload type the
    /// word was built with, which is exactly what `T::valid_bits` of the
    /// stored pattern demands.
    pub fn unwrap<T: TaggedPointerValue>(self) -> (v: T)
        requires
            T::valid_bits(self.spec_untagged()),
        ensures
            v == T::of_bits(self.spec_untagged()),
            v.inv(),
    {
        let untagged_ptr = self.without_tag();
        proof {
            T::lemma_decode_encode(untagged_ptr);
        }
        T::unwrap(untagged_ptr)
    }

    /// Reconstruct the payload as a fresh copy without consuming the word.
    ///
    /// Only duplicable payloads may be read this way, hence the `Copy`
    /// bound: for such types a reconstructed copy and a borrow are
    /// indistinguishable, and the word keeps sole ownership.
    pub fn borrow_value<T: TaggedPointerValue + Copy>(&self) -> (v: T)
        requires
            T::valid_bits(self.spec_untagged()),
        ensures
            v == T::of_bits(self.spec_untagged()),
            v.inv(),
    {
        let untagged_ptr = self.without_tag();
        proof {
            T::lemma_decode_encode(untagged_ptr);
        }
        T::from_untagged_ptr(untagged_ptr)
    }

    /// Release the payload through its normal destruction behavior and
    /// leave the word empty, so a later release is a no-op.
    pub fn drop_as<T: TaggedPointerValue>(&mut self)
        requires
            T::valid_bits(old(self).spec_untagged()),
        ensures
            final(self).spec_is_empty(),
            final(self).spec_tag() == 0,
            final(self).spec_untagged() == 0,
    {
        proof {
            use_type_invariant(&*self);
            lemma_empty_word(BITS);
        }
        let untagged_ptr = self.without_tag();
        self.ptr = 0;
        T::drop_inner(untagged_ptr);
    }

    /// Move the word out, leaving the empty sentinel behind: after the
    /// call, this instance owns nothing and the returned word owns what
    /// this one owned.
    pub fn take(&mut self) -> (taken: Self)
        ensures
            taken == *old(self),
            final(self).spec_is_empty(),
            final(self).spec_tag() == 0,
            final(self).spec_untagged() == 0,
    {
        proof {
            use_type_invariant(&*self);
            lemma_empty_word(BITS);
        }
        let taken = Self { ptr: self.ptr };
        self.ptr = 0;
        taken
    }

    /// Render the payload for debugging as `Name(value)`, reconstructing
    /// it as a `T` without consuming the word.
    pub fn format_as<T: TaggedPointerValue>(&self, variant_name: &str) -> (s: String)
        requires
            T::valid_bits(self.spec_untagged()),
        ensures
            s@ == variant_name@ + seq!['('] + T::of_bits(self.spec_untagged()).debug_spec()
                + seq![')'],
    {
        let untagged_ptr = self.without_tag();
        proof {
            T::lemma_decode_encode(untagged_ptr);
        }
        let unwrapped = T::from_untagged_ptr(untagged_ptr);
        let rendered = T::debug_value(&unwrapped);
        proof {
            reveal_strlit("(");
            reveal_strlit(")");
        }
        let mut s = String::from_str(variant_name);
        s.append("(");
        s.append(rendered.as_str());
        s.append(")");
        proof {
            assert(s@ =~= variant_name@ + seq!['('] + T::of_bits(self.spec_untagged()).debug_spec()
                + seq![')']);
        }
        s
    }

    /// Reconstruct both payloads and compare them structurally.  The tags
    /// play no part here; dispatching on them is the union layer's job.
    pub fn compare_as<T: TaggedPointerValue>(&self, other: &Self) -> (r: bool)
        requires
            T::valid_bits(self.spec_untagged()),
            T::valid_bits(other.spec_untagged()),
        ensures
            r == (T::of_bits(self.spec_untagged()) == T::of_bits(other.spec_untagged())),
    {
        let l_untagged = self.without_tag();
        let r_untagged = other.without_tag();
        proof {
            T::lemma_decode_encode(l_untagged);
            T::lemma_decode_encode(r_untagged);
        }
        let l_value = T::from_untagged_ptr(l_untagged);
        let r_value = T::from_untagged_ptr(r_untagged);
        T::eq_value(&l_value, &r_value)
    }

    /// Reconstruct the payload, duplicate it, and pack the duplicate under
    /// the same tag: a deep copy of the whole tagged word.
    pub fn clone_as<T: TaggedPointerValue>(&self) -> (r: Self)
        requires
            T::valid_bits(self.spec_untagged()),
        ensures
            r.spec_tag() == self.spec_tag(),
            r.spec_untagged() == self.spec_untagged(),
    {
        proof {
            use_type_invariant(self);
            lemma_tag_bound(BITS, self.spec_word());
            lemma_untag_bound(BITS, self.spec_word());
        }
        let untagged_ptr = self.without_tag();
        proof {
            T::lemma_decode_encode(untagged_ptr);
        }
        let unwrapped = T::from_untagged_ptr(untagged_ptr);
        let cloned = T::clone_value(&unwrapped);
        Self::new::<T>(cloned, self.tag())
    }
}

} // verus!
