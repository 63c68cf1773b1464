//! The payload conversion contract: how a value of a payload type is
//! converted to and from a raw word-sized bit pattern, without knowing
//! anything about tags.

use crate::decimal::{spec_decimal, u64_to_decimal};
use vstd::prelude::*;
use vstd::string::StringExecFns;

verus! {

/// A type whose values can be stored as the untagged low bits of a tagged
/// word.
///
/// Each implementation fixes a bijection between its well-formed values
/// (`inv`) and a set of raw bit patterns (`valid_bits`): `bits_spec` maps a
/// value to its pattern and `of_bits` maps a pattern back.  The two proof
/// obligations make the maps mutual inverses, so converting a value to raw
/// bits and back is guaranteed to reproduce the value.
pub trait TaggedPointerValue: Sized {
    /// Which values of the type may be stored at all.
    spec fn inv(self) -> bool;

    /// The raw word-sized bit pattern of a value.
    spec fn bits_spec(self) -> u64;

    /// Which raw bit patterns decode to a well-formed value.
    spec fn valid_bits(b: u64) -> bool;

    /// The value a raw bit pattern decodes to.
    spec fn of_bits(b: u64) -> Self;

    /// Encoding a well-formed value yields a valid pattern, and decoding
    /// that pattern yields the value again.
    proof fn lemma_encode_decode(self)
        requires
            self.inv(),
        ensures
            Self::valid_bits(self.bits_spec()),
            Self::of_bits(self.bits_spec()) == self;

    /// Decoding a valid pattern yields a well-formed value whose encoding
    /// is the pattern again.
    proof fn lemma_decode_encode(b: u64)
        requires
            Self::valid_bits(b),
        ensures
            Self::of_bits(b).inv(),
            Self::of_bits(b).bits_spec() == b;

    /// Consume a value, producing its raw bit pattern.  Ownership of
    /// whatever the value owns moves into the returned word.
    fn as_untagged_ptr(this: Self) -> (r: u64)
        requires
            this.inv(),
        ensures
            r == this.bits_spec(),
    ;

    /// Reconstruct an owned value from a raw bit pattern previously
    /// produced by `as_untagged_ptr` for this same type.
    fn from_untagged_ptr(untagged_ptr: u64) -> (v: Self)
        requires
            Self::valid_bits(untagged_ptr),
        ensures
            v == Self::of_bits(untagged_ptr),
    ;

    /// Reconstruct an owned value from a raw bit pattern; the extraction
    /// entry point the tagged word delegates to.
    fn unwrap(untagged_ptr: u64) -> (v: Self)
        requires
            Self::valid_bits(untagged_ptr),
        ensures
            v == Self::of_bits(untagged_ptr),
    {
        Self::from_untagged_ptr(untagged_ptr)
    }

    /// Reconstruct the value encoded in a raw bit pattern and release it
    /// through its normal destruction behavior.
    fn drop_inner(untagged_ptr: u64)
        requires
            Self::valid_bits(untagged_ptr),
    {
        let _v = Self::from_untagged_ptr(untagged_ptr);
    }

    /// Structural equality of two payload values.
    fn eq_value(a: &Self, b: &Self) -> (r: bool)
        requires
            a.inv(),
            b.inv(),
        ensures
            r == (*a == *b),
    ;

    /// A duplicate of a payload value, equal to the value it was made
    /// from.
    fn clone_value(this: &Self) -> (r: Self)
        requires
            this.inv(),
        ensures
            r == *this,
    ;

    /// The characters of the debug rendering of a payload value.
    spec fn debug_spec(self) -> Seq<char>;

    /// Render a payload value for debugging.
    fn debug_value(this: &Self) -> (s: String)
        requires
            this.inv(),
        ensures
            s@ == this.debug_spec(),
    ;
}

/// A word-sized handle whose bit pattern is never zero.
///
/// Leaving the all-zero pattern unused makes it available as a niche: an
/// `Option<NonZeroWord>` is itself a word-sized payload, with `None`
/// represented by the zero sentinel and no separate discriminant.
#[derive(Clone, Copy, PartialEq, Eq, Structural)]
pub struct NonZeroWord {
    value: u64,
}

impl NonZeroWord {
    /// The bit pattern of the handle.
    pub closed spec fn spec_get(self) -> u64 {
        self.value
    }

    /// Wrap a nonzero bit pattern.
    pub fn new(value: u64) -> (r: Self)
        requires
            value != 0,
        ensures
            r.spec_get() == value,
    {
        NonZeroWord { value }
    }

    /// The bit pattern of the handle.
    pub fn get(&self) -> (v: u64)
        ensures
            v == self.spec_get(),
    {
        self.value
    }
}

// ---------------------------------------------------------------------------
// Payload conversion for an optional word-sized handle, using the zero
// niche: `None` is stored as the all-zero pattern, `Some` as the handle's
// own (never zero) pattern.
// ---------------------------------------------------------------------------
impl TaggedPointerValue for Option<NonZeroWord> {
    open spec fn inv(self) -> bool {
        match self {
            Some(w) => w.spec_get() != 0,
            None => true,
        }
    }

    open spec fn bits_spec(self) -> u64 {
        match self {
            Some(w) => w.spec_get(),
            None => 0,
        }
    }

    open spec fn valid_bits(b: u64) -> bool {
        true
    }

    closed spec fn of_bits(b: u64) -> Self {
        if b == 0 {
            None
        } else {
            Some(NonZeroWord { value: b })
        }
    }

    proof fn lemma_encode_decode(self) {
    }

    proof fn lemma_decode_encode(b: u64) {
    }

    fn as_untagged_ptr(this: Self) -> (r: u64) {
        match this {
            Some(w) => w.get(),
            None => 0,
        }
    }

    fn from_untagged_ptr(untagged_ptr: u64) -> (v: Self) {
        if untagged_ptr == 0 {
            None
        } else {
            Some(NonZeroWord::new(untagged_ptr))
        }
    }

    fn eq_value(a: &Self, b: &Self) -> (r: bool) {
        match (a, b) {
            (Some(x), Some(y)) => x.get() == y.get(),
            (None, None) => true,
            _ => false,
        }
    }

    fn clone_value(this: &Self) -> (r: Self) {
        *this
    }

    open spec fn debug_spec(self) -> Seq<char> {
        match self {
            Some(w) => seq!['S', 'o', 'm', 'e', '('] + spec_decimal(w.spec_get() as nat)
                + seq![')'],
            None => seq!['N', 'o', 'n', 'e'],
        }
    }

    fn debug_value(this: &Self) -> (s: String) {
        match this {
            Some(w) => {
                proof {
                    reveal_strlit("Some(");
                    reveal_strlit(")");
                }
                let mut s = String::from_str("Some(");
                let digits = u64_to_decimal(w.get());
                s.append(digits.as_str());
                s.append(")");
                proof {
                    assert(s@ =~= this.debug_spec());
                }
                s
            },
            None => {
                proof {
                    reveal_strlit("None");
                }
                let s = String::from_str("None");
                proof {
                    assert(s@ =~= this.debug_spec());
                }
                s
            },
        }
    }
}

/// The zero niche decodes to `None`: the all-zero untagged pattern means
/// "no handle".
pub proof fn lemma_option_word_niche_none()
    ensures
        <Option<NonZeroWord> as TaggedPointerValue>::of_bits(0) == None::<NonZeroWord>,
{
}

/// Every nonzero untagged pattern decodes to `Some` handle carrying
/// exactly that pattern.
pub proof fn lemma_option_word_niche_some(b: u64)
    requires
        b != 0,
    ensures
        <Option<NonZeroWord> as TaggedPointerValue>::of_bits(b) matches Some(w) && w.spec_get()
            == b,
{
}

} // verus!
