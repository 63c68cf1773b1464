use tagged_pointer::tagged_enum::{SampleUnion, TAG_OPT_WORD, TAG_U32, TAG_U8};
use tagged_pointer::NonZeroWord;

#[test]
fn test_size() {
    assert_eq!(
        std::mem::size_of::<SampleUnion>(),
        std::mem::size_of::<usize>()
    );
}

#[test]
fn tagged_enum_macro_test_size() {
    assert_eq!(
        std::mem::size_of::<SampleUnion>(),
        std::mem::size_of::<usize>()
    );
}

#[test]
fn test_tags() {
    assert_eq!(TAG_U8, 1);
    assert_eq!(TAG_U32, 2);
}

#[test]
fn tagged_enum_macro_test_tags() {
    assert_eq!(TAG_U8, 1);
    assert_eq!(TAG_U32, 2);
    assert_eq!(TAG_OPT_WORD, 3);
}

#[test]
fn tagged_enum_macro_test_u8() {
    let u8_ptr = SampleUnion::U8(42);

    assert!(u8_ptr.is(TAG_U8));
    assert!(!u8_ptr.is(TAG_U32));

    assert_eq!(u8_ptr.debug_string(), "U8(42)");

    let clone = u8_ptr.duplicate();
    assert_eq!(clone.unwrap::<u8>(), 42);

    assert!(u8_ptr == u8_ptr.duplicate());
    assert!(u8_ptr == SampleUnion::U8(42));
    assert!(u8_ptr != SampleUnion::U8(43));
}

#[test]
fn test_union_scalar_scenario() {
    let u = SampleUnion::U8(42);
    assert_eq!(u.tag(), 1);
    assert!(u.is(1));
    assert!(!u.is(2));
    assert_eq!(u.unwrap::<u8>(), 42);
}

#[test]
fn test_union_u32() {
    let u = SampleUnion::U32(0xdead_beef);
    assert_eq!(u.tag(), TAG_U32);
    assert!(u.is(TAG_U32));
    assert_eq!(u.borrow_value::<u32>(), 0xdead_beef);
    assert_eq!(u.debug_string(), "U32(3735928559)");
    assert_eq!(u.unwrap::<u32>(), 0xdead_beef);
}

#[test]
fn test_union_opt_word() {
    let some = SampleUnion::OptWord(Some(NonZeroWord::new(0xbeef)));
    assert_eq!(some.tag(), TAG_OPT_WORD);
    assert_eq!(some.debug_string(), "OptWord(Some(48879))");
    let payload = some.try_unwrap_opt_word();
    assert!(payload.is_some());
    assert_eq!(payload.unwrap().unwrap().get(), 0xbeef);

    let none = SampleUnion::OptWord(None);
    assert_eq!(none.tag(), TAG_OPT_WORD);
    assert_eq!(none.debug_string(), "OptWord(None)");
    assert!(none.borrow_value::<Option<NonZeroWord>>().is_none());
}

#[test]
fn test_union_niche_sentinel() {
    let none = SampleUnion::OptWord(None);
    let extracted = none.unwrap::<Option<NonZeroWord>>();
    assert!(extracted.is_none());
}

#[test]
fn test_try_unwrap_checks_tag() {
    let u = SampleUnion::U8(42);
    assert_eq!(u.try_unwrap_u8(), Some(42));

    let u = SampleUnion::U8(42);
    assert_eq!(u.try_unwrap_u32(), None);

    let u = SampleUnion::U32(9);
    assert_eq!(u.try_unwrap_u32(), Some(9));

    let u = SampleUnion::U32(9);
    assert!(u.try_unwrap_opt_word().is_none());
}

#[test]
fn test_comparison_dispatch() {
    assert!(SampleUnion::U8(7) == SampleUnion::U8(7));
    assert!(SampleUnion::U8(7) != SampleUnion::U8(8));

    // Same untagged payload bits under different variants never compare
    // equal.
    assert!(SampleUnion::U8(7) != SampleUnion::U32(7));
    assert!(SampleUnion::U32(7) != SampleUnion::U8(7));

    assert!(SampleUnion::OptWord(None) == SampleUnion::OptWord(None));
    assert!(
        SampleUnion::OptWord(Some(NonZeroWord::new(5)))
            == SampleUnion::OptWord(Some(NonZeroWord::new(5)))
    );
    assert!(SampleUnion::OptWord(Some(NonZeroWord::new(5))) != SampleUnion::OptWord(None));
}

#[test]
fn test_dispose() {
    SampleUnion::U8(42).dispose();
    SampleUnion::U32(7).dispose();
    SampleUnion::OptWord(Some(NonZeroWord::new(3))).dispose();
    SampleUnion::OptWord(None).dispose();
}
