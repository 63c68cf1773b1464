use tagged_pointer::TaggedPointer;

const TEST_BITS: u8 = 5;
const BOOL_TAG: u64 = 1;
const U8_TAG: u64 = 2;
const HANDLE_TAG: u64 = 3;

#[test]
fn test_bool() {
    let ptr_true = TaggedPointer::<TEST_BITS>::new::<bool>(true, BOOL_TAG);
    assert_eq!(ptr_true.tag(), BOOL_TAG);
    assert!(ptr_true.is(BOOL_TAG));
    assert!(!ptr_true.is(U8_TAG));
    assert_eq!(ptr_true.unwrap::<bool>(), true);

    let ptr_false = TaggedPointer::<TEST_BITS>::new::<bool>(false, BOOL_TAG);
    assert_eq!(ptr_false.tag(), BOOL_TAG);
    assert!(ptr_false.is(BOOL_TAG));
    assert!(!ptr_false.is(U8_TAG));
    assert_eq!(ptr_false.unwrap::<bool>(), false);
}

#[test]
fn test_u8() {
    let ptr42 = TaggedPointer::<TEST_BITS>::new::<u8>(42, U8_TAG);
    assert_eq!(ptr42.tag(), U8_TAG);
    assert!(ptr42.is(U8_TAG));
    assert!(!ptr42.is(BOOL_TAG));
    assert_eq!(ptr42.unwrap::<u8>(), 42);
}

#[test]
fn test_drop() {
    let mut ptr = TaggedPointer::<TEST_BITS>::new::<bool>(true, BOOL_TAG);
    ptr.drop_as::<bool>();

    let mut ptr = TaggedPointer::<TEST_BITS>::new::<u8>(42, U8_TAG);
    ptr.drop_as::<u8>();

    let mut ptr = TaggedPointer::<TEST_BITS>::new::<u64>(0xf00, HANDLE_TAG);
    ptr.drop_as::<u64>();
}

#[test]
fn test_drop_leaves_empty() {
    let mut ptr = TaggedPointer::<TEST_BITS>::new::<u8>(42, U8_TAG);
    ptr.drop_as::<u8>();
    assert_eq!(ptr.tag(), 0);
    assert_eq!(ptr.without_tag(), 0);
}

#[test]
fn test_take_leaves_empty() {
    let mut ptr = TaggedPointer::<TEST_BITS>::new::<u8>(42, U8_TAG);
    let taken = ptr.take();
    assert_eq!(ptr.tag(), 0);
    assert_eq!(ptr.without_tag(), 0);
    assert_eq!(taken.tag(), U8_TAG);
    assert_eq!(taken.unwrap::<u8>(), 42);
}

#[test]
fn test_without_tag_ignores_tag() {
    let a = TaggedPointer::<TEST_BITS>::new::<u8>(42, BOOL_TAG);
    let b = TaggedPointer::<TEST_BITS>::new::<u8>(42, U8_TAG);
    assert_ne!(a.tag(), b.tag());
    assert_eq!(a.without_tag(), b.without_tag());
    assert_eq!(a.without_tag(), 42);
}

#[test]
fn test_borrow_value_keeps_ownership() {
    let ptr = TaggedPointer::<TEST_BITS>::new::<u8>(42, U8_TAG);
    assert_eq!(ptr.borrow_value::<u8>(), 42);
    assert_eq!(ptr.borrow_value::<u8>(), 42);
    assert_eq!(ptr.unwrap::<u8>(), 42);
}

#[test]
fn test_scalar_round_trips() {
    let p = TaggedPointer::<8>::new::<u16>(54321, 1);
    assert_eq!(p.unwrap::<u16>(), 54321);

    let p = TaggedPointer::<8>::new::<u32>(0xdead_beef, 2);
    assert_eq!(p.unwrap::<u32>(), 0xdead_beef);

    let p = TaggedPointer::<8>::new::<u64>(0x00ff_ffff_ffff_ffff, 3);
    assert_eq!(p.unwrap::<u64>(), 0x00ff_ffff_ffff_ffff);

    let p = TaggedPointer::<8>::new::<i8>(-5, 4);
    assert_eq!(p.unwrap::<i8>(), -5);

    let p = TaggedPointer::<8>::new::<i16>(-300, 5);
    assert_eq!(p.unwrap::<i16>(), -300);

    let p = TaggedPointer::<8>::new::<i32>(i32::MIN, 6);
    assert_eq!(p.unwrap::<i32>(), i32::MIN);

    let p = TaggedPointer::<8>::new::<i32>(i32::MAX, 7);
    assert_eq!(p.unwrap::<i32>(), i32::MAX);
}

#[test]
fn test_largest_tag() {
    let p = TaggedPointer::<8>::new::<u8>(7, 255);
    assert_eq!(p.tag(), 255);
    assert!(p.is(255));
    assert_eq!(p.unwrap::<u8>(), 7);
}

#[test]
fn test_compare_as() {
    let a = TaggedPointer::<TEST_BITS>::new::<u8>(42, U8_TAG);
    let b = TaggedPointer::<TEST_BITS>::new::<u8>(42, U8_TAG);
    let c = TaggedPointer::<TEST_BITS>::new::<u8>(43, U8_TAG);
    assert!(a.compare_as::<u8>(&b));
    assert!(!a.compare_as::<u8>(&c));
}

#[test]
fn test_clone_as() {
    let a = TaggedPointer::<TEST_BITS>::new::<u32>(123456, U8_TAG);
    let b = a.clone_as::<u32>();
    assert_eq!(b.tag(), a.tag());
    assert_eq!(b.without_tag(), a.without_tag());
    assert_eq!(a.unwrap::<u32>(), 123456);
    assert_eq!(b.unwrap::<u32>(), 123456);
}

#[test]
fn test_format_as() {
    let p = TaggedPointer::<TEST_BITS>::new::<u8>(42, U8_TAG);
    assert_eq!(p.format_as::<u8>("U8"), "U8(42)");

    let n = TaggedPointer::<TEST_BITS>::new::<i8>(-7, BOOL_TAG);
    assert_eq!(n.format_as::<i8>("I8"), "I8(-7)");

    let b = TaggedPointer::<TEST_BITS>::new::<bool>(true, BOOL_TAG);
    assert_eq!(b.format_as::<bool>("Bool"), "Bool(true)");
}

#[test]
fn test_word_size() {
    assert_eq!(
        std::mem::size_of::<TaggedPointer<5>>(),
        std::mem::size_of::<u64>()
    );
    assert_eq!(
        std::mem::size_of::<TaggedPointer<8>>(),
        std::mem::size_of::<u64>()
    );
}
