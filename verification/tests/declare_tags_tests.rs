use tagged_pointer::declare_tags::declare_tags;

#[test]
fn test_declare_tags() {
    let tags = declare_tags(42, 3);
    assert_eq!(tags[0], 42);
    assert_eq!(tags[1], 43);
    assert_eq!(tags[2], 44);
}

#[test]
fn declare_tags_test_declare_tags() {
    let tags = declare_tags(42, 3);
    assert_eq!(tags[0], 42);
    assert_eq!(tags[1], 43);
    assert_eq!(tags[2], 44);
}

#[test]
fn tagged_enum_macro_test_declare_tags() {
    let tags = declare_tags(42, 3);
    assert_eq!(tags[0], 42);
    assert_eq!(tags[1], 43);
    assert_eq!(tags[2], 44);
}

#[test]
fn test_declare_tags_from_one() {
    let tags = declare_tags(1, 3);
    assert_eq!(tags, vec![1, 2, 3]);
}

#[test]
fn test_declare_tags_empty() {
    let tags = declare_tags(1, 0);
    assert!(tags.is_empty());
}
