use cidre::ns::attributed_string::{AttrString, AttrStringKey};
use cidre::ns::dictionary::Dictionary;
use cidre::ns::obj::Id;
use cidre::ns::range::Range;
use cidre::ns::string::Str;

#[test]
fn attributed_string_basics() {
    let str = Str::with_str("Hello");
    let astr = AttrString::with_string(&str);

    assert_eq!(astr.string(), &str);
    let attrs = astr.attrs_at(0, None).unwrap();
    assert!(attrs.is_empty());

    let copy = astr.copy_mut();
    let copy = copy.copy();
    let copy = AttrString::with_attr_string(&copy);

    assert_eq!(copy.len(), 5);

    let mut mcopy = copy.copy_mut();

    let color_key = AttrStringKey::from_ns_string(&Str::with_str("color"));
    let color_val = Id::with_raw(1);

    let attrs = Dictionary::with_keys_values(vec![color_key.retained()], vec![color_val]);

    mcopy.add_attrs(&attrs, Range::new(0, 5)).expect("ok");
    mcopy
        .add_attr(&color_key, &color_val, Range::new(1000, 10))
        .expect_err("ok");
    mcopy
        .add_attr(&color_key, &color_val, Range::new(0, 3))
        .expect("ok");

    mcopy
        .remove_attr(&color_key, Range::new(100, 200))
        .expect_err("should be out of bounds");

    mcopy
        .remove_attr(&color_key, Range::new(0, 5))
        .expect("failed to remove valid range");
}

#[test]
fn attrs_take_effect() {
    let text = Str::with_str("abcd");
    let mut astr = AttrString::with_string(&text).copy_mut();
    let key = AttrStringKey::from_ns_string(&Str::with_str("k"));
    let val = Id::with_raw(7);
    astr.add_attr(&key, &val, Range::new(1, 2)).expect("fits");

    let base = astr.copy();
    let outside = base.attrs_at(0, None).unwrap();
    assert!(outside.is_empty());
    let inside = base.attrs_at(1, None).unwrap();
    assert_eq!(inside.len(), 1);
    let entry = inside.get(0);
    assert_eq!(&entry.0, &key);
    assert_eq!(entry.1, val);
    let inside = base.attrs_at(2, None).unwrap();
    assert_eq!(inside.len(), 1);
    let outside = base.attrs_at(3, None).unwrap();
    assert!(outside.is_empty());
    assert!(base.attrs_at(4, None).is_err());
}

#[test]
fn same_key_overwrites() {
    let text = Str::with_str("xy");
    let mut astr = AttrString::with_string(&text).copy_mut();
    let key = AttrStringKey::from_ns_string(&Str::with_str("k"));
    astr.add_attr(&key, &Id::with_raw(1), Range::new(0, 2)).expect("fits");
    astr.add_attr(&key, &Id::with_raw(2), Range::new(0, 2)).expect("fits");
    let dict = astr.copy().attrs_at(0, None).unwrap();
    assert_eq!(dict.len(), 1);
    assert_eq!(dict.get(0).1, Id::with_raw(2));
}

#[test]
fn copy_leaves_original_unchanged() {
    // Mutating a copy must leave the other owner's accessors intact and
    // its contents untouched.
    let text = Str::with_str("stable");
    let original = AttrString::with_string(&text);
    let mut copy = original.copy_mut();
    let key = AttrStringKey::from_ns_string(&Str::with_str("mark"));
    copy.add_attr(&key, &Id::with_raw(9), Range::new(0, 6)).expect("fits");

    assert_eq!(original.len(), 6);
    assert_eq!(original.string(), &text);
    let at0 = original.attrs_at(0, None).unwrap();
    assert!(at0.is_empty());

    let mutated = copy.copy().attrs_at(0, None).unwrap();
    assert_eq!(mutated.len(), 1);
}

#[test]
fn append_keeps_attrs() {
    let mut left = AttrString::with_string(&Str::with_str("ab")).copy_mut();
    let key = AttrStringKey::from_ns_string(&Str::with_str("k"));
    left.add_attr(&key, &Id::with_raw(3), Range::new(0, 2)).expect("fits");

    let right_base = AttrString::with_string(&Str::with_str("cd"));
    left.append_attr_string(&right_base);
    assert_eq!(left.len(), 4);
    let joined = left.copy();
    assert_eq!(joined.attrs_at(1, None).unwrap().len(), 1);
    assert!(joined.attrs_at(2, None).unwrap().is_empty());
}

#[test]
fn empty_range_mutation_is_in_bounds() {
    let mut astr = AttrString::with_string(&Str::with_str("")).copy_mut();
    let key = AttrStringKey::from_ns_string(&Str::with_str("k"));
    // A zero-length range at the very end still fits.
    astr.add_attr(&key, &Id::with_raw(1), Range::new(0, 0)).expect("fits");
    // One past the end does not.
    astr.add_attr(&key, &Id::with_raw(1), Range::new(0, 1)).expect_err("out of bounds");
}
