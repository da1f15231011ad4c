use salt::filename::Filename;
use salt::filename::FilenameCtx;
use salt::intern::StrIntern;
use salt::strref::StrRef;
use std::cmp::Ordering;
use std::collections::hash_map::DefaultHasher;
use std::hash::Hash;
use std::hash::Hasher;

#[test]
fn filename_test_ref_equality_mismatch() {
    let a = "helloa".split_at(5).0;
    let b = "hellob".split_at(5).0;
    let fa = Filename::new(a);
    let fb = Filename::new(b);

    assert_ne!(fa, fb)
}

#[test]
fn filename_test_ref_equality_same() {
    let a = "hello";
    let fa = Filename::new(a);
    let fb = Filename::new(a);

    assert_eq!(fa, fb)
}

#[test]
fn filename_equal_text_in_two_allocations_is_unequal() {
    let a = String::from("foo.rs");
    let b = String::from("foo.rs");
    let fa = Filename::new(a.as_str());
    let fb = Filename::new(b.as_str());

    assert_eq!(fa.as_str(), fb.as_str());
    assert_ne!(fa, fb);
    assert!(fa.partial_cmp(&fb) != Some(Ordering::Equal));
}

#[test]
fn filename_wraps_a_reference_as_it_is() {
    let r = StrRef::new("main.rs");
    let f = Filename::from(r);

    assert_eq!(f, Filename(r));
    assert_eq!(f.0, r);
    assert_eq!(f.as_str(), "main.rs");
}

#[test]
fn filename_to_string_is_the_text() {
    let f = Filename::new("src/lib.rs");

    assert_eq!(f.to_string(), "src/lib.rs");
    assert_eq!(Filename::new("").to_string(), "");
}

#[test]
fn filename_identity_string_has_no_text() {
    let text = "hello";
    let f = Filename::new(text);
    let expected = format!("{}+{}", text.as_ptr() as usize, 5);

    assert_eq!(f.identity_string(), expected);
}

#[test]
fn filename_order_follows_storage() {
    let whole = "abcdef";
    let (front, back) = whole.split_at(3);
    let a = Filename::new(front);
    let b = Filename::new(back);

    assert!(a < b);
    assert!(b > a);
    assert_eq!(a.partial_cmp(&b), Some(Ordering::Less));
    assert_eq!(b.partial_cmp(&a), Some(Ordering::Greater));
    assert_eq!(a.partial_cmp(&a), Some(Ordering::Equal));
}

#[test]
fn filename_prefix_in_the_same_storage_is_another_filename() {
    let whole = "abcdef";
    let front = whole.split_at(3).0;
    let a = Filename::new(front);
    let b = Filename::new(whole);

    assert_ne!(a, b);
    assert_eq!(a.partial_cmp(&b), Some(Ordering::Less));
}

#[test]
fn filename_derived_order_agrees() {
    let whole = "abcdef";
    let (front, back) = whole.split_at(3);
    let a = Filename::new(front);
    let b = Filename::new(back);
    let c = Filename::new(whole);

    assert_eq!(Some(a.cmp(&b)), a.partial_cmp(&b));
    assert_eq!(Some(b.cmp(&a)), b.partial_cmp(&a));
    assert_eq!(Some(a.cmp(&c)), a.partial_cmp(&c));
    assert_eq!(Some(c.cmp(&a)), c.partial_cmp(&a));
    assert_eq!(Some(a.cmp(&a)), a.partial_cmp(&a));
}

#[test]
fn filename_from_one_table_is_one_filename() {
    let first = String::from("foo.rs");
    let second = String::from("foo.rs");
    let mut table = StrIntern::new();
    let fa = table.filename(first.as_str());
    let fb = table.filename(second.as_str());
    let other = table.filename("bar.rs");

    assert_eq!(fa, fb);
    assert_ne!(fa, other);
    assert_eq!(fa.as_str(), "foo.rs");
    assert_eq!(table.len(), 2);
}

#[test]
fn filename_scenario_three_tables() {
    let first = String::from("foo.rs");
    let second = String::from("foo.rs");
    let third = String::from("foo.rs");
    let mut table = StrIntern::new();
    let a = table.intern(first.as_str());
    let b = table.intern(second.as_str());
    let mut unrelated = StrIntern::new();
    let c = unrelated.intern(third.as_str());

    assert_eq!(a, b);
    assert_eq!(Filename::from(a), Filename::from(b));
    assert_ne!(Filename::from(c), Filename::from(a));
    assert_ne!(Filename::from(c), Filename::from(b));
    assert_eq!(Filename::from(c).as_str(), Filename::from(a).as_str());
}

#[test]
fn filename_hash_is_of_the_address() {
    let text = "foo.rs";
    let f = Filename::new(text);
    let mut expected = DefaultHasher::new();
    expected.write_usize(text.as_ptr() as usize);
    let mut state = DefaultHasher::new();
    f.hash(&mut state);

    assert_eq!(state.finish(), expected.finish());
}
