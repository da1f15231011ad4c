use salt::symbol::Symbol;
use salt::symbol::SymbolCtx;
use salt::intern::StrIntern;
use salt::strref::StrRef;
use std::cmp::Ordering;
use std::collections::hash_map::DefaultHasher;
use std::hash::Hash;
use std::hash::Hasher;

#[test]
fn symbol_test_ref_equality_mismatch() {
    let a = "helloa".split_at(5).0;
    let b = "hellob".split_at(5).0;
    let fa = Symbol::new(a);
    let fb = Symbol::new(b);

    assert_ne!(fa, fb)
}

#[test]
fn symbol_test_ref_equality_same() {
    let a = "hello";
    let fa = Symbol::new(a);
    let fb = Symbol::new(a);

    assert_eq!(fa, fb)
}

#[test]
fn symbol_equal_text_in_two_allocations_is_unequal() {
    let a = String::from("foo");
    let b = String::from("foo");
    let fa = Symbol::new(a.as_str());
    let fb = Symbol::new(b.as_str());

    assert_eq!(fa.as_str(), fb.as_str());
    assert_ne!(fa, fb);
    assert!(fa.partial_cmp(&fb) != Some(Ordering::Equal));
}

#[test]
fn symbol_wraps_a_reference_as_it_is() {
    let r = StrRef::new("main");
    let f = Symbol::from(r);

    assert_eq!(f, Symbol(r));
    assert_eq!(f.0, r);
    assert_eq!(f.as_str(), "main");
}

#[test]
fn symbol_to_string_is_the_text() {
    let f = Symbol::new("lib");

    assert_eq!(f.to_string(), "lib");
    assert_eq!(Symbol::new("").to_string(), "");
}

#[test]
fn symbol_identity_string_has_no_text() {
    let text = "hello";
    let f = Symbol::new(text);
    let expected = format!("{}+{}", text.as_ptr() as usize, 5);

    assert_eq!(f.identity_string(), expected);
}

#[test]
fn symbol_order_follows_storage() {
    let whole = "abcdef";
    let (front, back) = whole.split_at(3);
    let a = Symbol::new(front);
    let b = Symbol::new(back);

    assert!(a < b);
    assert!(b > a);
    assert_eq!(a.partial_cmp(&b), Some(Ordering::Less));
    assert_eq!(b.partial_cmp(&a), Some(Ordering::Greater));
    assert_eq!(a.partial_cmp(&a), Some(Ordering::Equal));
}

#[test]
fn symbol_prefix_in_the_same_storage_is_another_symbol() {
    let whole = "abcdef";
    let front = whole.split_at(3).0;
    let a = Symbol::new(front);
    let b = Symbol::new(whole);

    assert_ne!(a, b);
    assert_eq!(a.partial_cmp(&b), Some(Ordering::Less));
}

#[test]
fn symbol_derived_order_agrees() {
    let whole = "abcdef";
    let (front, back) = whole.split_at(3);
    let a = Symbol::new(front);
    let b = Symbol::new(back);
    let c = Symbol::new(whole);

    assert_eq!(Some(a.cmp(&b)), a.partial_cmp(&b));
    assert_eq!(Some(b.cmp(&a)), b.partial_cmp(&a));
    assert_eq!(Some(a.cmp(&c)), a.partial_cmp(&c));
    assert_eq!(Some(c.cmp(&a)), c.partial_cmp(&a));
    assert_eq!(Some(a.cmp(&a)), a.partial_cmp(&a));
}

#[test]
fn symbol_from_one_table_is_one_symbol() {
    let first = String::from("foo");
    let second = String::from("foo");
    let mut table = StrIntern::new();
    let fa = table.symbol(first.as_str());
    let fb = table.symbol(second.as_str());
    let other = table.symbol("bar");

    assert_eq!(fa, fb);
    assert_ne!(fa, other);
    assert_eq!(fa.as_str(), "foo");
    assert_eq!(table.len(), 2);
}

#[test]
fn symbol_scenario_three_tables() {
    let first = String::from("foo");
    let second = String::from("foo");
    let third = String::from("foo");
    let mut table = StrIntern::new();
    let a = table.intern(first.as_str());
    let b = table.intern(second.as_str());
    let mut unrelated = StrIntern::new();
    let c = unrelated.intern(third.as_str());

    assert_eq!(a, b);
    assert_eq!(Symbol::from(a), Symbol::from(b));
    assert_ne!(Symbol::from(c), Symbol::from(a));
    assert_ne!(Symbol::from(c), Symbol::from(b));
    assert_eq!(Symbol::from(c).as_str(), Symbol::from(a).as_str());
}

#[test]
fn symbol_hash_is_of_the_address() {
    let text = "foo";
    let f = Symbol::new(text);
    let mut expected = DefaultHasher::new();
    expected.write_usize(text.as_ptr() as usize);
    let mut state = DefaultHasher::new();
    f.hash(&mut state);

    assert_eq!(state.finish(), expected.finish());
}
