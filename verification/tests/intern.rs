use salt::intern::StrIntern;
use salt::strref::StrRef;
use std::cmp::Ordering;
use std::collections::hash_map::DefaultHasher;
use std::collections::HashSet;
use std::hash::Hash;
use std::hash::Hasher;

#[test]
fn test_ref_equality_match() {
    let a = "hello";
    let refa = StrRef::new(a);

    assert_eq!(refa, refa)
}

#[test]
fn intern_test_ref_equality_mismatch() {
    let a = "helloa".split_at(5).0;
    let b = "hellob".split_at(5).0;
    let refa = StrRef::new(a);
    let refb = StrRef::new(b);

    assert_ne!(refa, refb)
}

#[test]
fn test_str_equality_mismatch() {
    let a = "helloa".split_at(5).0;
    let b = "hellob".split_at(5).0;
    let refa = StrRef::new(a);
    let refb = StrRef::new(b);

    assert_eq!(refa.as_str(), refb.as_str())
}

#[test]
fn test_str_intern_same() {
    let refa = "helloa".split_at(5).0;
    let refb = "hellob".split_at(5).0;
    let mut tab = StrIntern::new();
    let interna = tab.intern(refa);
    let internb = tab.intern(refb);

    assert_eq!(interna, internb)
}

#[test]
fn test_str_intern_different() {
    let a = "hello";
    let b = "bye";
    let refa = &a;
    let refb = &b;
    let mut tab = StrIntern::new();
    let interna = tab.intern(refa);
    let internb = tab.intern(refb);

    assert_ne!(interna, internb)
}

#[test]
fn strref_identity_is_address_and_length() {
    let text = "hello world";
    let r = StrRef::new(text);

    assert_eq!(r.id(), (text.as_ptr() as usize, 11));
    assert_eq!(r.as_str(), text);
    assert_eq!(r.to_string(), "hello world");
}

#[test]
fn strref_identity_of_a_slice_inside_a_string() {
    let text = "hello world";
    let (front, back) = text.split_at(6);
    let whole = StrRef::new(text);
    let a = StrRef::new(front);
    let b = StrRef::new(back);

    assert_eq!(a.id(), (whole.id().0, 6));
    assert_eq!(b.id(), (whole.id().0 + 6, 5));
    assert_eq!(a.partial_cmp(&b), Some(Ordering::Less));
    assert_eq!(b.partial_cmp(&a), Some(Ordering::Greater));
    assert_eq!(a.partial_cmp(&whole), Some(Ordering::Less));
    assert_eq!(whole.partial_cmp(&a), Some(Ordering::Greater));
    assert_eq!(whole.partial_cmp(&whole), Some(Ordering::Equal));
    assert_ne!(a, whole);
}

#[test]
fn strref_identity_string_is_address_plus_length() {
    let text = "hello";
    let r = StrRef::new(text);

    assert_eq!(r.identity_string(), format!("{}+5", text.as_ptr() as usize));
}

#[test]
fn intern_twice_gives_the_first_reference() {
    let first = String::from("foo.rs");
    let second = String::from("foo.rs");
    let mut table = StrIntern::new();
    let a = table.intern(first.as_str());
    let b = table.intern(second.as_str());
    let c = table.intern(first.as_str());

    assert_eq!(a, b);
    assert_eq!(a, c);
    assert_eq!(a.id(), (first.as_ptr() as usize, 6));
    assert_eq!(b.id(), a.id());
    assert_ne!(b.id().0, second.as_ptr() as usize);
    assert_eq!(table.len(), 1);
}

#[test]
fn intern_again_after_other_strings() {
    let first = String::from("alpha");
    let again = String::from("alpha");
    let mut table = StrIntern::new();
    let a = table.intern(first.as_str());
    let b = table.intern("beta");
    let c = table.intern("gamma");
    let d = table.intern(again.as_str());

    assert_eq!(a, d);
    assert_ne!(a, b);
    assert_ne!(b, c);
    assert_eq!(table.len(), 3);
}

#[test]
fn intern_empty_table() {
    let table = StrIntern::new();
    let sized = StrIntern::with_capacity(16);

    assert_eq!(table.len(), 0);
    assert_eq!(sized.len(), 0);
    assert_eq!(table.strings().len(), 0);
    assert!(table.strings().next().is_none());
    assert!(sized.strings().next().is_none());
}

#[test]
fn intern_empty_string() {
    let mut table = StrIntern::new();
    let a = table.intern("");
    let b = table.intern("");

    assert_eq!(a, b);
    assert_eq!(a.as_str(), "");
    assert_eq!(table.len(), 1);
}

#[test]
fn intern_strings_in_order_of_interning() {
    let mut table = StrIntern::with_capacity(2);
    let a = table.intern("one");
    let b = table.intern("two");
    let _ = table.intern("one");
    let c = table.intern("three");
    let mut strings = table.strings();

    assert_eq!(strings.len(), 3);
    assert_eq!(strings.size_hint(), (3, Some(3)));
    assert_eq!(strings.next(), Some(a));
    assert_eq!(strings.len(), 2);
    let mut copy = strings.clone();
    assert_eq!(strings.next(), Some(b));
    assert_eq!(strings.next(), Some(c));
    assert_eq!(strings.size_hint(), (0, Some(0)));
    assert_eq!(strings.next(), None);
    assert_eq!(strings.next(), None);
    assert_eq!(copy.len(), 2);
    assert_eq!(copy.next().map(|r| r.to_string()), Some(String::from("two")));
}

#[test]
fn intern_capacity_does_not_touch_identities() {
    let mut table = StrIntern::new();
    let a = table.intern("one");
    table.reserve(100);
    let b = table.intern("two");
    table.shrink_to_fit();
    table.reserve(0);

    assert_eq!(table.len(), 2);
    assert_eq!(table.intern("one"), a);
    assert_eq!(table.intern("two"), b);
    assert_eq!(table.len(), 2);
    let mut strings = table.strings();
    assert_eq!(strings.next(), Some(a));
    assert_eq!(strings.next(), Some(b));
    assert_eq!(strings.next(), None);
}

#[test]
fn intern_many_strings() {
    let texts: Vec<String> = (0..200).map(|i: u32| format!("name{}", i)).collect();
    let copies: Vec<String> = texts.clone();
    let mut table = StrIntern::new();
    let mut refs = Vec::new();
    for text in texts.iter() {
        refs.push(table.intern(text.as_str()));
    }

    assert_eq!(table.len(), 200);
    for (i, text) in texts.iter().enumerate() {
        assert_eq!(table.intern(copies[i].as_str()), refs[i]);
        assert_eq!(refs[i].as_str(), text.as_str());
    }
    assert_eq!(table.len(), 200);
}

#[test]
fn intern_text_with_many_byte_characters() {
    let first = String::from("gr\u{fc}\u{df}e \u{4e16}\u{754c}");
    let second = String::from("gr\u{fc}\u{df}e \u{4e16}\u{754c}");
    let mut table = StrIntern::new();
    let a = table.intern(first.as_str());
    let b = table.intern(second.as_str());

    assert_eq!(a, b);
    assert_eq!(a.id().1, first.len());
    assert_eq!(table.len(), 1);
}

fn hash_of<T: Hash>(value: &T) -> u64 {
    let mut state = DefaultHasher::new();
    value.hash(&mut state);
    state.finish()
}

#[test]
fn strref_hash_is_of_the_address() {
    let text = "hello world";
    let r = StrRef::new(text);
    let mut state = DefaultHasher::new();
    state.write_usize(text.as_ptr() as usize);

    assert_eq!(hash_of(&r), state.finish());
    assert_eq!(hash_of(&r), hash_of(&StrRef::new(text)));
}

#[test]
fn strref_in_a_hash_set() {
    let first = String::from("name");
    let second = String::from("name");
    let mut table = StrIntern::new();
    let a = table.intern(first.as_str());
    let b = table.intern(second.as_str());
    let c = StrRef::new(second.as_str());
    let mut set = HashSet::new();
    set.insert(a);
    set.insert(b);

    assert_eq!(set.len(), 1);
    assert!(set.contains(&a));
    assert!(!set.contains(&c));
    set.insert(c);
    assert_eq!(set.len(), 2);
}
