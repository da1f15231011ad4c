//! References to string storage, compared by where the storage lies.

use crate::numeral::decimal;
use crate::numeral::push_decimal;
use crate::order::chains;
use crate::order::reverse;
use core::cmp::Ordering;
use core::hash::Hash;
use core::hash::Hasher;
use vstd::prelude::*;
use vstd::std_specs::cmp::PartialEqSpec;
use vstd::std_specs::cmp::PartialEqSpecImpl;
use vstd::std_specs::cmp::PartialOrdSpec;
use vstd::std_specs::cmp::PartialOrdSpecImpl;
use vstd::string::StringExecFns;

verus! {

/// The address of the first byte of `text`, from `str::as_ptr`.
///
/// Nothing is claimed of the number that comes back: where a string lies is
/// for the allocator and the linker to decide, and two calls on equal text
/// may give different addresses.
#[verifier::external_body]
fn storage_addr(text: &str) -> (addr: usize) {
    text.as_ptr() as usize
}

/// How two pairs of numbers stand to each other: by the first number, and
/// by the second where the first numbers agree.
pub open spec fn pair_order(a: (usize, usize), b: (usize, usize)) -> Ordering {
    if a.0 < b.0 {
        Ordering::Less
    } else if a.0 > b.0 {
        Ordering::Greater
    } else if a.1 < b.1 {
        Ordering::Less
    } else if a.1 > b.1 {
        Ordering::Greater
    } else {
        Ordering::Equal
    }
}

/// An identity in writing: the address, a plus sign and the length, both in
/// decimal.
pub open spec fn identity_text(id: (usize, usize)) -> Seq<char> {
    decimal(id.0 as nat) + seq!['+'] + decimal(id.1 as nat)
}

/// A string slice together with the place of its storage.
///
/// Two references are the same reference when they denote the same run of
/// bytes in memory: the same first address and the same length. What the
/// bytes spell plays no part in that. Equality and order go by this
/// identity, and the hash by the address.
#[derive(Clone, Copy, Debug, Eq, Ord)]
pub struct StrRef<'a> {
    addr: usize,
    text: &'a str,
}

impl<'a> StrRef<'a> {
    /// The address of the first byte of the storage.
    pub closed spec fn addr(&self) -> usize {
        self.addr
    }

    /// The slice that the reference stands for.
    pub closed spec fn text(&self) -> &'a str {
        self.text
    }

    /// The identity of the reference: the address of its first byte and its
    /// length in bytes.
    pub open spec fn identity(&self) -> (usize, usize) {
        (self.addr(), self.text().len())
    }

    /// The reference to `text` stored at `addr`.
    fn at(addr: usize, text: &'a str) -> (r: StrRef<'a>)
        ensures
            r.addr() == addr,
            r.text() == text,
    {
        StrRef { addr, text }
    }

    /// Wraps `text` as it lies in memory. The address is the one at which
    /// `text` is found when the call is made; the contract leaves it open.
    pub fn new(text: &'a str) -> (r: StrRef<'a>)
        ensures
            r.text() == text,
    {
        StrRef::at(storage_addr(text), text)
    }

    /// The slice that the reference stands for.
    pub fn as_str(&self) -> (text: &'a str)
        ensures
            text == self.text(),
    {
        self.text
    }

    /// The identity of the reference: the address of its first byte and its
    /// length in bytes.
    pub fn id(&self) -> (id: (usize, usize))
        ensures
            id == self.identity(),
    {
        (self.addr, self.text.len())
    }

    /// The text of the reference, in a string of its own.
    pub fn to_string(&self) -> (s: String)
        ensures
            s@ == self.text()@,
    {
        String::from_str(self.text)
    }

    /// The identity of the reference in writing: the address, a plus sign
    /// and the length, both in decimal. The text takes no part in it.
    pub fn identity_string(&self) -> (s: String)
        ensures
            s@ == identity_text(self.identity()),
    {
        let mut s = String::new();
        push_decimal(&mut s, self.addr as u64);
        proof {
            reveal_strlit("+");
        }
        s.append("+");
        push_decimal(&mut s, self.text.len() as u64);
        assert(s@ =~= identity_text(self.identity()));
        s
    }
}

impl<'a> Hash for StrRef<'a> {
    /// Feeds the address of the storage to `state`, through
    /// `Hasher::write_usize`. The text is not read. Nothing is claimed of
    /// what becomes of `state`: that is the hasher's affair.
    #[verifier::external_body]
    fn hash<H: Hasher>(&self, state: &mut H) {
        state.write_usize(self.addr)
    }
}

impl<'a> PartialEqSpecImpl for StrRef<'a> {
    open spec fn obeys_eq_spec() -> bool {
        true
    }

    open spec fn eq_spec(&self, other: &StrRef<'a>) -> bool {
        self.identity() == other.identity()
    }
}

impl<'a> PartialEq for StrRef<'a> {
    fn eq(&self, other: &StrRef<'a>) -> (r: bool) {
        self.addr == other.addr && self.text.len() == other.text.len()
    }
}

impl<'a> PartialOrdSpecImpl for StrRef<'a> {
    open spec fn obeys_partial_cmp_spec() -> bool {
        true
    }

    open spec fn partial_cmp_spec(&self, other: &StrRef<'a>) -> Option<Ordering> {
        Some(pair_order(self.identity(), other.identity()))
    }
}

impl<'a> PartialOrd for StrRef<'a> {
    fn partial_cmp(&self, other: &StrRef<'a>) -> (r: Option<Ordering>) {
        let n: usize = self.text.len();
        let m: usize = other.text.len();
        if self.addr < other.addr {
            Some(Ordering::Less)
        } else if self.addr > other.addr {
            Some(Ordering::Greater)
        } else if n < m {
            Some(Ordering::Less)
        } else if n > m {
            Some(Ordering::Greater)
        } else {
            Some(Ordering::Equal)
        }
    }
}

/// Pairs of numbers are totally ordered: seen from the other side the order
/// is the reverse, it is `Equal` for equal pairs and no others, and the
/// orders of three pairs fit together.
pub proof fn lemma_pair_order(a: (usize, usize), b: (usize, usize), c: (usize, usize))
    ensures
        pair_order(b, a) == reverse(pair_order(a, b)),
        pair_order(a, b) == Ordering::Equal <==> a == b,
        chains(pair_order(a, b), pair_order(b, c), pair_order(a, c)),
{
}

/// Equality and order look at the storage alone. Two references that lie
/// at different addresses are unequal, and neither comes where the other
/// does, whether or not they spell the same; two with one identity are
/// equal.
pub proof fn lemma_identity_decides<'a>(a: StrRef<'a>, b: StrRef<'a>)
    ensures
        a.addr() != b.addr() ==> !PartialEqSpec::eq_spec(&a, &b),
        a.addr() != b.addr() ==> PartialOrdSpec::partial_cmp_spec(&a, &b) != Some(Ordering::Equal),
        PartialEqSpec::eq_spec(&a, &b) <==> a.identity() == b.identity(),
        PartialEqSpec::eq_spec(&a, &b) <==> PartialOrdSpec::partial_cmp_spec(&a, &b) == Some(
            Ordering::Equal,
        ),
{
}

} // verus!
