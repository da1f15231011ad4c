//! The interning table: one canonical reference for each distinct text.

use crate::filename::Filename;
use crate::filename::FilenameCtx;
use crate::strref::StrRef;
use crate::symbol::Symbol;
use crate::symbol::SymbolCtx;
use vstd::hash_map::StringHashMap;
use vstd::prelude::*;
use vstd::string::StringExecFns;

verus! {

/// The contents of a table, as a map and as a sequence, belong together:
/// the sequence lists the map's references, each once, and the map files
/// each reference under its own text.
pub open spec fn consistent<'s>(map: Map<Seq<char>, StrRef<'s>>, seq: Seq<StrRef<'s>>) -> bool {
    &&& map.dom().finite()
    &&& map.len() == seq.len()
    &&& forall|i: int|
        0 <= i < seq.len() ==> map.contains_key(#[trigger] seq[i].text()@) && map[seq[i].text()@]
            == seq[i]
    &&& forall|c: Seq<char>| #[trigger]
        map.contains_key(c) ==> map[c].text()@ == c && seq.contains(map[c])
    &&& forall|i: int, j: int|
        0 <= i < j < seq.len() ==> (#[trigger] seq[i]).text()@ != (#[trigger] seq[j]).text()@
}

/// What interning the text `s` makes of a table: the reference `r` that
/// comes back spells `s`, it is the one that the table held for `s` where it
/// held one, and afterwards the table holds it for `s` and is otherwise as
/// before.
pub open spec fn interned<'s>(
    before: Map<Seq<char>, StrRef<'s>>,
    s: Seq<char>,
    after: Map<Seq<char>, StrRef<'s>>,
    r: StrRef<'s>,
) -> bool {
    &&& r.text()@ == s
    &&& before.contains_key(s) ==> r == before[s]
    &&& after == before.insert(s, r)
}

/// `later` holds every text that `earlier` holds, with the same reference.
pub open spec fn keeps<'s>(
    earlier: Map<Seq<char>, StrRef<'s>>,
    later: Map<Seq<char>, StrRef<'s>>,
) -> bool {
    forall|c: Seq<char>| #[trigger]
        earlier.contains_key(c) ==> later.contains_key(c) && later[c] == earlier[c]
}

/// String interning table.
pub struct StrIntern<'s> {
    index: StringHashMap<StrRef<'s>>,
    order: Vec<StrRef<'s>>,
}

/// Iterator over strings in a `StrIntern` table.
#[derive(Debug)]
pub struct Strings<'t, 's> {
    items: &'t [StrRef<'s>],
    next: usize,
}

impl<'s> View for StrIntern<'s> {
    type V = Map<Seq<char>, StrRef<'s>>;

    /// The table as a map from each interned text to its canonical
    /// reference.
    closed spec fn view(&self) -> Map<Seq<char>, StrRef<'s>> {
        self.index@
    }
}

/// A table stays consistent when a reference whose text is new to it is
/// filed in the map and put at the end of the sequence.
proof fn lemma_record<'s>(map: Map<Seq<char>, StrRef<'s>>, seq: Seq<StrRef<'s>>, r: StrRef<'s>)
    requires
        consistent(map, seq),
        !map.contains_key(r.text()@),
    ensures
        consistent(map.insert(r.text()@, r), seq.push(r)),
{
    let map2 = map.insert(r.text()@, r);
    let seq2 = seq.push(r);
    let last = seq.len() as int;
    assert(seq2[last] == r);
    assert forall|i: int| 0 <= i < seq2.len() implies map2.contains_key(
        #[trigger] seq2[i].text()@,
    ) && map2[seq2[i].text()@] == seq2[i] by {
        if i < last {
            assert(seq2[i] == seq[i]);
        }
    }
    assert forall|c: Seq<char>| #[trigger] map2.contains_key(c) implies map2[c].text()@ == c
        && seq2.contains(map2[c]) by {
        if c == r.text()@ {
            assert(seq2[last] == map2[c]);
        } else {
            assert(map.contains_key(c));
            let k = choose|k: int| 0 <= k < seq.len() && seq[k] == map[c];
            assert(seq2[k] == map2[c]);
        }
    }
    assert forall|i: int, j: int| 0 <= i < j < seq2.len() implies (#[trigger] seq2[i]).text()@ != (
    #[trigger] seq2[j]).text()@ by {
        assert(seq2[i] == seq[i]);
        if j < last {
            assert(seq2[j] == seq[j]);
        }
    }
}

impl<'s> StrIntern<'s> {
    /// The canonical references in the order in which their texts were
    /// first interned.
    pub closed spec fn entries(&self) -> Seq<StrRef<'s>> {
        self.order@
    }

    /// The map and the sequence of the table belong together.
    pub open spec fn wf(&self) -> bool {
        consistent(self@, self.entries())
    }

    #[verifier::type_invariant]
    spec fn inv(&self) -> bool {
        consistent(self.index@, self.order@)
    }

    /// Create a `StrIntern` table.
    pub fn new() -> (table: StrIntern<'s>)
        ensures
            table.wf(),
            table@ == Map::<Seq<char>, StrRef<'s>>::empty(),
            table.entries() == Seq::<StrRef<'s>>::empty(),
    {
        StrIntern { index: StringHashMap::new(), order: Vec::new() }
    }

    /// Create a `StrIntern` table with a given capacity.
    pub fn with_capacity(capacity: usize) -> (table: StrIntern<'s>)
        ensures
            table.wf(),
            table@ == Map::<Seq<char>, StrRef<'s>>::empty(),
            table.entries() == Seq::<StrRef<'s>>::empty(),
    {
        StrIntern {
            index: StringHashMap::with_capacity(capacity),
            order: Vec::with_capacity(capacity),
        }
    }

    /// Intern a given string. This will return a distinguished reference to
    /// a string equal to `s`, relative to this table: the reference that the
    /// table already holds for this text, or else a reference to `s`
    /// itself, which the table holds for this text from now on.
    pub fn intern(&mut self, s: &'s str) -> (r: StrRef<'s>)
        ensures
            final(self).wf(),
            interned(old(self)@, s@, final(self)@, r),
            old(self)@.contains_key(s@) ==> final(self).entries() == old(self).entries(),
            !old(self)@.contains_key(s@) ==> r.text() == s && final(self).entries() == old(
                self,
            ).entries().push(r),
    {
        proof {
            use_type_invariant(&*self);
        }
        let held: Option<StrRef<'s>> = match self.index.get(s) {
            Some(r) => Some(*r),
            None => None,
        };
        match held {
            Some(r) => {
                assert(self@ =~= old(self)@.insert(s@, r));
                r
            },
            None => {
                let r = StrRef::new(s);
                let mut taken = StrIntern::new();
                core::mem::swap(self, &mut taken);
                let StrIntern { mut index, mut order } = taken;
                proof {
                    lemma_record(index@, order@, r);
                }
                index.insert(String::from_str(s), r);
                order.push(r);
                *self = StrIntern { index, order };
                r
            },
        }
    }

    /// Reserves capacity for at least `additional` more elements. What the
    /// table holds, and every reference that it has handed out, stays as it
    /// is.
    pub fn reserve(&mut self, additional: usize)
        ensures
            final(self).wf(),
            final(self)@ == old(self)@,
            final(self).entries() == old(self).entries(),
    {
        proof {
            use_type_invariant(&*self);
        }
        let mut taken = StrIntern::new();
        core::mem::swap(self, &mut taken);
        let StrIntern { mut index, mut order } = taken;
        index.reserve(additional);
        order.reserve(additional);
        *self = StrIntern { index, order };
    }

    /// Shrinks the capacity of the table: the sequence of references gives
    /// back the room that it does not use. What the table holds, and every
    /// reference that it has handed out, stays as it is.
    pub fn shrink_to_fit(&mut self)
        ensures
            final(self).wf(),
            final(self)@ == old(self)@,
            final(self).entries() == old(self).entries(),
    {
        proof {
            use_type_invariant(&*self);
        }
        let mut taken = StrIntern::new();
        core::mem::swap(self, &mut taken);
        let StrIntern { index, mut order } = taken;
        shrink(&mut order);
        *self = StrIntern { index, order };
    }

    /// Get an iterator for the strings in the table. It hands out the
    /// canonical references in the order in which their texts were first
    /// interned.
    pub fn strings(&self) -> (strings: Strings<'_, 's>)
        ensures
            self.wf(),
            strings@ == self.entries(),
    {
        proof {
            use_type_invariant(self);
        }
        Strings { items: self.order.as_slice(), next: 0 }
    }

    /// Get the number of strings in the table.
    pub fn len(&self) -> (n: usize)
        ensures
            self.wf(),
            n == self@.len(),
            n == self.entries().len(),
    {
        proof {
            use_type_invariant(self);
        }
        self.order.len()
    }
}

impl<'t, 's> View for Strings<'t, 's> {
    type V = Seq<StrRef<'s>>;

    /// The references that are still to come, in their order.
    closed spec fn view(&self) -> Seq<StrRef<'s>> {
        self.items@.skip(self.next as int)
    }
}

impl<'t, 's> Strings<'t, 's> {
    #[verifier::type_invariant]
    spec fn inv(&self) -> bool {
        self.next <= self.items@.len()
    }

    /// Hands out the next reference, if one is left.
    pub fn next(&mut self) -> (r: Option<StrRef<'s>>)
        ensures
            match r {
                Some(x) => old(self)@.len() > 0 && x == old(self)@[0] && final(self)@ == old(
                    self,
                )@.drop_first(),
                None => old(self)@.len() == 0 && final(self)@ == old(self)@,
            },
    {
        proof {
            use_type_invariant(&*self);
        }
        if self.next < self.items.len() {
            let x = self.items[self.next];
            self.next = self.next + 1;
            assert(self@ =~= old(self)@.drop_first());
            Some(x)
        } else {
            None
        }
    }

    /// The bounds on how many references are left: both are the exact
    /// number.
    pub fn size_hint(&self) -> (hint: (usize, Option<usize>))
        ensures
            hint.0 == self@.len(),
            hint.1 == Some(hint.0),
    {
        let n = self.len();
        (n, Some(n))
    }

    /// The number of references that are left.
    pub fn len(&self) -> (n: usize)
        ensures
            n == self@.len(),
    {
        proof {
            use_type_invariant(self);
        }
        self.items.len() - self.next
    }
}

impl<'t, 's> Clone for Strings<'t, 's> {
    fn clone(&self) -> (r: Strings<'t, 's>)
        ensures
            r@ == self@,
    {
        proof {
            use_type_invariant(self);
        }
        Strings { items: self.items, next: self.next }
    }
}

impl<'s> FilenameCtx<'s> for StrIntern<'s> {
    /// One filename for each interned text: its canonical reference.
    open spec fn filenames(&self) -> Map<Seq<char>, Filename<'s>> {
        self@.map_values(|r: StrRef<'s>| Filename(r))
    }

    fn filename(&mut self, fname: &'s str) -> (r: Filename<'s>)
        ensures
            final(self).wf(),
            interned(old(self)@, fname@, final(self)@, r.0),
    {
        let r = Filename(self.intern(fname));
        assert(self.filenames() =~= old(self).filenames().insert(fname@, r));
        r
    }
}

impl<'s> SymbolCtx<'s> for StrIntern<'s> {
    /// One symbol for each interned text: its canonical reference.
    open spec fn symbols(&self) -> Map<Seq<char>, Symbol<'s>> {
        self@.map_values(|r: StrRef<'s>| Symbol(r))
    }

    fn symbol(&mut self, name: &'s str) -> (r: Symbol<'s>)
        ensures
            final(self).wf(),
            interned(old(self)@, name@, final(self)@, r.0),
    {
        let r = Symbol(self.intern(name));
        assert(self.symbols() =~= old(self).symbols().insert(name@, r));
        r
    }
}

/// `Vec::shrink_to_fit`: gives back the room that the vector holds beyond
/// its items. The items stay, in their order.
#[verifier::external_body]
fn shrink<T>(v: &mut Vec<T>)
    ensures
        final(v)@ == old(v)@,
{
    v.shrink_to_fit()
}

/// Interning keeps every reference that the table held.
pub proof fn lemma_intern_keeps<'s>(
    before: Map<Seq<char>, StrRef<'s>>,
    s: &str,
    after: Map<Seq<char>, StrRef<'s>>,
    r: StrRef<'s>,
)
    requires
        interned(before, s@, after, r),
    ensures
        keeps(before, after),
{
}

/// A table that keeps what an earlier one held, and is kept by a later
/// one, links the two.
pub proof fn lemma_keeps_transitive<'s>(
    first: Map<Seq<char>, StrRef<'s>>,
    second: Map<Seq<char>, StrRef<'s>>,
    third: Map<Seq<char>, StrRef<'s>>,
)
    requires
        keeps(first, second),
        keeps(second, third),
    ensures
        keeps(first, third),
{
    assert forall|c: Seq<char>| #[trigger] first.contains_key(c) implies third.contains_key(c)
        && third[c] == first[c] by {
        assert(second.contains_key(c));
    }
}

/// Interning a text again gives the same reference again: once `a` has
/// been interned with the result `first`, interning any string `b` that
/// spells the same, at once or after any number of other strings, gives
/// `first` itself, the same storage, and leaves the table as it was. It
/// does not matter whether `a` and `b` are one string or two copies.
pub proof fn lemma_intern_again<'s>(
    t0: Map<Seq<char>, StrRef<'s>>,
    a: &str,
    t1: Map<Seq<char>, StrRef<'s>>,
    first: StrRef<'s>,
    t2: Map<Seq<char>, StrRef<'s>>,
    b: &str,
    t3: Map<Seq<char>, StrRef<'s>>,
    second: StrRef<'s>,
)
    requires
        interned(t0, a@, t1, first),
        keeps(t1, t2),
        interned(t2, b@, t3, second),
        a@ == b@,
    ensures
        second == first,
        second.identity() == first.identity(),
        t3 == t2,
{
    assert(t1.contains_key(a@));
    assert(t2.contains_key(b@));
    assert(t3 =~= t2);
}

} // verus!
