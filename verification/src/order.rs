//! Orders on sequences: which of two comes first in the dictionary.

use core::cmp::Ordering;
use vstd::prelude::*;
use vstd::string::StringSliceAdditionalSpecFns;
use vstd::utf8::encode_utf8_decode_utf8;

verus! {

/// `first`, unless it is `Equal`: then `second`.
pub open spec fn order_then(first: Ordering, second: Ordering) -> Ordering {
    match first {
        Ordering::Equal => second,
        _ => first,
    }
}

/// The order seen from the other side.
pub open spec fn reverse(o: Ordering) -> Ordering {
    match o {
        Ordering::Less => Ordering::Greater,
        Ordering::Equal => Ordering::Equal,
        Ordering::Greater => Ordering::Less,
    }
}

/// Three orders fit together as those of `a` to `b`, of `b` to `c` and of
/// `a` to `c` do in a total order: what is `Equal` to a thing stands to
/// everything as that thing does, and `Less` and `Greater` carry through.
pub open spec fn chains(ab: Ordering, bc: Ordering, ac: Ordering) -> bool {
    &&& ab == Ordering::Equal ==> ac == bc
    &&& bc == Ordering::Equal ==> ac == ab
    &&& ab == Ordering::Less && bc == Ordering::Less ==> ac == Ordering::Less
    &&& ab == Ordering::Greater && bc == Ordering::Greater ==> ac == Ordering::Greater
}

/// Where two orders each fit together over three things, so does the order
/// that goes by the first and, where that is `Equal`, by the second.
pub proof fn lemma_order_then_chains(
    ab1: Ordering,
    ab2: Ordering,
    bc1: Ordering,
    bc2: Ordering,
    ac1: Ordering,
    ac2: Ordering,
)
    requires
        chains(ab1, bc1, ac1),
        chains(ab2, bc2, ac2),
    ensures
        chains(order_then(ab1, ab2), order_then(bc1, bc2), order_then(ac1, ac2)),
{
}

/// The number of leading places at which `a` and `b` hold the same item.
pub open spec fn common_prefix<T>(a: Seq<T>, b: Seq<T>) -> int
    decreases a.len(),
{
    if a.len() > 0 && b.len() > 0 && a[0] == b[0] {
        1 + common_prefix(a.drop_first(), b.drop_first())
    } else {
        0
    }
}

/// `n` is the first place at which `a` and `b` part: they agree before it,
/// and at `n` one of them ends or they hold different items.
pub open spec fn parts_at<T>(a: Seq<T>, b: Seq<T>, n: int) -> bool {
    &&& 0 <= n <= a.len()
    &&& n <= b.len()
    &&& forall|k: int| 0 <= k < n ==> a[k] == b[k]
    &&& n < a.len() && n < b.len() ==> a[n] != b[n]
}

/// The common prefix ends where the sequences part, and nowhere else.
pub proof fn lemma_common_prefix<T>(a: Seq<T>, b: Seq<T>, n: int)
    ensures
        parts_at(a, b, common_prefix(a, b)),
        parts_at(a, b, n) ==> n == common_prefix(a, b),
    decreases a.len(),
{
    if a.len() > 0 && b.len() > 0 && a[0] == b[0] {
        let a1 = a.drop_first();
        let b1 = b.drop_first();
        lemma_common_prefix(a1, b1, n - 1);
        let m = common_prefix(a1, b1);
        assert forall|k: int| 0 <= k < m + 1 implies a[k] == b[k] by {
            if k > 0 {
                assert(a1[k - 1] == b1[k - 1]);
            }
        }
        if m < a1.len() && m < b1.len() {
            assert(a1[m] != b1[m]);
        }
        if parts_at(a, b, n) {
            if n == 0 {
                assert(false);
            }
            assert forall|k: int| 0 <= k < n - 1 implies a1[k] == b1[k] by {
                assert(a[k + 1] == b[k + 1]);
            }
            assert(parts_at(a1, b1, n - 1));
        }
    } else {
        if parts_at(a, b, n) && n > 0 {
            assert(a[0] == b[0]);
        }
    }
}

/// Two sequences part at the same place, from whichever side one looks.
pub proof fn lemma_common_prefix_symmetric<T>(a: Seq<T>, b: Seq<T>)
    ensures
        common_prefix(a, b) == common_prefix(b, a),
{
    let n = common_prefix(a, b);
    lemma_common_prefix(a, b, n);
    assert(parts_at(b, a, n));
    lemma_common_prefix(b, a, n);
}

/// Two sequences are equal when neither goes on after their common prefix,
/// and only then.
pub proof fn lemma_common_prefix_equal<T>(a: Seq<T>, b: Seq<T>)
    ensures
        a == b <==> common_prefix(a, b) == a.len() && common_prefix(a, b) == b.len(),
{
    let n = common_prefix(a, b);
    lemma_common_prefix(a, b, n);
    if n == a.len() && n == b.len() {
        assert(a =~= b);
    }
    if a == b {
        assert(parts_at(a, b, a.len() as int));
        lemma_common_prefix(a, b, a.len() as int);
    }
}

/// Where `a` parts from `c`, given where `a` parts from `b` and `b` from
/// `c`: at the earlier of the two places, or, where the two places are one,
/// there or later.
pub proof fn lemma_common_prefix_chain<T>(a: Seq<T>, b: Seq<T>, c: Seq<T>)
    ensures
        common_prefix(a, b) < common_prefix(b, c) ==> {
            let n = common_prefix(a, b);
            common_prefix(a, c) == n && n < c.len() && c[n] == b[n]
        },
        common_prefix(b, c) < common_prefix(a, b) ==> {
            let n = common_prefix(b, c);
            common_prefix(a, c) == n && n < a.len() && a[n] == b[n]
        },
        common_prefix(a, b) == common_prefix(b, c) ==> {
            let n = common_prefix(a, b);
            &&& n <= common_prefix(a, c)
            &&& n == a.len() || n == c.len() || a[n] != c[n] ==> common_prefix(a, c) == n
        },
{
    let n1 = common_prefix(a, b);
    let n2 = common_prefix(b, c);
    let n = common_prefix(a, c);
    lemma_common_prefix(a, b, n1);
    lemma_common_prefix(b, c, n2);
    lemma_common_prefix(a, c, n);
    if n1 < n2 {
        assert(c[n1] == b[n1]);
        assert(parts_at(a, c, n1));
        lemma_common_prefix(a, c, n1);
    } else if n2 < n1 {
        assert(a[n2] == b[n2]);
        assert(parts_at(a, c, n2));
        lemma_common_prefix(a, c, n2);
    } else {
        if n < n1 {
            assert(a[n] == b[n]);
            assert(b[n] == c[n]);
        }
        if n1 == a.len() || n1 == c.len() || a[n1] != c[n1] {
            assert(parts_at(a, c, n1));
            lemma_common_prefix(a, c, n1);
        }
    }
}

/// How two sequences of bytes stand to each other in the dictionary: the
/// first place at which they differ decides, and where one is a prefix of
/// the other the shorter comes first.
pub open spec fn bytes_order(a: Seq<u8>, b: Seq<u8>) -> Ordering {
    let n = common_prefix(a, b);
    if n == a.len() {
        if n == b.len() {
            Ordering::Equal
        } else {
            Ordering::Less
        }
    } else if n == b.len() {
        Ordering::Greater
    } else if a[n] < b[n] {
        Ordering::Less
    } else {
        Ordering::Greater
    }
}

/// How two sequences of indices stand to each other in the dictionary: the
/// first place at which they differ decides, and where one is a prefix of
/// the other the shorter comes first.
pub open spec fn indices_order(a: Seq<usize>, b: Seq<usize>) -> Ordering {
    let n = common_prefix(a, b);
    if n == a.len() {
        if n == b.len() {
            Ordering::Equal
        } else {
            Ordering::Less
        }
    } else if n == b.len() {
        Ordering::Greater
    } else if a[n] < b[n] {
        Ordering::Less
    } else {
        Ordering::Greater
    }
}

/// Seen from the other side the order of two sequences of bytes is the
/// reverse, and they are in order `Equal` when they are equal, and only then.
pub proof fn lemma_bytes_order(a: Seq<u8>, b: Seq<u8>)
    ensures
        bytes_order(b, a) == reverse(bytes_order(a, b)),
        bytes_order(a, b) == Ordering::Equal <==> a == b,
{
    lemma_common_prefix_symmetric(a, b);
    lemma_common_prefix_equal(a, b);
    lemma_common_prefix(a, b, 0);
}

/// Seen from the other side the order of two sequences of indices is the
/// reverse, and they are in order `Equal` when they are equal, and only then.
pub proof fn lemma_indices_order(a: Seq<usize>, b: Seq<usize>)
    ensures
        indices_order(b, a) == reverse(indices_order(a, b)),
        indices_order(a, b) == Ordering::Equal <==> a == b,
{
    lemma_common_prefix_symmetric(a, b);
    lemma_common_prefix_equal(a, b);
    lemma_common_prefix(a, b, 0);
}

/// The orders of three sequences of bytes fit together.
pub proof fn lemma_bytes_order_chains(a: Seq<u8>, b: Seq<u8>, c: Seq<u8>)
    ensures
        chains(bytes_order(a, b), bytes_order(b, c), bytes_order(a, c)),
{
    lemma_bytes_order(a, b);
    lemma_bytes_order(b, c);
    lemma_common_prefix_chain(a, b, c);
    lemma_common_prefix(a, b, 0);
    lemma_common_prefix(b, c, 0);
    lemma_common_prefix(a, c, 0);
}

/// The orders of three sequences of indices fit together.
pub proof fn lemma_indices_order_chains(a: Seq<usize>, b: Seq<usize>, c: Seq<usize>)
    ensures
        chains(indices_order(a, b), indices_order(b, c), indices_order(a, c)),
{
    lemma_indices_order(a, b);
    lemma_indices_order(b, c);
    lemma_common_prefix_chain(a, b, c);
    lemma_common_prefix(a, b, 0);
    lemma_common_prefix(b, c, 0);
    lemma_common_prefix(a, c, 0);
}

/// The length of the longest prefix that two slices of bytes share.
pub fn shared_prefix_bytes(a: &[u8], b: &[u8]) -> (n: usize)
    ensures
        n == common_prefix(a@, b@),
        n <= a@.len(),
        n <= b@.len(),
{
    let mut i: usize = 0;
    while i < a.len() && i < b.len() && a[i] == b[i]
        invariant
            i <= a@.len(),
            i <= b@.len(),
            forall|k: int| 0 <= k < i ==> a@[k] == b@[k],
        decreases a@.len() - i,
    {
        i += 1;
    }
    proof {
        lemma_common_prefix(a@, b@, i as int);
    }
    i
}

/// The length of the longest prefix that two slices of indices share.
pub fn shared_prefix_indices(a: &[usize], b: &[usize]) -> (n: usize)
    ensures
        n == common_prefix(a@, b@),
        n <= a@.len(),
        n <= b@.len(),
{
    let mut i: usize = 0;
    while i < a.len() && i < b.len() && a[i] == b[i]
        invariant
            i <= a@.len(),
            i <= b@.len(),
            forall|k: int| 0 <= k < i ==> a@[k] == b@[k],
        decreases a@.len() - i,
    {
        i += 1;
    }
    proof {
        lemma_common_prefix(a@, b@, i as int);
    }
    i
}

/// Compares two slices of bytes as the dictionary does.
pub fn order_of_bytes(a: &[u8], b: &[u8]) -> (r: Ordering)
    ensures
        r == bytes_order(a@, b@),
{
    let n: usize = shared_prefix_bytes(a, b);
    if n == a.len() {
        if n == b.len() {
            Ordering::Equal
        } else {
            Ordering::Less
        }
    } else if n == b.len() {
        Ordering::Greater
    } else if a[n] < b[n] {
        Ordering::Less
    } else {
        Ordering::Greater
    }
}

/// Compares two slices of indices as the dictionary does.
pub fn order_of_indices(a: &[usize], b: &[usize]) -> (r: Ordering)
    ensures
        r == indices_order(a@, b@),
{
    let n: usize = shared_prefix_indices(a, b);
    if n == a.len() {
        if n == b.len() {
            Ordering::Equal
        } else {
            Ordering::Less
        }
    } else if n == b.len() {
        Ordering::Greater
    } else if a[n] < b[n] {
        Ordering::Less
    } else {
        Ordering::Greater
    }
}

/// Two strings spell the same when their bytes are the same, and only
/// then.
pub proof fn lemma_same_bytes_same_text(a: &str, b: &str)
    ensures
        a.spec_bytes() == b.spec_bytes() <==> a@ == b@,
{
    encode_utf8_decode_utf8(a@);
    encode_utf8_decode_utf8(b@);
}

/// Whether two strings spell the same.
pub fn same_text(a: &str, b: &str) -> (r: bool)
    ensures
        r == (a@ == b@),
{
    let x = a.as_bytes();
    let y = b.as_bytes();
    let n: usize = shared_prefix_bytes(x, y);
    proof {
        lemma_common_prefix_equal(x@, y@);
        lemma_same_bytes_same_text(a, b);
    }
    n == x.len() && n == y.len()
}

/// Compares two strings as the dictionary does, byte by byte.
pub fn order_of_text(a: &str, b: &str) -> (r: Ordering)
    ensures
        r == bytes_order(a.spec_bytes(), b.spec_bytes()),
{
    order_of_bytes(a.as_bytes(), b.as_bytes())
}

} // verus!
