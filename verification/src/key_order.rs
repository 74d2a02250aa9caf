//! The order in which override keys are kept: strings compared byte by byte
//! over their UTF-8 encoding, a proper prefix coming before its extensions.

use vstd::prelude::*;
use vstd::utf8::*;

verus! {

/// `a` and `b` hold the same bytes at every position below `n`.
pub open spec fn agree_before(a: Seq<u8>, b: Seq<u8>, n: int) -> bool {
    &&& 0 <= n <= a.len()
    &&& n <= b.len()
    &&& forall|j: int| 0 <= j < n ==> a[j] == b[j]
}

/// `a` and `b` part ways at position `n`, and `a` is the smaller one there:
/// either `a` ends at `n` while `b` goes on, or `a` holds the smaller byte.
pub open spec fn parts_below_at(a: Seq<u8>, b: Seq<u8>, n: int) -> bool {
    &&& agree_before(a, b, n)
    &&& n < b.len()
    &&& n < a.len() ==> a[n] < b[n]
}

/// Strict lexicographic order on byte strings.
pub open spec fn bytes_precede(a: Seq<u8>, b: Seq<u8>) -> bool {
    exists|n: int| parts_below_at(a, b, n)
}

/// Strict order on keys: the order of their UTF-8 encodings.
pub open spec fn key_precedes(a: Seq<char>, b: Seq<char>) -> bool {
    bytes_precede(encode_utf8(a), encode_utf8(b))
}

/// No byte string comes before itself.
pub proof fn lemma_bytes_precede_irreflexive(a: Seq<u8>)
    ensures
        !bytes_precede(a, a),
{
}

/// The order on byte strings is transitive.
pub proof fn lemma_bytes_precede_transitive(a: Seq<u8>, b: Seq<u8>, c: Seq<u8>)
    requires
        bytes_precede(a, b),
        bytes_precede(b, c),
    ensures
        bytes_precede(a, c),
{
    let m = choose|n: int| parts_below_at(a, b, n);
    let n = choose|n: int| parts_below_at(b, c, n);
    let k = if m <= n { m } else { n };
    assert(parts_below_at(a, c, k));
}

/// Two byte strings neither of which comes before the other are the same.
pub proof fn lemma_bytes_precede_total(a: Seq<u8>, b: Seq<u8>)
    ensures
        bytes_precede(a, b) || bytes_precede(b, a) || a == b,
{
    if a != b {
        lemma_first_difference(a, b, 0);
    }
}

/// Two distinct byte strings that agree below `n` are ordered one way or the other.
proof fn lemma_first_difference(a: Seq<u8>, b: Seq<u8>, n: int)
    requires
        a != b,
        agree_before(a, b, n),
    ensures
        bytes_precede(a, b) || bytes_precede(b, a),
    decreases a.len() - n,
{
    if n == a.len() {
        if n == b.len() {
            assert(a =~= b);
        } else {
            assert(parts_below_at(a, b, n));
        }
    } else if n == b.len() {
        assert(parts_below_at(b, a, n));
    } else if a[n] < b[n] {
        assert(parts_below_at(a, b, n));
    } else if b[n] < a[n] {
        assert(parts_below_at(b, a, n));
    } else {
        lemma_first_difference(a, b, n + 1);
    }
}

/// The order on keys is a strict total order: nothing comes before itself, the
/// order is transitive, and of two distinct keys one comes before the other.
pub proof fn lemma_key_order(a: Seq<char>, b: Seq<char>, c: Seq<char>)
    ensures
        !key_precedes(a, a),
        key_precedes(a, b) && key_precedes(b, c) ==> key_precedes(a, c),
        key_precedes(a, b) ==> !key_precedes(b, a),
        a != b ==> key_precedes(a, b) || key_precedes(b, a),
{
    let (x, y, z) = (encode_utf8(a), encode_utf8(b), encode_utf8(c));
    lemma_bytes_precede_irreflexive(x);
    if key_precedes(a, b) && key_precedes(b, c) {
        lemma_bytes_precede_transitive(x, y, z);
    }
    if key_precedes(a, b) && key_precedes(b, a) {
        lemma_bytes_precede_transitive(x, y, x);
    }
    if a != b {
        encode_utf8_decode_utf8(a);
        encode_utf8_decode_utf8(b);
        lemma_bytes_precede_total(x, y);
    }
}

/// Tells whether `a` comes strictly before `b` in the order of keys.
pub fn precedes(a: &str, b: &str) -> (before: bool)
    ensures
        before == key_precedes(a@, b@),
{
    let x = a.as_bytes();
    let y = b.as_bytes();
    let mut i: usize = 0;
    while i < x.len() && i < y.len() && x[i] == y[i]
        invariant
            agree_before(x@, y@, i as int),
        decreases x.len() - i,
    {
        i += 1;
    }
    let before = i < y.len() && (i == x.len() || x[i] < y[i]);
    proof {
        let n = i as int;
        if before {
            assert(parts_below_at(x@, y@, n));
        } else {
            assert forall|m: int| !parts_below_at(x@, y@, m) by {
                if parts_below_at(x@, y@, m) {
                    if m < n {
                        assert(x@[m] == y@[m]);
                    } else if m > n {
                        assert(x@[n] == y@[n]);
                    }
                }
            }
        }
    }
    before
}

} // verus!
