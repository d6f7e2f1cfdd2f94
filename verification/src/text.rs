//! Byte-wise lexicographic order on strings, the order in which `str` compares.

use vstd::prelude::*;
use vstd::utf8::encode_utf8;

verus! {

/// The outcome of comparing two values.
#[derive(Clone, Copy, Debug, PartialEq, Eq, Structural)]
pub enum Order {
    Less,
    Equal,
    Greater,
}

/// The order of `a` and `b` given that they agree on their first `i` bytes:
/// the first differing byte decides, and a proper prefix comes first.
pub open spec fn compare_from(a: Seq<u8>, b: Seq<u8>, i: int) -> Order
    decreases a.len() - i,
{
    if i < 0 || i >= a.len() || i >= b.len() {
        if a.len() == b.len() {
            Order::Equal
        } else if a.len() < b.len() {
            Order::Less
        } else {
            Order::Greater
        }
    } else if a[i] < b[i] {
        Order::Less
    } else if a[i] > b[i] {
        Order::Greater
    } else {
        compare_from(a, b, i + 1)
    }
}

/// The lexicographic order of two byte strings.
pub open spec fn compare(a: Seq<u8>, b: Seq<u8>) -> Order {
    compare_from(a, b, 0)
}

/// Compares two byte strings lexicographically.
pub fn compare_bytes(a: &[u8], b: &[u8]) -> (r: Order)
    ensures
        r == compare(a@, b@),
{
    let mut i: usize = 0;
    while i < a.len() && i < b.len()
        invariant
            i <= a.len(),
            i <= b.len(),
            compare_from(a@, b@, i as int) == compare(a@, b@),
        decreases a.len() - i,
    {
        if a[i] < b[i] {
            return Order::Less;
        }
        if a[i] > b[i] {
            return Order::Greater;
        }
        i += 1;
    }
    if a.len() == b.len() {
        Order::Equal
    } else if a.len() < b.len() {
        Order::Less
    } else {
        Order::Greater
    }
}

/// The order of two texts: that of their UTF-8 encodings.
pub open spec fn text_order(a: Seq<char>, b: Seq<char>) -> Order {
    compare(encode_utf8(a), encode_utf8(b))
}

/// Compares two strings by their UTF-8 bytes.
pub fn compare_text(a: &str, b: &str) -> (r: Order)
    ensures
        r == text_order(a@, b@),
{
    compare_bytes(a.as_bytes(), b.as_bytes())
}

/// Two texts compare equal exactly when they are the same text.
pub proof fn lemma_text_order_equal(a: Seq<char>, b: Seq<char>)
    ensures
        text_order(a, b) == Order::Equal <==> a == b,
{
    lemma_compare_equal(encode_utf8(a), encode_utf8(b));
    vstd::utf8::encode_utf8_decode_utf8(a);
    vstd::utf8::encode_utf8_decode_utf8(b);
}

/// Two byte strings that agree up to `i` and compare equal from there are the
/// same string.
pub proof fn lemma_equal_from(a: Seq<u8>, b: Seq<u8>, i: int)
    requires
        0 <= i,
        compare_from(a, b, i) == Order::Equal,
        forall|k: int| 0 <= k < i && k < a.len() && k < b.len() ==> a[k] == b[k],
    ensures
        a == b,
    decreases a.len() - i,
{
    if i >= a.len() || i >= b.len() {
        assert(a =~= b);
    } else {
        lemma_equal_from(a, b, i + 1);
    }
}

/// Comparing equal means being equal, and a string compares equal to itself.
pub proof fn lemma_compare_equal(a: Seq<u8>, b: Seq<u8>)
    ensures
        compare(a, b) == Order::Equal <==> a == b,
{
    if compare(a, b) == Order::Equal {
        lemma_equal_from(a, b, 0);
    }
    if a == b {
        lemma_reflexive_from(a, 0);
    }
}

/// A string compares equal to itself from any position.
pub proof fn lemma_reflexive_from(a: Seq<u8>, i: int)
    requires
        0 <= i,
    ensures
        compare_from(a, a, i) == Order::Equal,
    decreases a.len() - i,
{
    if i < a.len() {
        lemma_reflexive_from(a, i + 1);
    }
}

/// Swapping the arguments swaps `Less` and `Greater`.
pub proof fn lemma_antisymmetric_from(a: Seq<u8>, b: Seq<u8>, i: int)
    requires
        0 <= i,
    ensures
        compare_from(a, b, i) == Order::Less <==> compare_from(b, a, i) == Order::Greater,
        compare_from(a, b, i) == Order::Equal <==> compare_from(b, a, i) == Order::Equal,
    decreases a.len() - i,
{
    if i < a.len() && i < b.len() && a[i] == b[i] {
        lemma_antisymmetric_from(a, b, i + 1);
    }
}

/// Swapping the arguments of `compare` swaps `Less` and `Greater`.
pub proof fn lemma_antisymmetric(a: Seq<u8>, b: Seq<u8>)
    ensures
        compare(a, b) == Order::Less <==> compare(b, a) == Order::Greater,
        compare(a, b) == Order::Equal <==> compare(b, a) == Order::Equal,
{
    lemma_antisymmetric_from(a, b, 0);
}

/// The order is transitive from any position on which the three strings agree
/// so far.
pub proof fn lemma_transitive_from(a: Seq<u8>, b: Seq<u8>, c: Seq<u8>, i: int)
    requires
        0 <= i,
        compare_from(a, b, i) != Order::Greater,
        compare_from(b, c, i) != Order::Greater,
    ensures
        compare_from(a, c, i) != Order::Greater,
        compare_from(a, b, i) == Order::Less || compare_from(b, c, i) == Order::Less
            ==> compare_from(a, c, i) == Order::Less,
    decreases a.len() - i,
{
    if i < a.len() && i < b.len() && i < c.len() && a[i] == b[i] && b[i] == c[i] {
        lemma_transitive_from(a, b, c, i + 1);
    }
}

/// `compare` is transitive: from `a <= b` and `b <= c` follows `a <= c`, and
/// strictly so where one of the two is strict.
pub proof fn lemma_transitive(a: Seq<u8>, b: Seq<u8>, c: Seq<u8>)
    requires
        compare(a, b) != Order::Greater,
        compare(b, c) != Order::Greater,
    ensures
        compare(a, c) != Order::Greater,
        compare(a, b) == Order::Less || compare(b, c) == Order::Less ==> compare(a, c)
            == Order::Less,
{
    lemma_transitive_from(a, b, c, 0);
}

} // verus!
