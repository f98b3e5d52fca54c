//! The ordering of shared strings: raw lexicographic comparison of the
//! UTF-8 bytes of the referenced text.
//!
//! The specification-level order is `lex_cmp` over byte sequences, lifted
//! to character sequences through `vstd::utf8::encode_utf8`; the
//! executable comparison walks the byte slices. The proof functions at the
//! end establish that the relation is a total order and that sorting
//! ascending and sorting by the swapped comparator yield exact reverses.

use vstd::prelude::*;

verus! {

use core::cmp::Ordering;
use vstd::relations::{sorted_by, total_ordering};
use vstd::seq_lib::lemma_sorted_unique;
use vstd::utf8::{encode_utf8, encode_utf8_decode_utf8};

/// Three-way lexicographic comparison of two byte sequences.
pub open spec fn lex_cmp(a: Seq<u8>, b: Seq<u8>) -> Ordering
    decreases a.len(),
{
    if a.len() == 0 && b.len() == 0 {
        Ordering::Equal
    } else if a.len() == 0 {
        Ordering::Less
    } else if b.len() == 0 {
        Ordering::Greater
    } else if a[0] < b[0] {
        Ordering::Less
    } else if a[0] > b[0] {
        Ordering::Greater
    } else {
        lex_cmp(a.drop_first(), b.drop_first())
    }
}

/// Three-way comparison of two texts: lexicographic comparison of their
/// UTF-8 encodings.
pub open spec fn text_cmp(a: Seq<char>, b: Seq<char>) -> Ordering {
    lex_cmp(encode_utf8(a), encode_utf8(b))
}

/// The non-strict ascending order on texts.
pub open spec fn text_le(a: Seq<char>, b: Seq<char>) -> bool {
    text_cmp(a, b) != Ordering::Greater
}

/// The ascending comparator, as a relation on texts.
pub open spec fn ascending() -> spec_fn(Seq<char>, Seq<char>) -> bool {
    |a: Seq<char>, b: Seq<char>| text_le(a, b)
}

/// The comparator with its operands swapped, as a relation on texts.
pub open spec fn descending() -> spec_fn(Seq<char>, Seq<char>) -> bool {
    |a: Seq<char>, b: Seq<char>| text_le(b, a)
}

/// Lexicographic comparison returns `Equal` exactly on equal sequences.
pub proof fn lemma_lex_cmp_equal(a: Seq<u8>, b: Seq<u8>)
    ensures
        lex_cmp(a, b) == Ordering::Equal <==> a == b,
    decreases a.len(),
{
    if a.len() == 0 && b.len() == 0 {
        assert(a =~= b);
    } else if a.len() == 0 || b.len() == 0 {
    } else if a[0] == b[0] {
        lemma_lex_cmp_equal(a.drop_first(), b.drop_first());
        if lex_cmp(a, b) == Ordering::Equal {
            assert(a =~= seq![a[0]] + a.drop_first());
            assert(b =~= seq![b[0]] + b.drop_first());
        } else if a == b {
            assert(a.drop_first() =~= b.drop_first());
        }
    } else {
        assert(a != b) by {
            assert(a[0] != b[0]);
        }
    }
}

/// Swapping the operands of a lexicographic comparison swaps `Less` and
/// `Greater` and keeps `Equal`.
pub proof fn lemma_lex_cmp_flip(a: Seq<u8>, b: Seq<u8>)
    ensures
        lex_cmp(b, a) == (match lex_cmp(a, b) {
            Ordering::Less => Ordering::Greater,
            Ordering::Equal => Ordering::Equal,
            Ordering::Greater => Ordering::Less,
        }),
    decreases a.len(),
{
    if a.len() != 0 && b.len() != 0 && a[0] == b[0] {
        lemma_lex_cmp_flip(a.drop_first(), b.drop_first());
    }
}

/// Lexicographic comparison is transitive in its `Less`-or-`Equal` form.
pub proof fn lemma_lex_cmp_transitive(a: Seq<u8>, b: Seq<u8>, c: Seq<u8>)
    requires
        lex_cmp(a, b) != Ordering::Greater,
        lex_cmp(b, c) != Ordering::Greater,
    ensures
        lex_cmp(a, c) != Ordering::Greater,
    decreases a.len(),
{
    if a.len() == 0 {
    } else {
        // a is nonempty, so b and c are nonempty as well.
        if a[0] == b[0] && b[0] == c[0] {
            lemma_lex_cmp_transitive(a.drop_first(), b.drop_first(), c.drop_first());
        }
    }
}

/// Equal texts and only they compare as `Equal`.
pub proof fn lemma_text_cmp_equal(a: Seq<char>, b: Seq<char>)
    ensures
        text_cmp(a, b) == Ordering::Equal <==> a == b,
{
    lemma_lex_cmp_equal(encode_utf8(a), encode_utf8(b));
    if encode_utf8(a) == encode_utf8(b) {
        encode_utf8_decode_utf8(a);
        encode_utf8_decode_utf8(b);
    }
}

/// The ascending order on texts is a total order.
pub proof fn lemma_text_le_total_ordering()
    ensures
        total_ordering(ascending()),
{
    let leq = ascending();
    assert forall|a: Seq<char>| #[trigger] leq(a, a) by {
        lemma_text_cmp_equal(a, a);
    }
    assert forall|a: Seq<char>, b: Seq<char>| #[trigger] leq(a, b) && #[trigger] leq(b, a)
        implies a == b by {
        lemma_lex_cmp_flip(encode_utf8(a), encode_utf8(b));
        lemma_text_cmp_equal(a, b);
    }
    assert forall|a: Seq<char>, b: Seq<char>, c: Seq<char>|
        #[trigger] leq(a, b) && #[trigger] leq(b, c) implies leq(a, c) by {
        lemma_lex_cmp_transitive(encode_utf8(a), encode_utf8(b), encode_utf8(c));
    }
    assert forall|a: Seq<char>, b: Seq<char>| #[trigger] leq(a, b) || #[trigger] leq(b, a) by {
        lemma_lex_cmp_flip(encode_utf8(a), encode_utf8(b));
    }
}

/// The swapped comparator is a total order as well.
pub proof fn lemma_text_ge_total_ordering()
    ensures
        total_ordering(descending()),
{
    let geq = descending();
    assert forall|a: Seq<char>| #[trigger] geq(a, a) by {
        lemma_text_cmp_equal(a, a);
    }
    assert forall|a: Seq<char>, b: Seq<char>| #[trigger] geq(a, b) && #[trigger] geq(b, a)
        implies a == b by {
        lemma_lex_cmp_flip(encode_utf8(a), encode_utf8(b));
        lemma_text_cmp_equal(a, b);
    }
    assert forall|a: Seq<char>, b: Seq<char>, c: Seq<char>|
        #[trigger] geq(a, b) && #[trigger] geq(b, c) implies geq(a, c) by {
        lemma_lex_cmp_transitive(encode_utf8(c), encode_utf8(b), encode_utf8(a));
    }
    assert forall|a: Seq<char>, b: Seq<char>| #[trigger] geq(a, b) || #[trigger] geq(b, a) by {
        lemma_lex_cmp_flip(encode_utf8(a), encode_utf8(b));
    }
}

/// The reverse of a sequence sorted ascending is sorted by the swapped
/// comparator.
pub proof fn lemma_reverse_sorted(s: Seq<Seq<char>>)
    requires
        sorted_by(s, ascending()),
    ensures
        sorted_by(s.reverse(), descending()),
{
    let r = s.reverse();
    assert forall|i: int, j: int| 0 <= i < j < r.len() implies descending()(r[i], r[j]) by {
        assert(ascending()(s[s.len() - j - 1], s[s.len() - i - 1]));
    }
}

/// Sorting a collection of texts ascending and sorting the same
/// collection by the comparator with swapped operands produce sequences
/// that are exact reverses of each other.
pub proof fn lemma_sort_swapped_is_reverse(asc: Seq<Seq<char>>, desc: Seq<Seq<char>>)
    requires
        asc.to_multiset() == desc.to_multiset(),
        sorted_by(asc, ascending()),
        sorted_by(desc, descending()),
    ensures
        desc == asc.reverse(),
{
    lemma_reverse_sorted(asc);
    lemma_text_ge_total_ordering();
    asc.lemma_reverse_to_multiset();
    lemma_sorted_unique(desc, asc.reverse(), descending());
    assert(desc =~= asc.reverse());
}

/// Compares two byte slices lexicographically.
pub fn bytes_cmp(a: &[u8], b: &[u8]) -> (r: Ordering)
    ensures
        r == lex_cmp(a@, b@),
{
    let a_len = a.len();
    let b_len = b.len();
    let mut i: usize = 0;
    proof {
        assert(a@.skip(0) =~= a@);
        assert(b@.skip(0) =~= b@);
    }
    while i < a_len && i < b_len
        invariant
            i <= a_len,
            i <= b_len,
            a_len == a@.len(),
            b_len == b@.len(),
            lex_cmp(a@, b@) == lex_cmp(a@.skip(i as int), b@.skip(i as int)),
        decreases a_len - i,
    {
        let x = a[i];
        let y = b[i];
        proof {
            assert(a@.skip(i as int)[0] == x);
            assert(b@.skip(i as int)[0] == y);
        }
        if x < y {
            return Ordering::Less;
        }
        if x > y {
            return Ordering::Greater;
        }
        proof {
            assert(a@.skip(i as int).drop_first() =~= a@.skip(i + 1));
            assert(b@.skip(i as int).drop_first() =~= b@.skip(i + 1));
        }
        i = i + 1;
    }
    proof {
        assert(a@.skip(i as int).len() == a@.len() - i);
        assert(b@.skip(i as int).len() == b@.len() - i);
    }
    if a_len == b_len {
        Ordering::Equal
    } else if a_len < b_len {
        Ordering::Less
    } else {
        Ordering::Greater
    }
}

/// Compares two texts: lexicographic comparison of their UTF-8 bytes.
pub fn str_cmp(a: &str, b: &str) -> (r: Ordering)
    ensures
        r == text_cmp(a@, b@),
{
    bytes_cmp(a.as_bytes(), b.as_bytes())
}

/// Tests two texts for equality of their character sequences.
pub fn str_eq(a: &str, b: &str) -> (r: bool)
    ensures
        r == (a@ == b@),
{
    proof {
        lemma_text_cmp_equal(a@, b@);
    }
    matches!(str_cmp(a, b), Ordering::Equal)
}

} // verus!
