//! Comparing strings.
//!
//! Strings are ordered as Rust orders them: bytewise over their UTF-8
//! encoding.

use vstd::prelude::*;
use vstd::utf8::*;

verus! {

/// Bytewise lexicographic "at most", looking at positions `from` onwards.
pub open spec fn bytes_le_from(a: Seq<u8>, b: Seq<u8>, from: int) -> bool
    decreases a.len() - from,
{
    if from < 0 || from >= a.len() {
        true
    } else if from >= b.len() {
        false
    } else if a[from] != b[from] {
        a[from] < b[from]
    } else {
        bytes_le_from(a, b, from + 1)
    }
}

/// Strings as Rust orders them.
pub open spec fn text_le(a: Seq<char>, b: Seq<char>) -> bool {
    bytes_le_from(encode_utf8(a), encode_utf8(b), 0)
}

proof fn lemma_bytes_le_total(a: Seq<u8>, b: Seq<u8>, from: int)
    requires
        0 <= from,
    ensures
        bytes_le_from(a, b, from) || bytes_le_from(b, a, from),
    decreases a.len() - from,
{
    if from < a.len() && from < b.len() && a[from] == b[from] {
        lemma_bytes_le_total(a, b, from + 1);
    }
}

proof fn lemma_bytes_le_transitive(a: Seq<u8>, b: Seq<u8>, c: Seq<u8>, from: int)
    requires
        0 <= from,
        bytes_le_from(a, b, from),
        bytes_le_from(b, c, from),
    ensures
        bytes_le_from(a, c, from),
    decreases a.len() - from,
{
    if from < a.len() && a[from] == b[from] && b[from] == c[from] {
        lemma_bytes_le_transitive(a, b, c, from + 1);
    }
}

proof fn lemma_bytes_le_antisymmetric(a: Seq<u8>, b: Seq<u8>, from: int)
    requires
        0 <= from <= a.len(),
        from <= b.len(),
        bytes_le_from(a, b, from),
        bytes_le_from(b, a, from),
    ensures
        a.len() == b.len(),
        forall|k: int| from <= k < a.len() ==> a[k] == b[k],
    decreases a.len() - from,
{
    if from < a.len() {
        lemma_bytes_le_antisymmetric(a, b, from + 1);
    }
}

/// Two strings with one encoding are one string.
proof fn lemma_encoding_tells_apart(a: Seq<char>, b: Seq<char>)
    requires
        encode_utf8(a) == encode_utf8(b),
    ensures
        a == b,
{
    encode_utf8_decode_utf8(a);
    encode_utf8_decode_utf8(b);
}

/// Strings are totally ordered.
pub proof fn lemma_text_le_total_order(a: Seq<char>, b: Seq<char>, c: Seq<char>)
    ensures
        text_le(a, a),
        text_le(a, b) || text_le(b, a),
        text_le(a, b) && text_le(b, a) ==> a == b,
        text_le(a, b) && text_le(b, c) ==> text_le(a, c),
{
    let (ea, eb, ec) = (encode_utf8(a), encode_utf8(b), encode_utf8(c));
    lemma_bytes_le_total(ea, ea, 0);
    lemma_bytes_le_total(ea, eb, 0);
    if text_le(a, b) && text_le(b, a) {
        lemma_bytes_le_antisymmetric(ea, eb, 0);
        assert(ea =~= eb);
        lemma_encoding_tells_apart(a, b);
    }
    if text_le(a, b) && text_le(b, c) {
        lemma_bytes_le_transitive(ea, eb, ec, 0);
    }
}

/// How one byte string stands to another.
#[derive(Debug, Clone, Copy, PartialEq, Eq, Structural)]
pub enum Rank {
    Before,
    Same,
    After,
}

/// Compares two byte strings lexicographically.
pub fn rank_bytes(a: &[u8], b: &[u8]) -> (rank: Rank)
    ensures
        rank == Rank::Same <==> a@ == b@,
        rank == Rank::After <==> !bytes_le_from(a@, b@, 0),
{
    let mut i: usize = 0;
    while i < a.len() && i < b.len()
        invariant
            i <= a.len(),
            i <= b.len(),
            forall|k: int| 0 <= k < i ==> a@[k] == b@[k],
            bytes_le_from(a@, b@, 0) == bytes_le_from(a@, b@, i as int),
        decreases a.len() - i,
    {
        if a[i] < b[i] {
            return Rank::Before;
        }
        if a[i] > b[i] {
            return Rank::After;
        }
        i = i + 1;
    }
    if i < b.len() {
        Rank::Before
    } else if i < a.len() {
        Rank::After
    } else {
        assert(a@ =~= b@);
        Rank::Same
    }
}

/// Compares two strings as Rust orders them.
pub fn rank_text(a: &str, b: &str) -> (rank: Rank)
    ensures
        rank == Rank::Same <==> a@ == b@,
        rank == Rank::After <==> !text_le(a@, b@),
{
    let rank = rank_bytes(a.as_bytes(), b.as_bytes());
    proof {
        if rank == Rank::Same {
            lemma_encoding_tells_apart(a@, b@);
        }
    }
    rank
}

/// Whether two strings are the same.
pub fn same_text(a: &str, b: &str) -> (same: bool)
    ensures
        same == (a@ == b@),
{
    rank_text(a, b) == Rank::Same
}

} // verus!
