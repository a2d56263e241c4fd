//! The stream reconstructor: splitting a byte stream into a bounded peek
//! window and a remainder, and gluing the two parts back together without
//! losing, duplicating or reordering a single byte.

use vstd::prelude::*;

verus! {

/// The number of bytes actually retained when a window of `k` bytes is
/// requested from a stream of `s.len()` bytes: the whole window, or the
/// whole stream if it is shorter.
pub open spec fn window_len(s: Seq<u8>, k: int) -> int {
    if k < 0 {
        0
    } else if k > s.len() {
        s.len() as int
    } else {
        k
    }
}

/// The peek window: the first `window_len` bytes of the stream.
pub open spec fn peek_seq(s: Seq<u8>, k: int) -> Seq<u8> {
    s.take(window_len(s, k))
}

/// The remainder: everything after the peek window.
pub open spec fn remainder_seq(s: Seq<u8>, k: int) -> Seq<u8> {
    s.skip(window_len(s, k))
}

/// Peeking is lossless: for any stream and any window size, the retained
/// window followed by the remainder is the original stream, byte for byte.
pub proof fn lemma_peek_round_trip(s: Seq<u8>, k: int)
    ensures
        peek_seq(s, k) + remainder_seq(s, k) == s,
{
    assert(peek_seq(s, k) + remainder_seq(s, k) =~= s);
}

/// Copy the peek window out of a fully buffered stream.
pub fn peek(data: &Vec<u8>, k: usize) -> (p: Vec<u8>)
    ensures
        p@ == peek_seq(data@, k as int),
{
    let m: usize = if k < data.len() {
        k
    } else {
        data.len()
    };
    let mut p: Vec<u8> = Vec::new();
    let mut i: usize = 0;
    while i < m
        invariant
            i <= m,
            m == window_len(data@, k as int),
            p@ == data@.take(i as int),
        decreases m - i,
    {
        p.push(data[i]);
        i = i + 1;
        assert(p@ =~= data@.take(i as int));
    }
    p
}

/// Copy the remainder of a fully buffered stream, i.e. everything after the
/// peek window.
pub fn remainder(data: &Vec<u8>, k: usize) -> (r: Vec<u8>)
    ensures
        r@ == remainder_seq(data@, k as int),
{
    let m: usize = if k < data.len() {
        k
    } else {
        data.len()
    };
    let mut r: Vec<u8> = Vec::new();
    let mut i: usize = m;
    while i < data.len()
        invariant
            m <= i <= data.len(),
            m == window_len(data@, k as int),
            r@ == data@.subrange(m as int, i as int),
        decreases data.len() - i,
    {
        r.push(data[i]);
        i = i + 1;
        assert(r@ =~= data@.subrange(m as int, i as int));
    }
    assert(r@ =~= data@.skip(m as int));
    r
}

/// Concatenate the retained peek window with the remainder of the source,
/// reconstructing one continuous stream.
pub fn reconstruct(prefix: &Vec<u8>, rest: &Vec<u8>) -> (w: Vec<u8>)
    ensures
        w@ == prefix@ + rest@,
{
    let mut w: Vec<u8> = Vec::new();
    let mut i: usize = 0;
    while i < prefix.len()
        invariant
            i <= prefix.len(),
            w@ == prefix@.take(i as int),
        decreases prefix.len() - i,
    {
        w.push(prefix[i]);
        i = i + 1;
        assert(w@ =~= prefix@.take(i as int));
    }
    assert(w@ =~= prefix@ + rest@.take(0));
    let mut j: usize = 0;
    while j < rest.len()
        invariant
            j <= rest.len(),
            w@ == prefix@ + rest@.take(j as int),
        decreases rest.len() - j,
    {
        w.push(rest[j]);
        j = j + 1;
        assert(w@ =~= prefix@ + rest@.take(j as int));
    }
    assert(w@ =~= prefix@ + rest@);
    w
}

} // verus!
