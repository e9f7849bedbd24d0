//! Content fingerprinting.
//!
//! A media file is identified by a `(hash, size)` pair.  The hash sums the
//! file size with every whole 8-byte little-endian word of two 64 KiB
//! windows, one at each end of the file, in wraparound 64-bit arithmetic.
//! For files shorter than twice the window the two windows overlap and the
//! shared bytes count twice; that duplication is part of the reference
//! algorithm and is kept bit-for-bit.

use vstd::prelude::*;

verus! {

use vstd::arithmetic::div_mod::{
    lemma_add_mod_noop,
    lemma_add_mod_noop_right,
    lemma_fundamental_div_mod,
    lemma_mod_multiples_vanish,
    lemma_small_mod,
};

/// Length in bytes of the head and tail windows.
pub const WINDOW_LEN: usize = 65536;

/// A file's content fingerprint: the reference hash and the byte count.
#[derive(Clone, Copy, Debug, PartialEq, Eq, Structural)]
pub struct FileFingerprint {
    pub hash: u64,
    pub size: u64,
}

impl FileFingerprint {
    /// The hash rendered as the protocol wants it: a fixed-width,
    /// lowercase, zero-padded 16-digit hexadecimal string.
    pub fn hex_hash(&self) -> (r: String)
        ensures
            r@ == crate::render::hex_chars(self.hash),
            r@.len() == 16,
    {
        crate::render::to_hex16(self.hash)
    }
}

/// The value of the `i`-th whole 8-byte little-endian word of `b`.
pub open spec fn word_at(b: Seq<u8>, i: int) -> nat {
    vstd::bytes::spec_u64_from_le_bytes(b.subrange(8 * i, 8 * i + 8)) as nat
}

/// The mathematical sum of the first `k` whole words of `b`.
pub open spec fn words_sum(b: Seq<u8>, k: int) -> nat
    decreases k,
{
    if k <= 0 {
        0
    } else {
        words_sum(b, k - 1) + word_at(b, k - 1)
    }
}

/// The sum of every whole 8-byte word of a window; a trailing partial
/// group of fewer than 8 bytes is ignored.
pub open spec fn window_sum(b: Seq<u8>) -> nat {
    words_sum(b, b.len() as int / 8)
}

/// The first `min(len, 65536)` bytes of the content.
pub open spec fn head_window(c: Seq<u8>) -> Seq<u8> {
    if c.len() <= 65536 {
        c
    } else {
        c.take(65536)
    }
}

/// The last `min(len, 65536)` bytes of the content.
pub open spec fn tail_window(c: Seq<u8>) -> Seq<u8> {
    if c.len() <= 65536 {
        c
    } else {
        c.skip(c.len() - 65536)
    }
}

/// The reference hash over a size and the two windows:
/// `(size + sum(head words) + sum(tail words)) mod 2^64`.
pub open spec fn windows_hash(size: nat, head: Seq<u8>, tail: Seq<u8>) -> nat {
    (size + window_sum(head) + window_sum(tail)) % 0x1_0000_0000_0000_0000
}

/// The reference hash of a whole content sequence.
pub open spec fn content_hash(c: Seq<u8>) -> nat {
    windows_hash(c.len(), head_window(c), tail_window(c))
}

/// For `0 <= a < 2 * 2^64`, reducing mod `2^64` is one conditional subtraction,
/// which is exactly what a wrapping 64-bit addition of two summands performs.
proof fn lemma_wrap_is_mod(a: int)
    requires
        0 <= a < 2 * 0x1_0000_0000_0000_0000,
    ensures
        a % 0x1_0000_0000_0000_0000 == if a < 0x1_0000_0000_0000_0000 {
            a
        } else {
            a - 0x1_0000_0000_0000_0000
        },
{
    let m = 0x1_0000_0000_0000_0000;
    if a < m {
        lemma_small_mod(a as nat, m as nat);
    } else {
        lemma_mod_multiples_vanish(1, a - m, m);
        lemma_small_mod((a - m) as nat, m as nat);
    }
}

/// Sums the whole 8-byte little-endian words of `b` in wraparound 64-bit
/// arithmetic; trailing bytes beyond the last whole word are ignored.
pub fn sum_window(b: &[u8]) -> (r: u64)
    ensures
        r as nat == window_sum(b@) % 0x1_0000_0000_0000_0000,
{
    let n = b.len();
    let words = n / 8;
    proof {
        lemma_fundamental_div_mod(n as int, 8);
        lemma_small_mod(0, 0x1_0000_0000_0000_0000);
    }
    let mut acc: u64 = 0;
    let mut i: usize = 0;
    while i < words
        invariant
            i <= words,
            n == b@.len(),
            words == n as int / 8,
            8 * words <= n,
            acc as nat == words_sum(b@, i as int) % 0x1_0000_0000_0000_0000,
        decreases words - i,
    {
        let w = vstd::bytes::u64_from_le_bytes(vstd::slice::slice_subrange(b, 8 * i, 8 * i + 8));
        proof {
            assert(w as nat == word_at(b@, i as int));
            lemma_wrap_is_mod(acc + w);
            lemma_add_mod_noop(words_sum(b@, i as int) as int, w as int, 0x1_0000_0000_0000_0000);
            lemma_small_mod(w as nat, 0x1_0000_0000_0000_0000);
            assert(words_sum(b@, i as int + 1) == words_sum(b@, i as int) + word_at(b@, i as int));
        }
        acc = acc.wrapping_add(w);
        i += 1;
    }
    acc
}

/// Combines the file size with the two window sums, in wraparound 64-bit
/// arithmetic, into the reference hash.
pub fn fingerprint_from_windows(size: u64, head: &[u8], tail: &[u8]) -> (r: FileFingerprint)
    requires
        head@.len() == if size <= 65536 {
            size as nat
        } else {
            65536 as nat
        },
        tail@.len() == head@.len(),
    ensures
        r.size == size,
        r.hash as nat == windows_hash(size as nat, head@, tail@),
{
    let hs = sum_window(head);
    let ts = sum_window(tail);
    let with_head = size.wrapping_add(hs);
    let h = with_head.wrapping_add(ts);
    proof {
        let m = 0x1_0000_0000_0000_0000;
        let sh = window_sum(head@) as int;
        let st = window_sum(tail@) as int;
        lemma_wrap_is_mod(size + hs);
        assert(with_head as int == (size + hs) % m);
        lemma_wrap_is_mod(with_head + ts);
        assert(h as int == (with_head + ts) % m);
        // (size + (sh % m)) % m == (size + sh) % m
        lemma_add_mod_noop_right(size as int, sh, m);
        // ((size + sh) % m + (st % m)) % m == (size + sh + st) % m
        lemma_add_mod_noop(size + sh, st, m);
        assert(h as nat == windows_hash(size as nat, head@, tail@));
    }
    FileFingerprint { hash: h, size }
}

/// Computes the fingerprint of a content held whole in memory, slicing the
/// two windows itself.
pub fn compute_fingerprint(content: &[u8]) -> (r: FileFingerprint)
    ensures
        r.size == content@.len(),
        r.hash as nat == content_hash(content@),
{
    let n = content.len();
    let w = if n <= WINDOW_LEN {
        n
    } else {
        WINDOW_LEN
    };
    let head = vstd::slice::slice_subrange(content, 0, w);
    let tail = vstd::slice::slice_subrange(content, n - w, n);
    proof {
        assert(head@ =~= head_window(content@));
        assert(tail@ =~= tail_window(content@));
    }
    fingerprint_from_windows(n as u64, head, tail)
}

/// Determinism: the reference hash is a pure function of the content; equal
/// contents always yield an equal hash and size.
pub proof fn lemma_fingerprint_deterministic(a: Seq<u8>, b: Seq<u8>)
    requires
        a == b,
    ensures
        content_hash(a) == content_hash(b),
        a.len() == b.len(),
{
}

/// Full overlap: for a content of exactly one window (65536 bytes) the head
/// and tail windows are both the whole content, so every word is summed
/// twice: `hash == (size + 2 * sum(words)) mod 2^64`.
pub proof fn lemma_full_overlap(c: Seq<u8>)
    requires
        c.len() == 65536,
    ensures
        content_hash(c) == (65536 + 2 * window_sum(c)) % 0x1_0000_0000_0000_0000,
{
    assert(head_window(c) == c);
    assert(tail_window(c) == c);
}

/// Window disjointness: for a content of exactly two windows (131072 bytes)
/// the head window is the first 65536 bytes and the tail window the last
/// 65536, with no byte shared, and the hash sums each side once.
pub proof fn lemma_disjoint_windows(c: Seq<u8>)
    requires
        c.len() == 131072,
    ensures
        head_window(c) == c.subrange(0, 65536),
        tail_window(c) == c.subrange(65536, 131072),
        content_hash(c) == (131072 + window_sum(c.subrange(0, 65536)) + window_sum(
            c.subrange(65536, 131072),
        )) % 0x1_0000_0000_0000_0000,
{
    assert(head_window(c) =~= c.subrange(0, 65536));
    assert(tail_window(c) =~= c.subrange(65536, 131072));
}

} // verus!
