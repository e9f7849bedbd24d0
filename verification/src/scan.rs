//! Verified text scanning.
//!
//! The protocol responses carry a fixed schema, so each field is read by a
//! narrow scan: find the first occurrence of an opening marker, then the
//! first occurrence of a closing marker after it, and take the characters
//! in between.  The scan is specified over character sequences and proved
//! to return the first match.

use vstd::prelude::*;

verus! {

use vstd::string::StrSliceExecFns;

/// `pat` occurs in `text` starting exactly at index `i`.
pub open spec fn match_at(text: Seq<char>, pat: Seq<char>, i: int) -> bool {
    &&& 0 <= i
    &&& i + pat.len() <= text.len()
    &&& text.subrange(i, i + pat.len() as int) == pat
}

/// `pat` occurs in `text` at some index at or after `from`.
pub open spec fn occurs_from(text: Seq<char>, pat: Seq<char>, from: int) -> bool {
    exists|i: int| from <= i && match_at(text, pat, i)
}

/// `i` is the first index at or after `from` where `pat` occurs.
pub open spec fn is_first_match_from(text: Seq<char>, pat: Seq<char>, from: int, i: int) -> bool {
    &&& from <= i
    &&& match_at(text, pat, i)
    &&& forall|j: int| from <= j < i ==> !match_at(text, pat, j)
}

/// The first index at or after `from` where `pat` occurs; meaningful only
/// when such an index exists.
pub open spec fn first_match_from(text: Seq<char>, pat: Seq<char>, from: int) -> int {
    choose|i: int| is_first_match_from(text, pat, from, i)
}

/// There is at most one first match.
pub proof fn lemma_first_match_unique(text: Seq<char>, pat: Seq<char>, from: int, i1: int, i2: int)
    requires
        is_first_match_from(text, pat, from, i1),
        is_first_match_from(text, pat, from, i2),
    ensures
        i1 == i2,
{
}

/// A found first match pins down `first_match_from`.
pub proof fn lemma_first_match_is(text: Seq<char>, pat: Seq<char>, from: int, i: int)
    requires
        is_first_match_from(text, pat, from, i),
    ensures
        first_match_from(text, pat, from) == i,
        occurs_from(text, pat, from),
{
    let w = first_match_from(text, pat, from);
    assert(is_first_match_from(text, pat, from, w));
    lemma_first_match_unique(text, pat, from, w, i);
}

/// Compares `pat` against `text` at position `i`, character by character.
fn match_here(text: &str, pat: &str, i: usize, plen: usize) -> (r: bool)
    requires
        plen == pat@.len(),
        i + plen <= text@.len(),
        i + plen <= usize::MAX,
    ensures
        r == match_at(text@, pat@, i as int),
{
    let mut j: usize = 0;
    while j < plen
        invariant
            j <= plen,
            plen == pat@.len(),
            i + plen <= text@.len(),
            i + plen <= usize::MAX,
            forall|k: int| 0 <= k < j ==> text@[i + k] == pat@[k],
        decreases plen - j,
    {
        let tc = text.get_char(i + j);
        let pc = pat.get_char(j);
        if tc != pc {
            proof {
                assert(text@.subrange(i as int, i + plen as int)[j as int] == text@[i + j]);
            }
            return false;
        }
        j += 1;
    }
    proof {
        assert(text@.subrange(i as int, i + plen as int) =~= pat@);
    }
    true
}

/// Finds the first occurrence of `pat` in `text` at or after `from`.
fn find_from(text: &str, pat: &str, from: usize) -> (r: Option<usize>)
    requires
        1 <= pat@.len(),
    ensures
        match r {
            Some(i) => is_first_match_from(text@, pat@, from as int, i as int),
            None => !occurs_from(text@, pat@, from as int),
        },
{
    let tlen = text.unicode_len();
    let plen = pat.unicode_len();
    if plen > tlen {
        proof {
            assert(forall|i: int| from <= i ==> !match_at(text@, pat@, i));
        }
        return None;
    }
    let last = tlen - plen;
    if from > last {
        proof {
            assert(forall|i: int| from <= i ==> !match_at(text@, pat@, i));
        }
        return None;
    }
    let mut i = from;
    while i <= last
        invariant
            from <= i,
            i <= last + 1,
            last == tlen - plen,
            plen == pat@.len(),
            tlen == text@.len(),
            1 <= plen,
            forall|j: int| from <= j < i ==> !match_at(text@, pat@, j),
        decreases last + 1 - i,
    {
        if match_here(text, pat, i, plen) {
            return Some(i);
        }
        i += 1;
    }
    proof {
        assert(forall|j: int| from <= j && match_at(text@, pat@, j) ==> j <= last);
    }
    None
}

/// The field between the first occurrence of `open` and the first
/// occurrence of `close` that starts at least one character after the end
/// of `open`; absent when either marker is missing.
pub open spec fn extract_between(text: Seq<char>, open_pat: Seq<char>, close_pat: Seq<char>) -> Option<
    Seq<char>,
> {
    if !occurs_from(text, open_pat, 0) {
        None
    } else {
        let start = first_match_from(text, open_pat, 0) + open_pat.len();
        if !occurs_from(text, close_pat, start + 1) {
            None
        } else {
            Some(text.subrange(start as int, first_match_from(text, close_pat, start + 1)))
        }
    }
}

/// Scans `text` for the field framed by `open_pat` and `close_pat`.
pub fn extract_field(text: &str, open_pat: &str, close_pat: &str) -> (r: Option<String>)
    requires
        1 <= open_pat@.len(),
        1 <= close_pat@.len(),
    ensures
        r is Some <==> extract_between(text@, open_pat@, close_pat@) is Some,
        r is Some ==> r.unwrap()@ == extract_between(text@, open_pat@, close_pat@).unwrap(),
{
    let olen = open_pat.unicode_len();
    let tlen = text.unicode_len();
    match find_from(text, open_pat, 0) {
        None => None,
        Some(i) => {
            proof {
                lemma_first_match_is(text@, open_pat@, 0, i as int);
            }
            let start = i + olen;
            if start >= tlen {
                proof {
                    assert(forall|j: int|
                        start + 1 <= j ==> !match_at(text@, close_pat@, j));
                }
                None
            } else {
                match find_from(text, close_pat, start + 1) {
                    None => None,
                    Some(j) => {
                        proof {
                            lemma_first_match_is(text@, close_pat@, start + 1, j as int);
                        }
                        let cap = text.substring_char(start, j);
                        Some(cap.to_owned())
                    },
                }
            }
        },
    }
}

} // verus!
