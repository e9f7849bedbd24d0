//! Subtitle path derivation.
//!
//! The subtitle is written next to the media file: only the final extension
//! of the media path is stripped, and the fixed subtitle extension `.srt`
//! is appended.

use vstd::prelude::*;

verus! {

use vstd::string::{StrSliceExecFns, StringExecFns};

/// Index `i` holds a dot.
pub open spec fn is_dot_at(s: Seq<char>, i: int) -> bool {
    0 <= i < s.len() && s[i] == '.'
}

/// `s` holds at least one dot.
pub open spec fn has_dot(s: Seq<char>) -> bool {
    exists|i: int| is_dot_at(s, i)
}

/// Index `i` holds the last dot of `s`.
pub open spec fn is_last_dot(s: Seq<char>, i: int) -> bool {
    is_dot_at(s, i) && forall|j: int| i < j < s.len() ==> s[j] != '.'
}

/// The index of the last dot of `s`; meaningful only when `has_dot(s)`.
pub open spec fn last_dot_index(s: Seq<char>) -> int {
    choose|i: int| is_last_dot(s, i)
}

/// The characters of `s` before its last dot.
pub open spec fn stem_of(s: Seq<char>) -> Seq<char> {
    s.take(last_dot_index(s))
}

/// The derived subtitle path: the stem with the fixed subtitle extension.
pub open spec fn subtitle_path_of(s: Seq<char>) -> Seq<char> {
    stem_of(s) + ".srt"@
}

/// There is at most one last dot.
proof fn lemma_last_dot_unique(s: Seq<char>, i1: int, i2: int)
    requires
        is_last_dot(s, i1),
        is_last_dot(s, i2),
    ensures
        i1 == i2,
{
}

/// Strips the final extension: everything from the last dot on is removed.
pub fn remove_extension(path: &str) -> (r: String)
    requires
        has_dot(path@),
    ensures
        r@ == stem_of(path@),
        is_last_dot(path@, last_dot_index(path@)),
{
    let n = path.unicode_len();
    let mut i = n;
    while i > 0
        invariant
            i <= n,
            n == path@.len(),
            has_dot(path@),
            forall|j: int| i <= j < n ==> path@[j] != '.',
        decreases i,
    {
        i -= 1;
        if path.get_char(i) == '.' {
            proof {
                assert(is_last_dot(path@, i as int));
                let w = last_dot_index(path@);
                assert(is_last_dot(path@, w));
                lemma_last_dot_unique(path@, w, i as int);
            }
            let stem = path.substring_char(0, i);
            return stem.to_owned();
        }
    }
    proof {
        let ghost w = choose|k: int| is_dot_at(path@, k);
        assert(path@[w] != '.');
        assert(false);
    }
    String::new()
}

/// Derives the subtitle path beside a media path: the final extension is
/// replaced by the fixed subtitle extension.
pub fn subtitle_path(path: &str) -> (r: String)
    requires
        has_dot(path@),
    ensures
        r@ == subtitle_path_of(path@),
{
    let mut s = remove_extension(path);
    s.append(".srt");
    s
}

} // verus!
