//! Digit rendering.
//!
//! The protocol carries the fingerprint hash as a fixed 16-character
//! lowercase hexadecimal string and the file size as a decimal string; both
//! renderings are built here character by character and proved against
//! their specifications.

use vstd::prelude::*;

verus! {

use vstd::string::StringExecFns;

/// The lowercase character of a single base-16 digit.
pub open spec fn digit_char(d: int) -> char {
    if d == 0 {
        '0'
    } else if d == 1 {
        '1'
    } else if d == 2 {
        '2'
    } else if d == 3 {
        '3'
    } else if d == 4 {
        '4'
    } else if d == 5 {
        '5'
    } else if d == 6 {
        '6'
    } else if d == 7 {
        '7'
    } else if d == 8 {
        '8'
    } else if d == 9 {
        '9'
    } else if d == 10 {
        'a'
    } else if d == 11 {
        'b'
    } else if d == 12 {
        'c'
    } else if d == 13 {
        'd'
    } else if d == 14 {
        'e'
    } else {
        'f'
    }
}

/// Appends the character of one base-16 digit to a string.
pub fn append_digit(s: &mut String, d: u64)
    requires
        d < 16,
    ensures
        final(s)@ == old(s)@.push(digit_char(d as int)),
{
    if d == 0 {
        s.append("0");
        proof {
            reveal_strlit("0");
        }
    } else if d == 1 {
        s.append("1");
        proof {
            reveal_strlit("1");
        }
    } else if d == 2 {
        s.append("2");
        proof {
            reveal_strlit("2");
        }
    } else if d == 3 {
        s.append("3");
        proof {
            reveal_strlit("3");
        }
    } else if d == 4 {
        s.append("4");
        proof {
            reveal_strlit("4");
        }
    } else if d == 5 {
        s.append("5");
        proof {
            reveal_strlit("5");
        }
    } else if d == 6 {
        s.append("6");
        proof {
            reveal_strlit("6");
        }
    } else if d == 7 {
        s.append("7");
        proof {
            reveal_strlit("7");
        }
    } else if d == 8 {
        s.append("8");
        proof {
            reveal_strlit("8");
        }
    } else if d == 9 {
        s.append("9");
        proof {
            reveal_strlit("9");
        }
    } else if d == 10 {
        s.append("a");
        proof {
            reveal_strlit("a");
        }
    } else if d == 11 {
        s.append("b");
        proof {
            reveal_strlit("b");
        }
    } else if d == 12 {
        s.append("c");
        proof {
            reveal_strlit("c");
        }
    } else if d == 13 {
        s.append("d");
        proof {
            reveal_strlit("d");
        }
    } else if d == 14 {
        s.append("e");
        proof {
            reveal_strlit("e");
        }
    } else {
        s.append("f");
        proof {
            reveal_strlit("f");
        }
    }
    proof {
        assert(final(s)@ =~= old(s)@.push(digit_char(d as int)));
    }
}

/// The 16 hexadecimal characters of a 64-bit value, most significant nibble
/// first, zero padded.
pub open spec fn hex_chars(h: u64) -> Seq<char> {
    Seq::new(16, |i: int| digit_char(((h >> (((15 - i) * 4) as u64)) & 0xf) as int))
}

/// Renders a 64-bit value as its fixed-width, lowercase, zero-padded
/// 16-digit hexadecimal string.
pub fn to_hex16(h: u64) -> (r: String)
    ensures
        r@ == hex_chars(h),
        r@.len() == 16,
{
    let mut s = String::new();
    let mut i: usize = 0;
    while i < 16
        invariant
            i <= 16,
            s@ == hex_chars(h).take(i as int),
        decreases 16 - i,
    {
        let shift: u64 = ((15 - i) as u64) * 4;
        let nib: u64 = (h >> shift) & 0xf;
        proof {
            assert(nib < 16) by (bit_vector)
                requires
                    nib == (h >> shift) & 0xf,
            ;
            assert(nib as int == ((h >> (((15 - i as int) * 4) as u64)) & 0xf) as int);
            assert(hex_chars(h)[i as int] == digit_char(nib as int));
        }
        append_digit(&mut s, nib);
        proof {
            assert(s@ =~= hex_chars(h).take(i as int + 1));
        }
        i += 1;
    }
    proof {
        assert(hex_chars(h).take(16) =~= hex_chars(h));
    }
    s
}

/// The decimal character sequence of a natural number, without leading
/// zeros (a single `'0'` for zero).
pub open spec fn dec_chars(n: nat) -> Seq<char>
    decreases n,
{
    if n < 10 {
        seq![digit_char(n as int)]
    } else {
        dec_chars(n / 10).push(digit_char((n % 10) as int))
    }
}

/// The digit characters of `s` read back to front.
spec fn rev_digit_chars(s: Seq<u64>) -> Seq<char> {
    Seq::new(s.len(), |k: int| digit_char(s[s.len() - 1 - k] as int))
}

proof fn lemma_rev_push(s: Seq<u64>, d: u64)
    ensures
        rev_digit_chars(s.push(d)) == seq![digit_char(d as int)] + rev_digit_chars(s),
{
    assert(rev_digit_chars(s.push(d)) =~= seq![digit_char(d as int)] + rev_digit_chars(s));
}

/// Renders a 64-bit value as its decimal string.
pub fn to_decimal(n: u64) -> (r: String)
    ensures
        r@ == dec_chars(n as nat),
{
    let mut digits: Vec<u64> = Vec::new();
    let mut m = n;
    while m >= 10
        invariant
            forall|k: int| 0 <= k < digits@.len() ==> digits@[k] < 16,
            dec_chars(n as nat) == dec_chars(m as nat) + rev_digit_chars(digits@),
        decreases m,
    {
        let d = m % 10;
        proof {
            let ghost before = digits@;
            lemma_rev_push(before, d);
            assert(dec_chars(m as nat) == dec_chars((m as nat) / 10).push(
                digit_char(((m as nat) % 10) as int),
            ));
            assert(dec_chars((m as nat) / 10).push(digit_char(d as int)) =~= dec_chars(
                (m as nat) / 10,
            ) + seq![digit_char(d as int)]);
            assert(dec_chars(n as nat) =~= dec_chars((m as nat) / 10) + (seq![
                digit_char(d as int),
            ] + rev_digit_chars(before)));
        }
        digits.push(d);
        m = m / 10;
    }
    proof {
        lemma_rev_push(digits@, m);
        assert(dec_chars(m as nat) == seq![digit_char(m as int)]);
        assert(dec_chars(n as nat) =~= rev_digit_chars(digits@.push(m)));
    }
    digits.push(m);
    let total = digits.len();
    let mut s = String::new();
    let mut j = total;
    while j > 0
        invariant
            j <= total,
            total == digits@.len(),
            forall|k: int| 0 <= k < digits@.len() ==> digits@[k] < 16,
            dec_chars(n as nat) == rev_digit_chars(digits@),
            s@ == rev_digit_chars(digits@).take(total - j),
        decreases j,
    {
        j -= 1;
        let d = digits[j];
        proof {
            assert(rev_digit_chars(digits@)[total - 1 - j] == digit_char(
                digits@[j as int] as int,
            ));
        }
        append_digit(&mut s, d);
        proof {
            assert(s@ =~= rev_digit_chars(digits@).take(total - j));
        }
    }
    proof {
        assert(rev_digit_chars(digits@).take(total as int) =~= rev_digit_chars(digits@));
    }
    s
}

} // verus!
