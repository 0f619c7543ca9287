//! Decimal rendering and parsing of unsigned 64-bit identifiers.
//!
//! Session claims carry the subject id as a string; these functions move
//! between the numeric id and its decimal text, with the two directions
//! proved inverse to each other.

use vstd::prelude::*;

verus! {

/// The character for one decimal digit value.
pub open spec fn dec_digit_char(d: int) -> char {
    if d == 0 {
        '0'
    } else if d == 1 {
        '1'
    } else if d == 2 {
        '2'
    } else if d == 3 {
        '3'
    } else if d == 4 {
        '4'
    } else if d == 5 {
        '5'
    } else if d == 6 {
        '6'
    } else if d == 7 {
        '7'
    } else if d == 8 {
        '8'
    } else {
        '9'
    }
}

/// The canonical decimal text of a number: no sign, no leading zeros.
pub open spec fn dec_rep(n: nat) -> Seq<char>
    decreases n,
{
    if n < 10 {
        seq![dec_digit_char(n as int)]
    } else {
        dec_rep(n / 10) + seq![dec_digit_char((n % 10) as int)]
    }
}

pub open spec fn is_dec_digit(c: char) -> bool {
    48 <= c as u32 <= 57
}

pub open spec fn dec_digit_val(c: char) -> int {
    c as u32 - 48
}

pub open spec fn all_dec_digits(s: Seq<char>) -> bool {
    forall|i: int| 0 <= i < s.len() ==> is_dec_digit(#[trigger] s[i])
}

/// The numeric value of a digit string, most significant digit first.
pub open spec fn dec_val(s: Seq<char>) -> int
    decreases s.len(),
{
    if s.len() == 0 {
        0
    } else {
        dec_val(s.drop_last()) * 10 + dec_digit_val(s.last())
    }
}

/// What `parse_u64` returns: the value of a nonempty all-digit string
/// that fits in a `u64`, and nothing else.
pub open spec fn parse_u64_spec(s: Seq<char>) -> Option<u64> {
    if s.len() > 0 && all_dec_digits(s) && dec_val(s) <= u64::MAX {
        Some(dec_val(s) as u64)
    } else {
        None
    }
}

pub proof fn lemma_dec_val_nonneg(s: Seq<char>)
    requires
        all_dec_digits(s),
    ensures
        dec_val(s) >= 0,
    decreases s.len(),
{
    if s.len() > 0 {
        assert(all_dec_digits(s.drop_last())) by {
            assert(forall|i: int|
                0 <= i < s.len() - 1 ==> s.drop_last()[i] == #[trigger] s[i]);
        }
        lemma_dec_val_nonneg(s.drop_last());
    }
}

pub proof fn lemma_dec_val_push(s: Seq<char>, c: char)
    ensures
        dec_val(s.push(c)) == dec_val(s) * 10 + dec_digit_val(c),
{
    assert(s.push(c).drop_last() =~= s);
    assert(s.push(c).last() == c);
}

/// The canonical decimal text is made of digits, is nonempty, and reads
/// back as the number it was made from.
pub proof fn lemma_dec_rep_val(n: nat)
    ensures
        dec_rep(n).len() > 0,
        all_dec_digits(dec_rep(n)),
        dec_val(dec_rep(n)) == n,
    decreases n,
{
    if n < 10 {
        assert(dec_rep(n) =~= Seq::<char>::empty().push(dec_digit_char(n as int)));
        lemma_dec_val_push(Seq::<char>::empty(), dec_digit_char(n as int));
    } else {
        lemma_dec_rep_val(n / 10);
        assert(dec_rep(n) =~= dec_rep(n / 10).push(dec_digit_char((n % 10) as int)));
        lemma_dec_val_push(dec_rep(n / 10), dec_digit_char((n % 10) as int));
    }
}

/// Parsing inverts rendering.
pub proof fn lemma_parse_dec_rep(n: u64)
    ensures
        parse_u64_spec(dec_rep(n as nat)) == Some(n),
{
    lemma_dec_rep_val(n as nat);
}

fn dec_digit_str(d: u64) -> (s: String)
    requires
        d < 10,
    ensures
        s@ =~= seq![dec_digit_char(d as int)],
{
    let r: &str = if d == 0 {
        "0"
    } else if d == 1 {
        "1"
    } else if d == 2 {
        "2"
    } else if d == 3 {
        "3"
    } else if d == 4 {
        "4"
    } else if d == 5 {
        "5"
    } else if d == 6 {
        "6"
    } else if d == 7 {
        "7"
    } else if d == 8 {
        "8"
    } else {
        "9"
    };
    proof {
        reveal_strlit("0");
        reveal_strlit("1");
        reveal_strlit("2");
        reveal_strlit("3");
        reveal_strlit("4");
        reveal_strlit("5");
        reveal_strlit("6");
        reveal_strlit("7");
        reveal_strlit("8");
        reveal_strlit("9");
    }
    r.to_owned()
}

/// Render a number as its canonical decimal text.
pub fn u64_to_dec_string(n: u64) -> (s: String)
    ensures
        s@ == dec_rep(n as nat),
    decreases n,
{
    if n < 10 {
        let s = dec_digit_str(n);
        proof {
            assert(s@ =~= dec_rep(n as nat));
        }
        s
    } else {
        let mut s = u64_to_dec_string(n / 10);
        let d = dec_digit_str(n % 10);
        s.append(d.as_str());
        proof {
            assert(s@ =~= dec_rep(n as nat));
        }
        s
    }
}

/// Parse decimal text back to a number; `None` on empty input, a
/// non-digit character, or a value over `u64::MAX`.
pub fn parse_u64(s: &str) -> (r: Option<u64>)
    ensures
        r == parse_u64_spec(s@),
{
    let len = s.unicode_len();
    if len == 0 {
        return None;
    }
    let mut v: u64 = 0;
    let mut i: usize = 0;
    while i < len
        invariant
            0 <= i <= len,
            len == s@.len(),
            all_dec_digits(s@.take(i as int)),
            dec_val(s@.take(i as int)) == v,
        decreases len - i,
    {
        let c = s.get_char(i);
        let u = c as u32;
        if u < 48 || u > 57 {
            proof {
                assert(!is_dec_digit(s@[i as int]));
            }
            return None;
        }
        let d = (u - 48) as u64;
        proof {
            assert(s@.take(i as int + 1) =~= s@.take(i as int).push(s@[i as int]));
            lemma_dec_val_push(s@.take(i as int), s@[i as int]);
            lemma_dec_val_nonneg(s@.take(i as int));
        }
        if v > (u64::MAX - d) / 10 {
            proof {
                let m = u64::MAX as int;
                assert(v * 10 + d > m) by (nonlinear_arith)
                    requires
                        v > (m - d) / 10,
                        0 <= d < 10,
                        m == 0xffff_ffff_ffff_ffff,
                        v >= 0,
                ;
                lemma_dec_val_take_monotone(s@, i as int + 1);
            }
            return None;
        }
        proof {
            let m = u64::MAX as int;
            assert(v * 10 + d <= m) by (nonlinear_arith)
                requires
                    v <= (m - d) / 10,
                    0 <= d < 10,
                    m == 0xffff_ffff_ffff_ffff,
                    v >= 0,
            ;
        }
        v = v * 10 + d;
        i = i + 1;
    }
    proof {
        assert(s@.take(len as int) =~= s@);
    }
    Some(v)
}

/// If every later character is a digit too, the value of the whole string
/// is at least the value of a prefix.
proof fn lemma_dec_val_take_monotone(s: Seq<char>, j: int)
    requires
        0 <= j <= s.len(),
        all_dec_digits(s.take(j)),
    ensures
        all_dec_digits(s) ==> dec_val(s) >= dec_val(s.take(j)),
    decreases s.len() - j,
{
    if j < s.len() {
        if all_dec_digits(s) {
            assert(s.take(j + 1) =~= s.take(j).push(s[j]));
            lemma_dec_val_push(s.take(j), s[j]);
            lemma_dec_val_nonneg(s.take(j));
            assert(dec_val(s.take(j)) * 10 >= dec_val(s.take(j))) by (nonlinear_arith)
                requires
                    dec_val(s.take(j)) >= 0,
            ;
            lemma_dec_val_take_monotone(s, j + 1);
        }
    } else {
        assert(s.take(j) =~= s);
    }
}

} // verus!
