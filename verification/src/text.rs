//! Decimal text for protocol integers.
//!
//! Several remote operations carry integers as plain decimal text: form
//! bodies such as a transfer limit, and the integer members of JSON
//! payloads. The functions here render an `i64` to its decimal text and
//! parse decimal text back, against an exact grammar.

use vstd::prelude::*;
use vstd::string::*;

use crate::error::Error;

verus! {

/// True of an ASCII decimal digit.
pub open spec fn is_digit(c: char) -> bool {
    48 <= c as int <= 57
}

/// The digit character for a value below ten.
pub open spec fn digit_char(d: int) -> char {
    ((d + 48) as char)
}

/// The decimal representation of a natural number, most significant digit
/// first, with no sign and no leading zeros (a lone zero for zero).
pub open spec fn dec_rep(n: nat) -> Seq<char>
    decreases n,
{
    if n < 10 {
        seq![digit_char(n as int)]
    } else {
        dec_rep(n / 10).push(digit_char((n % 10) as int))
    }
}

/// The decimal text of a signed integer: a leading minus for negatives,
/// then the decimal representation of the magnitude.
pub open spec fn i64_text(n: int) -> Seq<char> {
    if n >= 0 {
        dec_rep(n as nat)
    } else {
        seq!['-'] + dec_rep((-n) as nat)
    }
}

/// The value of a digit string, read most significant digit first.
pub open spec fn digits_val(s: Seq<char>) -> int
    decreases s.len(),
{
    if s.len() == 0 {
        0
    } else {
        digits_val(s.drop_last()) * 10 + (s.last() as int - 48)
    }
}

/// True when every character is an ASCII decimal digit.
pub open spec fn all_digits(s: Seq<char>) -> bool {
    forall|i: int| 0 <= i < s.len() ==> is_digit(s[i])
}

/// The text with a single leading sign removed, if one is present.
pub open spec fn strip_sign(s: Seq<char>) -> Seq<char> {
    if s.len() > 0 && (s[0] == '+' || s[0] == '-') {
        s.drop_first()
    } else {
        s
    }
}

/// The sign a leading minus gives the value.
pub open spec fn sign_of(s: Seq<char>) -> int {
    if s.len() > 0 && s[0] == '-' {
        -1
    } else {
        1
    }
}

/// True of text in the integer grammar: an optional single sign followed
/// by one or more digits and nothing else.
pub open spec fn is_int_literal(s: Seq<char>) -> bool {
    strip_sign(s).len() > 0 && all_digits(strip_sign(s))
}

/// The value the integer grammar gives a literal.
pub open spec fn literal_val(s: Seq<char>) -> int {
    sign_of(s) * digits_val(strip_sign(s))
}

/// True of text that the 64-bit signed parser accepts: an integer literal
/// whose value fits the type.
pub open spec fn is_i64_literal(s: Seq<char>) -> bool {
    is_int_literal(s) && i64::MIN <= literal_val(s) <= i64::MAX
}

/// The value of a digit string is never negative.
proof fn lemma_digits_val_nonneg(s: Seq<char>)
    requires
        all_digits(s),
    ensures
        digits_val(s) >= 0,
    decreases s.len(),
{
    if s.len() > 0 {
        assert(all_digits(s.drop_last()));
        lemma_digits_val_nonneg(s.drop_last());
    }
}

/// Extending a digit string on the right never lowers its value.
proof fn lemma_digits_val_extend(s: Seq<char>, t: Seq<char>)
    requires
        all_digits(t),
        s.len() <= t.len(),
        s == t.subrange(0, s.len() as int),
    ensures
        digits_val(t) >= digits_val(s),
    decreases t.len() - s.len(),
{
    if s.len() < t.len() {
        let u = t.subrange(0, t.len() - 1);
        assert(all_digits(u));
        assert(s =~= u.subrange(0, s.len() as int));
        lemma_digits_val_extend(s, u);
        assert(u =~= t.drop_last());
        lemma_digits_val_nonneg(u);
        assert(digits_val(t) == digits_val(u) * 10 + (t.last() as int - 48));
        assert(digits_val(u) * 10 >= digits_val(u)) by (nonlinear_arith)
            requires
                digits_val(u) >= 0,
        ;
        assert(is_digit(t[t.len() - 1]));
    } else {
        assert(s =~= t);
    }
}

/// Append one decimal digit to a string under construction.
fn append_digit(s: &mut String, d: u8)
    requires
        d < 10,
    ensures
        final(s)@ == old(s)@ + seq![digit_char(d as int)],
{
    proof {
        reveal_strlit("0");
        reveal_strlit("1");
        reveal_strlit("2");
        reveal_strlit("3");
        reveal_strlit("4");
        reveal_strlit("5");
        reveal_strlit("6");
        reveal_strlit("7");
        reveal_strlit("8");
        reveal_strlit("9");
    }
    match d {
        0 => s.append("0"),
        1 => s.append("1"),
        2 => s.append("2"),
        3 => s.append("3"),
        4 => s.append("4"),
        5 => s.append("5"),
        6 => s.append("6"),
        7 => s.append("7"),
        8 => s.append("8"),
        _ => s.append("9"),
    }
    proof {
        assert(s@ =~= old(s)@ + seq![digit_char(d as int)]);
    }
}

/// The decimal text of an unsigned 64-bit number.
pub fn u64_dec(n: u64) -> (r: String)
    ensures
        r@ == dec_rep(n as nat),
    decreases n,
{
    if n < 10 {
        let mut s = String::new();
        append_digit(&mut s, n as u8);
        proof {
            assert(s@ =~= dec_rep(n as nat));
        }
        s
    } else {
        let mut s = u64_dec(n / 10);
        append_digit(&mut s, (n % 10) as u8);
        proof {
            assert(s@ =~= dec_rep(n as nat));
        }
        s
    }
}

/// The decimal text of a signed 64-bit number.
pub fn i64_dec(n: i64) -> (r: String)
    ensures
        r@ == i64_text(n as int),
{
    if n >= 0 {
        u64_dec(n as u64)
    } else {
        let mag: u64 = (-(n as i128)) as u64;
        proof {
            reveal_strlit("-");
        }
        let mut s = "-".to_owned();
        let digits = u64_dec(mag);
        s.append(digits.as_str());
        proof {
            assert(s@ =~= i64_text(n as int));
        }
        s
    }
}

/// Parse decimal text as a signed 64-bit number.
///
/// Succeeds exactly on text in the integer grammar whose value fits the
/// type, and then returns that value; everything else is a conversion
/// error.
pub fn parse_i64(s: &str) -> (r: Result<i64, Error>)
    ensures
        r matches Ok(n) ==> is_i64_literal(s@) && n as int == literal_val(s@),
        r is Err ==> !is_i64_literal(s@) && r == Err::<i64, Error>(Error::StringToInt),
{
    let len = s.unicode_len();
    if len == 0 {
        return Err(Error::StringToInt);
    }
    let c0 = s.get_char(0);
    let mut start: usize = 0;
    let mut neg = false;
    if c0 == '+' {
        start = 1;
    } else if c0 == '-' {
        start = 1;
        neg = true;
    }
    if start == len {
        return Err(Error::StringToInt);
    }
    let limit: u64 = if neg {
        9223372036854775808
    } else {
        9223372036854775807
    };
    let ghost digits = strip_sign(s@);
    proof {
        assert(digits =~= s@.subrange(start as int, len as int));
    }
    let mut acc: u64 = 0;
    let mut j: usize = start;
    while j < len
        invariant
            start <= j <= len,
            len == s@.len(),
            start == if neg || c0 == '+' { 1usize } else { 0usize },
            digits == s@.subrange(start as int, len as int),
            digits == strip_sign(s@),
            neg == (s@.len() > 0 && s@[0] == '-'),
            all_digits(s@.subrange(start as int, j as int)),
            acc as int == digits_val(s@.subrange(start as int, j as int)),
            acc <= limit,
            limit == if neg { 9223372036854775808u64 } else { 9223372036854775807u64 },
        decreases len - j,
    {
        let c = s.get_char(j);
        let v = c as u32;
        if v < 48 || v > 57 {
            proof {
                assert(!is_digit(digits[j - start]));
            }
            return Err(Error::StringToInt);
        }
        let d: u64 = (v - 48) as u64;
        let next: u128 = acc as u128 * 10 + d as u128;
        proof {
            let p = s@.subrange(start as int, j as int);
            let q = s@.subrange(start as int, (j + 1) as int);
            assert(q.drop_last() =~= p);
            assert(next as int == digits_val(q));
        }
        if next > limit as u128 {
            proof {
                let q = s@.subrange(start as int, (j + 1) as int);
                if all_digits(digits) {
                    assert(q =~= digits.subrange(0, q.len() as int));
                    lemma_digits_val_extend(q, digits);
                }
            }
            return Err(Error::StringToInt);
        }
        acc = next as u64;
        j = j + 1;
    }
    proof {
        assert(s@.subrange(start as int, len as int) =~= digits);
        lemma_digits_val_nonneg(digits);
    }
    if neg {
        Ok((-(acc as i128)) as i64)
    } else {
        Ok(acc as i64)
    }
}

} // verus!
