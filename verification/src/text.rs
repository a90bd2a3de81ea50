//! Text of integers and ordering of strings.
//!
//! The grammar and value of a decimal integer literal, and the decimal
//! notation of an integer, are each stated as spec functions of a few lines;
//! the standard library's parsing and formatting are trusted to match them.
//! String ordering is written and verified here directly.

use core::fmt::Write;
use vstd::prelude::*;
use vstd::string::StrSliceExecFns;

verus! {

/// Whether `c` is a decimal digit.
pub open spec fn is_digit(c: char) -> bool {
    48 <= c as u32 <= 57
}

/// Every character of `s` is a decimal digit.
pub open spec fn all_digits(s: Seq<char>) -> bool {
    forall|i: int| 0 <= i < s.len() ==> is_digit(s[i])
}

/// The value of a digit sequence read in base ten.
pub open spec fn digits_val(s: Seq<char>) -> int
    recommends
        all_digits(s),
    decreases s.len(),
{
    if s.len() == 0 {
        0
    } else {
        digits_val(s.drop_last()) * 10 + (s.last() as u32 - 48)
    }
}

/// Whether `s` is an optional sign followed by one or more digits.
pub open spec fn int_literal_format(s: Seq<char>) -> bool {
    if s.len() == 0 {
        false
    } else if s[0] == '+' || s[0] == '-' {
        s.len() > 1 && all_digits(s.skip(1))
    } else {
        all_digits(s)
    }
}

/// The signed value `s` denotes.
pub open spec fn int_literal_val(s: Seq<char>) -> int
    recommends
        int_literal_format(s),
{
    if s.len() == 0 {
        0
    } else if s[0] == '-' {
        -digits_val(s.skip(1))
    } else if s[0] == '+' {
        digits_val(s.skip(1))
    } else {
        digits_val(s)
    }
}

/// What parsing `s` as a 64-bit integer returns: the denoted value when the
/// format and the range allow it, `None` otherwise.
pub open spec fn parsed_i64(s: Seq<char>) -> Option<i64> {
    if int_literal_format(s) && i64::MIN <= int_literal_val(s) <= i64::MAX {
        Some(int_literal_val(s) as i64)
    } else {
        None
    }
}

/// What parsing `s` as a 128-bit integer returns.
pub open spec fn parsed_i128(s: Seq<char>) -> Option<i128> {
    if int_literal_format(s) && i128::MIN <= int_literal_val(s) <= i128::MAX {
        Some(int_literal_val(s) as i128)
    } else {
        None
    }
}

/// The digit character of `d`.
pub open spec fn digit_char(d: nat) -> char
    recommends
        d < 10,
{
    ((48 + d) as u8) as char
}

/// The decimal digits of `n`, most significant first.
pub open spec fn dec_digits_of(n: nat) -> Seq<char>
    decreases n,
{
    if n < 10 {
        seq![digit_char(n)]
    } else {
        dec_digits_of(n / 10).push(digit_char(n % 10))
    }
}

/// The decimal notation of `n`: a minus sign for negative values, then the
/// digits without leading zeros.
pub open spec fn int_text(n: int) -> Seq<char> {
    if n < 0 {
        seq!['-'] + dec_digits_of((-n) as nat)
    } else {
        dec_digits_of(n as nat)
    }
}

/// The digits of `n` are digits, at least one, and they denote `n`.
pub proof fn lemma_dec_digits_of(n: nat)
    ensures
        all_digits(dec_digits_of(n)),
        dec_digits_of(n).len() >= 1,
        digits_val(dec_digits_of(n)) == n,
    decreases n,
{
    if n < 10 {
        let s = dec_digits_of(n);
        assert(s =~= seq![digit_char(n)]);
        assert(s.drop_last() =~= Seq::<char>::empty());
        assert(digits_val(Seq::<char>::empty()) == 0);
        assert(s.last() == digit_char(n));
        assert(digit_char(n) as u32 == 48 + n);
        assert(digits_val(s) == digits_val(s.drop_last()) * 10 + (s.last() as u32 - 48));
    } else {
        lemma_dec_digits_of(n / 10);
        let p = dec_digits_of(n / 10);
        let s = p.push(digit_char(n % 10));
        assert(s.drop_last() =~= p);
        assert(s.last() == digit_char(n % 10));
        assert(digit_char(n % 10) as u32 == 48 + n % 10);
        assert(digits_val(s) == digits_val(p) * 10 + (n % 10));
        assert((n / 10) * 10 + n % 10 == n) by {
            vstd::arithmetic::div_mod::lemma_fundamental_div_mod(n as int, 10);
        };
        assert forall|i: int| 0 <= i < s.len() implies is_digit(s[i]) by {
            if i < p.len() {
                assert(s[i] == p[i]);
            }
        }
    }
}

/// The decimal notation of a 64-bit integer parses back to it: what the
/// textual fallback re-serializes stays integer-parseable and denotes the
/// same value.
pub proof fn lemma_int_text_parses(v: i64)
    ensures
        parsed_i64(int_text(v as int)) == Some(v),
{
    if v >= 0 {
        lemma_dec_digits_of(v as nat);
        let s = int_text(v as int);
        assert(s == dec_digits_of(v as nat));
        assert(is_digit(s[0]));
        assert(s[0] != '+' && s[0] != '-') by {
            assert(s[0] as u32 <= 57);
            assert('+' as u32 == 43 && '-' as u32 == 45);
        };
        assert(int_literal_format(s));
        assert(int_literal_val(s) == v as int);
    } else {
        let m = (-(v as int)) as nat;
        lemma_dec_digits_of(m);
        let s = int_text(v as int);
        assert(s == seq!['-'] + dec_digits_of(m));
        assert(s[0] == '-');
        assert(s.skip(1) =~= dec_digits_of(m));
        assert(s.len() > 1);
        assert(int_literal_format(s));
        assert(int_literal_val(s) == -(digits_val(dec_digits_of(m))));
        assert(int_literal_val(s) == v as int);
    }
}

/// Relies on `str::parse::<i64>`: accepts an optional sign followed by
/// decimal digits, rejecting anything else and values out of range.
#[verifier::external_body]
pub fn parse_i64(s: &str) -> (r: Option<i64>)
    ensures
        r == parsed_i64(s@),
{
    s.parse::<i64>().ok()
}

/// Relies on `str::parse::<i128>`: accepts an optional sign followed by
/// decimal digits, rejecting anything else and values out of range.
#[verifier::external_body]
pub fn parse_i128(s: &str) -> (r: Option<i128>)
    ensures
        r == parsed_i128(s@),
{
    s.parse::<i128>().ok()
}

/// Relies on `i128`'s `Display`: formats the value in decimal notation.
#[verifier::external_body]
pub fn format_i128(v: i128) -> (r: String)
    ensures
        r@ == int_text(v as int),
{
    let mut out = String::new();
    let _ = write!(out, "{}", v);
    out
}

/// Lexicographic order on character sequences, by scalar value. This is the
/// order of Rust's `str` comparison.
pub open spec fn lex_cmp(s: Seq<char>, t: Seq<char>) -> core::cmp::Ordering
    decreases s.len(),
{
    if s.len() == 0 && t.len() == 0 {
        core::cmp::Ordering::Equal
    } else if s.len() == 0 {
        core::cmp::Ordering::Less
    } else if t.len() == 0 {
        core::cmp::Ordering::Greater
    } else if s[0] == t[0] {
        lex_cmp(s.skip(1), t.skip(1))
    } else if (s[0] as u32) < (t[0] as u32) {
        core::cmp::Ordering::Less
    } else {
        core::cmp::Ordering::Greater
    }
}

/// The opposite of an ordering.
pub open spec fn flip_ord(o: core::cmp::Ordering) -> core::cmp::Ordering {
    match o {
        core::cmp::Ordering::Less => core::cmp::Ordering::Greater,
        core::cmp::Ordering::Equal => core::cmp::Ordering::Equal,
        core::cmp::Ordering::Greater => core::cmp::Ordering::Less,
    }
}

/// Distinct characters have distinct scalar values.
proof fn lemma_char_values_distinct(a: char, b: char)
    requires
        a != b,
    ensures
        (a as u32) != (b as u32),
{
    assert(a as int != b as int);
    assert(a as u32 == a as int);
    assert(b as u32 == b as int);
}

/// Lexicographic comparison is antisymmetric: swapping the operands flips
/// the ordering.
pub proof fn lemma_lex_cmp_antisymmetric(s: Seq<char>, t: Seq<char>)
    ensures
        lex_cmp(s, t) == flip_ord(lex_cmp(t, s)),
    decreases s.len(),
{
    if s.len() > 0 && t.len() > 0 && s[0] == t[0] {
        lemma_lex_cmp_antisymmetric(s.skip(1), t.skip(1));
    } else if s.len() > 0 && t.len() > 0 {
        lemma_char_values_distinct(s[0], t[0]);
    }
}

/// Lexicographic comparison finds `Equal` exactly on equal sequences.
pub proof fn lemma_lex_cmp_eq(s: Seq<char>, t: Seq<char>)
    ensures
        (lex_cmp(s, t) == core::cmp::Ordering::Equal) <==> s == t,
    decreases s.len(),
{
    if s.len() == 0 && t.len() == 0 {
        assert(s =~= t);
    } else if s.len() == 0 || t.len() == 0 {
        assert(s.len() != t.len());
    } else if s[0] == t[0] {
        lemma_lex_cmp_eq(s.skip(1), t.skip(1));
        if lex_cmp(s, t) == core::cmp::Ordering::Equal {
            assert(s.skip(1) == t.skip(1));
            assert forall|i: int| 0 <= i < s.len() implies s[i] == t[i] by {
                if i > 0 {
                    assert(s.skip(1)[i - 1] == s[i]);
                    assert(t.skip(1)[i - 1] == t[i]);
                }
            }
            assert(s.skip(1).len() == t.skip(1).len());
            assert(s =~= t);
        }
        if s == t {
            assert(s.skip(1) =~= t.skip(1));
        }
    } else {
        if s == t {
            assert(s[0] == t[0]);
        }
    }
}

/// Compares two strings in the lexicographic order `lex_cmp` states.
pub fn str_cmp(a: &str, b: &str) -> (r: core::cmp::Ordering)
    ensures
        r == lex_cmp(a@, b@),
{
    let alen = a.unicode_len();
    let blen = b.unicode_len();
    let mut i: usize = 0;
    proof {
        assert(a@.skip(0) =~= a@);
        assert(b@.skip(0) =~= b@);
    }
    loop
        invariant
            i <= alen,
            i <= blen,
            alen == a@.len(),
            blen == b@.len(),
            lex_cmp(a@, b@) == lex_cmp(a@.skip(i as int), b@.skip(i as int)),
        decreases alen + blen - 2 * i,
    {
        if i == alen && i == blen {
            proof {
                assert(a@.skip(i as int) =~= Seq::<char>::empty());
                assert(b@.skip(i as int) =~= Seq::<char>::empty());
            }
            return core::cmp::Ordering::Equal;
        }
        if i == alen {
            proof {
                assert(a@.skip(i as int) =~= Seq::<char>::empty());
            }
            return core::cmp::Ordering::Less;
        }
        if i == blen {
            proof {
                assert(b@.skip(i as int) =~= Seq::<char>::empty());
            }
            return core::cmp::Ordering::Greater;
        }
        let ca = a.get_char(i);
        let cb = b.get_char(i);
        proof {
            assert(a@.skip(i as int)[0] == a@[i as int]);
            assert(b@.skip(i as int)[0] == b@[i as int]);
        }
        if ca == cb {
            proof {
                assert(a@.skip(i as int).skip(1) =~= a@.skip(i as int + 1));
                assert(b@.skip(i as int).skip(1) =~= b@.skip(i as int + 1));
            }
            i = i + 1;
        } else if (ca as u32) < (cb as u32) {
            return core::cmp::Ordering::Less;
        } else {
            return core::cmp::Ordering::Greater;
        }
    }
}

} // verus!
