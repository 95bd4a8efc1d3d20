//! Which texts are numbers, by the grammars the standard library parses:
//! unsigned decimal integers (`u32::from_str`) and floating-point literals
//! (`f64::from_str`). For floats only the verdict is computed here; the value
//! is read where the text is spent.

use vstd::prelude::*;

use crate::text::{chars_of, lower, lower_chars, split_once, split_once_char};

verus! {

/// An ASCII decimal digit.
pub open spec fn is_digit(c: char) -> bool {
    '0' <= c && c <= '9'
}

/// Every character is a decimal digit.
pub open spec fn all_digits(s: Seq<char>) -> bool {
    forall|i: int| 0 <= i < s.len() ==> is_digit(#[trigger] s[i])
}

/// The value of a string of decimal digits.
pub open spec fn digits_value(d: Seq<char>) -> nat
    decreases d.len(),
{
    if d.len() == 0 {
        0
    } else {
        digits_value(d.drop_last()) * 10 + ((d.last() as int - 48) as nat)
    }
}

/// The text after an optional leading sign character `sign`.
pub open spec fn unsigned_part(s: Seq<char>, sign: char) -> Seq<char> {
    if s.len() > 0 && s[0] == sign {
        s.drop_first()
    } else {
        s
    }
}

/// `u32::from_str`: an optional `+`, then one or more digits whose value
/// fits in a `u32`; anything else, surrounding whitespace included, is an
/// error.
pub open spec fn parse_u32_spec(s: Seq<char>) -> Option<u32> {
    let d = unsigned_part(s, '+');
    if d.len() > 0 && all_digits(d) && digits_value(d) <= u32::MAX {
        Some(digits_value(d) as u32)
    } else {
        None
    }
}

/// The mantissa of a float literal: digits with at most one point, and at
/// least one digit on one side of it.
pub open spec fn is_mantissa(m: Seq<char>) -> bool {
    match split_once(m, seq!['.']) {
        Some((a, b)) => all_digits(a) && all_digits(b) && (a.len() > 0 || b.len() > 0),
        None => m.len() > 0 && all_digits(m),
    }
}

/// The exponent of a float literal, after its `e`: an optional sign, then
/// at least one digit.
pub open spec fn is_exponent(e: Seq<char>) -> bool {
    let d = if e.len() > 0 && (e[0] == '+' || e[0] == '-') {
        e.drop_first()
    } else {
        e
    };
    d.len() > 0 && all_digits(d)
}

/// A lowercased float literal without its sign.
pub open spec fn is_float_body(t: Seq<char>) -> bool {
    ||| t == seq!['i', 'n', 'f']
    ||| t == seq!['i', 'n', 'f', 'i', 'n', 'i', 't', 'y']
    ||| t == seq!['n', 'a', 'n']
    ||| match split_once(t, seq!['e']) {
        Some((m, e)) => is_mantissa(m) && is_exponent(e),
        None => is_mantissa(t),
    }
}

/// Whether `f64::from_str` accepts the text: an optional sign, then `inf`,
/// `infinity`, `nan` or a decimal literal with an optional exponent, all
/// without regard to case; surrounding whitespace is an error.
pub open spec fn is_float_text(s: Seq<char>) -> bool {
    let body = if s.len() > 0 && (s[0] == '+' || s[0] == '-') {
        s.drop_first()
    } else {
        s
    };
    is_float_body(lower(body))
}

/// The text without its sign, lowercased.
pub open spec fn float_body(s: Seq<char>) -> Seq<char> {
    lower(if s.len() > 0 && (s[0] == '+' || s[0] == '-') {
        s.drop_first()
    } else {
        s
    })
}

/// Whether the text spells one of the non-finite values `f64::from_str`
/// reads: `inf`, `infinity` or `nan`, in any case, with either sign.
pub open spec fn names_non_finite(s: Seq<char>) -> bool {
    let b = float_body(s);
    b == seq!['i', 'n', 'f'] || b == seq!['i', 'n', 'f', 'i', 'n', 'i', 't', 'y'] || b == seq!['n', 'a', 'n']
}

/// A float literal that spells a number: accepted by `f64::from_str` and
/// not `inf`, `infinity` or `nan`. (A literal too large for an `f64` still
/// reads as infinite.)
pub open spec fn is_number_text(s: Seq<char>) -> bool {
    is_float_text(s) && !names_non_finite(s)
}

/// A longer run of digits never reads as less.
proof fn lemma_digits_value_grows(d: Seq<char>, i: int, j: int)
    requires
        0 <= i <= j <= d.len(),
    ensures
        digits_value(d.take(i)) <= digits_value(d.take(j)),
    decreases j - i,
{
    if i < j {
        lemma_digits_value_grows(d, i, j - 1);
        assert(d.take(j).drop_last() == d.take(j - 1));
    }
}

/// Whether every character is a decimal digit.
pub fn digits_only(s: &Vec<char>) -> (b: bool)
    ensures
        b == all_digits(s@),
{
    let mut i: usize = 0;
    while i < s.len()
        invariant
            i <= s.len(),
            forall|k: int| 0 <= k < i ==> is_digit(#[trigger] s@[k]),
        decreases s.len() - i,
    {
        if !('0' <= s[i] && s[i] <= '9') {
            return false;
        }
        i = i + 1;
    }
    true
}

/// The text without one leading `sign` character.
pub fn drop_sign(s: &Vec<char>, sign: char) -> (r: Vec<char>)
    ensures
        r@ == unsigned_part(s@, sign),
{
    if s.len() > 0 && s[0] == sign {
        crate::text::slice(s, 1, s.len())
    } else {
        s.clone()
    }
}

/// `u32::from_str` over characters.
pub fn parse_u32_chars(s: &Vec<char>) -> (r: Option<u32>)
    ensures
        r == parse_u32_spec(s@),
{
    let d = drop_sign(s, '+');
    if d.len() == 0 || !digits_only(&d) {
        return None;
    }
    let mut acc: u64 = 0;
    let mut i: usize = 0;
    assert(d@.take(0) =~= Seq::<char>::empty());
    while i < d.len()
        invariant
            i <= d.len(),
            all_digits(d@),
            d@ == unsigned_part(s@, '+'),
            acc == digits_value(d@.take(i as int)),
            acc <= u32::MAX,
        decreases d.len() - i,
    {
        assert(d@.take(i + 1).drop_last() == d@.take(i as int));
        assert(is_digit(d@[i as int]));
        let digit = (d[i] as u32 - 48) as u64;
        let next = acc * 10 + digit;
        assert(d@.take(i + 1).last() == d@[i as int]);
        assert(digits_value(d@.take(i + 1)) == next);
        if next > 4294967295 {
            proof {
                lemma_digits_value_grows(d@, i + 1, d@.len() as int);
                assert(d@.take(d@.len() as int) == d@);
            }
            return None;
        }
        acc = next;
        i = i + 1;
    }
    assert(d@.take(d@.len() as int) == d@);
    Some(acc as u32)
}

/// `u32::from_str`.
pub fn parse_u32(s: &str) -> (r: Option<u32>)
    ensures
        r == parse_u32_spec(s@),
{
    let v = chars_of(s);
    parse_u32_chars(&v)
}

/// Whether the characters form a float mantissa.
fn mantissa_ok(m: &Vec<char>) -> (b: bool)
    ensures
        b == is_mantissa(m@),
{
    match split_once_char(m, '.') {
        Some((a, b)) => digits_only(&a) && digits_only(&b) && (a.len() > 0 || b.len() > 0),
        None => m.len() > 0 && digits_only(m),
    }
}

/// Whether the characters form a float exponent.
fn exponent_ok(e: &Vec<char>) -> (b: bool)
    ensures
        b == is_exponent(e@),
{
    let d = if e.len() > 0 && (e[0] == '+' || e[0] == '-') {
        crate::text::slice(e, 1, e.len())
    } else {
        e.clone()
    };
    d.len() > 0 && digits_only(&d)
}


/// Whether a lowercased, unsigned text is a float literal.
fn float_body_ok(t: &Vec<char>) -> (b: bool)
    ensures
        b == is_float_body(t@),
{
    let inf = vec!['i', 'n', 'f'];
    let infinity = vec!['i', 'n', 'f', 'i', 'n', 'i', 't', 'y'];
    let nan = vec!['n', 'a', 'n'];
    if crate::text::same_chars(t, &inf) || crate::text::same_chars(t, &infinity)
        || crate::text::same_chars(t, &nan) {
        return true;
    }
    match split_once_char(t, 'e') {
        Some((m, e)) => mantissa_ok(&m) && exponent_ok(&e),
        None => mantissa_ok(t),
    }
}

/// Whether `f64::from_str` accepts the characters.
pub fn float_chars_ok(s: &Vec<char>) -> (b: bool)
    ensures
        b == is_float_text(s@),
{
    let body = if s.len() > 0 && (s[0] == '+' || s[0] == '-') {
        crate::text::slice(s, 1, s.len())
    } else {
        s.clone()
    };
    let lowered = lower_chars(&body);
    float_body_ok(&lowered)
}

/// Whether the characters spell a number: a float literal that is not
/// `inf`, `infinity` or `nan`.
pub fn number_chars_ok(s: &Vec<char>) -> (b: bool)
    ensures
        b == is_number_text(s@),
{
    let body = if s.len() > 0 && (s[0] == '+' || s[0] == '-') {
        crate::text::slice(s, 1, s.len())
    } else {
        s.clone()
    };
    let lowered = lower_chars(&body);
    assert(lowered@ == float_body(s@));
    let inf = vec!['i', 'n', 'f'];
    let infinity = vec!['i', 'n', 'f', 'i', 'n', 'i', 't', 'y'];
    let nan = vec!['n', 'a', 'n'];
    assert(inf@ =~= seq!['i', 'n', 'f']);
    assert(infinity@ =~= seq!['i', 'n', 'f', 'i', 'n', 'i', 't', 'y']);
    assert(nan@ =~= seq!['n', 'a', 'n']);
    if crate::text::same_chars(&lowered, &inf) || crate::text::same_chars(&lowered, &infinity)
        || crate::text::same_chars(&lowered, &nan) {
        return false;
    }
    float_chars_ok(s)
}

/// Whether `f64::from_str` accepts the text.
pub fn is_float(s: &str) -> (b: bool)
    ensures
        b == is_float_text(s@),
{
    let v = chars_of(s);
    float_chars_ok(&v)
}

} // verus!
