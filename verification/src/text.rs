//! Character-level building blocks: decimal and hexadecimal digits, and
//! appending to a `String` with a known result.

use vstd::prelude::*;

verus! {

/// The lower-case digit for a value below sixteen.
pub open spec fn digit_char(d: nat) -> char {
    if d == 0 { '0' }
    else if d == 1 { '1' }
    else if d == 2 { '2' }
    else if d == 3 { '3' }
    else if d == 4 { '4' }
    else if d == 5 { '5' }
    else if d == 6 { '6' }
    else if d == 7 { '7' }
    else if d == 8 { '8' }
    else if d == 9 { '9' }
    else if d == 10 { 'a' }
    else if d == 11 { 'b' }
    else if d == 12 { 'c' }
    else if d == 13 { 'd' }
    else if d == 14 { 'e' }
    else { 'f' }
}

/// Decimal notation of `n`, without leading zeros ("0" for zero).
pub open spec fn dec_digits(n: nat) -> Seq<char>
    decreases n,
{
    if n < 10 {
        seq![digit_char(n)]
    } else {
        dec_digits(n / 10).push(digit_char(n % 10))
    }
}

/// Lower-case hexadecimal notation of `n`, without leading zeros.
pub open spec fn hex_digits(n: nat) -> Seq<char>
    decreases n,
{
    if n < 16 {
        seq![digit_char(n)]
    } else {
        hex_digits(n / 16).push(digit_char(n % 16))
    }
}

/// Decimal notation of a signed number: a minus sign before the digits of
/// its magnitude when it is negative.
pub open spec fn signed_dec_digits(n: int) -> Seq<char> {
    if n < 0 {
        seq!['-'] + dec_digits((-n) as nat)
    } else {
        dec_digits(n as nat)
    }
}

proof fn lemma_digit_char_injective(a: nat, b: nat)
    requires
        a < 16,
        b < 16,
        digit_char(a) == digit_char(b),
    ensures
        a == b,
{
}

/// The decimal notation of a number has at least one digit, and at least
/// two from ten up.
pub proof fn lemma_dec_digits_len(n: nat)
    ensures
        dec_digits(n).len() >= 1,
        n >= 10 ==> dec_digits(n).len() >= 2,
    decreases n,
{
    if n >= 10 {
        lemma_dec_digits_len(n / 10);
    }
}

/// Different numbers have different decimal notations.
pub proof fn lemma_dec_digits_injective(n: nat, m: nat)
    requires
        dec_digits(n) == dec_digits(m),
    ensures
        n == m,
    decreases n,
{
    lemma_dec_digits_len(n);
    lemma_dec_digits_len(m);
    if n < 10 && m < 10 {
        assert(dec_digits(n)[0] == digit_char(n));
        assert(dec_digits(m)[0] == digit_char(m));
        lemma_digit_char_injective(n, m);
    } else if n >= 10 && m >= 10 {
        let dn = dec_digits(n);
        let dm = dec_digits(m);
        assert(dn.last() == digit_char(n % 10));
        assert(dm.last() == digit_char(m % 10));
        lemma_digit_char_injective(n % 10, m % 10);
        assert(dn.drop_last() == dec_digits(n / 10));
        assert(dm.drop_last() == dec_digits(m / 10));
        lemma_dec_digits_injective(n / 10, m / 10);
    } else {
        assert(dec_digits(n).len() != dec_digits(m).len());
    }
}

/// The value of a digit character (lower-case letters for ten to fifteen).
pub open spec fn char_value(c: char) -> nat {
    if c == '1' { 1 }
    else if c == '2' { 2 }
    else if c == '3' { 3 }
    else if c == '4' { 4 }
    else if c == '5' { 5 }
    else if c == '6' { 6 }
    else if c == '7' { 7 }
    else if c == '8' { 8 }
    else if c == '9' { 9 }
    else if c == 'a' { 10 }
    else if c == 'b' { 11 }
    else if c == 'c' { 12 }
    else if c == 'd' { 13 }
    else if c == 'e' { 14 }
    else if c == 'f' { 15 }
    else { 0 }
}

/// Whether `c` is a decimal digit.
pub open spec fn is_dec_char(c: char) -> bool {
    c == '0' || c == '1' || c == '2' || c == '3' || c == '4' || c == '5' || c == '6' || c
        == '7' || c == '8' || c == '9'
}

/// Whether `c` is a lower-case hexadecimal digit.
pub open spec fn is_hex_char(c: char) -> bool {
    is_dec_char(c) || c == 'a' || c == 'b' || c == 'c' || c == 'd' || c == 'e' || c == 'f'
}

/// The number that a sequence of digits denotes in the given base.
pub open spec fn digits_value(s: Seq<char>, base: nat) -> nat
    decreases s.len(),
{
    if s.len() == 0 {
        0
    } else {
        digits_value(s.drop_last(), base) * base + char_value(s.last())
    }
}

proof fn lemma_char_value_digit(d: nat)
    requires
        d < 16,
    ensures
        char_value(digit_char(d)) == d,
        is_hex_char(digit_char(d)),
        d < 10 ==> is_dec_char(digit_char(d)),
        digit_char(d) == '0' ==> d == 0,
{
}

/// The decimal notation of `n` is made of decimal digits, denotes `n`, and
/// starts with `0` only for zero.
pub proof fn law_dec_digits_denote(n: nat)
    ensures
        digits_value(dec_digits(n), 10) == n,
        forall|i: int| 0 <= i < dec_digits(n).len() ==> is_dec_char(#[trigger] dec_digits(n)[i]),
        dec_digits(n).len() >= 1,
        dec_digits(n)[0] == '0' ==> n == 0,
    decreases n,
{
    lemma_dec_digits_len(n);
    lemma_char_value_digit(n % 10);
    if n < 10 {
        assert(dec_digits(n).drop_last() == Seq::<char>::empty());
        assert(digits_value(dec_digits(n), 10) == digits_value(Seq::<char>::empty(), 10) * 10
            + char_value(digit_char(n)));
    }
    if n >= 10 {
        law_dec_digits_denote(n / 10);
        let d = dec_digits(n / 10);
        assert(dec_digits(n) == d.push(digit_char(n % 10)));
        assert(dec_digits(n).drop_last() == d);
        assert(dec_digits(n).last() == digit_char(n % 10));
        assert(digits_value(dec_digits(n), 10) == digits_value(d, 10) * 10 + char_value(
            digit_char(n % 10),
        ));
        assert(dec_digits(n)[0] == d[0]);
        assert(n == (n / 10) * 10 + n % 10);
    }
}

/// The hexadecimal notation of `n` is made of lower-case hexadecimal digits,
/// denotes `n`, and starts with `0` only for zero.
pub proof fn law_hex_digits_denote(n: nat)
    ensures
        digits_value(hex_digits(n), 16) == n,
        forall|i: int| 0 <= i < hex_digits(n).len() ==> is_hex_char(#[trigger] hex_digits(n)[i]),
        hex_digits(n).len() >= 1,
        hex_digits(n)[0] == '0' ==> n == 0,
    decreases n,
{
    lemma_char_value_digit(n % 16);
    if n < 16 {
        assert(hex_digits(n).drop_last() == Seq::<char>::empty());
        assert(digits_value(hex_digits(n), 16) == digits_value(Seq::<char>::empty(), 16) * 16
            + char_value(digit_char(n)));
    }
    if n >= 16 {
        law_hex_digits_denote(n / 16);
        let d = hex_digits(n / 16);
        assert(hex_digits(n) == d.push(digit_char(n % 16)));
        assert(hex_digits(n).drop_last() == d);
        assert(hex_digits(n).last() == digit_char(n % 16));
        assert(digits_value(hex_digits(n), 16) == digits_value(d, 16) * 16 + char_value(
            digit_char(n % 16),
        ));
        assert(hex_digits(n)[0] == d[0]);
        assert(n == (n / 16) * 16 + n % 16);
    }
}

/// Calls `String::push`, which appends one character to the string.
#[verifier::external_body]
pub(crate) fn push_char(s: &mut String, c: char)
    ensures
        final(s)@ == old(s)@.push(c),
{
    s.push(c);
}

/// The lower-case digit for a value below sixteen.
pub fn digit(d: u64) -> (c: char)
    requires
        d < 16,
    ensures
        c == digit_char(d as nat),
{
    if d == 0 { '0' }
    else if d == 1 { '1' }
    else if d == 2 { '2' }
    else if d == 3 { '3' }
    else if d == 4 { '4' }
    else if d == 5 { '5' }
    else if d == 6 { '6' }
    else if d == 7 { '7' }
    else if d == 8 { '8' }
    else if d == 9 { '9' }
    else if d == 10 { 'a' }
    else if d == 11 { 'b' }
    else if d == 12 { 'c' }
    else if d == 13 { 'd' }
    else if d == 14 { 'e' }
    else { 'f' }
}

/// Appends the decimal notation of `n`.
pub fn push_decimal(s: &mut String, n: u64)
    ensures
        final(s)@ == old(s)@ + dec_digits(n as nat),
    decreases n,
{
    if n >= 10 {
        push_decimal(s, n / 10);
    }
    push_char(s, digit(n % 10));
}

/// Appends the decimal notation of a signed number.
pub fn push_signed_decimal(s: &mut String, n: i64)
    ensures
        final(s)@ == old(s)@ + signed_dec_digits(n as int),
{
    if n < 0 {
        push_char(s, '-');
        let magnitude: u64 = ((-(n + 1)) as u64) + 1;
        push_decimal(s, magnitude);
    } else {
        push_decimal(s, n as u64);
    }
}

/// The debug text of a string: the text between double quotes, with quotes,
/// backslashes and unprintable characters escaped.
pub uninterp spec fn debug_str(s: Seq<char>) -> Seq<char>;

/// Calls `format!("{:?}", s)` on a string slice; the contract names the text
/// that comes out `debug_str(s)`.
#[verifier::external_body]
pub(crate) fn str_debug(s: &str) -> (res: String)
    ensures
        res@ == debug_str(s@),
{
    format!("{:?}", s)
}

/// Appends a string slice (the text of `t` after that of `s`).
pub fn push_str(s: &mut String, t: &str)
    ensures
        final(s)@ == old(s)@ + t@,
{
    s.append(t);
}

} // verus!
