//! Colours as the client shows them.

use vstd::prelude::*;
use crate::text::{digit, digit_char, hex_digits, push_char};

verus! {

/// The text of a colour: `#` followed by the lower-case hexadecimal notation
/// of `color + 0x1000000` without its first digit.
pub open spec fn color_hex_text(color: u32) -> Seq<char> {
    seq!['#'] + hex_digits((color + 0x1000000) as nat).drop_first()
}

/// The six lower-case hexadecimal digits of a value below 2^24, zero-padded.
pub open spec fn hex6(c: nat) -> Seq<char> {
    seq![
        digit_char((c / 0x100000) % 16),
        digit_char((c / 0x10000) % 16),
        digit_char((c / 0x1000) % 16),
        digit_char((c / 0x100) % 16),
        digit_char((c / 0x10) % 16),
        digit_char(c % 16),
    ]
}

proof fn lemma_hex_digits_nonempty(n: nat)
    ensures
        hex_digits(n).len() >= 1,
    decreases n,
{
    if n >= 16 {
        lemma_hex_digits_nonempty(n / 16);
    }
}

/// Appends the hexadecimal notation of `n` without its first digit.
fn push_hex_after_lead(s: &mut String, n: u64)
    ensures
        final(s)@ == old(s)@ + hex_digits(n as nat).drop_first(),
    decreases n,
{
    if n >= 16 {
        push_hex_after_lead(s, n / 16);
        push_char(s, digit(n % 16));
        proof {
            lemma_hex_digits_nonempty((n / 16) as nat);
            let h = hex_digits((n / 16) as nat);
            assert(hex_digits(n as nat) == h.push(digit_char((n % 16) as nat)));
            assert(h.push(digit_char((n % 16) as nat)).drop_first() == h.drop_first().push(
                digit_char((n % 16) as nat),
            ));
        }
    }
}

/// Turns a colour number into the `#rrggbb`-style text the client shows:
/// `#` followed by the hexadecimal notation of `color + 0x1000000` without its
/// leading digit. Colours from 0x1000000 up have more than six digits there.
pub fn color_int_to_hex(color: u32) -> (res: String)
    requires
        color + 0x1000000 <= u32::MAX,
    ensures
        res@ == color_hex_text(color),
{
    let mut res = String::new();
    push_char(&mut res, '#');
    push_hex_after_lead(&mut res, (color + 0x1000000) as u64);
    res
}

proof fn lemma_hex_step(x: nat)
    requires
        x >= 16,
    ensures
        hex_digits(x) == hex_digits(x / 16).push(digit_char(x % 16)),
{
}

proof fn lemma_shift_digits(c: nat)
    requires
        c < 0x1000000,
    ensures
        (c + 0x1000000) / 16 == c / 0x10 + 0x100000,
        (c + 0x1000000) % 16 == c % 16,
        (c / 0x10 + 0x100000) / 16 == c / 0x100 + 0x10000,
        (c / 0x10 + 0x100000) % 16 == (c / 0x10) % 16,
        (c / 0x100 + 0x10000) / 16 == c / 0x1000 + 0x1000,
        (c / 0x100 + 0x10000) % 16 == (c / 0x100) % 16,
        (c / 0x1000 + 0x1000) / 16 == c / 0x10000 + 0x100,
        (c / 0x1000 + 0x1000) % 16 == (c / 0x1000) % 16,
        (c / 0x10000 + 0x100) / 16 == c / 0x100000 + 0x10,
        (c / 0x10000 + 0x100) % 16 == (c / 0x10000) % 16,
        (c / 0x100000 + 0x10) / 16 == 1,
        (c / 0x100000 + 0x10) % 16 == (c / 0x100000) % 16,
{
    assert((c + 0x1000000) / 16 == c / 0x10 + 0x100000) by (nonlinear_arith);
    assert((c / 0x10 + 0x100000) / 16 == c / 0x100 + 0x10000) by (nonlinear_arith);
    assert((c / 0x100 + 0x10000) / 16 == c / 0x1000 + 0x1000) by (nonlinear_arith);
    assert((c / 0x1000 + 0x1000) / 16 == c / 0x10000 + 0x100) by (nonlinear_arith);
    assert((c / 0x10000 + 0x100) / 16 == c / 0x100000 + 0x10) by (nonlinear_arith);
    assert((c / 0x100000 + 0x10) / 16 == 1) by (nonlinear_arith)
        requires
            c < 0x1000000,
    ;
}

/// A colour below 2^24 is written as `#` and its six hexadecimal digits,
/// zero-padded, lower-case.
pub proof fn law_color_is_six_hex_digits(color: u32)
    requires
        color < 0x1000000,
    ensures
        color_hex_text(color) == seq!['#'] + hex6(color as nat),
        color_hex_text(color).len() == 7,
{
    let c: nat = color as nat;
    lemma_shift_digits(c);
    let n0: nat = c + 0x1000000;
    let n1: nat = c / 0x10 + 0x100000;
    let n2: nat = c / 0x100 + 0x10000;
    let n3: nat = c / 0x1000 + 0x1000;
    let n4: nat = c / 0x10000 + 0x100;
    let n5: nat = c / 0x100000 + 0x10;
    lemma_hex_step(n5);
    lemma_hex_step(n4);
    lemma_hex_step(n3);
    lemma_hex_step(n2);
    lemma_hex_step(n1);
    lemma_hex_step(n0);
    assert(hex_digits(1) == seq!['1']);
    assert(hex_digits(n0) == seq!['1'] + hex6(c));
    assert(hex_digits(n0).drop_first() == hex6(c));
}

} // verus!
