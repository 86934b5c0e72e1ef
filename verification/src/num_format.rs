//! Text forms of integers: lowercase hexadecimal with zero padding, as in
//! the `{:0Nx}` format, and signed decimal, as in the `{}` format.
use vstd::prelude::*;
use crate::text::{push_char, append_str};

verus! {

/// The lowercase hexadecimal digit of `d` (for `d < 16`).
pub open spec fn hex_digit(d: nat) -> char {
    if d < 10 {
        (48 + d) as char
    } else {
        (87 + d) as char
    }
}

/// The decimal digit of `d` (for `d < 10`).
pub open spec fn dec_digit(d: nat) -> char {
    (48 + d) as char
}

/// The hexadecimal digits of `v`, most significant first, without leading
/// zeros (`0` is written as one digit).
pub open spec fn hex_digits(v: nat) -> Seq<char>
    decreases v,
{
    if v < 16 {
        seq![hex_digit(v)]
    } else {
        hex_digits(v / 16).push(hex_digit(v % 16))
    }
}

/// The decimal digits of `v`, most significant first, without leading zeros.
pub open spec fn dec_digits(v: nat) -> Seq<char>
    decreases v,
{
    if v < 10 {
        seq![dec_digit(v)]
    } else {
        dec_digits(v / 10).push(dec_digit(v % 10))
    }
}

/// `s` with `'0'` characters put in front until it is at least `width` long.
pub open spec fn zero_pad(s: Seq<char>, width: nat) -> Seq<char> {
    if s.len() >= width {
        s
    } else {
        Seq::new((width - s.len()) as nat, |i: int| '0') + s
    }
}

/// `v` in lowercase hexadecimal, zero-padded to at least `width` digits.
pub open spec fn hex_text(v: nat, width: nat) -> Seq<char> {
    zero_pad(hex_digits(v), width)
}

/// `v` in decimal, with a leading `-` when it is negative.
pub open spec fn decimal_text(v: int) -> Seq<char> {
    if v < 0 {
        seq!['-'] + dec_digits((-v) as nat)
    } else {
        dec_digits(v as nat)
    }
}

/// The value of a hexadecimal digit character, `0-9` or `a-f`.
pub open spec fn hex_char_value(c: char) -> int {
    if (c as int) < 58 {
        (c as int) - 48
    } else {
        (c as int) - 87
    }
}

/// The number that a text of hexadecimal digits denotes.
pub open spec fn hex_value(s: Seq<char>) -> int
    decreases s.len(),
{
    if s.len() == 0 {
        0
    } else {
        16 * hex_value(s.drop_last()) + hex_char_value(s.last())
    }
}

/// The number that a text of decimal digits denotes.
pub open spec fn dec_value(s: Seq<char>) -> int
    decreases s.len(),
{
    if s.len() == 0 {
        0
    } else {
        10 * dec_value(s.drop_last()) + ((s.last() as int) - 48)
    }
}

proof fn lemma_hex_digits_value(v: nat)
    ensures
        hex_value(hex_digits(v)) == v,
        hex_digits(v).len() >= 1,
    decreases v,
{
    let d = v % 16;
    assert(hex_char_value(hex_digit(d)) == d);
    if v >= 16 {
        lemma_hex_digits_value(v / 16);
        assert(hex_digits(v).drop_last() =~= hex_digits(v / 16));
        assert(hex_digits(v).last() == hex_digit(d));
        assert(v == 16 * (v / 16) + v % 16);
        assert(hex_digits(v).len() > 0);
        assert(hex_value(hex_digits(v)) == 16 * hex_value(hex_digits(v / 16)) + hex_char_value(hex_digit(d)));
    } else {
        assert(hex_digits(v).drop_last() =~= Seq::<char>::empty());
        assert(hex_digits(v).last() == hex_digit(v));
        assert(hex_value(hex_digits(v)) == 16 * hex_value(Seq::<char>::empty()) + hex_char_value(hex_digit(v)));
    }
}

proof fn lemma_dec_digits_value(v: nat)
    ensures
        dec_value(dec_digits(v)) == v,
    decreases v,
{
    assert(((dec_digit(v % 10) as int) - 48) == v % 10);
    if v >= 10 {
        lemma_dec_digits_value(v / 10);
        assert(dec_digits(v).drop_last() =~= dec_digits(v / 10));
        assert(dec_digits(v).last() == dec_digit(v % 10));
        assert(v == 10 * (v / 10) + v % 10);
        assert(dec_digits(v).len() > 0);
        assert(dec_value(dec_digits(v)) == 10 * dec_value(dec_digits(v / 10)) + ((dec_digit(v % 10) as int) - 48));
    } else {
        assert(dec_digits(v).drop_last() =~= Seq::<char>::empty());
        assert(dec_digits(v).last() == dec_digit(v));
        assert(dec_value(dec_digits(v)) == 10 * dec_value(Seq::<char>::empty()) + ((dec_digit(v) as int) - 48));
    }
}

proof fn lemma_leading_zeros_value(n: nat, s: Seq<char>)
    ensures
        hex_value(Seq::new(n, |i: int| '0') + s) == hex_value(s) + hex_value(Seq::new(n, |i: int| '0')) * pow16(s.len()),
        hex_value(Seq::new(n, |i: int| '0')) == 0,
    decreases s.len(),
{
    let z = Seq::new(n, |i: int| '0');
    lemma_zeros_value(n);
    if s.len() == 0 {
        assert(z + s =~= z);
    } else {
        lemma_leading_zeros_value(n, s.drop_last());
        assert((z + s).drop_last() =~= z + s.drop_last());
        assert((z + s).last() == s.last());
    }
}

proof fn lemma_zeros_value(n: nat)
    ensures
        hex_value(Seq::new(n, |i: int| '0')) == 0,
    decreases n,
{
    if n > 0 {
        lemma_zeros_value((n - 1) as nat);
        assert(Seq::new(n, |i: int| '0').drop_last() =~= Seq::new((n - 1) as nat, |i: int| '0'));
    }
}

/// 16 to the power `n`.
pub open spec fn pow16(n: nat) -> nat
    decreases n,
{
    if n == 0 {
        1
    } else {
        16 * pow16((n - 1) as nat)
    }
}

/// The hexadecimal text of a number denotes that number and is at least as
/// long as the width asked for: zero padding changes no value, and two
/// different numbers never give the same text.
pub proof fn law_hex_text_denotes_value(v: nat, width: nat)
    ensures
        hex_value(hex_text(v, width)) == v,
        hex_text(v, width).len() >= width,
{
    lemma_hex_digits_value(v);
    let d = hex_digits(v);
    if d.len() < width {
        lemma_leading_zeros_value((width - d.len()) as nat, d);
        assert(0 * pow16(d.len()) == 0);
    }
}

/// The decimal text of a number denotes that number: its sign is `-`
/// exactly for negative numbers and its digits spell the magnitude.
pub proof fn law_decimal_text_denotes_value(v: int)
    ensures
        decimal_text(v).len() >= 1,
        (decimal_text(v)[0] == '-') == (v < 0),
        v < 0 ==> -dec_value(decimal_text(v).drop_first()) == v,
        v >= 0 ==> dec_value(decimal_text(v)) == v,
{
    if v < 0 {
        lemma_dec_digits_value((-v) as nat);
        assert(decimal_text(v).drop_first() =~= dec_digits((-v) as nat));
    } else {
        lemma_dec_digits_value(v as nat);
        lemma_dec_digits_nonempty_no_sign(v as nat);
    }
}

proof fn lemma_dec_digits_nonempty_no_sign(v: nat)
    ensures
        dec_digits(v).len() >= 1,
        dec_digits(v)[0] != '-',
    decreases v,
{
    if v >= 10 {
        lemma_dec_digits_nonempty_no_sign(v / 10);
        assert(dec_digits(v)[0] == dec_digits(v / 10)[0]);
    }
}

fn hex_digit_char(d: u64) -> (c: char)
    requires
        d < 16,
    ensures
        c == hex_digit(d as nat),
{
    if d < 10 {
        (48 + d as u8) as char
    } else {
        (87 + d as u8) as char
    }
}

fn push_hex_digits(out: &mut String, v: u64)
    ensures
        final(out)@ == old(out)@ + hex_digits(v as nat),
    decreases v,
{
    if v >= 16 {
        push_hex_digits(out, v / 16);
    }
    push_char(out, hex_digit_char(v % 16));
    assert(final(out)@ =~= old(out)@ + hex_digits(v as nat));
}

fn push_dec_digits(out: &mut String, v: u64)
    ensures
        final(out)@ == old(out)@ + dec_digits(v as nat),
    decreases v,
{
    if v >= 10 {
        push_dec_digits(out, v / 10);
    }
    push_char(out, (48 + (v % 10) as u8) as char);
    proof {
        assert(final(out)@ =~= old(out)@ + dec_digits(v as nat));
    }
}

/// Writes `v` in lowercase hexadecimal, zero-padded to at least `width`
/// digits: the text of `format!("{:0width$x}", v)`.
pub fn format_hex(v: u64, width: usize) -> (r: String)
    ensures
        r@ == hex_text(v as nat, width as nat),
{
    let mut digits = String::new();
    push_hex_digits(&mut digits, v);
    assert(digits@ =~= hex_digits(v as nat));
    let n = digits.as_str().unicode_len();
    let mut out = String::new();
    let mut i: usize = n;
    while i < width
        invariant
            n == hex_digits(v as nat).len(),
            n <= i <= width || (n > width && i == n),
            out@ == Seq::new((i - n) as nat, |k: int| '0'),
        decreases width - i,
    {
        push_char(&mut out, '0');
        i = i + 1;
        assert(out@ =~= Seq::new((i - n) as nat, |k: int| '0'));
    }
    append_str(&mut out, digits.as_str());
    assert(out@ =~= hex_text(v as nat, width as nat));
    out
}

/// `s` with `'0'` characters put in front until it is at least `width` long.
pub fn zero_padded(s: &str, width: usize) -> (r: String)
    ensures
        r@ == zero_pad(s@, width as nat),
{
    let n = s.unicode_len();
    let mut out = String::new();
    let mut i: usize = n;
    while i < width
        invariant
            n == s@.len(),
            n <= i <= width || (n > width && i == n),
            out@ == Seq::new((i - n) as nat, |k: int| '0'),
        decreases width - i,
    {
        push_char(&mut out, '0');
        i = i + 1;
        assert(out@ =~= Seq::new((i - n) as nat, |k: int| '0'));
    }
    append_str(&mut out, s);
    assert(out@ =~= zero_pad(s@, width as nat));
    out
}

/// Writes an unsigned `v` in decimal: the text of `format!("{}", v)`.
pub fn format_unsigned(v: u64) -> (r: String)
    ensures
        r@ == dec_digits(v as nat),
{
    let mut out = String::new();
    push_dec_digits(&mut out, v);
    assert(out@ =~= dec_digits(v as nat));
    out
}

/// Writes `v` in decimal: the text of `format!("{}", v)`.
pub fn format_decimal(v: i64) -> (r: String)
    ensures
        r@ == decimal_text(v as int),
{
    let mut out = String::new();
    if v < 0 {
        push_char(&mut out, '-');
        let magnitude: u64 = if v == i64::MIN {
            0x8000_0000_0000_0000u64
        } else {
            (-v) as u64
        };
        push_dec_digits(&mut out, magnitude);
    } else {
        push_dec_digits(&mut out, v as u64);
    }
    assert(out@ =~= decimal_text(v as int));
    out
}

} // verus!
