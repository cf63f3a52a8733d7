//! The text of a plain PPM image: a header, then one line for each pixel.

use vstd::prelude::*;

verus! {

/// The ASCII code of the digit `0`.
pub const ZERO_DIGIT: u8 = 48;

/// The ASCII code of a space.
pub const SPACE: u8 = 32;

/// The ASCII code of a line feed.
pub const NEWLINE: u8 = 10;

/// The ASCII code of a minus sign.
pub const MINUS: u8 = 45;

/// The decimal digits of `n`, most significant first, in ASCII: `"0"` for
/// zero, and no leading zero otherwise.
pub open spec fn digits(n: nat) -> Seq<u8>
    decreases n,
{
    if n < 10 {
        seq![(ZERO_DIGIT + n) as u8]
    } else {
        digits(n / 10).push((ZERO_DIGIT + n % 10) as u8)
    }
}

/// The number that a string of ASCII digits denotes.
pub open spec fn value(s: Seq<u8>) -> int
    decreases s.len(),
{
    if s.len() == 0 {
        0
    } else {
        value(s.drop_last()) * 10 + (s.last() - ZERO_DIGIT)
    }
}

/// An integer in decimal, with a minus sign in front if it is negative.
pub open spec fn decimal(i: int) -> Seq<u8> {
    if i < 0 {
        seq![MINUS] + digits((-i) as nat)
    } else {
        digits(i as nat)
    }
}

/// The header of a plain PPM image of the given size, with 255 as the
/// largest channel value: the two characters that name the plain format, the
/// width and the height, and `255`, each on a line of its own but for the two
/// sizes, which share one.
pub open spec fn header(width: int, height: int) -> Seq<u8> {
    seq![80u8, 51u8, NEWLINE] + decimal(width) + seq![SPACE] + decimal(height) + seq![
        NEWLINE,
        50u8,
        53u8,
        53u8,
        NEWLINE,
    ]
}

/// The line of one pixel: its red, green and blue levels in decimal, with a
/// space between them and a line feed at the end.
pub open spec fn pixel_line(r: int, g: int, b: int) -> Seq<u8> {
    decimal(r) + seq![SPACE] + decimal(g) + seq![SPACE] + decimal(b) + seq![NEWLINE]
}

/// The digits of a number are ASCII digits, start with a zero only for zero,
/// and denote the number.
pub proof fn lemma_digits_denote(n: nat)
    ensures
        digits(n).len() >= 1,
        forall|i: int| 0 <= i < digits(n).len() ==> ZERO_DIGIT <= #[trigger] digits(n)[i] <= 57,
        n > 0 ==> digits(n)[0] != ZERO_DIGIT,
        value(digits(n)) == n,
    decreases n,
{
    if n < 10 {
        let s = digits(n);
        assert(s.drop_last() =~= Seq::<u8>::empty());
        assert(value(s.drop_last()) == 0);
    } else {
        lemma_digits_denote(n / 10);
        let s = digits(n);
        assert(s.drop_last() =~= digits(n / 10));
        assert(s[0] == digits(n / 10)[0]);
    }
}

/// Appends the decimal digits of `n`.
pub fn push_digits(out: &mut Vec<u8>, n: u32)
    ensures
        final(out)@ == old(out)@ + digits(n as nat),
    decreases n,
{
    if n >= 10 {
        push_digits(out, n / 10);
    }
    let digit: u8 = ZERO_DIGIT + (n % 10) as u8;
    out.push(digit);
    assert(out@ =~= old(out)@ + digits(n as nat));
}

/// Appends an integer in decimal.
pub fn push_decimal(out: &mut Vec<u8>, i: i32)
    ensures
        final(out)@ == old(out)@ + decimal(i as int),
{
    if i < 0 {
        out.push(MINUS);
        let magnitude: u32 = if i == i32::MIN {
            0x8000_0000
        } else {
            (-i) as u32
        };
        push_digits(out, magnitude);
        assert(out@ =~= old(out)@ + decimal(i as int));
    } else {
        push_digits(out, i as u32);
    }
}

/// The header of an image of the given size.
pub fn ppm_header(width: i32, height: i32) -> (text: Vec<u8>)
    ensures
        text@ == header(width as int, height as int),
{
    let mut text: Vec<u8> = Vec::new();
    text.push(80);
    text.push(51);
    text.push(NEWLINE);
    push_decimal(&mut text, width);
    text.push(SPACE);
    push_decimal(&mut text, height);
    text.push(NEWLINE);
    text.push(50);
    text.push(53);
    text.push(53);
    text.push(NEWLINE);
    assert(text@ =~= header(width as int, height as int));
    text
}

} // verus!
