//! The line that reports a selection.
//!
//! A selection is printed in whole pixels as `x,y widthxheight`. Fractions
//! of a pixel are cut off toward zero, and a value beyond 32 bits is printed
//! as the nearest value that 32 bits hold.

use vstd::prelude::*;
use vstd::string::*;
use crate::geometry::Rect;

verus! {

/// The whole pixels in `value` units: the quotient by the units of a pixel,
/// rounded toward zero and held within 32 bits.
pub open spec fn whole_pixels(value: int) -> int {
    let quotient = if value >= 0 {
        value / 256
    } else {
        -((-value) / 256)
    };
    if quotient < i32::MIN {
        i32::MIN as int
    } else if quotient > i32::MAX {
        i32::MAX as int
    } else {
        quotient
    }
}

/// The character of one decimal digit.
pub open spec fn digit(d: int) -> char {
    if d == 0 {
        '0'
    } else if d == 1 {
        '1'
    } else if d == 2 {
        '2'
    } else if d == 3 {
        '3'
    } else if d == 4 {
        '4'
    } else if d == 5 {
        '5'
    } else if d == 6 {
        '6'
    } else if d == 7 {
        '7'
    } else if d == 8 {
        '8'
    } else {
        '9'
    }
}

/// A natural number in decimal, without leading zeros.
pub open spec fn digits(n: nat) -> Seq<char>
    decreases n,
{
    if n < 10 {
        seq![digit(n as int)]
    } else {
        digits(n / 10).push(digit((n % 10) as int))
    }
}

/// An integer in decimal, with a minus sign if it is negative.
pub open spec fn decimal(value: int) -> Seq<char> {
    if value < 0 {
        seq!['-'] + digits((-value) as nat)
    } else {
        digits(value as nat)
    }
}

/// The report of `selection`.
pub open spec fn selection_text(selection: Rect) -> Seq<char> {
    decimal(whole_pixels(selection.x as int)) + seq![','] + decimal(
        whole_pixels(selection.y as int),
    ) + seq![' '] + decimal(whole_pixels(selection.width as int)) + seq!['x'] + decimal(
        whole_pixels(selection.height as int),
    )
}

/// A coordinate in whole pixels.
pub fn pixels(value: i64) -> (px: i32)
    ensures
        px == whole_pixels(value as int),
{
    let wide: i128 = value as i128;
    let quotient: i128 = if wide >= 0 {
        wide / 256
    } else {
        -((-wide) / 256)
    };
    if quotient < i32::MIN as i128 {
        i32::MIN
    } else if quotient > i32::MAX as i128 {
        i32::MAX
    } else {
        quotient as i32
    }
}

/// An extent in whole pixels.
pub fn extent_pixels(value: u64) -> (px: i32)
    ensures
        px == whole_pixels(value as int),
{
    let quotient: u64 = value / 256;
    if quotient > i32::MAX as u64 {
        i32::MAX
    } else {
        quotient as i32
    }
}

fn digit_text(d: u64) -> (text: &'static str)
    requires
        d < 10,
    ensures
        text@ == seq![digit(d as int)],
{
    proof {
        reveal_strlit("0");
        reveal_strlit("1");
        reveal_strlit("2");
        reveal_strlit("3");
        reveal_strlit("4");
        reveal_strlit("5");
        reveal_strlit("6");
        reveal_strlit("7");
        reveal_strlit("8");
        reveal_strlit("9");
    }
    let text: &'static str = if d == 0 {
        "0"
    } else if d == 1 {
        "1"
    } else if d == 2 {
        "2"
    } else if d == 3 {
        "3"
    } else if d == 4 {
        "4"
    } else if d == 5 {
        "5"
    } else if d == 6 {
        "6"
    } else if d == 7 {
        "7"
    } else if d == 8 {
        "8"
    } else {
        "9"
    };
    assert(text@ =~= seq![digit(d as int)]);
    text
}

fn append_digits(line: &mut String, n: u64)
    ensures
        final(line)@ == old(line)@ + digits(n as nat),
    decreases n,
{
    if n >= 10 {
        append_digits(line, n / 10);
    }
    line.append(digit_text(n % 10));
    assert(line@ =~= old(line)@ + digits(n as nat));
}

/// Adds `value` in decimal to the end of `line`.
pub fn append_decimal(line: &mut String, value: i32)
    ensures
        final(line)@ == old(line)@ + decimal(value as int),
{
    if value < 0 {
        line.append("-");
        proof {
            reveal_strlit("-");
        }
        let magnitude: i64 = -(value as i64);
        append_digits(line, magnitude as u64);
        assert(line@ =~= old(line)@ + decimal(value as int));
    } else {
        append_digits(line, value as u64);
    }
}

/// The line that reports `selection`.
pub fn selection_line(selection: Rect) -> (line: String)
    ensures
        line@ == selection_text(selection),
{
    let mut line: String = String::new();
    proof {
        reveal_strlit(",");
        reveal_strlit(" ");
        reveal_strlit("x");
    }
    append_decimal(&mut line, pixels(selection.x));
    line.append(",");
    append_decimal(&mut line, pixels(selection.y));
    line.append(" ");
    append_decimal(&mut line, extent_pixels(selection.width));
    line.append("x");
    append_decimal(&mut line, extent_pixels(selection.height));
    assert(line@ =~= selection_text(selection));
    line
}

/// A rectangle that lies on whole pixels and within 32 bits is reported with
/// exactly its pixel values.
pub proof fn lemma_whole_pixels_exact(pixels: int)
    requires
        i32::MIN <= pixels <= i32::MAX,
    ensures
        whole_pixels(pixels * 256) == pixels,
{
}

/// Cutting off fractions never moves a value away from zero, and loses less
/// than a pixel of whatever fits in 32 bits.
pub proof fn lemma_whole_pixels_truncates(value: int)
    ensures
        value >= 0 ==> 0 <= whole_pixels(value) * 256 <= value,
        value <= 0 ==> value <= whole_pixels(value) * 256 <= 0,
        i32::MIN * 256 <= value <= i32::MAX * 256 ==> -256 < value - whole_pixels(value) * 256
            < 256,
{
}

} // verus!
