//! Decimal rendering, padding and truncation of text.

use vstd::prelude::*;
use vstd::string::*;

verus! {

/// The character that stands for a decimal digit.
pub open spec fn digit(d: nat) -> char {
    if d == 0 {
        '0'
    } else if d == 1 {
        '1'
    } else if d == 2 {
        '2'
    } else if d == 3 {
        '3'
    } else if d == 4 {
        '4'
    } else if d == 5 {
        '5'
    } else if d == 6 {
        '6'
    } else if d == 7 {
        '7'
    } else if d == 8 {
        '8'
    } else {
        '9'
    }
}

/// The decimal numeral of `n`: most significant digit first, no sign, no
/// leading zero (zero itself is "0").
pub open spec fn decimal(n: nat) -> Seq<char>
    decreases n,
{
    if n < 10 {
        seq![digit(n)]
    } else {
        decimal(n / 10).push(digit(n % 10))
    }
}

/// The one-character string of a decimal digit.
fn digit_str(d: u16) -> (s: &'static str)
    requires
        d < 10,
    ensures
        s@ == seq![digit(d as nat)],
{
    proof {
        reveal_strlit("0");
        reveal_strlit("1");
        reveal_strlit("2");
        reveal_strlit("3");
        reveal_strlit("4");
        reveal_strlit("5");
        reveal_strlit("6");
        reveal_strlit("7");
        reveal_strlit("8");
        reveal_strlit("9");
    }
    let s: &'static str = if d == 0 {
        "0"
    } else if d == 1 {
        "1"
    } else if d == 2 {
        "2"
    } else if d == 3 {
        "3"
    } else if d == 4 {
        "4"
    } else if d == 5 {
        "5"
    } else if d == 6 {
        "6"
    } else if d == 7 {
        "7"
    } else if d == 8 {
        "8"
    } else {
        "9"
    };
    assert(s@ =~= seq![digit(d as nat)]);
    s
}

/// Appends the decimal numeral of `n` to `out`.
pub fn push_decimal(out: &mut String, n: u16)
    ensures
        final(out)@ == old(out)@ + decimal(n as nat),
    decreases n,
{
    if n >= 10 {
        push_decimal(out, n / 10);
    }
    out.append(digit_str(n % 10));
    assert(out@ =~= old(out)@ + decimal(n as nat));
}

/// A run of `n` spaces.
pub open spec fn spaces(n: nat) -> Seq<char> {
    Seq::new(n, |i: int| ' ')
}

/// `s` filled up with spaces on the right to `width` characters. A text that
/// is already that long, or longer, is left as it is.
pub open spec fn padded(s: Seq<char>, width: nat) -> Seq<char> {
    if s.len() >= width {
        s
    } else {
        s + spaces((width - s.len()) as nat)
    }
}

/// The first `width` characters of `s`, or all of `s` where it has no more.
pub open spec fn truncated(s: Seq<char>, width: nat) -> Seq<char> {
    if s.len() <= width {
        s
    } else {
        s.take(width as int)
    }
}

/// Fills `line` up with spaces on the right to `width` characters.
pub fn pad_to_width(line: &mut String, width: usize)
    ensures
        final(line)@ == padded(old(line)@, width as nat),
{
    let ghost text = line@;
    let len: usize = line.as_str().unicode_len();
    let mut n: usize = len;
    proof {
        assert(line@ =~= text + spaces(0));
    }
    while n < width
        invariant
            len == text.len(),
            len <= n,
            n <= width || n == len,
            line@ == text + spaces((n - len) as nat),
        decreases width - n,
    {
        line.append(" ");
        n += 1;
        proof {
            reveal_strlit(" ");
            assert(line@ =~= text + spaces((n - len) as nat));
        }
    }
}

/// The first `width` characters of `text`, counted as characters and not as
/// bytes, or all of `text` where it has no more.
pub fn truncate_to_width<'a>(text: &'a str, width: usize) -> (head: &'a str)
    ensures
        head@ == truncated(text@, width as nat),
{
    let len: usize = text.unicode_len();
    if len <= width {
        text
    } else {
        text.substring_char(0, width)
    }
}

} // verus!
