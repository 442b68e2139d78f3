//! Decimal text of scaled integers.
//!
//! A raw value and a scale stand for the quantity `raw / scale`. The functions
//! here write that quantity in decimal digits without ever leaving integer
//! arithmetic: a sign, the whole part, and, where the remainder is not zero, a
//! point and the fractional digits.

use vstd::prelude::*;
use vstd::string::StringExecFns;

verus! {

/// The character that stands for one decimal digit.
pub open spec fn digit(d: nat) -> char {
    if d == 0 {
        '0'
    } else if d == 1 {
        '1'
    } else if d == 2 {
        '2'
    } else if d == 3 {
        '3'
    } else if d == 4 {
        '4'
    } else if d == 5 {
        '5'
    } else if d == 6 {
        '6'
    } else if d == 7 {
        '7'
    } else if d == 8 {
        '8'
    } else {
        '9'
    }
}

/// The decimal numeral of `n`: most significant digit first, no leading zero.
pub open spec fn numeral(n: nat) -> Seq<char>
    decreases n,
{
    if n < 10 {
        seq![digit(n)]
    } else {
        numeral(n / 10).push(digit(n % 10))
    }
}

/// `count` zeros.
pub open spec fn zeros(count: nat) -> Seq<char> {
    Seq::new(count, |i: int| '0')
}

/// The numeral of `n`, with zeros in front of it until it is `width` characters
/// long. A numeral that is longer than `width` stays as it is.
pub open spec fn padded(n: nat, width: nat) -> Seq<char> {
    let text = numeral(n);
    if text.len() < width {
        zeros((width - text.len()) as nat) + text
    } else {
        text
    }
}

/// `text` without the zeros at its end. The first character always stays.
pub open spec fn trimmed(text: Seq<char>) -> Seq<char>
    decreases text.len(),
{
    if text.len() > 1 && text.last() == '0' {
        trimmed(text.drop_last())
    } else {
        text
    }
}

/// The distance of `raw` from zero.
pub open spec fn magnitude(raw: int) -> nat {
    if raw < 0 {
        (-raw) as nat
    } else {
        raw as nat
    }
}

/// The numeral of `raw`, with a minus sign in front of it where `raw` is
/// negative.
pub open spec fn signed(raw: int) -> Seq<char> {
    if raw < 0 {
        seq!['-'] + numeral(magnitude(raw))
    } else {
        numeral(magnitude(raw))
    }
}

/// The number of fractional digits that a scale of 1, 10, 100 or 1000 leaves
/// room for. No other scale has a width.
pub open spec fn fraction_width(scale: nat) -> Option<nat> {
    if scale == 1 {
        Some(0nat)
    } else if scale == 10 {
        Some(1nat)
    } else if scale == 100 {
        Some(2nat)
    } else if scale == 1000 {
        Some(3nat)
    } else {
        None
    }
}

/// Whether a quantity of this scale has a decimal text: either its unit
/// declares a precision, or the scale is 1, 10, 100 or 1000.
pub open spec fn renders(scale: nat, precision: Option<u32>) -> bool {
    precision is Some || fraction_width(scale) is Some
}

/// The digits behind the point for a remainder `frac`.
///
/// With a declared precision the remainder is padded to that many digits and
/// keeps its zeros. Without one it is padded to the width of the scale and
/// loses the zeros at its end.
pub open spec fn fraction(frac: nat, scale: nat, precision: Option<u32>) -> Seq<char> {
    match precision {
        Some(digits) => padded(frac, digits as nat),
        None => trimmed(padded(frac, fraction_width(scale).unwrap())),
    }
}

/// The decimal text of `raw / scale`.
///
/// A minus sign where `raw` is negative, the numeral of the whole part and,
/// where the remainder is not zero, a point and the fractional digits.
pub open spec fn rendering(raw: int, scale: nat, precision: Option<u32>) -> Seq<char> {
    let sign = if raw < 0 {
        seq!['-']
    } else {
        Seq::<char>::empty()
    };
    let whole = magnitude(raw) / scale;
    let frac = magnitude(raw) % scale;
    if frac == 0 {
        sign + numeral(whole)
    } else {
        sign + numeral(whole) + seq!['.'] + fraction(frac, scale, precision)
    }
}

/// A width with room for one digit less.
pub open spec fn narrowed(width: nat) -> nat {
    if width == 0 {
        0
    } else {
        (width - 1) as nat
    }
}

/// Splitting off the last digit of a number of two or more digits shortens its
/// padded numeral by that digit.
proof fn lemma_padded_push(n: nat, width: nat)
    requires
        n >= 10,
    ensures
        padded(n, width) == padded(n / 10, narrowed(width)).push(digit(n % 10)),
{
    let head = numeral(n / 10);
    let narrow = narrowed(width);
    assert(numeral(n) == head.push(digit(n % 10)));
    if numeral(n).len() < width {
        let fill = zeros((width - numeral(n).len()) as nat);
        assert(head.len() < narrow);
        assert((narrow - head.len()) as nat == (width - numeral(n).len()) as nat);
        assert(fill + head.push(digit(n % 10)) =~= (fill + head).push(digit(n % 10)));
    } else {
        assert(!(head.len() < narrow));
    }
}

/// A numeral ends in the digit of the number's remainder by ten, and so does
/// its padded form.
proof fn lemma_padded_last(n: nat, width: nat)
    ensures
        padded(n, width).len() >= 1,
        padded(n, width).last() == digit(n % 10),
{
    let text = numeral(n);
    assert(text.len() >= 1 && text.last() == digit(n % 10)) by {
        if n >= 10 {
            assert(text == numeral(n / 10).push(digit(n % 10)));
        }
    }
    if text.len() < width {
        let fill = zeros((width - text.len()) as nat);
        assert((fill + text).last() == text.last());
    }
}

/// The magnitude of `raw` in whole units and the remainder, with the sign
/// apart: whether `raw` is negative, `|raw| / scale` and `|raw| % scale`.
pub fn parts(raw: i32, scale: u32) -> (split: (bool, u32, u32))
    requires
        scale > 0,
    ensures
        split.0 == (raw < 0),
        split.1 == magnitude(raw as int) / (scale as nat),
        split.2 == magnitude(raw as int) % (scale as nat),
{
    let magn: u32 = if raw < 0 {
        (-(raw as i64)) as u32
    } else {
        raw as u32
    };
    (raw < 0, magn / scale, magn % scale)
}

fn digit_text(d: u32) -> (text: &'static str)
    requires
        d < 10,
    ensures
        text@ == seq![digit(d as nat)],
{
    proof {
        reveal_strlit("0");
        reveal_strlit("1");
        reveal_strlit("2");
        reveal_strlit("3");
        reveal_strlit("4");
        reveal_strlit("5");
        reveal_strlit("6");
        reveal_strlit("7");
        reveal_strlit("8");
        reveal_strlit("9");
    }
    let text = if d == 0 {
        "0"
    } else if d == 1 {
        "1"
    } else if d == 2 {
        "2"
    } else if d == 3 {
        "3"
    } else if d == 4 {
        "4"
    } else if d == 5 {
        "5"
    } else if d == 6 {
        "6"
    } else if d == 7 {
        "7"
    } else if d == 8 {
        "8"
    } else {
        "9"
    };
    assert(text@ =~= seq![digit(d as nat)]);
    text
}

/// Appends the numeral of `n` to `out`.
pub(crate) fn push_numeral(out: &mut String, n: u32)
    ensures
        final(out)@ == old(out)@ + numeral(n as nat),
    decreases n,
{
    if n >= 10 {
        push_numeral(out, n / 10);
    }
    out.append(digit_text(n % 10));
    assert(out@ =~= old(out)@ + numeral(n as nat));
}

/// Appends the numeral of `raw` to `out`, behind a minus sign where `raw` is
/// negative.
pub(crate) fn push_signed(out: &mut String, raw: i32)
    ensures
        final(out)@ == old(out)@ + signed(raw as int),
{
    let (negative, magn, _) = parts(raw, 1);
    proof {
        reveal_strlit("-");
        assert("-"@ =~= seq!['-']);
    }
    if negative {
        out.append("-");
    }
    push_numeral(out, magn);
    assert(out@ =~= old(out)@ + signed(raw as int));
}

/// The number of digits in the numeral of `n`.
fn numeral_len(n: u32) -> (len: u32)
    ensures
        len == numeral(n as nat).len(),
{
    let mut rest: u32 = n;
    let mut len: u32 = 1;
    while rest >= 10
        invariant
            rest <= n,
            len - 1 <= n - rest,
            len + numeral(rest as nat).len() == numeral(n as nat).len() + 1,
        decreases rest,
    {
        assert(numeral(rest as nat) == numeral(rest as nat / 10).push(digit(rest as nat % 10)));
        rest = rest / 10;
        len = len + 1;
    }
    len
}

/// Appends the numeral of `n` to `out`, behind as many zeros as it takes to
/// fill `width` characters.
fn push_padded(out: &mut String, n: u32, width: u32)
    ensures
        final(out)@ == old(out)@ + padded(n as nat, width as nat),
{
    let len = numeral_len(n);
    let mut filled: u32 = len;
    proof {
        reveal_strlit("0");
    }
    while filled < width
        invariant
            len <= filled,
            filled <= width || filled == len,
            out@ == old(out)@ + zeros((filled - len) as nat),
            "0"@ == seq!['0'],
        decreases width - filled,
    {
        out.append("0");
        assert(out@ =~= old(out)@ + zeros((filled + 1 - len) as nat));
        filled = filled + 1;
    }
    let ghost before = out@;
    push_numeral(out, n);
    assert(out@ =~= old(out)@ + padded(n as nat, width as nat)) by {
        if len < width {
            assert(before == old(out)@ + zeros((width - len) as nat));
        } else {
            assert(zeros(0) =~= Seq::<char>::empty());
            assert(before =~= old(out)@);
        }
    }
}

/// Appends the numeral of `frac`, padded to `width` digits and then stripped of
/// the zeros at its end.
fn push_trimmed(out: &mut String, frac: u32, width: u32)
    requires
        frac > 0,
    ensures
        final(out)@ == old(out)@ + trimmed(padded(frac as nat, width as nat)),
{
    let mut rest: u32 = frac;
    let mut room: u32 = width;
    while rest % 10 == 0
        invariant
            rest > 0,
            trimmed(padded(rest as nat, room as nat)) == trimmed(
                padded(frac as nat, width as nat),
            ),
        decreases rest,
    {
        proof {
            let text = padded(rest as nat, room as nat);
            lemma_padded_push(rest as nat, room as nat);
            assert(text.last() == '0');
            assert(text.len() > 1);
            assert(text.drop_last() =~= padded(rest as nat / 10, narrowed(room as nat)));
        }
        rest = rest / 10;
        room = if room == 0 {
            0
        } else {
            room - 1
        };
    }
    proof {
        lemma_padded_last(rest as nat, room as nat);
    }
    push_padded(out, rest, room);
}

/// The decimal text of `raw / scale`, or `None` where the scale has none.
///
/// A unit with a declared precision always has a text. Without one, the scales
/// 1, 10, 100 and 1000 have a text and every other scale is left to the caller.
pub fn render(raw: i32, scale: u32, precision: Option<u32>) -> (text: Option<String>)
    requires
        scale > 0,
    ensures
        text is Some <==> renders(scale as nat, precision),
        text is Some ==> text->0@ == rendering(raw as int, scale as nat, precision),
{
    let width: u32 = match precision {
        Some(digits) => digits,
        None => if scale == 1 {
            0
        } else if scale == 10 {
            1
        } else if scale == 100 {
            2
        } else if scale == 1000 {
            3
        } else {
            return None;
        },
    };
    let (negative, whole, frac) = parts(raw, scale);
    let mut out = String::new();
    proof {
        reveal_strlit("-");
        reveal_strlit(".");
        assert("-"@ =~= seq!['-']);
        assert("."@ =~= seq!['.']);
    }
    if negative {
        out.append("-");
    }
    push_numeral(&mut out, whole);
    if frac > 0 {
        out.append(".");
        match precision {
            Some(_) => push_padded(&mut out, frac, width),
            None => push_trimmed(&mut out, frac, width),
        }
    }
    assert(out@ =~= rendering(raw as int, scale as nat, precision));
    Some(out)
}

} // verus!
