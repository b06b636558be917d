//! Numbers and padding as text.

use vstd::prelude::*;

verus! {

/// The character of a decimal digit.
pub open spec fn digit_char(digit: nat) -> char {
    ('0' as nat + digit) as char
}

/// A number in decimal digits, without leading zeros.
pub open spec fn decimal(n: nat) -> Seq<char>
    decreases n,
{
    if n < 10 {
        seq![digit_char(n)]
    } else {
        decimal(n / 10).push(digit_char(n % 10))
    }
}

/// An integer in decimal digits, with a minus sign where it is negative.
pub open spec fn signed_decimal(n: int) -> Seq<char> {
    if n < 0 {
        seq!['-'] + decimal((-n) as nat)
    } else {
        decimal(n as nat)
    }
}

/// `text` brought to at least `width` characters by putting `fill` in front.
pub open spec fn padded(text: Seq<char>, width: nat, fill: char) -> Seq<char> {
    if text.len() < width {
        Seq::new((width - text.len()) as nat, |i: int| fill) + text
    } else {
        text
    }
}

/// The number that a row of decimal digits stands for.
pub open spec fn value_of(digits: Seq<char>) -> int
    decreases digits.len(),
{
    if digits.len() == 0 {
        0
    } else {
        10 * value_of(digits.drop_last()) + (digits.last() as int - '0' as int)
    }
}

/// The characters of each string.
pub open spec fn texts(strings: Seq<String>) -> Seq<Seq<char>> {
    Seq::new(strings.len(), |i: int| strings[i]@)
}

/// The text of one digit.
fn digit_text(digit: u64) -> (text: &'static str)
    requires
        digit < 10,
    ensures
        text@ == seq![digit_char(digit as nat)],
{
    proof {
        reveal_strlit("0");
        reveal_strlit("1");
        reveal_strlit("2");
        reveal_strlit("3");
        reveal_strlit("4");
        reveal_strlit("5");
        reveal_strlit("6");
        reveal_strlit("7");
        reveal_strlit("8");
        reveal_strlit("9");
    }
    match digit {
        0 => "0",
        1 => "1",
        2 => "2",
        3 => "3",
        4 => "4",
        5 => "5",
        6 => "6",
        7 => "7",
        8 => "8",
        _ => "9",
    }
}

/// Appends a number in decimal digits.
fn push_decimal(out: &mut String, n: u64)
    ensures
        final(out)@ == old(out)@ + decimal(n as nat),
    decreases n,
{
    if n >= 10 {
        push_decimal(out, n / 10);
    }
    out.append(digit_text(n % 10));
}

/// The decimal digits of a number.
pub fn decimal_text(n: u64) -> (text: String)
    ensures
        text@ == decimal(n as nat),
{
    let mut text = String::new();
    push_decimal(&mut text, n);
    text
}

/// The decimal digits of an integer, behind a minus sign where it is negative.
pub fn signed_decimal_text(n: i64) -> (text: String)
    ensures
        text@ == signed_decimal(n as int),
{
    let mut text = String::new();
    if n < 0 {
        proof {
            reveal_strlit("-");
        }
        text.append("-");
        let below_zero: u64 = (-(n + 1)) as u64;
        push_decimal(&mut text, below_zero + 1);
    } else {
        push_decimal(&mut text, n as u64);
    }
    text
}

/// Appends `piece`, preceded by as many copies of the one-character text `fill`
/// as it is short of `width` characters.
pub(crate) fn push_padded(out: &mut String, piece: &str, width: usize, fill: &str)
    requires
        fill@.len() == 1,
    ensures
        final(out)@ == old(out)@ + padded(piece@, width as nat, fill@[0]),
{
    let len: usize = piece.unicode_len();
    let ghost start = out@;
    let mut written: usize = len;
    while written < width
        invariant
            fill@.len() == 1,
            len == piece@.len(),
            len <= written,
            written <= width || written == len,
            out@ == start + Seq::new((written - len) as nat, |i: int| fill@[0]),
        decreases width - written,
    {
        out.append(fill);
        written = written + 1;
        assert(out@ =~= start + Seq::new((written - len) as nat, |i: int| fill@[0]));
    }
    out.append(piece);
    assert(out@ =~= start + padded(piece@, width as nat, fill@[0]));
}

/// Reading the digits of a number back gives the number.
pub proof fn law_decimal_reads_back(n: nat)
    ensures
        value_of(decimal(n)) == n,
        decimal(n).len() >= 1,
    decreases n,
{
    if n >= 10 {
        law_decimal_reads_back(n / 10);
        assert(decimal(n).drop_last() =~= decimal(n / 10));
    } else {
        assert(decimal(n).drop_last() =~= seq![]);
        assert(value_of(seq![]) == 0);
    }
}

/// Zeros in front of a number leave it as it is.
pub proof fn law_leading_zeros_keep_the_value(text: Seq<char>, width: nat)
    ensures
        value_of(padded(text, width, '0')) == value_of(text),
    decreases text.len(), width,
{
    if text.len() < width {
        if text.len() == 0 {
            let shorter = (width - 1) as nat;
            law_leading_zeros_keep_the_value(text, shorter);
            assert(padded(text, width, '0').drop_last() =~= padded(text, shorter, '0'));
        } else {
            let shorter = (width - 1) as nat;
            law_leading_zeros_keep_the_value(text.drop_last(), shorter);
            assert(padded(text, width, '0').drop_last() =~= padded(
                text.drop_last(),
                shorter,
                '0',
            ));
        }
    }
}

/// The digits of a number: all of them from 0 to 9, none of them a leading zero,
/// and together worth the number.
pub proof fn law_decimal_is_plain_digits(n: nat)
    ensures
        forall|k: int| 0 <= k < decimal(n).len() ==> '0' <= #[trigger] decimal(n)[k] <= '9',
        decimal(n).len() > 1 ==> decimal(n)[0] != '0',
        decimal(n).len() == 1 <==> n < 10,
        value_of(decimal(n)) == n,
    decreases n,
{
    law_decimal_reads_back(n);
    if n >= 10 {
        law_decimal_is_plain_digits(n / 10);
        law_decimal_reads_back(n / 10);
        if decimal(n / 10).len() == 1 {
            assert(decimal(n / 10)[0] == digit_char(n / 10));
        }
    }
}

/// A digit put behind a row of digits is worth itself and makes the rest worth ten
/// times as much; no digits are worth nothing.
pub proof fn law_each_digit_counts_tenfold(digits: Seq<char>, last: char)
    ensures
        value_of(seq![]) == 0,
        value_of(digits.push(last)) == 10 * value_of(digits) + (last as int - '0' as int),
{
    assert(digits.push(last).drop_last() =~= digits);
}

/// An integer is written with a minus sign exactly if it is negative, and behind
/// the sign, if any, stand the plain digits of its size.
pub proof fn law_signed_decimal_is_sign_and_size(n: int)
    ensures
        ({
            let text = signed_decimal(n);
            &&& text.len() >= 1
            &&& text[0] == '-' <==> n < 0
            &&& forall|k: int| 1 <= k < text.len() ==> '0' <= #[trigger] text[k] <= '9'
            &&& n >= 0 ==> '0' <= text[0] <= '9'
            &&& n < 0 ==> text.len() >= 2 && text[1] != '0'
            &&& n >= 0 && text.len() > 1 ==> text[0] != '0'
            &&& n < 0 ==> value_of(text.skip(1)) == -n
            &&& n >= 0 ==> value_of(text) == n
        }),
{
    let size = if n < 0 {
        (-n) as nat
    } else {
        n as nat
    };
    let text = signed_decimal(n);
    let digits = decimal(size);
    law_decimal_is_plain_digits(size);
    law_decimal_reads_back(size);
    assert('0' <= digits[0] <= '9');
    if n < 0 {
        assert(text.skip(1) =~= digits);
        assert forall|k: int| 1 <= k < text.len() implies '0' <= #[trigger] text[k] <= '9' by {
            assert(text[k] == digits[k - 1]);
        }
        assert(digits.len() == 1 ==> digits[0] == digit_char(size));
        assert(text[1] == digits[0]);
    }
}

/// Padding brings a text to the width or leaves it as long as it is: the text is
/// at the end, and all that stands before it is fill.
pub proof fn law_padding_goes_in_front(text: Seq<char>, width: nat, fill: char)
    ensures
        ({
            let out = padded(text, width, fill);
            let front = out.len() - text.len();
            &&& out.len() >= text.len()
            &&& out.len() >= width
            &&& out.len() == text.len() || out.len() == width
            &&& out.skip(front) == text
            &&& forall|k: int| 0 <= k < front ==> #[trigger] out[k] == fill
        }),
{
    let out = padded(text, width, fill);
    assert(out.skip(out.len() - text.len()) =~= text);
}

/// The texts of strings are the characters of each, in order.
pub proof fn law_texts_are_the_strings(strings: Seq<String>, i: int)
    requires
        0 <= i < strings.len(),
    ensures
        texts(strings).len() == strings.len(),
        texts(strings)[i] == strings[i]@,
{
}

} // verus!
