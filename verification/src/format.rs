//! Decimal digits and right-aligned fields, as sequences of characters.

use vstd::prelude::*;

verus! {

/// The character that stands for a single decimal digit.
pub open spec fn digit_char(d: nat) -> char
    recommends
        d < 10,
{
    if d == 0 {
        '0'
    } else if d == 1 {
        '1'
    } else if d == 2 {
        '2'
    } else if d == 3 {
        '3'
    } else if d == 4 {
        '4'
    } else if d == 5 {
        '5'
    } else if d == 6 {
        '6'
    } else if d == 7 {
        '7'
    } else if d == 8 {
        '8'
    } else {
        '9'
    }
}

/// The decimal numeral of `n`: most significant digit first, no leading zeros.
pub open spec fn decimal(n: nat) -> Seq<char>
    decreases n,
{
    if n < 10 {
        seq![digit_char(n)]
    } else {
        decimal(n / 10).push(digit_char(n % 10))
    }
}

/// The digit that a character stands for; 0 for a character that is no digit.
pub open spec fn digit_value(c: char) -> nat {
    if c == '1' {
        1
    } else if c == '2' {
        2
    } else if c == '3' {
        3
    } else if c == '4' {
        4
    } else if c == '5' {
        5
    } else if c == '6' {
        6
    } else if c == '7' {
        7
    } else if c == '8' {
        8
    } else if c == '9' {
        9
    } else {
        0
    }
}

/// Whether `c` is one of the ten decimal digits.
pub open spec fn is_digit(c: char) -> bool {
    c == '0' || digit_value(c) > 0
}

/// The number that a row of digits reads as, most significant digit first.
pub open spec fn numeral_value(digits: Seq<char>) -> nat
    decreases digits.len(),
{
    if digits.len() == 0 {
        0
    } else {
        numeral_value(digits.drop_last()) * 10 + digit_value(digits.last())
    }
}

/// `decimal(n)` is the numeral of `n` and of no other number: it holds
/// digits only, at least one, reads as `n`, and starts with a zero only
/// where `n` is 0.
pub proof fn lemma_decimal_is_the_numeral(n: nat)
    ensures
        decimal(n).len() >= 1,
        forall|i: int| 0 <= i < decimal(n).len() ==> is_digit(#[trigger] decimal(n)[i]),
        numeral_value(decimal(n)) == n,
        n > 0 ==> decimal(n)[0] != '0',
    decreases n,
{
    if n < 10 {
        assert(numeral_value(decimal(n).drop_last()) == 0);
    } else {
        lemma_decimal_is_the_numeral(n / 10);
        assert(decimal(n).drop_last() =~= decimal(n / 10));
    }
}

/// `count` blanks.
pub open spec fn blanks(count: nat) -> Seq<char> {
    Seq::new(count, |i: int| ' ')
}

/// `text` moved to the right edge of a field of `width` characters.
/// A text that is already as wide as the field, or wider, is left as it is.
pub open spec fn right_aligned(text: Seq<char>, width: nat) -> Seq<char> {
    if text.len() >= width {
        text
    } else {
        blanks((width - text.len()) as nat) + text
    }
}

/// A right-aligned text is as wide as the field, or as the text where that is
/// wider; the text stands at its right end, and all before it is blank.
pub proof fn lemma_right_aligned_shape(text: Seq<char>, width: nat)
    ensures
        right_aligned(text, width).len() == if text.len() >= width {
            text.len()
        } else {
            width
        },
        right_aligned(text, width).skip(right_aligned(text, width).len() - text.len()) == text,
        forall|i: int|
            0 <= i < right_aligned(text, width).len() - text.len() ==> #[trigger] right_aligned(
                text,
                width,
            )[i] == ' ',
{
}

/// The digit `d` as a text of one character.
fn digit_str(d: u64) -> (text: &'static str)
    requires
        d < 10,
    ensures
        text@ == seq![digit_char(d as nat)],
{
    proof {
        reveal_strlit("0");
        reveal_strlit("1");
        reveal_strlit("2");
        reveal_strlit("3");
        reveal_strlit("4");
        reveal_strlit("5");
        reveal_strlit("6");
        reveal_strlit("7");
        reveal_strlit("8");
        reveal_strlit("9");
    }
    let text = if d == 0 {
        "0"
    } else if d == 1 {
        "1"
    } else if d == 2 {
        "2"
    } else if d == 3 {
        "3"
    } else if d == 4 {
        "4"
    } else if d == 5 {
        "5"
    } else if d == 6 {
        "6"
    } else if d == 7 {
        "7"
    } else if d == 8 {
        "8"
    } else {
        "9"
    };
    text
}

/// Writes `n` as a decimal numeral.
pub fn decimal_string(n: u64) -> (text: String)
    ensures
        text@ == decimal(n as nat),
    decreases n,
{
    if n < 10 {
        String::from_str(digit_str(n))
    } else {
        let mut text = decimal_string(n / 10);
        text.append(digit_str(n % 10));
        text
    }
}

/// Pads `text` with blanks on the left until it is `width` characters wide.
pub fn right_align(text: &str, width: usize) -> (field: String)
    ensures
        field@ == right_aligned(text@, width as nat),
{
    let len = text.unicode_len();
    let mut field = String::new();
    let mut filled: usize = len;
    while filled < width
        invariant
            len == text@.len(),
            len <= filled,
            filled <= width || filled == len,
            field@ == blanks((filled - len) as nat),
        decreases width - filled,
    {
        proof {
            reveal_strlit(" ");
        }
        field.append(" ");
        filled = filled + 1;
    }
    field.append(text);
    field
}

} // verus!
