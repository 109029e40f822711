//! Rendering of numbers into text.
//!
//! The spec functions say what a number looks like; the executable functions
//! append exactly that to a `String`.

use vstd::arithmetic::div_mod::lemma_div_denominator;
use vstd::arithmetic::power::{lemma_pow0, lemma_pow_positive, pow};
use vstd::prelude::*;
use vstd::string::*;

verus! {

/// The character of the decimal digit `digit`.
pub open spec fn digit_char(digit: nat) -> char {
    ('0' as nat + digit) as char
}

/// The decimal numeral of `value`, without leading zeros.
pub open spec fn decimal(value: nat) -> Seq<char>
    decreases value,
{
    if value < 10 {
        seq![digit_char(value)]
    } else {
        decimal(value / 10).push(digit_char(value % 10))
    }
}

/// The last `width` digits of `value`, most significant first, in the base
/// whose digits are the characters of `alphabet`.
pub open spec fn numeral(value: nat, alphabet: Seq<char>, width: nat) -> Seq<char>
    decreases width,
{
    if width == 0 {
        Seq::empty()
    } else {
        numeral(value / alphabet.len(), alphabet, (width - 1) as nat).push(
            alphabet[(value % alphabet.len()) as int],
        )
    }
}

/// An optional number as `Some(7)` or `None`.
pub open spec fn option_text(value: Option<u64>) -> Seq<char> {
    match value {
        Some(number) => "Some("@ + decimal(number as nat) + ")"@,
        None => "None"@,
    }
}

/// The one-character text of a decimal digit.
fn digit_text(digit: u8) -> (text: &'static str)
    requires
        digit < 10,
    ensures
        text@ == seq![digit_char(digit as nat)],
{
    proof {
        reveal_strlit("0");
        reveal_strlit("1");
        reveal_strlit("2");
        reveal_strlit("3");
        reveal_strlit("4");
        reveal_strlit("5");
        reveal_strlit("6");
        reveal_strlit("7");
        reveal_strlit("8");
        reveal_strlit("9");
    }
    match digit {
        0 => "0",
        1 => "1",
        2 => "2",
        3 => "3",
        4 => "4",
        5 => "5",
        6 => "6",
        7 => "7",
        8 => "8",
        _ => "9",
    }
}

/// Appends the decimal numeral of `value` to `out`.
pub fn push_decimal(out: &mut String, value: u128)
    ensures
        final(out)@ == old(out)@ + decimal(value as nat),
    decreases value,
{
    let ghost before = out@;
    if value >= 10 {
        push_decimal(out, value / 10);
        let last: u8 = (value % 10) as u8;
        out.append(digit_text(last));
        assert(out@ =~= before + decimal(value as nat));
    } else {
        out.append(digit_text(value as u8));
    }
}

/// Appends `Some(value)` or `None` to `out`.
pub fn push_option(out: &mut String, value: Option<u64>)
    ensures
        final(out)@ == old(out)@ + option_text(value),
{
    let ghost before = out@;
    match value {
        Some(number) => {
            out.append("Some(");
            push_decimal(out, number as u128);
            out.append(")");
        },
        None => {
            out.append("None");
        },
    }
    assert(out@ =~= before + option_text(value));
}

/// The number that a text of decimal digits reads as.
pub open spec fn read_decimal(digits: Seq<char>) -> int
    decreases digits.len(),
{
    if digits.len() == 0 {
        0
    } else {
        10 * read_decimal(digits.drop_last()) + (digits.last() as int - '0' as int)
    }
}

/// A decimal numeral reads as the number it was written for. It is made of
/// digits alone, and does not begin with a zero unless it is that one digit.
pub proof fn lemma_decimal_reads_back(value: nat)
    ensures
        read_decimal(decimal(value)) == value,
        decimal(value).len() > 0,
        forall|i: int| 0 <= i < decimal(value).len() ==> '0' <= #[trigger] decimal(value)[i] <= '9',
        decimal(value)[0] == '0' ==> decimal(value).len() == 1,
        decimal(value)[0] == '0' ==> value == 0,
    decreases value,
{
    reveal_with_fuel(read_decimal, 2);
    if value >= 10 {
        let front = decimal(value / 10);
        lemma_decimal_reads_back(value / 10);
        assert(decimal(value).drop_last() =~= front);
        assert(decimal(value)[0] == front[0]);
        assert forall|i: int| 0 <= i < decimal(value).len() implies '0' <= #[trigger] decimal(
            value,
        )[i] <= '9' by {
            if i < front.len() {
                assert(decimal(value)[i] == front[i]);
            }
        }
    } else {
        assert(decimal(value).drop_last() =~= Seq::empty());
    }
}

/// Different numbers have different numerals.
pub proof fn lemma_decimal_tells_apart(left: nat, right: nat)
    requires
        decimal(left) == decimal(right),
    ensures
        left == right,
{
    lemma_decimal_reads_back(left);
    lemma_decimal_reads_back(right);
}

/// Each digit of a numeral of fixed width is the one of its place: counted
/// from the right, digit `k` of `value` is `value / base^k % base`.
pub proof fn lemma_numeral_by_place(value: nat, alphabet: Seq<char>, width: nat)
    requires
        alphabet.len() > 0,
    ensures
        numeral(value, alphabet, width).len() == width,
        forall|i: int|
            0 <= i < width ==> #[trigger] numeral(value, alphabet, width)[i] == alphabet[value as int
                / pow(alphabet.len() as int, (width - 1 - i) as nat) % alphabet.len() as int],
    decreases width,
{
    if width > 0 {
        let base = alphabet.len() as int;
        let front = numeral(value / alphabet.len(), alphabet, (width - 1) as nat);
        lemma_numeral_by_place(value / alphabet.len(), alphabet, (width - 1) as nat);
        assert forall|i: int| 0 <= i < width implies #[trigger] numeral(value, alphabet, width)[i]
            == alphabet[value as int / pow(base, (width - 1 - i) as nat) % base] by {
            if i == width - 1 {
                lemma_pow0(base);
            } else {
                let place = (width - 2 - i) as nat;
                assert(numeral(value, alphabet, width)[i] == front[i]);
                reveal(pow);
                lemma_pow_positive(base, place);
                assert(pow(base, (width - 1 - i) as nat) == base * pow(base, place));
                lemma_div_denominator(value as int, base, pow(base, place));
            }
        }
    }
}

/// The pieces of `frame` with `parts` set between them in turn.
pub open spec fn woven(frame: Seq<Seq<char>>, parts: Seq<Seq<char>>) -> Seq<char>
    decreases parts.len(),
{
    if parts.len() == 0 {
        frame[0]
    } else {
        woven(frame, parts.drop_last()) + parts.last() + frame[parts.len() as int]
    }
}

/// Whether two texts are the same but for their parts, which stand in the same
/// places of each in the same order.
pub open spec fn same_but_for_parts(
    left: Seq<char>,
    left_parts: Seq<Seq<char>>,
    right: Seq<char>,
    right_parts: Seq<Seq<char>>,
) -> bool {
    exists|frame: Seq<Seq<char>>|
        {
            &&& frame.len() == left_parts.len() + 1
            &&& frame.len() == right_parts.len() + 1
            &&& left == #[trigger] woven(frame, left_parts)
            &&& right == woven(frame, right_parts)
        }
}

/// A frame with one part.
pub(crate) proof fn lemma_woven_one(p0: Seq<char>, a: Seq<char>, p1: Seq<char>)
    ensures
        woven(seq![p0, p1], seq![a]) == p0 + a + p1,
{
    reveal_with_fuel(woven, 2);
    assert(seq![a].drop_last() =~= seq![]);
}

/// A frame with two parts.
pub(crate) proof fn lemma_woven_two(
    p0: Seq<char>,
    a: Seq<char>,
    p1: Seq<char>,
    b: Seq<char>,
    p2: Seq<char>,
)
    ensures
        woven(seq![p0, p1, p2], seq![a, b]) == p0 + a + p1 + b + p2,
{
    reveal_with_fuel(woven, 3);
    assert(seq![a, b].drop_last() =~= seq![a]);
    assert(seq![a].drop_last() =~= seq![]);
}

/// A frame with three parts.
pub(crate) proof fn lemma_woven_three(
    p0: Seq<char>,
    a: Seq<char>,
    p1: Seq<char>,
    b: Seq<char>,
    p2: Seq<char>,
    c: Seq<char>,
    p3: Seq<char>,
)
    ensures
        woven(seq![p0, p1, p2, p3], seq![a, b, c]) == p0 + a + p1 + b + p2 + c + p3,
{
    reveal_with_fuel(woven, 4);
    assert(seq![a, b, c].drop_last() =~= seq![a, b]);
    assert(seq![a, b].drop_last() =~= seq![a]);
    assert(seq![a].drop_last() =~= seq![]);
}

/// A frame with four parts.
pub(crate) proof fn lemma_woven_four(
    p0: Seq<char>,
    a: Seq<char>,
    p1: Seq<char>,
    b: Seq<char>,
    p2: Seq<char>,
    c: Seq<char>,
    p3: Seq<char>,
    d: Seq<char>,
    p4: Seq<char>,
)
    ensures
        woven(seq![p0, p1, p2, p3, p4], seq![a, b, c, d]) == p0 + a + p1 + b + p2 + c + p3 + d + p4,
{
    reveal_with_fuel(woven, 5);
    assert(seq![a, b, c, d].drop_last() =~= seq![a, b, c]);
    assert(seq![a, b, c].drop_last() =~= seq![a, b]);
    assert(seq![a, b].drop_last() =~= seq![a]);
    assert(seq![a].drop_last() =~= seq![]);
}

/// A frame with five parts.
pub(crate) proof fn lemma_woven_five(
    p0: Seq<char>,
    a: Seq<char>,
    p1: Seq<char>,
    b: Seq<char>,
    p2: Seq<char>,
    c: Seq<char>,
    p3: Seq<char>,
    d: Seq<char>,
    p4: Seq<char>,
    e: Seq<char>,
    p5: Seq<char>,
)
    ensures
        woven(seq![p0, p1, p2, p3, p4, p5], seq![a, b, c, d, e]) == p0 + a + p1 + b + p2 + c + p3
            + d + p4 + e + p5,
{
    reveal_with_fuel(woven, 6);
    assert(seq![a, b, c, d, e].drop_last() =~= seq![a, b, c, d]);
    assert(seq![a, b, c, d].drop_last() =~= seq![a, b, c]);
    assert(seq![a, b, c].drop_last() =~= seq![a, b]);
    assert(seq![a, b].drop_last() =~= seq![a]);
    assert(seq![a].drop_last() =~= seq![]);
}

/// Two optional numbers that are there are written alike but for the number,
/// and one that is there is not written like one that is not.
pub proof fn lemma_options_differ_in_their_number(left: u64, right: u64)
    ensures
        same_but_for_parts(
            option_text(Some(left)),
            seq![decimal(left as nat)],
            option_text(Some(right)),
            seq![decimal(right as nat)],
        ),
        option_text(Some(left)) != option_text(None),
{
    reveal_strlit("Some(");
    reveal_strlit("None");
    lemma_woven_one("Some("@, decimal(left as nat), ")"@);
    lemma_woven_one("Some("@, decimal(right as nat), ")"@);
    assert(option_text(Some(left))[0] == 'S');
    assert(option_text(None)[0] == 'N');
}

} // verus!
