//! The labels that tell the workers of one run apart: their numbers, from
//! one, written in decimal.

use vstd::prelude::*;
use vstd::string::StringExecFns;

verus! {

/// The character of the decimal digit `d`.
pub open spec fn spec_digit(d: nat) -> char {
    if d == 0 {
        '0'
    } else if d == 1 {
        '1'
    } else if d == 2 {
        '2'
    } else if d == 3 {
        '3'
    } else if d == 4 {
        '4'
    } else if d == 5 {
        '5'
    } else if d == 6 {
        '6'
    } else if d == 7 {
        '7'
    } else if d == 8 {
        '8'
    } else {
        '9'
    }
}

/// The digit that the character `c` stands for.
pub open spec fn spec_digit_value(c: char) -> nat {
    if c == '0' {
        0
    } else if c == '1' {
        1
    } else if c == '2' {
        2
    } else if c == '3' {
        3
    } else if c == '4' {
        4
    } else if c == '5' {
        5
    } else if c == '6' {
        6
    } else if c == '7' {
        7
    } else if c == '8' {
        8
    } else {
        9
    }
}

/// The number `n` written in decimal, without leading zeros.
pub open spec fn spec_decimal(n: nat) -> Seq<char>
    decreases n,
{
    if n < 10 {
        seq![spec_digit(n)]
    } else {
        spec_decimal(n / 10).push(spec_digit(n % 10))
    }
}

/// The number that the decimal digits `text` stand for.
pub open spec fn spec_decimal_value(text: Seq<char>) -> nat
    decreases text.len(),
{
    if text.len() == 0 {
        0
    } else {
        spec_decimal_value(text.drop_last()) * 10 + spec_digit_value(text.last())
    }
}

/// The label of the worker with the given index, counted from zero: its
/// number, counted from one, in decimal.
pub open spec fn spec_worker_label(index: u32) -> Seq<char> {
    spec_decimal((index + 1) as nat)
}

/// The decimal digit `d` as a string of one character.
fn digit_text(d: u64) -> (text: &'static str)
    requires
        d < 10,
    ensures
        text@ == seq![spec_digit(d as nat)],
{
    proof {
        reveal_strlit("0");
        reveal_strlit("1");
        reveal_strlit("2");
        reveal_strlit("3");
        reveal_strlit("4");
        reveal_strlit("5");
        reveal_strlit("6");
        reveal_strlit("7");
        reveal_strlit("8");
        reveal_strlit("9");
    }
    let text = if d == 0 {
        "0"
    } else if d == 1 {
        "1"
    } else if d == 2 {
        "2"
    } else if d == 3 {
        "3"
    } else if d == 4 {
        "4"
    } else if d == 5 {
        "5"
    } else if d == 6 {
        "6"
    } else if d == 7 {
        "7"
    } else if d == 8 {
        "8"
    } else {
        "9"
    };
    assert(text@ =~= seq![spec_digit(d as nat)]);
    text
}

/// The number `n` written in decimal, without leading zeros.
pub fn decimal(n: u64) -> (text: String)
    ensures
        text@ == spec_decimal(n as nat),
{
    let mut text = String::from_str(digit_text(n % 10));
    let mut rest: u64 = n / 10;
    while rest > 0
        invariant
            spec_decimal(n as nat) == if rest > 0 {
                spec_decimal(rest as nat) + text@
            } else {
                text@
            },
        decreases rest,
    {
        let digit = digit_text(rest % 10);
        proof {
            let shifted = seq![spec_digit((rest % 10) as nat)] + text@;
            if rest >= 10 {
                assert(spec_decimal(rest as nat) + text@ =~= spec_decimal((rest / 10) as nat)
                    + shifted);
            } else {
                assert(spec_decimal(rest as nat) + text@ =~= shifted);
            }
        }
        text = String::from_str(digit).concat(text.as_str());
        rest = rest / 10;
    }
    text
}

/// The label of the worker with the given index, counted from zero.
pub fn worker_label(index: u32) -> (label: String)
    ensures
        label@ == spec_worker_label(index),
{
    let number: u64 = index as u64 + 1;
    decimal(number)
}

/// The decimal digits of a number stand for that number.
pub proof fn lemma_decimal_value(n: nat)
    ensures
        spec_decimal_value(spec_decimal(n)) == n,
        spec_decimal(n).len() >= 1,
    decreases n,
{
    if n < 10 {
        let text = spec_decimal(n);
        assert(text.drop_last() =~= Seq::<char>::empty());
        assert(text.last() == spec_digit(n));
        assert(spec_decimal_value(text.drop_last()) == 0);
    } else {
        lemma_decimal_value(n / 10);
        let text = spec_decimal(n);
        assert(text.drop_last() =~= spec_decimal(n / 10));
        assert(text.last() == spec_digit(n % 10));
    }
}

/// Two workers of one run never share a label.
pub proof fn law_labels_distinct(first: u32, second: u32)
    requires
        first != second,
    ensures
        spec_worker_label(first) != spec_worker_label(second),
{
    lemma_decimal_value((first + 1) as nat);
    lemma_decimal_value((second + 1) as nat);
}

} // verus!
