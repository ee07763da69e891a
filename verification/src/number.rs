//! Unsigned numbers in decimal notation.

use vstd::prelude::*;

verus! {

/// Whether a character is one of the ten decimal digits.
pub open spec fn is_digit(c: char) -> bool {
    '0' <= c <= '9'
}

/// The number that a row of decimal digits stands for.
pub open spec fn digits_value(digits: Seq<char>) -> nat
    decreases digits.len(),
{
    if digits.len() == 0 {
        0
    } else {
        digits_value(digits.drop_last()) * 10 + (digits.last() as nat - '0' as nat) as nat
    }
}

/// A text without the plus sign that it may start with.
pub open spec fn without_plus(text: Seq<char>) -> Seq<char> {
    if text.len() > 0 && text[0] == '+' {
        text.skip(1)
    } else {
        text
    }
}

/// The number that a text stands for: an optional plus sign and then at least one
/// digit, nothing else, with a value of at most `max`.
pub open spec fn parsed(text: Seq<char>, max: nat) -> Option<nat> {
    let digits = without_plus(text);
    if digits.len() > 0 && (forall|i: int| 0 <= i < digits.len() ==> is_digit(#[trigger] digits[i]))
        && digits_value(digits) <= max {
        Some(digits_value(digits))
    } else {
        None
    }
}

/// The digit of a value below ten.
pub open spec fn digit(value: nat) -> char {
    ('0' as nat + value) as char
}

/// A number in decimal notation, without leading zeros.
pub open spec fn decimal_text(value: nat) -> Seq<char>
    decreases value,
{
    if value < 10 {
        seq![digit(value)]
    } else {
        decimal_text(value / 10).push(digit(value % 10))
    }
}

proof fn lemma_digits_value_grows(digits: Seq<char>, i: int)
    requires
        0 <= i <= digits.len(),
    ensures
        digits_value(digits.take(i)) <= digits_value(digits),
    decreases digits.len() - i,
{
    if i < digits.len() {
        assert(digits.take(i + 1).drop_last() =~= digits.take(i));
        lemma_digits_value_grows(digits, i + 1);
    } else {
        assert(digits.take(i) =~= digits);
    }
}

/// A number in decimal notation is read as that number, with a plus sign before it or
/// without, unless it is too large.
pub proof fn law_number_reads_back(value: nat, max: nat)
    ensures
        parsed(decimal_text(value), max) == (if value <= max {
            Some(value)
        } else {
            None
        }),
        parsed(seq!['+'] + decimal_text(value), max) == parsed(decimal_text(value), max),
{
    lemma_decimal_text(value);
    assert((seq!['+'] + decimal_text(value)).skip(1) =~= decimal_text(value));
}

proof fn lemma_decimal_text(value: nat)
    ensures
        decimal_text(value).len() > 0,
        forall|i: int|
            0 <= i < decimal_text(value).len() ==> is_digit(#[trigger] decimal_text(value)[i]),
        digits_value(decimal_text(value)) == value,
        decimal_text(value)[0] != '+',
    decreases value,
{
    let text = decimal_text(value);
    if value < 10 {
        assert(text.drop_last() =~= Seq::<char>::empty());
        assert(digits_value(text.drop_last()) == 0);
    } else {
        lemma_decimal_text(value / 10);
        assert(text.drop_last() =~= decimal_text(value / 10));
    }
}

/// Reads an unsigned number, which may be at most `max`.
pub fn parse_unsigned(text: &str, max: u64) -> (result: Option<u64>)
    ensures
        match result {
            Some(value) => parsed(text@, max as nat) == Some(value as nat),
            None => parsed(text@, max as nat) is None,
        },
{
    let mut rest = text.chars();
    let ghost digits = without_plus(text@);
    let mut current = rest.next();
    match current {
        Some('+') => {
            current = rest.next();
        },
        _ => {},
    }
    if current.is_none() {
        return None;
    }
    let mut value: u64 = 0;
    let ghost mut i: int = 0;
    loop
        invariant
            digits == without_plus(text@),
            digits.len() > 0,
            0 <= i <= digits.len(),
            current == (if i < digits.len() {
                Some(digits[i])
            } else {
                None::<char>
            }),
            vstd::std_specs::iter::IteratorSpec::remaining(&rest) == (if i < digits.len() {
                digits.skip(i + 1)
            } else {
                Seq::empty()
            }),
            forall|j: int| 0 <= j < i ==> is_digit(#[trigger] digits[j]),
            value == digits_value(digits.take(i)),
            value <= max,
        decreases digits.len() - i,
    {
        match current {
            None => {
                proof {
                    assert(digits.take(i) =~= digits);
                }
                return Some(value);
            },
            Some(c) => {
                if c < '0' || '9' < c {
                    return None;
                }
                let step: u64 = c as u64 - '0' as u64;
                proof {
                    assert(digits.take(i + 1).drop_last() =~= digits.take(i));
                    lemma_digits_value_grows(digits, i + 1);
                }
                let grown: u128 = value as u128 * 10 + step as u128;
                if grown > max as u128 {
                    return None;
                }
                value = grown as u64;
                current = rest.next();
                proof {
                    i = i + 1;
                }
            },
        }
    }
}

fn digit_text(value: u64) -> (result: &'static str)
    requires
        value < 10,
    ensures
        result@ == seq![digit(value as nat)],
{
    proof {
        reveal_strlit("0");
        reveal_strlit("1");
        reveal_strlit("2");
        reveal_strlit("3");
        reveal_strlit("4");
        reveal_strlit("5");
        reveal_strlit("6");
        reveal_strlit("7");
        reveal_strlit("8");
        reveal_strlit("9");
    }
    match value {
        0 => "0",
        1 => "1",
        2 => "2",
        3 => "3",
        4 => "4",
        5 => "5",
        6 => "6",
        7 => "7",
        8 => "8",
        _ => "9",
    }
}

/// Writes a number in decimal notation.
pub fn decimal(value: u64) -> (result: String)
    ensures
        result@ == decimal_text(value as nat),
    decreases value,
{
    let mut result = if value < 10 {
        String::new()
    } else {
        decimal(value / 10)
    };
    result.append(digit_text(value % 10));
    result
}

} // verus!
