//! Numbers as text, for the messages that name them.
use vstd::prelude::*;
use vstd::string::*;

verus! {

/// The character that stands for a digit.
pub open spec fn digit_char(digit: nat) -> char {
    if digit == 0 {
        '0'
    } else if digit == 1 {
        '1'
    } else if digit == 2 {
        '2'
    } else if digit == 3 {
        '3'
    } else if digit == 4 {
        '4'
    } else if digit == 5 {
        '5'
    } else if digit == 6 {
        '6'
    } else if digit == 7 {
        '7'
    } else if digit == 8 {
        '8'
    } else {
        '9'
    }
}

/// A number in decimal digits, without leading zeros.
pub open spec fn decimal_text(number: nat) -> Seq<char>
    decreases number,
{
    if number < 10 {
        seq![digit_char(number)]
    } else {
        decimal_text(number / 10).push(digit_char(number % 10))
    }
}

/// The text of one digit.
fn digit_text(digit: u8) -> (text: &'static str)
    requires
        digit < 10,
    ensures
        text@ == seq![digit_char(digit as nat)],
{
    proof {
        reveal_strlit("0");
        reveal_strlit("1");
        reveal_strlit("2");
        reveal_strlit("3");
        reveal_strlit("4");
        reveal_strlit("5");
        reveal_strlit("6");
        reveal_strlit("7");
        reveal_strlit("8");
        reveal_strlit("9");
    }
    let text: &'static str = if digit == 0 {
        "0"
    } else if digit == 1 {
        "1"
    } else if digit == 2 {
        "2"
    } else if digit == 3 {
        "3"
    } else if digit == 4 {
        "4"
    } else if digit == 5 {
        "5"
    } else if digit == 6 {
        "6"
    } else if digit == 7 {
        "7"
    } else if digit == 8 {
        "8"
    } else {
        "9"
    };
    proof {
        assert(text@ =~= seq![digit_char(digit as nat)]);
    }
    text
}

/// Appends `number` in decimal digits to `text`.
pub fn append_decimal(text: &mut String, number: u64)
    ensures
        final(text)@ == old(text)@ + decimal_text(number as nat),
{
    let mut digits: Vec<u8> = Vec::new();
    let mut rest: u64 = number;
    while rest >= 10
        invariant
            forall|k: int| 0 <= k < digits@.len() ==> digits@[k] < 10,
            decimal_text(number as nat) == decimal_text(rest as nat) + Seq::new(
                digits@.len(),
                |k: int| digit_char(digits@[digits@.len() - 1 - k] as nat),
            ),
        decreases rest,
    {
        let ghost before = digits@;
        digits.push((rest % 10) as u8);
        proof {
            let tail = Seq::new(
                before.len(),
                |k: int| digit_char(before[before.len() - 1 - k] as nat),
            );
            let next = Seq::new(
                digits@.len(),
                |k: int| digit_char(digits@[digits@.len() - 1 - k] as nat),
            );
            assert(next =~= seq![digit_char((rest % 10) as nat)] + tail);
            assert(decimal_text(rest as nat) == decimal_text((rest / 10) as nat).push(
                digit_char((rest % 10) as nat),
            ));
            assert(decimal_text((rest / 10) as nat) + next =~= decimal_text(rest as nat) + tail);
        }
        rest = rest / 10;
    }
    text.append(digit_text(rest as u8));
    let ghost written = old(text)@ + decimal_text(rest as nat);
    let mut i: usize = digits.len();
    proof {
        assert(text@ =~= written);
    }
    while i > 0
        invariant
            i <= digits@.len(),
            forall|k: int| 0 <= k < digits@.len() ==> digits@[k] < 10,
            text@ == old(text)@ + decimal_text(rest as nat) + Seq::new(
                (digits@.len() - i) as nat,
                |k: int| digit_char(digits@[digits@.len() - 1 - k] as nat),
            ),
        decreases i,
    {
        i -= 1;
        text.append(digit_text(digits[i]));
        proof {
            assert(text@ =~= old(text)@ + decimal_text(rest as nat) + Seq::new(
                (digits@.len() - i) as nat,
                |k: int| digit_char(digits@[digits@.len() - 1 - k] as nat),
            ));
        }
    }
    proof {
        assert(text@ =~= old(text)@ + decimal_text(number as nat));
    }
}

} // verus!
