//! Numbers as text.

use vstd::prelude::*;
use vstd::string::StringExecFns;

verus! {

/// The character of one digit, for digits up to fifteen.
pub open spec fn digit_char(digit: nat) -> char {
    if digit == 0 {
        '0'
    } else if digit == 1 {
        '1'
    } else if digit == 2 {
        '2'
    } else if digit == 3 {
        '3'
    } else if digit == 4 {
        '4'
    } else if digit == 5 {
        '5'
    } else if digit == 6 {
        '6'
    } else if digit == 7 {
        '7'
    } else if digit == 8 {
        '8'
    } else if digit == 9 {
        '9'
    } else if digit == 10 {
        'a'
    } else if digit == 11 {
        'b'
    } else if digit == 12 {
        'c'
    } else if digit == 13 {
        'd'
    } else if digit == 14 {
        'e'
    } else {
        'f'
    }
}

/// `value` in decimal, without leading zeros; one zero for zero.
pub open spec fn decimal(value: nat) -> Seq<char>
    decreases value,
{
    if value < 10 {
        seq![digit_char(value)]
    } else {
        decimal(value / 10).push(digit_char(value % 10))
    }
}

/// `value` in hexadecimal, with small letters and without leading zeros;
/// one zero for zero.
pub open spec fn lower_hex(value: nat) -> Seq<char>
    decreases value,
{
    if value < 16 {
        seq![digit_char(value)]
    } else {
        lower_hex(value / 16).push(digit_char(value % 16))
    }
}

/// `value` in hexadecimal, with zeros in front up to four digits.
pub open spec fn lower_hex_4(value: nat) -> Seq<char> {
    if value < 0x10 {
        seq!['0', '0', '0'] + lower_hex(value)
    } else if value < 0x100 {
        seq!['0', '0'] + lower_hex(value)
    } else if value < 0x1000 {
        seq!['0'] + lower_hex(value)
    } else {
        lower_hex(value)
    }
}

/// The text of one digit.
fn digit_str(digit: u32) -> (r: &'static str)
    requires
        digit < 16,
    ensures
        r@ == seq![digit_char(digit as nat)],
{
    proof {
        reveal_strlit("0");
        reveal_strlit("1");
        reveal_strlit("2");
        reveal_strlit("3");
        reveal_strlit("4");
        reveal_strlit("5");
        reveal_strlit("6");
        reveal_strlit("7");
        reveal_strlit("8");
        reveal_strlit("9");
        reveal_strlit("a");
        reveal_strlit("b");
        reveal_strlit("c");
        reveal_strlit("d");
        reveal_strlit("e");
        reveal_strlit("f");
    }
    let r = match digit {
        0 => "0",
        1 => "1",
        2 => "2",
        3 => "3",
        4 => "4",
        5 => "5",
        6 => "6",
        7 => "7",
        8 => "8",
        9 => "9",
        10 => "a",
        11 => "b",
        12 => "c",
        13 => "d",
        14 => "e",
        _ => "f",
    };
    assert(r@ =~= seq![digit_char(digit as nat)]);
    r
}

/// Appends `value` in decimal.
pub fn push_decimal(text: &mut String, value: u32)
    ensures
        final(text)@ == old(text)@ + decimal(value as nat),
    decreases value,
{
    if value >= 10 {
        push_decimal(text, value / 10);
    }
    text.append(digit_str(value % 10));
    assert(text@ =~= old(text)@ + decimal(value as nat));
}

/// Appends `value` in hexadecimal.
pub fn push_lower_hex(text: &mut String, value: u32)
    ensures
        final(text)@ == old(text)@ + lower_hex(value as nat),
    decreases value,
{
    if value >= 16 {
        push_lower_hex(text, value / 16);
    }
    text.append(digit_str(value % 16));
    assert(text@ =~= old(text)@ + lower_hex(value as nat));
}

/// Appends `value` in hexadecimal, four digits at least.
pub fn push_lower_hex_4(text: &mut String, value: u32)
    ensures
        final(text)@ == old(text)@ + lower_hex_4(value as nat),
{
    proof {
        reveal_strlit("0");
    }
    if value < 0x1000 {
        text.append("0");
    }
    if value < 0x100 {
        text.append("0");
    }
    if value < 0x10 {
        text.append("0");
    }
    push_lower_hex(text, value);
    assert(text@ =~= old(text)@ + lower_hex_4(value as nat));
}

} // verus!
