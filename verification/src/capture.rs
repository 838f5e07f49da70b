//! Names for the image files in which rendered frames are kept.

use vstd::prelude::*;
use vstd::string::StringExecFns;

verus! {

/// The character of one decimal digit.
pub open spec fn digit_char(digit: int) -> char {
    if digit == 0 {
        '0'
    } else if digit == 1 {
        '1'
    } else if digit == 2 {
        '2'
    } else if digit == 3 {
        '3'
    } else if digit == 4 {
        '4'
    } else if digit == 5 {
        '5'
    } else if digit == 6 {
        '6'
    } else if digit == 7 {
        '7'
    } else if digit == 8 {
        '8'
    } else {
        '9'
    }
}

/// A number written in base ten, without leading zeros.
pub open spec fn decimal_digits(number: nat) -> Seq<char>
    decreases number,
{
    if number < 10 {
        seq![digit_char(number as int)]
    } else {
        decimal_digits(number / 10).push(digit_char((number % 10) as int))
    }
}

/// A number written in base ten and filled up with zeros in front to at
/// least `width` digits.
pub open spec fn zero_padded(number: nat, width: nat) -> Seq<char> {
    let digits = decimal_digits(number);
    if digits.len() >= width {
        digits
    } else {
        Seq::new((width - digits.len()) as nat, |i: int| '0') + digits
    }
}

/// The path of the file for a frame, relative to the project: the frame's
/// number in at least three digits, in the directory `capture`, as a PNG.
pub open spec fn frame_path(nth: nat) -> Seq<char> {
    "capture/"@ + zero_padded(nth, 3) + ".png"@
}

/// One decimal digit as text.
fn digit_text(digit: u8) -> (text: &'static str)
    requires
        digit < 10,
    ensures
        text@ == seq![digit_char(digit as int)],
{
    proof {
        reveal_strlit("0");
        reveal_strlit("1");
        reveal_strlit("2");
        reveal_strlit("3");
        reveal_strlit("4");
        reveal_strlit("5");
        reveal_strlit("6");
        reveal_strlit("7");
        reveal_strlit("8");
        reveal_strlit("9");
    }
    let text = if digit == 0 {
        "0"
    } else if digit == 1 {
        "1"
    } else if digit == 2 {
        "2"
    } else if digit == 3 {
        "3"
    } else if digit == 4 {
        "4"
    } else if digit == 5 {
        "5"
    } else if digit == 6 {
        "6"
    } else if digit == 7 {
        "7"
    } else if digit == 8 {
        "8"
    } else {
        "9"
    };
    assert(text@ =~= seq![digit_char(digit as int)]);
    text
}

/// Appends a number in base ten to a text.
fn append_decimal(text: &mut String, number: u64)
    ensures
        final(text)@ == old(text)@ + decimal_digits(number as nat),
    decreases number,
{
    if number >= 10 {
        append_decimal(text, number / 10);
    }
    text.append(digit_text((number % 10) as u8));
    assert(text@ =~= old(text)@ + decimal_digits(number as nat));
}

/// The relative path of the file in which frame number `nth` is kept.
pub fn captured_frame_path(nth: u64) -> (path: String)
    ensures
        path@ == frame_path(nth as nat),
{
    let mut path = String::from_str("capture/");
    if nth < 10 {
        path.append("00");
    } else if nth < 100 {
        path.append("0");
    }
    let ghost prefix = path@;
    append_decimal(&mut path, nth);
    proof {
        reveal_strlit("00");
        reveal_strlit("0");
        let digits = decimal_digits(nth as nat);
        if nth < 10 {
        } else if nth < 100 {
            assert(decimal_digits(nth as nat / 10).len() == 1);
        } else {
            assert(decimal_digits(nth as nat / 10 / 10).len() >= 1);
            assert(decimal_digits(nth as nat / 10).len() >= 2);
        }
        assert(path@ =~= "capture/"@ + zero_padded(nth as nat, 3));
    }
    path.append(".png");
    path
}

} // verus!
