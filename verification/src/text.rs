//! Numbers written out in decimal, and the `address:port` form of a socket.

use vstd::prelude::*;
use vstd::string::*;

verus! {

/// The character that stands for a digit.
pub open spec fn digit_char(digit: nat) -> char {
    if digit == 0 {
        '0'
    } else if digit == 1 {
        '1'
    } else if digit == 2 {
        '2'
    } else if digit == 3 {
        '3'
    } else if digit == 4 {
        '4'
    } else if digit == 5 {
        '5'
    } else if digit == 6 {
        '6'
    } else if digit == 7 {
        '7'
    } else if digit == 8 {
        '8'
    } else {
        '9'
    }
}

/// A natural number in decimal, without leading zeros.
pub open spec fn decimal(number: nat) -> Seq<char>
    decreases number,
{
    if number < 10 {
        seq![digit_char(number)]
    } else {
        decimal(number / 10).push(digit_char(number % 10))
    }
}

/// An integer in decimal, with a minus sign before a negative one.
pub open spec fn signed_decimal(number: int) -> Seq<char> {
    if number < 0 {
        seq!['-'] + decimal((-number) as nat)
    } else {
        decimal(number as nat)
    }
}

/// An address and a port as one socket name: the address, a colon, the port
/// in decimal.
pub open spec fn socket_name(address: Seq<char>, port: int) -> Seq<char> {
    address + seq![':'] + signed_decimal(port)
}

fn digit_text(digit: u64) -> (text: &'static str)
    requires
        digit < 10,
    ensures
        text@ == seq![digit_char(digit as nat)],
{
    proof {
        reveal_strlit("0");
        reveal_strlit("1");
        reveal_strlit("2");
        reveal_strlit("3");
        reveal_strlit("4");
        reveal_strlit("5");
        reveal_strlit("6");
        reveal_strlit("7");
        reveal_strlit("8");
        reveal_strlit("9");
    }
    let text = if digit == 0 {
        "0"
    } else if digit == 1 {
        "1"
    } else if digit == 2 {
        "2"
    } else if digit == 3 {
        "3"
    } else if digit == 4 {
        "4"
    } else if digit == 5 {
        "5"
    } else if digit == 6 {
        "6"
    } else if digit == 7 {
        "7"
    } else if digit == 8 {
        "8"
    } else {
        "9"
    };
    assert(text@ =~= seq![digit_char(digit as nat)]);
    text
}

/// Writes a natural number in decimal.
pub fn unsigned_to_text(number: u64) -> (text: String)
    ensures
        text@ == decimal(number as nat),
{
    let mut rest: u64 = number / 10;
    let mut text: String = String::from_str(digit_text(number % 10));
    while rest > 0
        invariant
            rest > 0 ==> decimal(number as nat) == decimal(rest as nat) + text@,
            rest == 0 ==> decimal(number as nat) == text@,
        decreases rest,
    {
        let ghost tail = text@;
        let digit = digit_text(rest % 10);
        text = String::from_str(digit).concat(text.as_str());
        proof {
            let head = seq![digit_char((rest % 10) as nat)];
            assert(text@ == head + tail);
            if rest >= 10 {
                assert(decimal(rest as nat) == decimal((rest / 10) as nat).push(
                    digit_char((rest % 10) as nat),
                ));
                assert(decimal((rest / 10) as nat).push(digit_char((rest % 10) as nat)) + tail
                    =~= decimal((rest / 10) as nat) + (head + tail));
            } else {
                assert(decimal(rest as nat) + tail =~= head + tail);
            }
        }
        rest = rest / 10;
    }
    text
}

/// Writes an integer in decimal, with a minus sign before a negative one.
pub fn int_to_text(number: i32) -> (text: String)
    ensures
        text@ == signed_decimal(number as int),
{
    if number < 0 {
        let size: u64 = (-(number as i64)) as u64;
        proof {
            reveal_strlit("-");
            assert("-"@ =~= seq!['-']);
        }
        String::from_str("-").concat(unsigned_to_text(size).as_str())
    } else {
        unsigned_to_text(number as u64)
    }
}

/// Puts an address and a port together into a socket name.
pub fn socket_text(address: &str, port: i32) -> (socket: String)
    ensures
        socket@ == socket_name(address@, port as int),
{
    proof {
        reveal_strlit(":");
        assert(":"@ =~= seq![':']);
    }
    String::from_str(address).concat(":").concat(int_to_text(port).as_str())
}

} // verus!
