//! Text of error messages: numbers written in hexadecimal and in decimal.

use vstd::prelude::*;

verus! {

/// The character of a hexadecimal digit `0..16`, upper case.
pub open spec fn hex_char(n: u8) -> char {
    match n {
        0 => '0',
        1 => '1',
        2 => '2',
        3 => '3',
        4 => '4',
        5 => '5',
        6 => '6',
        7 => '7',
        8 => '8',
        9 => '9',
        10 => 'A',
        11 => 'B',
        12 => 'C',
        13 => 'D',
        14 => 'E',
        _ => 'F',
    }
}

/// A byte in upper-case hexadecimal, without leading zeros.
pub open spec fn upper_hex(b: u8) -> Seq<char> {
    if b < 16 {
        seq![hex_char(b)]
    } else {
        seq![hex_char(b / 16), hex_char(b % 16)]
    }
}

/// A number in decimal, without leading zeros.
pub open spec fn decimal(n: nat) -> Seq<char>
    decreases n,
{
    if n < 10 {
        seq![hex_char(n as u8)]
    } else {
        decimal(n / 10).push(hex_char((n % 10) as u8))
    }
}

/// The one-character text of a digit `0..16`.
fn digit_text(n: u8) -> (r: &'static str)
    requires
        n < 16,
    ensures
        r@ == seq![hex_char(n)],
{
    match n {
        0 => {
            proof {
                reveal_strlit("0");
            }
            "0"
        },
        1 => {
            proof {
                reveal_strlit("1");
            }
            "1"
        },
        2 => {
            proof {
                reveal_strlit("2");
            }
            "2"
        },
        3 => {
            proof {
                reveal_strlit("3");
            }
            "3"
        },
        4 => {
            proof {
                reveal_strlit("4");
            }
            "4"
        },
        5 => {
            proof {
                reveal_strlit("5");
            }
            "5"
        },
        6 => {
            proof {
                reveal_strlit("6");
            }
            "6"
        },
        7 => {
            proof {
                reveal_strlit("7");
            }
            "7"
        },
        8 => {
            proof {
                reveal_strlit("8");
            }
            "8"
        },
        9 => {
            proof {
                reveal_strlit("9");
            }
            "9"
        },
        10 => {
            proof {
                reveal_strlit("A");
            }
            "A"
        },
        11 => {
            proof {
                reveal_strlit("B");
            }
            "B"
        },
        12 => {
            proof {
                reveal_strlit("C");
            }
            "C"
        },
        13 => {
            proof {
                reveal_strlit("D");
            }
            "D"
        },
        14 => {
            proof {
                reveal_strlit("E");
            }
            "E"
        },
        _ => {
            proof {
                reveal_strlit("F");
            }
            "F"
        },
    }
}

/// The prefix followed by the byte in upper-case hexadecimal, without
/// leading zeros.
pub fn with_hex(prefix: &str, b: u8) -> (r: String)
    ensures
        r@ == prefix@ + upper_hex(b),
{
    let mut r = prefix.to_owned();
    if b < 16 {
        r.append(digit_text(b));
    } else {
        r.append(digit_text(b / 16));
        r.append(digit_text(b % 16));
        assert(r@ =~= prefix@ + upper_hex(b));
    }
    r
}

/// Appends `n` in decimal, without leading zeros.
fn append_decimal(r: &mut String, n: usize)
    ensures
        final(r)@ == old(r)@ + decimal(n as nat),
    decreases n,
{
    if n >= 10 {
        append_decimal(r, n / 10);
    }
    r.append(digit_text((n % 10) as u8));
    assert(r@ =~= old(r)@ + decimal(n as nat));
}

/// The prefix followed by the number in decimal, without leading zeros.
pub fn with_decimal(prefix: &str, n: usize) -> (r: String)
    ensures
        r@ == prefix@ + decimal(n as nat),
{
    let mut r = prefix.to_owned();
    append_decimal(&mut r, n);
    r
}

} // verus!
