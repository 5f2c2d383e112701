//! Rendering numbers as text.
//!
//! The protocol's terminal messages carry an instruction count and,
//! inside failure descriptions, decimal and hexadecimal values.  The
//! spec functions here define those renderings character by character,
//! and the executable functions are proved to produce them exactly.

use vstd::prelude::*;

verus! {

use vstd::string::StringExecFns;

/// The character of one decimal digit.
pub open spec fn dec_digit(d: nat) -> char
    recommends
        d < 10,
{
    if d == 0 {
        '0'
    } else if d == 1 {
        '1'
    } else if d == 2 {
        '2'
    } else if d == 3 {
        '3'
    } else if d == 4 {
        '4'
    } else if d == 5 {
        '5'
    } else if d == 6 {
        '6'
    } else if d == 7 {
        '7'
    } else if d == 8 {
        '8'
    } else {
        '9'
    }
}

/// The character of one hexadecimal digit, lower case.
pub open spec fn hex_digit_lower(d: nat) -> char
    recommends
        d < 16,
{
    if d < 10 {
        dec_digit(d)
    } else if d == 10 {
        'a'
    } else if d == 11 {
        'b'
    } else if d == 12 {
        'c'
    } else if d == 13 {
        'd'
    } else if d == 14 {
        'e'
    } else {
        'f'
    }
}

/// The character of one hexadecimal digit, upper case.
pub open spec fn hex_digit_upper(d: nat) -> char
    recommends
        d < 16,
{
    if d < 10 {
        dec_digit(d)
    } else if d == 10 {
        'A'
    } else if d == 11 {
        'B'
    } else if d == 12 {
        'C'
    } else if d == 13 {
        'D'
    } else if d == 14 {
        'E'
    } else {
        'F'
    }
}

/// The decimal rendering of a number, most significant digit first,
/// without leading zeroes (zero itself is "0").
pub open spec fn spec_decimal(n: nat) -> Seq<char>
    decreases n,
{
    if n < 10 {
        seq![dec_digit(n)]
    } else {
        spec_decimal(n / 10).push(dec_digit(n % 10))
    }
}

/// The lower-case hexadecimal rendering of a number, without leading
/// zeroes.
pub open spec fn spec_hex_lower(n: nat) -> Seq<char>
    decreases n,
{
    if n < 16 {
        seq![hex_digit_lower(n)]
    } else {
        spec_hex_lower(n / 16).push(hex_digit_lower(n % 16))
    }
}

/// The upper-case hexadecimal rendering of a number, without leading
/// zeroes.
pub open spec fn spec_hex_upper(n: nat) -> Seq<char>
    decreases n,
{
    if n < 16 {
        seq![hex_digit_upper(n)]
    } else {
        spec_hex_upper(n / 16).push(hex_digit_upper(n % 16))
    }
}

/// One decimal digit as a string slice.
fn dec_digit_str(d: usize) -> (s: &'static str)
    requires
        d < 10,
    ensures
        s@ == seq![dec_digit(d as nat)],
{
    proof {
        reveal_strlit("0");
        reveal_strlit("1");
        reveal_strlit("2");
        reveal_strlit("3");
        reveal_strlit("4");
        reveal_strlit("5");
        reveal_strlit("6");
        reveal_strlit("7");
        reveal_strlit("8");
        reveal_strlit("9");
    }
    let s = match d {
        0 => "0",
        1 => "1",
        2 => "2",
        3 => "3",
        4 => "4",
        5 => "5",
        6 => "6",
        7 => "7",
        8 => "8",
        _ => "9",
    };
    proof {
        assert(s@ =~= seq![dec_digit(d as nat)]);
    }
    s
}

/// One hexadecimal digit as a string slice, lower case.
fn hex_digit_str_lower(d: usize) -> (s: &'static str)
    requires
        d < 16,
    ensures
        s@ == seq![hex_digit_lower(d as nat)],
{
    proof {
        reveal_strlit("a");
        reveal_strlit("b");
        reveal_strlit("c");
        reveal_strlit("d");
        reveal_strlit("e");
        reveal_strlit("f");
    }
    let s = match d {
        10 => "a",
        11 => "b",
        12 => "c",
        13 => "d",
        14 => "e",
        15 => "f",
        _ => dec_digit_str(d),
    };
    proof {
        assert(s@ =~= seq![hex_digit_lower(d as nat)]);
    }
    s
}

/// One hexadecimal digit as a string slice, upper case.
fn hex_digit_str_upper(d: usize) -> (s: &'static str)
    requires
        d < 16,
    ensures
        s@ == seq![hex_digit_upper(d as nat)],
{
    proof {
        reveal_strlit("A");
        reveal_strlit("B");
        reveal_strlit("C");
        reveal_strlit("D");
        reveal_strlit("E");
        reveal_strlit("F");
    }
    let s = match d {
        10 => "A",
        11 => "B",
        12 => "C",
        13 => "D",
        14 => "E",
        15 => "F",
        _ => dec_digit_str(d),
    };
    proof {
        assert(s@ =~= seq![hex_digit_upper(d as nat)]);
    }
    s
}

/// Render a number in decimal.
pub fn decimal_string(n: usize) -> (s: String)
    ensures
        s@ == spec_decimal(n as nat),
    decreases n,
{
    if n < 10 {
        let s = dec_digit_str(n).to_owned();
        proof {
            assert(s@ =~= spec_decimal(n as nat));
        }
        s
    } else {
        let mut s = decimal_string(n / 10);
        s.append(dec_digit_str(n % 10));
        proof {
            assert(s@ =~= spec_decimal(n as nat));
        }
        s
    }
}

/// Render a number in lower-case hexadecimal.
pub fn hex_string_lower(n: usize) -> (s: String)
    ensures
        s@ == spec_hex_lower(n as nat),
    decreases n,
{
    if n < 16 {
        let s = hex_digit_str_lower(n).to_owned();
        proof {
            assert(s@ =~= spec_hex_lower(n as nat));
        }
        s
    } else {
        let mut s = hex_string_lower(n / 16);
        s.append(hex_digit_str_lower(n % 16));
        proof {
            assert(s@ =~= spec_hex_lower(n as nat));
        }
        s
    }
}

/// Render a number in upper-case hexadecimal.
pub fn hex_string_upper(n: usize) -> (s: String)
    ensures
        s@ == spec_hex_upper(n as nat),
    decreases n,
{
    if n < 16 {
        let s = hex_digit_str_upper(n).to_owned();
        proof {
            assert(s@ =~= spec_hex_upper(n as nat));
        }
        s
    } else {
        let mut s = hex_string_upper(n / 16);
        s.append(hex_digit_str_upper(n % 16));
        proof {
            assert(s@ =~= spec_hex_upper(n as nat));
        }
        s
    }
}

} // verus!
