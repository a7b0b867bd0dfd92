//! Rendering of machine words as text, for diagnostic lines written from
//! trap handlers: hexadecimal for addresses and error codes, decimal for
//! counts.

use vstd::prelude::*;
use vstd::string::StringExecFns;

verus! {

/// The character of one digit value below sixteen.
pub open spec fn spec_digit(d: int) -> char {
    if d == 0 {
        '0'
    } else if d == 1 {
        '1'
    } else if d == 2 {
        '2'
    } else if d == 3 {
        '3'
    } else if d == 4 {
        '4'
    } else if d == 5 {
        '5'
    } else if d == 6 {
        '6'
    } else if d == 7 {
        '7'
    } else if d == 8 {
        '8'
    } else if d == 9 {
        '9'
    } else if d == 10 {
        'a'
    } else if d == 11 {
        'b'
    } else if d == 12 {
        'c'
    } else if d == 13 {
        'd'
    } else if d == 14 {
        'e'
    } else {
        'f'
    }
}

/// The hexadecimal digits of a value, most significant first, with no
/// leading zeros except for the value zero itself.
pub open spec fn spec_hex(v: nat) -> Seq<char>
    decreases v,
{
    if v < 16 {
        seq![spec_digit(v as int)]
    } else {
        spec_hex(v / 16) + seq![spec_digit((v % 16) as int)]
    }
}

/// The decimal digits of a value, most significant first, with no leading
/// zeros except for the value zero itself.
pub open spec fn spec_decimal(v: nat) -> Seq<char>
    decreases v,
{
    if v < 10 {
        seq![spec_digit(v as int)]
    } else {
        spec_decimal(v / 10) + seq![spec_digit((v % 10) as int)]
    }
}

/// The one-character string of a digit value below sixteen.
fn digit_str(d: u8) -> (r: &'static str)
    requires
        d < 16,
    ensures
        r@ == seq![spec_digit(d as int)],
{
    let r: &'static str = match d {
        0 => "0",
        1 => "1",
        2 => "2",
        3 => "3",
        4 => "4",
        5 => "5",
        6 => "6",
        7 => "7",
        8 => "8",
        9 => "9",
        10 => "a",
        11 => "b",
        12 => "c",
        13 => "d",
        14 => "e",
        _ => "f",
    };
    proof {
        reveal_strlit("0");
        reveal_strlit("1");
        reveal_strlit("2");
        reveal_strlit("3");
        reveal_strlit("4");
        reveal_strlit("5");
        reveal_strlit("6");
        reveal_strlit("7");
        reveal_strlit("8");
        reveal_strlit("9");
        reveal_strlit("a");
        reveal_strlit("b");
        reveal_strlit("c");
        reveal_strlit("d");
        reveal_strlit("e");
        reveal_strlit("f");
        assert(r@ =~= seq![spec_digit(d as int)]);
    }
    r
}

/// Renders a value in hexadecimal, without a radix prefix.
pub fn u64_to_hex(v: u64) -> (r: String)
    ensures
        r@ == spec_hex(v as nat),
    decreases v,
{
    let d = (v % 16) as u8;
    if v < 16 {
        String::from_str(digit_str(d))
    } else {
        let mut s = u64_to_hex(v / 16);
        s.append(digit_str(d));
        s
    }
}

/// Renders a value in decimal.
pub fn u64_to_decimal(v: u64) -> (r: String)
    ensures
        r@ == spec_decimal(v as nat),
    decreases v,
{
    let d = (v % 10) as u8;
    if v < 10 {
        String::from_str(digit_str(d))
    } else {
        let mut s = u64_to_decimal(v / 10);
        s.append(digit_str(d));
        s
    }
}

} // verus!
