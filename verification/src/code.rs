//! Table codes: the short upper-case hexadecimal names under which tables are
//! registered.

use vstd::prelude::*;
use vstd::string::*;

verus! {

/// The upper-case hexadecimal digit that stands for `d`, for `d` below 16.
pub open spec fn hex_digit(d: nat) -> char {
    if d == 0 {
        '0'
    } else if d == 1 {
        '1'
    } else if d == 2 {
        '2'
    } else if d == 3 {
        '3'
    } else if d == 4 {
        '4'
    } else if d == 5 {
        '5'
    } else if d == 6 {
        '6'
    } else if d == 7 {
        '7'
    } else if d == 8 {
        '8'
    } else if d == 9 {
        '9'
    } else if d == 10 {
        'A'
    } else if d == 11 {
        'B'
    } else if d == 12 {
        'C'
    } else if d == 13 {
        'D'
    } else if d == 14 {
        'E'
    } else {
        'F'
    }
}

/// `n` written in base 16 with upper-case digits and no leading zero; zero is
/// written as the single digit `0`.
pub open spec fn upper_hex(n: nat) -> Seq<char>
    decreases n,
{
    if n < 16 {
        seq![hex_digit(n)]
    } else {
        upper_hex(n / 16).push(hex_digit(n % 16))
    }
}

/// Every number is written with at least one character, and a number of 16
/// or more with at least two.
proof fn lemma_long_numbers(n: nat)
    ensures
        upper_hex(n).len() >= 1,
        n >= 16 ==> upper_hex(n).len() >= 2,
    decreases n,
{
    if n >= 16 {
        lemma_long_numbers(n / 16);
    }
}

/// Different numbers are written differently: no two numbers share a code.
pub proof fn lemma_codes_differ(a: nat, b: nat)
    requires
        a != b,
    ensures
        upper_hex(a) != upper_hex(b),
    decreases a,
{
    if a < 16 && b < 16 {
        assert(upper_hex(a)[0] != upper_hex(b)[0]);
    } else if a < 16 {
        lemma_long_numbers(b);
    } else if b < 16 {
        lemma_long_numbers(a);
    } else {
        let front_a = upper_hex(a / 16);
        let front_b = upper_hex(b / 16);
        if a % 16 == b % 16 {
            lemma_codes_differ(a / 16, b / 16);
            if upper_hex(a) == upper_hex(b) {
                assert(front_a =~= upper_hex(a).drop_last());
                assert(front_b =~= upper_hex(b).drop_last());
            }
        } else {
            assert(upper_hex(a).last() == hex_digit(a % 16));
            assert(upper_hex(b).last() == hex_digit(b % 16));
        }
    }
}

/// The one-character string for the hexadecimal digit `d`.
fn digit_str(d: u16) -> (s: &'static str)
    requires
        d < 16,
    ensures
        s@ == seq![hex_digit(d as nat)],
{
    proof {
        reveal_strlit("0");
        reveal_strlit("1");
        reveal_strlit("2");
        reveal_strlit("3");
        reveal_strlit("4");
        reveal_strlit("5");
        reveal_strlit("6");
        reveal_strlit("7");
        reveal_strlit("8");
        reveal_strlit("9");
        reveal_strlit("A");
        reveal_strlit("B");
        reveal_strlit("C");
        reveal_strlit("D");
        reveal_strlit("E");
        reveal_strlit("F");
    }
    if d == 0 {
        "0"
    } else if d == 1 {
        "1"
    } else if d == 2 {
        "2"
    } else if d == 3 {
        "3"
    } else if d == 4 {
        "4"
    } else if d == 5 {
        "5"
    } else if d == 6 {
        "6"
    } else if d == 7 {
        "7"
    } else if d == 8 {
        "8"
    } else if d == 9 {
        "9"
    } else if d == 10 {
        "A"
    } else if d == 11 {
        "B"
    } else if d == 12 {
        "C"
    } else if d == 13 {
        "D"
    } else if d == 14 {
        "E"
    } else {
        "F"
    }
}

/// The code that the number `n` names: `n` in upper-case hexadecimal, between
/// one and four digits long.
pub fn table_code(n: u16) -> (code: String)
    ensures
        code@ == upper_hex(n as nat),
        1 <= code@.len() <= 4,
{
    let mut code = String::new();
    if n >= 4096 {
        code.append(digit_str(n / 4096));
    }
    if n >= 256 {
        code.append(digit_str((n / 256) % 16));
    }
    if n >= 16 {
        code.append(digit_str((n / 16) % 16));
    }
    code.append(digit_str(n % 16));
    proof {
        reveal_with_fuel(upper_hex, 4);
    }
    code
}

} // verus!
