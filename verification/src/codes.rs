//! Construction of ANSI escape codes: decimal rendering of channel values
//! and the true-color foreground/background code strings.

use vstd::prelude::*;
use vstd::string::StringExecFns;

verus! {

/// The decimal digit character for `d` in `0..=9`.
pub open spec fn digit_char(d: int) -> char {
    if d == 0 {
        '0'
    } else if d == 1 {
        '1'
    } else if d == 2 {
        '2'
    } else if d == 3 {
        '3'
    } else if d == 4 {
        '4'
    } else if d == 5 {
        '5'
    } else if d == 6 {
        '6'
    } else if d == 7 {
        '7'
    } else if d == 8 {
        '8'
    } else {
        '9'
    }
}

/// The decimal rendering of a non-negative integer, without leading zeros.
pub open spec fn dec_str(n: int) -> Seq<char>
    decreases n,
{
    if n < 10 {
        seq![digit_char(n)]
    } else {
        dec_str(n / 10).push(digit_char(n % 10))
    }
}

fn digit_str(d: u8) -> (s: &'static str)
    requires
        d <= 9,
    ensures
        s@ == seq![digit_char(d as int)],
{
    proof {
        reveal_strlit("0");
        reveal_strlit("1");
        reveal_strlit("2");
        reveal_strlit("3");
        reveal_strlit("4");
        reveal_strlit("5");
        reveal_strlit("6");
        reveal_strlit("7");
        reveal_strlit("8");
        reveal_strlit("9");
    }
    if d == 0 {
        "0"
    } else if d == 1 {
        "1"
    } else if d == 2 {
        "2"
    } else if d == 3 {
        "3"
    } else if d == 4 {
        "4"
    } else if d == 5 {
        "5"
    } else if d == 6 {
        "6"
    } else if d == 7 {
        "7"
    } else if d == 8 {
        "8"
    } else {
        "9"
    }
}

fn append_u8_decimal(s: &mut String, n: u8)
    ensures
        final(s)@ == old(s)@ + dec_str(n as int),
{
    if n >= 100 {
        s.append(digit_str(n / 100));
        s.append(digit_str((n / 10) % 10));
        s.append(digit_str(n % 10));
        proof {
            let ni = n as int;
            vstd::arithmetic::div_mod::lemma_div_denominator(ni, 10, 10);
            assert(dec_str(ni) == dec_str(ni / 10).push(digit_char(ni % 10)));
            assert(dec_str(ni / 10) == dec_str((ni / 10) / 10).push(digit_char((ni / 10) % 10)));
            assert(dec_str(ni / 100) == seq![digit_char(ni / 100)]);
            assert(s@ =~= old(s)@ + dec_str(ni));
        }
    } else if n >= 10 {
        s.append(digit_str(n / 10));
        s.append(digit_str(n % 10));
        proof {
            let ni = n as int;
            assert(dec_str(ni) == dec_str(ni / 10).push(digit_char(ni % 10)));
            assert(dec_str(ni / 10) == seq![digit_char(ni / 10)]);
            assert(s@ =~= old(s)@ + dec_str(ni));
        }
    } else {
        s.append(digit_str(n));
        proof {
            assert(s@ =~= old(s)@ + dec_str(n as int));
        }
    }
}

/// The true-color foreground code for the given channels.
pub open spec fn fg_rgb_code(r: int, g: int, b: int) -> Seq<char> {
    "\x1b[38;2;"@ + dec_str(r) + ";"@ + dec_str(g) + ";"@ + dec_str(b) + "m"@
}

/// The true-color background code for the given channels.
pub open spec fn bg_rgb_code(r: int, g: int, b: int) -> Seq<char> {
    "\x1b[48;2;"@ + dec_str(r) + ";"@ + dec_str(g) + ";"@ + dec_str(b) + "m"@
}

/// Builds the true-color foreground escape code for `(r, g, b)`.
pub fn rgb_code(r: u8, g: u8, b: u8) -> (code: String)
    ensures
        code@ == fg_rgb_code(r as int, g as int, b as int),
{
    let mut code = "\x1b[38;2;".to_owned();
    append_u8_decimal(&mut code, r);
    code.append(";");
    append_u8_decimal(&mut code, g);
    code.append(";");
    append_u8_decimal(&mut code, b);
    code.append("m");
    proof {
        assert(code@ =~= fg_rgb_code(r as int, g as int, b as int));
    }
    code
}

/// Builds the true-color background escape code for `(r, g, b)`.
pub fn bg_code(r: u8, g: u8, b: u8) -> (code: String)
    ensures
        code@ == bg_rgb_code(r as int, g as int, b as int),
{
    let mut code = "\x1b[48;2;".to_owned();
    append_u8_decimal(&mut code, r);
    code.append(";");
    append_u8_decimal(&mut code, g);
    code.append(";");
    append_u8_decimal(&mut code, b);
    code.append("m");
    proof {
        assert(code@ =~= bg_rgb_code(r as int, g as int, b as int));
    }
    code
}

} // verus!
