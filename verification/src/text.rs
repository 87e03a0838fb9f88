//! Decimal rendering of pin numbers for diagnostic messages.

use vstd::prelude::*;
use vstd::string::StringExecFns;

verus! {

/// The character for a single decimal digit.
pub open spec fn dec_digit(d: int) -> char {
    if d == 0 {
        '0'
    } else if d == 1 {
        '1'
    } else if d == 2 {
        '2'
    } else if d == 3 {
        '3'
    } else if d == 4 {
        '4'
    } else if d == 5 {
        '5'
    } else if d == 6 {
        '6'
    } else if d == 7 {
        '7'
    } else if d == 8 {
        '8'
    } else {
        '9'
    }
}

/// The decimal rendering of a pin number, without leading zeros.
pub open spec fn u8_dec(n: u8) -> Seq<char> {
    if n < 10 {
        seq![dec_digit(n as int)]
    } else if n < 100 {
        seq![dec_digit(n as int / 10), dec_digit(n as int % 10)]
    } else {
        seq![
            dec_digit(n as int / 100),
            dec_digit((n as int / 10) % 10),
            dec_digit(n as int % 10),
        ]
    }
}

/// The decimal rendering of an unbounded count, without leading zeros.
pub open spec fn dec_rep(n: int) -> Seq<char>
    recommends
        n >= 0,
    decreases n,
{
    if n < 10 {
        seq![dec_digit(n)]
    } else {
        dec_rep(n / 10) + seq![dec_digit(n % 10)]
    }
}

/// One decimal digit as a string slice.
fn dec_digit_str(d: u8) -> (r: &'static str)
    requires
        d < 10,
    ensures
        r@ == seq![dec_digit(d as int)],
{
    proof {
        reveal_strlit("0");
        reveal_strlit("1");
        reveal_strlit("2");
        reveal_strlit("3");
        reveal_strlit("4");
        reveal_strlit("5");
        reveal_strlit("6");
        reveal_strlit("7");
        reveal_strlit("8");
        reveal_strlit("9");
    }
    let r = match d {
        0 => "0",
        1 => "1",
        2 => "2",
        3 => "3",
        4 => "4",
        5 => "5",
        6 => "6",
        7 => "7",
        8 => "8",
        _ => "9",
    };
    proof {
        assert(r@ =~= seq![dec_digit(d as int)]);
    }
    r
}

/// Renders a frequency in decimal, without leading zeros.
pub fn u128_to_dec(n: u128) -> (r: String)
    ensures
        r@ == dec_rep(n as int),
{
    let mut s = dec_digit_str((n % 10) as u8).to_owned();
    let mut value: u128 = n / 10;
    proof {
        if value == 0 {
            assert(s@ =~= dec_rep(n as int));
        } else {
            assert(dec_rep(n as int) =~= dec_rep(value as int) + s@);
        }
    }
    while value != 0
        invariant
            if value == 0 {
                s@ == dec_rep(n as int)
            } else {
                dec_rep(n as int) == dec_rep(value as int) + s@
            },
        decreases value,
    {
        let next = String::from_str(dec_digit_str((value % 10) as u8)).concat(s.as_str());
        let rest: u128 = value / 10;
        proof {
            if rest == 0 {
                assert(dec_rep(value as int) =~= seq![dec_digit(value as int % 10)]);
                assert(next@ =~= dec_rep(value as int) + s@);
                assert(next@ =~= dec_rep(n as int));
            } else {
                assert(dec_rep(value as int) =~= dec_rep(rest as int) + seq![
                    dec_digit(value as int % 10),
                ]);
                assert(dec_rep(n as int) =~= dec_rep(rest as int) + next@);
            }
        }
        s = next;
        value = rest;
    }
    s
}

/// Renders a pin number in decimal, without leading zeros.
pub fn u8_to_dec(n: u8) -> (r: String)
    ensures
        r@ == u8_dec(n),
{
    if n < 10 {
        let mut s = String::new();
        s.append(dec_digit_str(n));
        proof {
            assert(s@ =~= u8_dec(n));
        }
        s
    } else if n < 100 {
        let mut s = String::new();
        s.append(dec_digit_str(n / 10));
        s.append(dec_digit_str(n % 10));
        proof {
            assert(s@ =~= u8_dec(n));
        }
        s
    } else {
        let mut s = String::new();
        s.append(dec_digit_str(n / 100));
        s.append(dec_digit_str((n / 10) % 10));
        s.append(dec_digit_str(n % 10));
        proof {
            assert(s@ =~= u8_dec(n));
        }
        s
    }
}

} // verus!
