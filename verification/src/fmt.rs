//! Decimal text for the screen: plain base-10 rendering of unsigned values,
//! and rendering of milli-scaled quantities (a voltage stored in millivolts)
//! the way the panel shows them: fractional part in up to three digits with
//! trailing zeros dropped, and no decimal point when the fraction is zero.
use vstd::prelude::*;
use vstd::string::StringExecFns;

verus! {

/// The character for one decimal digit.
pub open spec fn spec_digit(d: nat) -> char {
    if d == 0 {
        '0'
    } else if d == 1 {
        '1'
    } else if d == 2 {
        '2'
    } else if d == 3 {
        '3'
    } else if d == 4 {
        '4'
    } else if d == 5 {
        '5'
    } else if d == 6 {
        '6'
    } else if d == 7 {
        '7'
    } else if d == 8 {
        '8'
    } else {
        '9'
    }
}

/// The usual base-10 rendering of `n`, most significant digit first,
/// without leading zeros (a single '0' for zero).
pub open spec fn spec_decimal(n: nat) -> Seq<char>
    decreases n,
{
    if n < 10 {
        seq![spec_digit(n)]
    } else {
        spec_decimal(n / 10).push(spec_digit(n % 10))
    }
}

/// The rendering of a value counted in thousandths: the integer part, then,
/// unless the fraction is zero, a point and the fraction's three digits with
/// trailing zeros dropped.
pub open spec fn spec_milli(mv: nat) -> Seq<char> {
    let ip = mv / 1000;
    let f = mv % 1000;
    if f == 0 {
        spec_decimal(ip)
    } else {
        let d1 = f / 100;
        let d2 = (f / 10) % 10;
        let d3 = f % 10;
        spec_decimal(ip) + seq!['.'] + (if d3 != 0 {
            seq![spec_digit(d1 as nat), spec_digit(d2 as nat), spec_digit(d3 as nat)]
        } else if d2 != 0 {
            seq![spec_digit(d1 as nat), spec_digit(d2 as nat)]
        } else {
            seq![spec_digit(d1 as nat)]
        })
    }
}

/// One digit as a string slice.
fn digit_str(d: u8) -> (r: &'static str)
    requires
        d < 10,
    ensures
        r@ =~= seq![spec_digit(d as nat)],
{
    if d == 0 {
        let r = "0";
        proof {
            reveal_strlit("0");
        }
        r
    } else if d == 1 {
        let r = "1";
        proof {
            reveal_strlit("1");
        }
        r
    } else if d == 2 {
        let r = "2";
        proof {
            reveal_strlit("2");
        }
        r
    } else if d == 3 {
        let r = "3";
        proof {
            reveal_strlit("3");
        }
        r
    } else if d == 4 {
        let r = "4";
        proof {
            reveal_strlit("4");
        }
        r
    } else if d == 5 {
        let r = "5";
        proof {
            reveal_strlit("5");
        }
        r
    } else if d == 6 {
        let r = "6";
        proof {
            reveal_strlit("6");
        }
        r
    } else if d == 7 {
        let r = "7";
        proof {
            reveal_strlit("7");
        }
        r
    } else if d == 8 {
        let r = "8";
        proof {
            reveal_strlit("8");
        }
        r
    } else {
        let r = "9";
        proof {
            reveal_strlit("9");
        }
        r
    }
}

/// Base-10 text of `n`.
pub fn decimal_string(n: u64) -> (r: String)
    ensures
        r@ == spec_decimal(n as nat),
    decreases n,
{
    if n < 10 {
        String::from_str(digit_str(n as u8))
    } else {
        let mut s = decimal_string(n / 10);
        s.append(digit_str((n % 10) as u8));
        s
    }
}

/// Text of a milli-scaled quantity, as `spec_milli` describes it.
pub fn milli_string(mv: u32) -> (r: String)
    ensures
        r@ == spec_milli(mv as nat),
{
    let ip = (mv / 1000) as u64;
    let f = mv % 1000;
    if f == 0 {
        decimal_string(ip)
    } else {
        let d1 = (f / 100) as u8;
        let d2 = ((f / 10) % 10) as u8;
        let d3 = (f % 10) as u8;
        let mut s = decimal_string(ip);
        s.append(".");
        proof {
            reveal_strlit(".");
            assert("."@ =~= seq!['.']);
        }
        s.append(digit_str(d1));
        if d3 != 0 {
            s.append(digit_str(d2));
            s.append(digit_str(d3));
        } else if d2 != 0 {
            s.append(digit_str(d2));
        }
        proof {
            assert(s@ =~= spec_milli(mv as nat));
        }
        s
    }
}

/// Whole watts from a voltage in millivolts and a current in milliamps,
/// truncated toward zero.
pub fn watts(mv: u32, ma: u32) -> (w: u64)
    ensures
        w == (mv * ma) / 1000000,
{
    proof {
        assert((mv as int) * (ma as int) <= 0xFFFF_FFFF * 0xFFFF_FFFF) by (nonlinear_arith)
            requires
                mv <= 0xFFFF_FFFF && ma <= 0xFFFF_FFFF,
        ;
    }
    ((mv as u64) * (ma as u64)) / 1000000
}

} // verus!
