//! Decimal text of integers and of fixed-point numbers.
use vstd::prelude::*;
use vstd::string::StringExecFns;

verus! {

/// The decimal digit `d`.
pub open spec fn digit(d: int) -> char {
    seq!['0', '1', '2', '3', '4', '5', '6', '7', '8', '9'][d]
}

/// Decimal digits of `n`, without leading zeros.
pub open spec fn nat_text(n: nat) -> Seq<char>
    decreases n,
{
    if n < 10 {
        seq![digit(n as int)]
    } else {
        nat_text(n / 10) + seq![digit((n % 10) as int)]
    }
}

/// Decimal text of `n`, with a leading `-` when negative.
pub open spec fn int_text(n: int) -> Seq<char> {
    if n < 0 {
        seq!['-'] + nat_text((-n) as nat)
    } else {
        nat_text(n as nat)
    }
}

/// The fractional digits of `f` thousandths, trailing zeros dropped.
pub open spec fn frac_text(f: int) -> Seq<char> {
    if f % 100 == 0 {
        seq![digit(f / 100)]
    } else if f % 10 == 0 {
        seq![digit(f / 100), digit(f / 10 % 10)]
    } else {
        seq![digit(f / 100), digit(f / 10 % 10), digit(f % 10)]
    }
}

/// Shortest decimal text of the fixed-point number `x`: `69`, `0.17`, `-1.5`.
pub open spec fn fixed_text(x: int) -> Seq<char> {
    let a = if x < 0 {
        -x
    } else {
        x
    };
    let sign = if x < 0 {
        seq!['-']
    } else {
        Seq::<char>::empty()
    };
    let whole = sign + nat_text((a / 1000) as nat);
    if a % 1000 == 0 {
        whole
    } else {
        whole + seq!['.'] + frac_text(a % 1000)
    }
}

/// The fixed-point number `x` rounded to the nearest integer, halves away
/// from zero.
pub open spec fn round_fx(x: int) -> int {
    if x >= 0 {
        (x + 500) / 1000
    } else {
        -((-x + 500) / 1000)
    }
}

/// `x` rounded to the nearest integer, halves away from zero.
pub fn round_fixed(x: i32) -> (r: i32)
    ensures
        r == round_fx(x as int),
{
    let w = x as i64;
    let r = if w >= 0 {
        (w + 500) / 1000
    } else {
        -((-w + 500) / 1000)
    };
    r as i32
}

fn digit_str(d: u64) -> (r: &'static str)
    requires
        d < 10,
    ensures
        r@ == seq![digit(d as int)],
{
    proof {
        reveal_strlit("0");
        reveal_strlit("1");
        reveal_strlit("2");
        reveal_strlit("3");
        reveal_strlit("4");
        reveal_strlit("5");
        reveal_strlit("6");
        reveal_strlit("7");
        reveal_strlit("8");
        reveal_strlit("9");
    }
    match d {
        0 => "0",
        1 => "1",
        2 => "2",
        3 => "3",
        4 => "4",
        5 => "5",
        6 => "6",
        7 => "7",
        8 => "8",
        _ => "9",
    }
}

/// Appends the decimal digits of `n`.
pub fn push_nat(s: &mut String, n: u64)
    ensures
        final(s)@ == old(s)@ + nat_text(n as nat),
    decreases n,
{
    if n >= 10 {
        push_nat(s, n / 10);
    }
    s.append(digit_str(n % 10));
    proof {
        if n >= 10 {
            assert(final(s)@ =~= old(s)@ + nat_text(n as nat));
        } else {
            assert(final(s)@ =~= old(s)@ + nat_text(n as nat));
        }
    }
}

/// Appends the decimal text of `n`.
pub fn push_int(s: &mut String, n: i32)
    ensures
        final(s)@ == old(s)@ + int_text(n as int),
{
    if n < 0 {
        proof {
            reveal_strlit("-");
        }
        s.append("-");
        push_nat(s, (-(n as i64)) as u64);
        assert(final(s)@ =~= old(s)@ + int_text(n as int));
    } else {
        push_nat(s, n as u64);
    }
}

/// Appends the shortest decimal text of the fixed-point number `x`.
pub fn push_fixed(s: &mut String, x: i32)
    ensures
        final(s)@ == old(s)@ + fixed_text(x as int),
{
    let ghost s0 = s@;
    let a: u64 = if x < 0 {
        (-(x as i64)) as u64
    } else {
        x as u64
    };
    if x < 0 {
        proof {
            reveal_strlit("-");
        }
        s.append("-");
    }
    push_nat(s, a / 1000);
    let f = a % 1000;
    if f != 0 {
        proof {
            reveal_strlit(".");
        }
        s.append(".");
        s.append(digit_str(f / 100));
        if f % 100 != 0 {
            s.append(digit_str(f / 10 % 10));
            if f % 10 != 0 {
                s.append(digit_str(f % 10));
            }
        }
    }
    assert(s@ =~= s0 + fixed_text(x as int));
}

} // verus!
