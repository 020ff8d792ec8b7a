//! Decimal rendering of integers, for the error texts the presentation
//! surface shows.

use vstd::prelude::*;
use vstd::string::*;

verus! {

/// The character of one decimal digit.
pub open spec fn digit_char(d: int) -> char {
    if d == 0 {
        '0'
    } else if d == 1 {
        '1'
    } else if d == 2 {
        '2'
    } else if d == 3 {
        '3'
    } else if d == 4 {
        '4'
    } else if d == 5 {
        '5'
    } else if d == 6 {
        '6'
    } else if d == 7 {
        '7'
    } else if d == 8 {
        '8'
    } else {
        '9'
    }
}

/// The decimal digits of a non-negative number, most significant first.
pub open spec fn spec_decimal_nat(n: nat) -> Seq<char>
    decreases n,
{
    if n < 10 {
        seq![digit_char(n as int)]
    } else {
        spec_decimal_nat(n / 10).push(digit_char((n % 10) as int))
    }
}

/// The decimal rendering of a signed number: a minus sign ahead of the
/// digits of its magnitude.
pub open spec fn spec_decimal_i32(n: int) -> Seq<char> {
    if n < 0 {
        seq!['-'] + spec_decimal_nat((-n) as nat)
    } else {
        spec_decimal_nat(n as nat)
    }
}

/// Appends the decimal digits of `n` to `out`.
pub fn append_decimal_u32(out: &mut String, n: u32)
    ensures
        final(out)@ == old(out)@ + spec_decimal_nat(n as nat),
    decreases n,
{
    let digits = "0123456789";
    proof {
        reveal_strlit("0123456789");
    }
    if n >= 10 {
        append_decimal_u32(out, n / 10);
    }
    let d = (n % 10) as usize;
    let ghost before = out@;
    out.append(digits.substring_char(d, d + 1));
    proof {
        assert(digits@.subrange(d as int, d as int + 1) =~= seq![digit_char(d as int)]);
        assert(before + seq![digit_char(d as int)] =~= old(out)@ + spec_decimal_nat(n as nat));
    }
}

/// Appends the decimal rendering of a signed number to `out`.
pub fn append_decimal_i32(out: &mut String, n: i32)
    ensures
        final(out)@ == old(out)@ + spec_decimal_i32(n as int),
{
    if n < 0 {
        let ghost before = out@;
        out.append("-");
        proof {
            reveal_strlit("-");
            assert(out@ =~= before + seq!['-']);
        }
        let magnitude: u32 = if n == i32::MIN {
            2147483648u32
        } else {
            (-n) as u32
        };
        assert(magnitude == -(n as int));
        append_decimal_u32(out, magnitude);
        proof {
            assert(before + seq!['-'] + spec_decimal_nat(magnitude as nat) =~= before
                + spec_decimal_i32(n as int));
        }
    } else {
        append_decimal_u32(out, n as u32);
    }
}

} // verus!
