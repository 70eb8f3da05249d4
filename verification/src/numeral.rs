//! Decimal numerals: the specification of a number's decimal rendering and
//! an executable routine that appends it to a string.

use vstd::prelude::*;
use vstd::string::StringExecFns;

verus! {

/// The character for a single decimal digit.
pub open spec fn dec_digit(d: nat) -> char {
    if d == 0 {
        '0'
    } else if d == 1 {
        '1'
    } else if d == 2 {
        '2'
    } else if d == 3 {
        '3'
    } else if d == 4 {
        '4'
    } else if d == 5 {
        '5'
    } else if d == 6 {
        '6'
    } else if d == 7 {
        '7'
    } else if d == 8 {
        '8'
    } else {
        '9'
    }
}

/// The decimal numeral of `n`, most significant digit first, with no sign
/// and no leading zeros (zero itself is rendered as "0").
pub open spec fn dec_str(n: nat) -> Seq<char>
    decreases n,
{
    if n < 10 {
        seq![dec_digit(n)]
    } else {
        dec_str(n / 10).push(dec_digit(n % 10))
    }
}

/// Appends the character of the single digit `d` to `out`.
fn push_digit(out: &mut String, d: u32)
    requires
        d < 10,
    ensures
        final(out)@ == old(out)@ + seq![dec_digit(d as nat)],
{
    proof {
        reveal_strlit("0");
        reveal_strlit("1");
        reveal_strlit("2");
        reveal_strlit("3");
        reveal_strlit("4");
        reveal_strlit("5");
        reveal_strlit("6");
        reveal_strlit("7");
        reveal_strlit("8");
        reveal_strlit("9");
    }
    if d == 0 {
        out.append("0");
        assert("0"@ =~= seq![dec_digit(0)]);
    } else if d == 1 {
        out.append("1");
        assert("1"@ =~= seq![dec_digit(1)]);
    } else if d == 2 {
        out.append("2");
        assert("2"@ =~= seq![dec_digit(2)]);
    } else if d == 3 {
        out.append("3");
        assert("3"@ =~= seq![dec_digit(3)]);
    } else if d == 4 {
        out.append("4");
        assert("4"@ =~= seq![dec_digit(4)]);
    } else if d == 5 {
        out.append("5");
        assert("5"@ =~= seq![dec_digit(5)]);
    } else if d == 6 {
        out.append("6");
        assert("6"@ =~= seq![dec_digit(6)]);
    } else if d == 7 {
        out.append("7");
        assert("7"@ =~= seq![dec_digit(7)]);
    } else if d == 8 {
        out.append("8");
        assert("8"@ =~= seq![dec_digit(8)]);
    } else {
        out.append("9");
        assert("9"@ =~= seq![dec_digit(9)]);
    }
}

/// Appends the decimal numeral of `n` to `out`.
pub fn push_dec_u32(out: &mut String, n: u32)
    ensures
        final(out)@ == old(out)@ + dec_str(n as nat),
    decreases n,
{
    if n < 10 {
        push_digit(out, n);
    } else {
        push_dec_u32(out, n / 10);
        push_digit(out, n % 10);
        proof {
            assert(dec_str(n as nat) =~= dec_str(n as nat / 10) + seq![
                dec_digit(n as nat % 10),
            ]);
            assert(n as nat / 10 == (n / 10) as nat);
            assert(n as nat % 10 == (n % 10) as nat);
            assert(out@ =~= old(out)@ + dec_str(n as nat));
        }
    }
}

} // verus!
