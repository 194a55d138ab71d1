//! Decimal rendering of integers, used for immediates, stack offsets and
//! label counters in the generated assembly text.

use vstd::prelude::*;
use vstd::string::StringExecFns;

verus! {

/// The character for one decimal digit value.
pub open spec fn dec_digit(d: nat) -> char {
    if d == 0 {
        '0'
    } else if d == 1 {
        '1'
    } else if d == 2 {
        '2'
    } else if d == 3 {
        '3'
    } else if d == 4 {
        '4'
    } else if d == 5 {
        '5'
    } else if d == 6 {
        '6'
    } else if d == 7 {
        '7'
    } else if d == 8 {
        '8'
    } else {
        '9'
    }
}

/// The usual decimal spelling of a natural number, most significant digit
/// first, with no leading zeros (except for the number zero itself).
pub open spec fn dec_chars(n: nat) -> Seq<char>
    decreases n,
{
    if n < 10 {
        seq![dec_digit(n)]
    } else {
        dec_chars(n / 10) + seq![dec_digit(n % 10)]
    }
}

/// The decimal spelling of an integer: a minus sign before the magnitude
/// of a negative number.
pub open spec fn int_chars(v: int) -> Seq<char> {
    if v < 0 {
        seq!['-'] + dec_chars((-v) as nat)
    } else {
        dec_chars(v as nat)
    }
}

pub open spec fn is_dec_digit(c: char) -> bool {
    c == '0' || c == '1' || c == '2' || c == '3' || c == '4' || c == '5' || c == '6' || c == '7'
        || c == '8' || c == '9'
}

pub proof fn lemma_dec_chars_digits(n: nat)
    ensures
        dec_chars(n).len() >= 1,
        forall|i: int| 0 <= i < dec_chars(n).len() ==> is_dec_digit(#[trigger] dec_chars(n)[i]),
    decreases n,
{
    if n >= 10 {
        lemma_dec_chars_digits(n / 10);
    }
}

/// Distinct numbers have distinct decimal spellings.
pub proof fn lemma_dec_chars_injective(a: nat, b: nat)
    requires
        dec_chars(a) == dec_chars(b),
    ensures
        a == b,
    decreases a,
{
    lemma_dec_chars_digits(a / 10);
    lemma_dec_chars_digits(b / 10);
    if a < 10 && b < 10 {
        assert(dec_chars(a) == seq![dec_digit(a)]);
        assert(dec_chars(b) == seq![dec_digit(b)]);
        assert(seq![dec_digit(a)][0] == dec_digit(a));
        assert(seq![dec_digit(b)][0] == dec_digit(b));
        assert(dec_chars(a)[0] == dec_chars(b)[0]);
        assert(dec_digit(a) == dec_digit(b));
    } else if a < 10 && b >= 10 {
        assert(dec_chars(a).len() == 1);
        assert(dec_chars(b) == dec_chars(b / 10) + seq![dec_digit(b % 10)]);
        assert(dec_chars(b).len() >= 2);
    } else if a >= 10 && b < 10 {
        assert(dec_chars(a) == dec_chars(a / 10) + seq![dec_digit(a % 10)]);
        assert(dec_chars(a).len() >= 2);
        assert(dec_chars(b).len() == 1);
    } else {
        assert(dec_chars(a) == dec_chars(a / 10) + seq![dec_digit(a % 10)]);
        assert(dec_chars(b) == dec_chars(b / 10) + seq![dec_digit(b % 10)]);
        let la = dec_chars(a).len();
        let ka = dec_chars(a / 10).len();
        assert(la == ka + 1);
        assert(dec_chars(b / 10).len() == la - 1);
        assert(dec_chars(a)[la - 1] == dec_digit(a % 10));
        assert(dec_chars(b)[la - 1] == dec_digit(b % 10));
        assert(dec_digit(a % 10) == dec_digit(b % 10));
        assert(a % 10 == b % 10);
        assert(dec_chars(a).subrange(0, la - 1) =~= dec_chars(a / 10));
        assert(dec_chars(b).subrange(0, la - 1) =~= dec_chars(b / 10));
        lemma_dec_chars_injective(a / 10, b / 10);
    }
}

fn digit_str(d: u64) -> (r: &'static str)
    requires
        d < 10,
    ensures
        r@ == seq![dec_digit(d as nat)],
{
    proof {
        reveal_strlit("0");
        reveal_strlit("1");
        reveal_strlit("2");
        reveal_strlit("3");
        reveal_strlit("4");
        reveal_strlit("5");
        reveal_strlit("6");
        reveal_strlit("7");
        reveal_strlit("8");
        reveal_strlit("9");
    }
    let r = if d == 0 {
        "0"
    } else if d == 1 {
        "1"
    } else if d == 2 {
        "2"
    } else if d == 3 {
        "3"
    } else if d == 4 {
        "4"
    } else if d == 5 {
        "5"
    } else if d == 6 {
        "6"
    } else if d == 7 {
        "7"
    } else if d == 8 {
        "8"
    } else {
        "9"
    };
    proof {
        assert(r@ =~= seq![dec_digit(d as nat)]);
    }
    r
}

/// Renders a number in decimal.
pub fn u64_to_string(n: u64) -> (r: String)
    ensures
        r@ == dec_chars(n as nat),
    decreases n,
{
    if n < 10 {
        let r = digit_str(n).to_owned();
        proof {
            assert(r@ =~= dec_chars(n as nat));
        }
        r
    } else {
        let mut s = u64_to_string(n / 10);
        s.append(digit_str(n % 10));
        proof {
            assert(s@ =~= dec_chars(n as nat));
        }
        s
    }
}

/// Renders a signed number in decimal, with a leading minus sign when it
/// is negative.
pub fn isize_to_string(n: isize) -> (r: String)
    ensures
        r@ == int_chars(n as int),
{
    if n >= 0 {
        let r = u64_to_string(n as u64);
        proof {
            assert(r@ =~= int_chars(n as int));
        }
        r
    } else {
        let wide: i128 = -(n as i128);
        let mag: u64 = wide as u64;
        let mut s = String::from_str("-");
        s.append(u64_to_string(mag).as_str());
        proof {
            reveal_strlit("-");
            assert(s@ =~= int_chars(n as int));
        }
        s
    }
}

} // verus!
