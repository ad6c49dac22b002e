//! Decimal rendering of integers, used by the diff builders.

use vstd::prelude::*;
use crate::text::chars_to_string;

verus! {

/// The digit character for a value below ten.
pub open spec fn digit_char(d: int) -> char {
    if d == 0 {
        '0'
    } else if d == 1 {
        '1'
    } else if d == 2 {
        '2'
    } else if d == 3 {
        '3'
    } else if d == 4 {
        '4'
    } else if d == 5 {
        '5'
    } else if d == 6 {
        '6'
    } else if d == 7 {
        '7'
    } else if d == 8 {
        '8'
    } else {
        '9'
    }
}

/// The decimal digits of a natural number, most significant first.
pub open spec fn dec_digits(n: nat) -> Seq<char>
    decreases n,
{
    if n < 10 {
        seq![digit_char(n as int)]
    } else {
        dec_digits(n / 10).push(digit_char((n % 10) as int))
    }
}

/// The decimal rendering of a signed integer.
pub open spec fn dec_int(v: int) -> Seq<char> {
    if v < 0 {
        seq!['-'] + dec_digits((-v) as nat)
    } else {
        dec_digits(v as nat)
    }
}

fn digit_of(d: u64) -> (c: char)
    requires
        d < 10,
    ensures
        c == digit_char(d as int),
{
    if d == 0 {
        '0'
    } else if d == 1 {
        '1'
    } else if d == 2 {
        '2'
    } else if d == 3 {
        '3'
    } else if d == 4 {
        '4'
    } else if d == 5 {
        '5'
    } else if d == 6 {
        '6'
    } else if d == 7 {
        '7'
    } else if d == 8 {
        '8'
    } else {
        '9'
    }
}

/// The decimal digits of an unsigned value, as characters.
pub fn u64_dec_chars(n: u64) -> (r: Vec<char>)
    ensures
        r@ == dec_digits(n as nat),
{
    let mut acc: Vec<char> = Vec::new();
    let mut m: u64 = n;
    if m == 0 {
        acc.push('0');
        return acc;
    }
    proof {
        assert(dec_digits(n as nat) =~= dec_digits(n as nat) + acc@);
    }
    while m > 0
        invariant
            m > 0 ==> dec_digits(n as nat) == dec_digits(m as nat) + acc@,
            m == 0 ==> dec_digits(n as nat) == acc@,
        decreases m,
    {
        let ghost acc0 = acc@;
        let d = m % 10;
        acc.insert(0, digit_of(d));
        proof {
            let dc = digit_char((m % 10) as int);
            assert(acc@ =~= seq![dc] + acc0);
            if m >= 10 {
                assert(dec_digits(m as nat) =~= dec_digits((m as nat) / 10) + seq![dc]);
                assert((m / 10) as nat == (m as nat) / 10);
                assert((dec_digits((m / 10) as nat) + seq![dc]) + acc0 =~= dec_digits(
                    (m / 10) as nat,
                ) + (seq![dc] + acc0));
                assert(dec_digits(n as nat) == dec_digits((m / 10) as nat) + acc@);
            } else {
                assert(dec_digits(m as nat) =~= seq![dc]);
                assert(seq![dc] + acc0 =~= dec_digits(m as nat) + acc0);
                assert(dec_digits(n as nat) == acc@);
            }
        }
        m = m / 10;
    }
    acc
}

/// The decimal rendering of an unsigned value.
pub fn u64_to_dec_string(n: u64) -> (r: String)
    ensures
        r@ == dec_digits(n as nat),
{
    let chars = u64_dec_chars(n);
    chars_to_string(&chars)
}

/// The decimal rendering of a signed value.
pub fn i64_to_dec_string(v: i64) -> (r: String)
    ensures
        r@ == dec_int(v as int),
{
    if v >= 0 {
        let chars = u64_dec_chars(v as u64);
        chars_to_string(&chars)
    } else {
        let mag: u64 = if v == i64::MIN {
            9223372036854775808u64
        } else {
            (-v) as u64
        };
        proof {
            assert(mag as nat == (-(v as int)) as nat);
        }
        let mut chars = u64_dec_chars(mag);
        chars.insert(0, '-');
        proof {
            assert(chars@ =~= dec_int(v as int));
        }
        chars_to_string(&chars)
    }
}

} // verus!
