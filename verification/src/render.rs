//! Verified text rendering for diagnostics: decimal numbers and the small
//! pieces the operators' `describe` methods are built from.

use vstd::prelude::*;
use vstd::string::StringExecFns;

verus! {

/// The character for one decimal digit.
pub open spec fn dec_digit(d: nat) -> char {
    if d == 0 {
        '0'
    } else if d == 1 {
        '1'
    } else if d == 2 {
        '2'
    } else if d == 3 {
        '3'
    } else if d == 4 {
        '4'
    } else if d == 5 {
        '5'
    } else if d == 6 {
        '6'
    } else if d == 7 {
        '7'
    } else if d == 8 {
        '8'
    } else {
        '9'
    }
}

/// The decimal rendering of a number, most significant digit first, with no
/// leading zeroes (and `0` itself rendered as one digit).
pub open spec fn dec_seq(n: nat) -> Seq<char>
    decreases n,
{
    if n < 10 {
        seq![dec_digit(n)]
    } else {
        dec_seq(n / 10).push(dec_digit(n % 10))
    }
}

/// The characters of a digit stack, least significant digit last: the digits
/// were pushed low-to-high, so they are read back in reverse.
pub open spec fn stacked_digits(ds: Seq<u64>) -> Seq<char> {
    Seq::new(ds.len(), |i: int| dec_digit(ds[ds.len() - 1 - i] as nat))
}

/// One decimal digit as text.
fn dec_digit_str(d: u64) -> (s: &'static str)
    requires
        d < 10,
    ensures
        s@ == seq![dec_digit(d as nat)],
{
    proof {
        reveal_strlit("0");
        reveal_strlit("1");
        reveal_strlit("2");
        reveal_strlit("3");
        reveal_strlit("4");
        reveal_strlit("5");
        reveal_strlit("6");
        reveal_strlit("7");
        reveal_strlit("8");
        reveal_strlit("9");
    }
    let s = match d {
        0 => "0",
        1 => "1",
        2 => "2",
        3 => "3",
        4 => "4",
        5 => "5",
        6 => "6",
        7 => "7",
        8 => "8",
        _ => "9",
    };
    proof {
        assert(s@ =~= seq![dec_digit(d as nat)]);
    }
    s
}

/// Renders a number in decimal.
pub fn u64_to_dec(n: u64) -> (s: String)
    ensures
        s@ == dec_seq(n as nat),
{
    let mut digits: Vec<u64> = Vec::new();
    let mut m: u64 = n;
    loop
        invariant
            forall|i: int| 0 <= i < digits@.len() ==> digits@[i] < 10,
            m > 0 ==> dec_seq(n as nat) == dec_seq(m as nat) + stacked_digits(digits@),
            m == 0 ==> (digits@.len() > 0 && dec_seq(n as nat) == stacked_digits(digits@)) || (
            digits@.len() == 0 && n == 0),
        ensures
            digits@.len() > 0,
            dec_seq(n as nat) == stacked_digits(digits@),
            forall|i: int| 0 <= i < digits@.len() ==> digits@[i] < 10,
        decreases m, (if digits@.len() == 0 { 1int } else { 0int }),
    {
        let ghost before = digits@;
        if m == 0 && digits.len() > 0 {
            break ;
        }
        let d = m % 10;
        digits.push(d);
        proof {
            if m < 10 {
                assert(dec_seq(m as nat) =~= seq![dec_digit(m as nat)]);
                assert(stacked_digits(before.push(d)) =~= seq![dec_digit(d as nat)]
                    + stacked_digits(before));
                if m > 0 {
                    assert(dec_seq(n as nat) =~= stacked_digits(digits@));
                } else {
                    assert(n == 0);
                    assert(dec_seq(n as nat) =~= stacked_digits(digits@));
                }
            } else {
                assert(dec_seq(m as nat) == dec_seq((m as nat) / 10).push(
                    dec_digit((m as nat) % 10),
                ));
                assert((m as nat) / 10 == (m / 10) as nat);
                assert((m as nat) % 10 == d as nat);
                assert(stacked_digits(before.push(d)) =~= seq![dec_digit(d as nat)]
                    + stacked_digits(before));
                assert(dec_seq((m / 10) as nat) + stacked_digits(before.push(d)) =~= dec_seq(
                    (m / 10) as nat,
                ).push(dec_digit(d as nat)) + stacked_digits(before));
                assert(dec_seq(n as nat) == dec_seq((m / 10) as nat) + stacked_digits(
                    before.push(d),
                ));
            }
        }
        let next = m / 10;
        proof {
            if m > 0 {
                assert(m / 10 < m) by (nonlinear_arith)
                    requires
                        m > 0,
                ;
            }
        }
        m = next;
    }
    let mut s = String::new();
    let total = digits.len();
    let mut k: usize = 0;
    while k < total
        invariant
            total == digits@.len(),
            k <= total,
            forall|i: int| 0 <= i < digits@.len() ==> digits@[i] < 10,
            dec_seq(n as nat) == stacked_digits(digits@),
            s@ == stacked_digits(digits@).take(k as int),
        decreases total - k,
    {
        let ghost sofar = s@;
        let d = digits[total - 1 - k];
        s.append(dec_digit_str(d));
        proof {
            assert(stacked_digits(digits@)[k as int] == dec_digit(d as nat));
            assert(s@ =~= stacked_digits(digits@).take(k as int + 1));
        }
        k = k + 1;
    }
    proof {
        assert(stacked_digits(digits@).take(total as int) =~= stacked_digits(digits@));
    }
    s
}

} // verus!
