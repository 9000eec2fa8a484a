//! Decimal rendering of unsigned integers, used by the JSON body builders.

use vstd::prelude::*;

verus! {

/// The character for a single decimal digit.
pub open spec fn dec_digit(d: nat) -> char
    recommends
        d < 10,
{
    if d == 0 {
        '0'
    } else if d == 1 {
        '1'
    } else if d == 2 {
        '2'
    } else if d == 3 {
        '3'
    } else if d == 4 {
        '4'
    } else if d == 5 {
        '5'
    } else if d == 6 {
        '6'
    } else if d == 7 {
        '7'
    } else if d == 8 {
        '8'
    } else {
        '9'
    }
}

/// The usual decimal rendering of `n`: most significant digit first,
/// no leading zeros (except for `n == 0`, rendered as "0").
pub open spec fn dec_str(n: nat) -> Seq<char>
    decreases n,
{
    if n < 10 {
        seq![dec_digit(n)]
    } else {
        dec_str(n / 10).push(dec_digit(n % 10))
    }
}

/// A rendering is one character for a small number and at least two for any
/// number of ten or more.
pub proof fn lemma_dec_str_len(n: nat)
    ensures
        n < 10 ==> dec_str(n).len() == 1,
        n >= 10 ==> dec_str(n).len() >= 2,
    decreases n,
{
    if n >= 10 {
        lemma_dec_str_len(n / 10);
    }
}

/// Distinct digits render as distinct characters.
pub proof fn lemma_dec_digit_injective(a: nat, b: nat)
    requires
        a < 10,
        b < 10,
        dec_digit(a) == dec_digit(b),
    ensures
        a == b,
{
}

/// Distinct numbers render as distinct strings.
pub proof fn lemma_dec_str_injective(m: nat, n: nat)
    requires
        dec_str(m) == dec_str(n),
    ensures
        m == n,
    decreases m,
{
    lemma_dec_str_len(m);
    lemma_dec_str_len(n);
    if m < 10 && n < 10 {
        assert(seq![dec_digit(m)][0] == dec_digit(m));
        assert(seq![dec_digit(n)][0] == dec_digit(n));
        assert(dec_str(m)[0] == dec_str(n)[0]);
        lemma_dec_digit_injective(m, n);
    } else if m >= 10 && n >= 10 {
        let sm = dec_str(m / 10);
        let sn = dec_str(n / 10);
        assert(sm.push(dec_digit(m % 10)).len() == sm.len() + 1);
        assert(sn.push(dec_digit(n % 10)).len() == sn.len() + 1);
        assert(sm.push(dec_digit(m % 10))[sm.len() as int] == dec_digit(m % 10));
        assert(sn.push(dec_digit(n % 10))[sn.len() as int] == dec_digit(n % 10));
        lemma_dec_digit_injective(m % 10, n % 10);
        assert(sm =~= sn) by {
            assert forall|i: int| 0 <= i < sm.len() implies sm[i] == sn[i] by {
                assert(sm.push(dec_digit(m % 10))[i] == sm[i]);
                assert(sn.push(dec_digit(n % 10))[i] == sn[i]);
            }
        }
        lemma_dec_str_injective(m / 10, n / 10);
    }
}

/// A one-character string slice for the digit `d`.
fn digit_str(d: u64) -> (s: &'static str)
    requires
        d < 10,
    ensures
        s@ == seq![dec_digit(d as nat)],
{
    proof {
        reveal_strlit("0");
        reveal_strlit("1");
        reveal_strlit("2");
        reveal_strlit("3");
        reveal_strlit("4");
        reveal_strlit("5");
        reveal_strlit("6");
        reveal_strlit("7");
        reveal_strlit("8");
        reveal_strlit("9");
    }
    match d {
        0 => "0",
        1 => "1",
        2 => "2",
        3 => "3",
        4 => "4",
        5 => "5",
        6 => "6",
        7 => "7",
        8 => "8",
        _ => "9",
    }
}

/// Renders `n` in decimal.
pub fn u64_to_string(n: u64) -> (s: String)
    ensures
        s@ == dec_str(n as nat),
    decreases n,
{
    let d: u64 = n % 10;
    if n < 10 {
        let mut s = String::new();
        s.append(digit_str(d));
        proof {
            assert(s@ =~= seq![dec_digit(n as nat)]);
        }
        s
    } else {
        let mut s = u64_to_string(n / 10);
        s.append(digit_str(d));
        proof {
            assert(s@ =~= dec_str((n / 10) as nat).push(dec_digit((n % 10) as nat)));
        }
        s
    }
}

} // verus!
