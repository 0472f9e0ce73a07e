//! Decimal rendering of unsigned numbers, with a full specification:
//! plain decimal digits, zero-padded fields (the score display) and
//! hundredth-precision fixed-point fields (the frames-per-second
//! display).

use vstd::prelude::*;

verus! {

/// The digit character for one decimal digit.
pub open spec fn digit_char(d: nat) -> char
    recommends
        d < 10,
{
    if d == 0 {
        '0'
    } else if d == 1 {
        '1'
    } else if d == 2 {
        '2'
    } else if d == 3 {
        '3'
    } else if d == 4 {
        '4'
    } else if d == 5 {
        '5'
    } else if d == 6 {
        '6'
    } else if d == 7 {
        '7'
    } else if d == 8 {
        '8'
    } else {
        '9'
    }
}

/// The decimal digits of `n`, most significant first, no leading
/// zeros (zero itself is the single digit `0`).
pub open spec fn dec_str(n: nat) -> Seq<char>
    decreases n,
{
    if n < 10 {
        seq![digit_char(n)]
    } else {
        dec_str(n / 10).push(digit_char(n % 10))
    }
}

/// `dec_str(n)`, left-padded with zeros to at least `width` characters.
pub open spec fn zero_pad(n: nat, width: nat) -> Seq<char> {
    if dec_str(n).len() >= width {
        dec_str(n)
    } else {
        Seq::new((width - dec_str(n).len()) as nat, |i: int| '0') + dec_str(n)
    }
}

/// A count of hundredths shown as a fixed-point field: the whole part
/// padded to three characters, a dot, the hundredths padded to two.
pub open spec fn centi_str(centi: nat) -> Seq<char> {
    zero_pad(centi / 100, 3) + seq!['.'] + zero_pad(centi % 100, 2)
}

/// The one-character string for a decimal digit.
fn digit_str(d: u64) -> (s: &'static str)
    requires
        d < 10,
    ensures
        s@ == seq![digit_char(d as nat)],
{
    proof {
        reveal_strlit("0");
        reveal_strlit("1");
        reveal_strlit("2");
        reveal_strlit("3");
        reveal_strlit("4");
        reveal_strlit("5");
        reveal_strlit("6");
        reveal_strlit("7");
        reveal_strlit("8");
        reveal_strlit("9");
    }
    let s: &'static str = if d == 0 {
        "0"
    } else if d == 1 {
        "1"
    } else if d == 2 {
        "2"
    } else if d == 3 {
        "3"
    } else if d == 4 {
        "4"
    } else if d == 5 {
        "5"
    } else if d == 6 {
        "6"
    } else if d == 7 {
        "7"
    } else if d == 8 {
        "8"
    } else {
        "9"
    };
    proof {
        assert(s@ =~= seq![digit_char(d as nat)]);
    }
    s
}

/// The decimal digits of `n`.
pub fn dec_string(n: u64) -> (s: String)
    ensures
        s@ == dec_str(n as nat),
    decreases n,
{
    if n < 10 {
        let s = digit_str(n).to_owned();
        proof {
            assert(s@ =~= dec_str(n as nat));
        }
        s
    } else {
        let mut s = dec_string(n / 10);
        s.append(digit_str(n % 10));
        proof {
            assert(s@ =~= dec_str(n as nat));
        }
        s
    }
}

/// The decimal digits of `n`, left-padded with zeros to at least
/// `width` characters.
pub fn zero_padded_decimal(n: u64, width: usize) -> (s: String)
    ensures
        s@ == zero_pad(n as nat, width as nat),
{
    proof {
        reveal_strlit("0");
    }
    let digits = dec_string(n);
    let len = digits.as_str().unicode_len();
    if len >= width {
        digits
    } else {
        let mut s = String::new();
        let mut k: usize = 0;
        while k < width - len
            invariant
                len == dec_str(n as nat).len(),
                len < width,
                k <= width - len,
                s@ =~= Seq::new(k as nat, |i: int| '0'),
            decreases width - len - k,
        {
            s.append("0");
            proof {
                reveal_strlit("0");
                assert(s@ =~= Seq::new((k + 1) as nat, |i: int| '0'));
            }
            k = k + 1;
        }
        s.append(digits.as_str());
        proof {
            assert(s@ =~= zero_pad(n as nat, width as nat));
        }
        s
    }
}

/// A count of hundredths as a fixed-point field, such as `059.99`.
pub fn centi_string(centi: u64) -> (s: String)
    ensures
        s@ == centi_str(centi as nat),
{
    proof {
        reveal_strlit(".");
    }
    let mut s = zero_padded_decimal(centi / 100, 3);
    s.append(".");
    let frac = zero_padded_decimal(centi % 100, 2);
    s.append(frac.as_str());
    proof {
        assert(s@ =~= centi_str(centi as nat));
    }
    s
}

} // verus!
