//! Decimal formatting of integers, used by the reply templates and by the
//! RFC 3339 date formatting.

use vstd::prelude::*;
use vstd::string::*;

verus! {

/// The character for one decimal digit.
pub open spec fn digit_char(d: int) -> char {
    if d == 0 {
        '0'
    } else if d == 1 {
        '1'
    } else if d == 2 {
        '2'
    } else if d == 3 {
        '3'
    } else if d == 4 {
        '4'
    } else if d == 5 {
        '5'
    } else if d == 6 {
        '6'
    } else if d == 7 {
        '7'
    } else if d == 8 {
        '8'
    } else {
        '9'
    }
}

/// Decimal representation of a natural number, most significant digit first,
/// without leading zeros (a single '0' for zero).
pub open spec fn dec_str(n: nat) -> Seq<char>
    decreases n,
{
    if n < 10 {
        seq![digit_char(n as int)]
    } else {
        dec_str(n / 10) + seq![digit_char((n % 10) as int)]
    }
}

/// Decimal representation of a signed number: a '-' sign before the digits
/// when the number is negative.
pub open spec fn dec_str_signed(n: int) -> Seq<char> {
    if n >= 0 {
        dec_str(n as nat)
    } else {
        seq!['-'] + dec_str((-n) as nat)
    }
}

/// A number padded with leading zeros to at least two digits.
pub open spec fn pad2_str(n: nat) -> Seq<char> {
    if n < 10 {
        seq!['0'] + dec_str(n)
    } else {
        dec_str(n)
    }
}

/// A number padded with leading zeros to at least four digits.
pub open spec fn pad4_str(n: nat) -> Seq<char> {
    if n < 10 {
        seq!['0', '0', '0'] + dec_str(n)
    } else if n < 100 {
        seq!['0', '0'] + dec_str(n)
    } else if n < 1000 {
        seq!['0'] + dec_str(n)
    } else {
        dec_str(n)
    }
}

fn digit_to_str(d: u64) -> (s: &'static str)
    requires
        d < 10,
    ensures
        s@ == seq![digit_char(d as int)],
{
    if d == 0 {
        proof {
            reveal_strlit("0");
            assert("0"@ =~= seq![digit_char(0)]);
        }
        "0"
    } else if d == 1 {
        proof {
            reveal_strlit("1");
            assert("1"@ =~= seq![digit_char(1)]);
        }
        "1"
    } else if d == 2 {
        proof {
            reveal_strlit("2");
            assert("2"@ =~= seq![digit_char(2)]);
        }
        "2"
    } else if d == 3 {
        proof {
            reveal_strlit("3");
            assert("3"@ =~= seq![digit_char(3)]);
        }
        "3"
    } else if d == 4 {
        proof {
            reveal_strlit("4");
            assert("4"@ =~= seq![digit_char(4)]);
        }
        "4"
    } else if d == 5 {
        proof {
            reveal_strlit("5");
            assert("5"@ =~= seq![digit_char(5)]);
        }
        "5"
    } else if d == 6 {
        proof {
            reveal_strlit("6");
            assert("6"@ =~= seq![digit_char(6)]);
        }
        "6"
    } else if d == 7 {
        proof {
            reveal_strlit("7");
            assert("7"@ =~= seq![digit_char(7)]);
        }
        "7"
    } else if d == 8 {
        proof {
            reveal_strlit("8");
            assert("8"@ =~= seq![digit_char(8)]);
        }
        "8"
    } else {
        proof {
            reveal_strlit("9");
            assert("9"@ =~= seq![digit_char(9)]);
        }
        "9"
    }
}

/// Renders an unsigned number in decimal.
pub fn u64_to_dec(n: u64) -> (s: String)
    ensures
        s@ == dec_str(n as nat),
    decreases n,
{
    let last = digit_to_str(n % 10);
    if n < 10 {
        String::from_str(last)
    } else {
        let mut s = u64_to_dec(n / 10);
        s.append(last);
        s
    }
}

/// Renders a signed number in decimal, with a leading '-' when negative.
pub fn i64_to_dec(n: i64) -> (s: String)
    ensures
        s@ == dec_str_signed(n as int),
{
    if n >= 0 {
        u64_to_dec(n as u64)
    } else {
        let abs: u64 = ((-(n + 1)) as u64) + 1;
        proof {
            assert(abs as int == -(n as int));
        }
        let mut s = String::from_str("-");
        proof {
            reveal_strlit("-");
            assert(s@ =~= seq!['-']);
        }
        let d = u64_to_dec(abs);
        s.append(d.as_str());
        proof {
            assert(s@ =~= dec_str_signed(n as int));
        }
        s
    }
}

/// Renders a number padded with leading zeros to at least two digits.
pub fn u64_to_pad2(n: u64) -> (s: String)
    ensures
        s@ == pad2_str(n as nat),
{
    let d = u64_to_dec(n);
    if n < 10 {
        let mut s = String::from_str("0");
        proof {
            reveal_strlit("0");
            assert(s@ =~= seq!['0']);
        }
        s.append(d.as_str());
        s
    } else {
        d
    }
}

/// Renders a number padded with leading zeros to at least four digits.
pub fn u64_to_pad4(n: u64) -> (s: String)
    ensures
        s@ == pad4_str(n as nat),
{
    let d = u64_to_dec(n);
    if n < 10 {
        let mut s = String::from_str("000");
        proof {
            reveal_strlit("000");
            assert(s@ =~= seq!['0', '0', '0']);
        }
        s.append(d.as_str());
        s
    } else if n < 100 {
        let mut s = String::from_str("00");
        proof {
            reveal_strlit("00");
            assert(s@ =~= seq!['0', '0']);
        }
        s.append(d.as_str());
        s
    } else if n < 1000 {
        let mut s = String::from_str("0");
        proof {
            reveal_strlit("0");
            assert(s@ =~= seq!['0']);
        }
        s.append(d.as_str());
        s
    } else {
        d
    }
}

} // verus!
