//! Decimal rendering of integers as character sequences, used for date
//! strings, delegate payloads and announcement messages.

use vstd::prelude::*;

verus! {

/// The character for one decimal digit.
pub open spec fn digit_char(d: int) -> char {
    if d == 0 {
        '0'
    } else if d == 1 {
        '1'
    } else if d == 2 {
        '2'
    } else if d == 3 {
        '3'
    } else if d == 4 {
        '4'
    } else if d == 5 {
        '5'
    } else if d == 6 {
        '6'
    } else if d == 7 {
        '7'
    } else if d == 8 {
        '8'
    } else {
        '9'
    }
}

/// The decimal representation of a non-negative integer, most significant
/// digit first, with no leading zeros (a single `'0'` for zero).
pub open spec fn dec_rep(n: nat) -> Seq<char>
    decreases n,
{
    if n < 10 {
        seq![digit_char(n as int)]
    } else {
        dec_rep(n / 10) + seq![digit_char((n % 10) as int)]
    }
}

/// The decimal representation of an integer, with `'-'` in front when it is
/// negative.
pub open spec fn int_rep(n: int) -> Seq<char> {
    if n >= 0 {
        dec_rep(n as nat)
    } else {
        seq!['-'] + dec_rep((-n) as nat)
    }
}

/// `dec_rep(n)` zero-padded on the left to at least two characters.
pub open spec fn pad2_rep(n: nat) -> Seq<char> {
    if n < 10 {
        seq!['0'] + dec_rep(n)
    } else {
        dec_rep(n)
    }
}

/// `dec_rep(n)` zero-padded on the left to at least four characters.
pub open spec fn pad4_rep(n: nat) -> Seq<char> {
    if n < 10 {
        seq!['0', '0', '0'] + dec_rep(n)
    } else if n < 100 {
        seq!['0', '0'] + dec_rep(n)
    } else if n < 1000 {
        seq!['0'] + dec_rep(n)
    } else {
        dec_rep(n)
    }
}

/// Character-by-character string equality.
pub fn str_eq(a: &str, b: &str) -> (r: bool)
    ensures
        r <==> a@ == b@,
{
    let n = a.unicode_len();
    if n != b.unicode_len() {
        proof {
            assert(a@.len() != b@.len());
        }
        return false;
    }
    let mut i: usize = 0;
    while i < n
        invariant
            n == a@.len() == b@.len(),
            i <= n,
            forall|j: int| 0 <= j < i ==> a@[j] == b@[j],
        decreases n - i,
    {
        if a.get_char(i) != b.get_char(i) {
            return false;
        }
        i = i + 1;
    }
    proof {
        assert(a@ =~= b@);
    }
    true
}

/// A one-character string for the decimal digit `d`.
fn digit_str(d: u64) -> (r: &'static str)
    requires
        d < 10,
    ensures
        r@ == seq![digit_char(d as int)],
{
    proof {
        reveal_strlit("0");
        reveal_strlit("1");
        reveal_strlit("2");
        reveal_strlit("3");
        reveal_strlit("4");
        reveal_strlit("5");
        reveal_strlit("6");
        reveal_strlit("7");
        reveal_strlit("8");
        reveal_strlit("9");
    }
    let r = if d == 0 {
        "0"
    } else if d == 1 {
        "1"
    } else if d == 2 {
        "2"
    } else if d == 3 {
        "3"
    } else if d == 4 {
        "4"
    } else if d == 5 {
        "5"
    } else if d == 6 {
        "6"
    } else if d == 7 {
        "7"
    } else if d == 8 {
        "8"
    } else {
        "9"
    };
    proof {
        assert(r@ =~= seq![digit_char(d as int)]);
    }
    r
}

/// Renders `n` in decimal.
pub fn u64_string(n: u64) -> (r: String)
    ensures
        r@ == dec_rep(n as nat),
    decreases n,
{
    if n < 10 {
        let r = digit_str(n).to_owned();
        proof {
            assert(r@ =~= dec_rep(n as nat));
        }
        r
    } else {
        let mut r = u64_string(n / 10);
        r.append(digit_str(n % 10));
        proof {
            assert(r@ =~= dec_rep(n as nat));
        }
        r
    }
}

/// Renders `n` in decimal, with a leading `'-'` when it is negative.
pub fn i64_string(n: i64) -> (r: String)
    ensures
        r@ == int_rep(n as int),
{
    if n >= 0 {
        u64_string(n as u64)
    } else {
        proof {
            reveal_strlit("-");
        }
        let mut r = String::from_str("-");
        let mag: u64 = if n == i64::MIN {
            9223372036854775808u64
        } else {
            (-n) as u64
        };
        r.append(u64_string(mag).as_str());
        proof {
            assert(r@ =~= int_rep(n as int));
        }
        r
    }
}

/// Renders `n` in decimal, zero-padded to at least two digits.
pub fn pad2_string(n: u64) -> (r: String)
    ensures
        r@ == pad2_rep(n as nat),
{
    if n < 10 {
        proof {
            reveal_strlit("0");
        }
        let mut r = String::from_str("0");
        r.append(u64_string(n).as_str());
        proof {
            assert(r@ =~= pad2_rep(n as nat));
        }
        r
    } else {
        u64_string(n)
    }
}

/// Renders `n` in decimal, zero-padded to at least four digits.
pub fn pad4_string(n: u64) -> (r: String)
    ensures
        r@ == pad4_rep(n as nat),
{
    if n >= 1000 {
        u64_string(n)
    } else {
        proof {
            reveal_strlit("0");
            reveal_strlit("00");
            reveal_strlit("000");
        }
        let mut r = if n < 10 {
            String::from_str("000")
        } else if n < 100 {
            String::from_str("00")
        } else {
            String::from_str("0")
        };
        r.append(u64_string(n).as_str());
        proof {
            assert(r@ =~= pad4_rep(n as nat));
        }
        r
    }
}

} // verus!
