//! Decimal text for the integer-valued gauges.
//!
//! `spec_i64_text` is the mathematical definition of how a signed integer is
//! written in base ten; `i64_text` produces exactly that text.

use vstd::prelude::*;

verus! {

/// The character for a single decimal digit.
pub open spec fn digit_char(d: int) -> char {
    if d == 0 {
        '0'
    } else if d == 1 {
        '1'
    } else if d == 2 {
        '2'
    } else if d == 3 {
        '3'
    } else if d == 4 {
        '4'
    } else if d == 5 {
        '5'
    } else if d == 6 {
        '6'
    } else if d == 7 {
        '7'
    } else if d == 8 {
        '8'
    } else {
        '9'
    }
}

/// Base-ten text of a non-negative integer, most significant digit first.
pub open spec fn spec_nat_text(n: int) -> Seq<char>
    decreases n,
{
    if n < 10 {
        seq![digit_char(n)]
    } else {
        spec_nat_text(n / 10) + seq![digit_char(n % 10)]
    }
}

/// Base-ten text of a signed integer: a minus sign for negative values,
/// no decimal point, no leading zeros.
pub open spec fn spec_i64_text(n: int) -> Seq<char> {
    if n < 0 {
        seq!['-'] + spec_nat_text(-n)
    } else {
        spec_nat_text(n)
    }
}

/// A one-character string for the digit `d`.
fn digit_str(d: u64) -> (r: &'static str)
    requires
        d < 10,
    ensures
        r@ == seq![digit_char(d as int)],
{
    proof {
        reveal_strlit("0");
        reveal_strlit("1");
        reveal_strlit("2");
        reveal_strlit("3");
        reveal_strlit("4");
        reveal_strlit("5");
        reveal_strlit("6");
        reveal_strlit("7");
        reveal_strlit("8");
        reveal_strlit("9");
    }
    let r = if d == 0 {
        "0"
    } else if d == 1 {
        "1"
    } else if d == 2 {
        "2"
    } else if d == 3 {
        "3"
    } else if d == 4 {
        "4"
    } else if d == 5 {
        "5"
    } else if d == 6 {
        "6"
    } else if d == 7 {
        "7"
    } else if d == 8 {
        "8"
    } else {
        "9"
    };
    proof {
        assert(r@ =~= seq![digit_char(d as int)]);
    }
    r
}

/// Base-ten text of a non-negative value.
pub fn u64_text(n: u64) -> (r: String)
    ensures
        r@ == spec_nat_text(n as int),
    decreases n,
{
    if n < 10 {
        digit_str(n).to_owned()
    } else {
        let mut s = u64_text(n / 10);
        s.append(digit_str(n % 10));
        proof {
            assert(s@ =~= spec_nat_text(n as int));
        }
        s
    }
}

/// Base-ten text of a signed value.
pub fn i64_text(n: i64) -> (r: String)
    ensures
        r@ == spec_i64_text(n as int),
{
    if n >= 0 {
        u64_text(n as u64)
    } else {
        let m: u64 = ((-(n + 1)) as u64) + 1;
        assert(m as int == -(n as int));
        let mut s = "-".to_owned();
        proof {
            reveal_strlit("-");
        }
        s.append(u64_text(m).as_str());
        proof {
            assert(s@ =~= spec_i64_text(n as int));
        }
        s
    }
}

/// Every character of an integer's text is a digit or a leading minus sign,
/// so the text never contains a newline or a space.
pub proof fn lemma_nat_text_digits(n: int)
    requires
        n >= 0,
    ensures
        spec_nat_text(n).len() > 0,
        forall|i: int|
            0 <= i < spec_nat_text(n).len() ==> crate::is_digit(#[trigger] spec_nat_text(n)[i]),
    decreases n,
{
    if n >= 10 {
        lemma_nat_text_digits(n / 10);
    }
}

} // verus!
