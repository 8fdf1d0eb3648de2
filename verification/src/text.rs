//! Decimal text.

use vstd::prelude::*;

verus! {

/// The character of a digit.
pub open spec fn digit(d: int) -> char {
    if d == 0 {
        '0'
    } else if d == 1 {
        '1'
    } else if d == 2 {
        '2'
    } else if d == 3 {
        '3'
    } else if d == 4 {
        '4'
    } else if d == 5 {
        '5'
    } else if d == 6 {
        '6'
    } else if d == 7 {
        '7'
    } else if d == 8 {
        '8'
    } else {
        '9'
    }
}

/// A number in decimal, without leading zeros.
pub open spec fn decimal(n: nat) -> Seq<char>
    decreases n,
{
    if n < 10 {
        seq![digit(n as int)]
    } else {
        decimal(n / 10).push(digit((n % 10) as int))
    }
}

/// The lowest `width` digits of a number, padded with zeros on the left.
pub open spec fn padded(n: nat, width: nat) -> Seq<char>
    decreases width,
{
    if width == 0 {
        Seq::empty()
    } else {
        padded(n / 10, (width - 1) as nat).push(digit((n % 10) as int))
    }
}

fn digit_str(d: u128) -> (s: &'static str)
    requires
        d < 10,
    ensures
        s@ == seq![digit(d as int)],
{
    proof {
        reveal_strlit("0");
        reveal_strlit("1");
        reveal_strlit("2");
        reveal_strlit("3");
        reveal_strlit("4");
        reveal_strlit("5");
        reveal_strlit("6");
        reveal_strlit("7");
        reveal_strlit("8");
        reveal_strlit("9");
    }
    let s = match d {
        0 => "0",
        1 => "1",
        2 => "2",
        3 => "3",
        4 => "4",
        5 => "5",
        6 => "6",
        7 => "7",
        8 => "8",
        _ => "9",
    };
    assert(s@ =~= seq![digit(d as int)]);
    s
}

/// Writes a number in decimal.
pub fn decimal_string(n: u128) -> (s: String)
    ensures
        s@ == decimal(n as nat),
    decreases n,
{
    if n < 10 {
        let s = digit_str(n).to_owned();
        s
    } else {
        let mut s = decimal_string(n / 10);
        let last = digit_str(n % 10);
        s.append(last);
        assert(s@ =~= decimal(n as nat));
        s
    }
}

/// Distinct numbers have distinct decimal texts.
pub proof fn lemma_decimal_injective(a: nat, b: nat)
    requires
        decimal(a) == decimal(b),
    ensures
        a == b,
    decreases a,
{
    let s = decimal(a);
    assert(s.last() == digit((a % 10) as int));
    assert(s.last() == digit((b % 10) as int));
    assert(a % 10 == b % 10);
    if a < 10 {
        assert(s.len() == 1);
        lemma_decimal_not_empty(b / 10);
    } else {
        lemma_decimal_not_empty(a / 10);
        assert(b >= 10);
        assert(s.drop_last() =~= decimal(a / 10));
        assert(s.drop_last() =~= decimal(b / 10));
        lemma_decimal_injective(a / 10, b / 10);
    }
}

proof fn lemma_decimal_not_empty(n: nat)
    ensures
        decimal(n).len() > 0,
{
}

} // verus!
