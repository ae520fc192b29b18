//! Decimal rendering of integers, as it appears in the texts the service
//! sends.

use vstd::prelude::*;
use vstd::string::*;

verus! {

/// The character that stands for the digit `d`.
pub open spec fn digit_char(d: int) -> char
    recommends
        0 <= d < 10,
{
    if d == 0 {
        '0'
    } else if d == 1 {
        '1'
    } else if d == 2 {
        '2'
    } else if d == 3 {
        '3'
    } else if d == 4 {
        '4'
    } else if d == 5 {
        '5'
    } else if d == 6 {
        '6'
    } else if d == 7 {
        '7'
    } else if d == 8 {
        '8'
    } else {
        '9'
    }
}

/// The decimal digits of `n`, most significant first, without leading zeros;
/// zero is the single digit `0`.
pub open spec fn digits(n: nat) -> Seq<char>
    decreases n,
{
    if n < 10 {
        seq![digit_char(n as int)]
    } else {
        digits(n / 10).push(digit_char((n % 10) as int))
    }
}

/// The decimal text of an integer: a minus sign for a negative number, then
/// the digits of its magnitude.
pub open spec fn decimal(i: int) -> Seq<char> {
    if i < 0 {
        seq!['-'] + digits((-i) as nat)
    } else {
        digits(i as nat)
    }
}

/// The digits of a number are at least one, and each is a digit.
pub proof fn lemma_digits_are_digits(n: nat)
    ensures
        digits(n).len() >= 1,
        forall|i: int| 0 <= i < digits(n).len() ==> '0' <= #[trigger] digits(n)[i] <= '9',
    decreases n,
{
    if n >= 10 {
        lemma_digits_are_digits(n / 10);
    }
}

/// Different numbers have different digits.
pub proof fn lemma_digits_differ(a: nat, b: nat)
    requires
        digits(a) == digits(b),
    ensures
        a == b,
    decreases a,
{
    lemma_digits_are_digits(a / 10);
    lemma_digits_are_digits(b / 10);
    if a < 10 && b < 10 {
        assert(digits(a)[0] == digit_char(a as int));
        assert(digits(b)[0] == digit_char(b as int));
    } else if a >= 10 && b >= 10 {
        let high_a = digits(a / 10);
        let high_b = digits(b / 10);
        let low_a = digit_char((a % 10) as int);
        let low_b = digit_char((b % 10) as int);
        assert(digits(a) == high_a.push(low_a));
        assert(digits(b) == high_b.push(low_b));
        assert(high_a == high_b) by {
            assert(high_a.push(low_a).drop_last() =~= high_a);
            assert(high_b.push(low_b).drop_last() =~= high_b);
        }
        assert(low_a == low_b) by {
            assert(high_a.push(low_a).last() == low_a);
            assert(high_b.push(low_b).last() == low_b);
        }
        lemma_digits_differ(a / 10, b / 10);
        assert(a % 10 == b % 10);
    } else if a < 10 {
        assert(digits(a).len() == 1);
        assert(digits(b).len() == digits(b / 10).len() + 1);
    } else {
        assert(digits(b).len() == 1);
        assert(digits(a).len() == digits(a / 10).len() + 1);
    }
}

/// Different integers have different decimal texts.
pub proof fn lemma_decimal_differs(a: int, b: int)
    requires
        decimal(a) == decimal(b),
    ensures
        a == b,
{
    let sign = seq!['-'];
    if a < 0 && b < 0 {
        let digits_a = digits((-a) as nat);
        let digits_b = digits((-b) as nat);
        assert((sign + digits_a).subrange(1, 1 + digits_a.len() as int) =~= digits_a);
        assert((sign + digits_b).subrange(1, 1 + digits_b.len() as int) =~= digits_b);
        assert((sign + digits_a).len() == 1 + digits_a.len());
        assert((sign + digits_b).len() == 1 + digits_b.len());
        lemma_digits_differ((-a) as nat, (-b) as nat);
    } else if a >= 0 && b >= 0 {
        lemma_digits_differ(a as nat, b as nat);
    } else if a < 0 {
        lemma_digits_are_digits(b as nat);
        assert(decimal(a)[0] == '-');
        assert('0' <= digits(b as nat)[0]);
    } else {
        lemma_digits_are_digits(a as nat);
        assert(decimal(b)[0] == '-');
        assert('0' <= digits(a as nat)[0]);
    }
}

fn digit_text(d: u64) -> (text: &'static str)
    requires
        d < 10,
    ensures
        text@ == seq![digit_char(d as int)],
{
    let text = if d == 0 {
        "0"
    } else if d == 1 {
        "1"
    } else if d == 2 {
        "2"
    } else if d == 3 {
        "3"
    } else if d == 4 {
        "4"
    } else if d == 5 {
        "5"
    } else if d == 6 {
        "6"
    } else if d == 7 {
        "7"
    } else if d == 8 {
        "8"
    } else {
        "9"
    };
    proof {
        reveal_strlit("0");
        reveal_strlit("1");
        reveal_strlit("2");
        reveal_strlit("3");
        reveal_strlit("4");
        reveal_strlit("5");
        reveal_strlit("6");
        reveal_strlit("7");
        reveal_strlit("8");
        reveal_strlit("9");
        assert(text@ =~= seq![digit_char(d as int)]);
    }
    text
}

/// Renders an unsigned number in decimal.
pub fn u64_to_decimal(n: u64) -> (text: String)
    ensures
        text@ == digits(n as nat),
    decreases n,
{
    if n < 10 {
        digit_text(n).to_owned()
    } else {
        let mut text = u64_to_decimal(n / 10);
        text.append(digit_text(n % 10));
        assert(text@ =~= digits(n as nat));
        text
    }
}

/// Renders a signed number in decimal.
pub fn i32_to_decimal(i: i32) -> (text: String)
    ensures
        text@ == decimal(i as int),
{
    if i < 0 {
        let magnitude: u64 = (-(i as i64)) as u64;
        let mut text = "-".to_owned();
        let tail = u64_to_decimal(magnitude);
        text.append(tail.as_str());
        proof {
            reveal_strlit("-");
            assert(text@ =~= decimal(i as int));
        }
        text
    } else {
        u64_to_decimal(i as u64)
    }
}

} // verus!
