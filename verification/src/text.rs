//! Decimal rendering of integers.

use vstd::prelude::*;
use vstd::string::StringExecFns;

verus! {

/// The character of a decimal digit.
pub open spec fn digit_char(d: nat) -> char
    recommends
        d < 10,
{
    ('0' as nat + d) as char
}

/// The decimal digits of a natural number, most significant first, without
/// leading zeros.
pub open spec fn digits(n: nat) -> Seq<char>
    decreases n,
{
    if n < 10 {
        seq![digit_char(n)]
    } else {
        digits(n / 10).push(digit_char(n % 10))
    }
}

/// The decimal form of an integer, with a leading `-` when it is negative.
pub open spec fn decimal(n: int) -> Seq<char> {
    if n < 0 {
        seq!['-'] + digits((-n) as nat)
    } else {
        digits(n as nat)
    }
}

/// The one-character string of a decimal digit.
fn digit_str(d: u32) -> (s: &'static str)
    requires
        d < 10,
    ensures
        s@ == seq![digit_char(d as nat)],
{
    proof {
        reveal_strlit("0");
        reveal_strlit("1");
        reveal_strlit("2");
        reveal_strlit("3");
        reveal_strlit("4");
        reveal_strlit("5");
        reveal_strlit("6");
        reveal_strlit("7");
        reveal_strlit("8");
        reveal_strlit("9");
    }
    match d {
        0 => "0",
        1 => "1",
        2 => "2",
        3 => "3",
        4 => "4",
        5 => "5",
        6 => "6",
        7 => "7",
        8 => "8",
        _ => "9",
    }
}

/// Appends the decimal digits of `m` to `s`.
fn push_digits(s: &mut String, m: u32)
    ensures
        final(s)@ == old(s)@ + digits(m as nat),
    decreases m,
{
    if m >= 10 {
        push_digits(s, m / 10);
    }
    s.append(digit_str(m % 10));
    assert(s@ =~= old(s)@ + digits(m as nat));
}

/// The decimal form of `n`, as `{}` prints an `i32`.
pub fn decimal_string(n: i32) -> (s: String)
    ensures
        s@ == decimal(n as int),
{
    let mut s = String::new();
    if n < 0 {
        s.append("-");
        proof {
            reveal_strlit("-");
        }
        let magnitude: u32 = (0i64 - n as i64) as u32;
        push_digits(&mut s, magnitude);
    } else {
        push_digits(&mut s, n as u32);
    }
    s
}

/// The number a string of decimal digits stands for.
pub open spec fn digits_value(s: Seq<char>) -> int
    decreases s.len(),
{
    if s.len() == 0 {
        0
    } else {
        digits_value(s.drop_last()) * 10 + (s.last() as int - '0' as int)
    }
}

/// Whether every character is a decimal digit.
pub open spec fn all_digits(s: Seq<char>) -> bool {
    forall|i: int| 0 <= i < s.len() ==> '0' <= #[trigger] s[i] <= '9'
}

/// The decimal digits of a number are digits, start with a nonzero digit
/// unless the number is 0, and stand for the number.
pub proof fn lemma_digits(n: nat)
    ensures
        digits(n).len() >= 1,
        all_digits(digits(n)),
        digits_value(digits(n)) == n,
        n > 0 ==> digits(n)[0] != '0',
    decreases n,
{
    lemma_digit_char((n % 10) as nat);
    if n >= 10 {
        lemma_digits(n / 10);
        let s = digits(n);
        assert(s.drop_last() =~= digits((n / 10) as nat));
        assert(s[0] == digits((n / 10) as nat)[0]);
        assert(s.last() == digit_char((n % 10) as nat));
        assert(n == (n / 10) * 10 + n % 10);
        assert(digits_value(s) == digits_value(s.drop_last()) * 10 + (s.last() as int - '0' as int));
        assert(digits_value(s.drop_last()) == n / 10);
    } else {
        let s = digits(n);
        assert(s.drop_last() =~= Seq::<char>::empty());
        assert(s.last() == digit_char(n));
        assert(digits_value(s.drop_last()) == 0);
        assert(digits_value(s) == digits_value(s.drop_last()) * 10 + (s.last() as int - '0' as int));
        assert(n % 10 == n);
    }
}

proof fn lemma_digit_char(d: nat)
    requires
        d < 10,
    ensures
        digit_char(d) as int == '0' as int + d,
        '0' <= digit_char(d) <= '9',
{
}

/// The decimal form of an integer is its digits, after a `-` exactly when it
/// is negative, and stands for the integer.
pub proof fn lemma_decimal(n: int)
    ensures
        n < 0 ==> decimal(n)[0] == '-' && all_digits(decimal(n).drop_first())
            && -digits_value(decimal(n).drop_first()) == n,
        n >= 0 ==> all_digits(decimal(n)) && digits_value(decimal(n)) == n,
        decimal(n).len() >= 1,
{
    if n < 0 {
        lemma_digits((-n) as nat);
        assert(decimal(n).drop_first() =~= digits((-n) as nat));
    } else {
        lemma_digits(n as nat);
    }
}

} // verus!
