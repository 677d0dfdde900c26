//! Text building blocks shared by the messages of the library.

use vstd::prelude::*;
use vstd::string::*;

verus! {

/// The character of a decimal digit.
pub open spec fn digit_char(d: nat) -> char {
    if d == 0 {
        '0'
    } else if d == 1 {
        '1'
    } else if d == 2 {
        '2'
    } else if d == 3 {
        '3'
    } else if d == 4 {
        '4'
    } else if d == 5 {
        '5'
    } else if d == 6 {
        '6'
    } else if d == 7 {
        '7'
    } else if d == 8 {
        '8'
    } else {
        '9'
    }
}

/// The decimal digits of a natural number, most significant first, without
/// leading zeros (zero itself is written "0").
pub open spec fn nat_digits(n: nat) -> Seq<char>
    decreases n,
{
    if n < 10 {
        seq![digit_char(n)]
    } else {
        nat_digits(n / 10).push(digit_char(n % 10))
    }
}

/// The decimal text of an integer, as Rust's `Display` writes it: a minus
/// sign before the digits of a negative number.
pub open spec fn decimal(n: int) -> Seq<char> {
    if n < 0 {
        seq!['-'] + nat_digits((-n) as nat)
    } else {
        nat_digits(n as nat)
    }
}

/// The number a decimal digit character stands for (-1 for any other
/// character).
pub open spec fn digit_value(c: char) -> int {
    if '0' <= c && c <= '9' {
        c as int - '0' as int
    } else {
        -1
    }
}

/// The number a text of decimal digits stands for, most significant first.
pub open spec fn digits_value(s: Seq<char>) -> int
    decreases s.len(),
{
    if s.len() == 0 {
        0
    } else {
        digits_value(s.drop_last()) * 10 + digit_value(s.last())
    }
}

proof fn lemma_digit_char_value(d: nat)
    requires
        d < 10,
    ensures
        digit_value(digit_char(d)) == d,
{
}

/// The decimal text of a number is made of digits only, starts with a
/// non-zero digit unless the number is zero, and stands for the number.
pub proof fn law_decimal_digits_stand_for_number(n: nat)
    ensures
        nat_digits(n).len() >= 1,
        forall|i: int| 0 <= i < nat_digits(n).len() ==> 0 <= digit_value(#[trigger] nat_digits(n)[i]) <= 9,
        n > 0 ==> digit_value(nat_digits(n)[0]) > 0,
        n == 0 ==> nat_digits(n) == seq!['0'],
        digits_value(nat_digits(n)) == n,
    decreases n,
{
    if n < 10 {
        lemma_digit_char_value(n);
        let s = nat_digits(n);
        assert(s == seq![digit_char(n)]);
        assert(s.drop_last() =~= Seq::<char>::empty());
        assert(digits_value(s.drop_last()) == 0);
        assert(s.last() == digit_char(n));
        assert(digits_value(s) == digits_value(s.drop_last()) * 10 + digit_value(s.last()));
    } else {
        lemma_digit_char_value(n % 10);
        law_decimal_digits_stand_for_number(n / 10);
        let d = nat_digits(n / 10);
        let s = nat_digits(n);
        assert(s == d.push(digit_char(n % 10)));
        assert(s.drop_last() =~= d);
        assert forall|i: int| 0 <= i < s.len() implies 0 <= digit_value(#[trigger] s[i]) <= 9 by {
            if i < d.len() {
                assert(s[i] == d[i]);
            }
        }
        assert(s[0] == d[0]);
        assert(digits_value(s) == digits_value(d) * 10 + digit_value(digit_char(n % 10)));
        assert((n / 10) * 10 + n % 10 == n);
    }
}

/// A negative number's text is a minus sign and the digits of its
/// magnitude; other numbers' texts are their digits.
pub proof fn law_decimal_sign(n: int)
    ensures
        n < 0 ==> decimal(n)[0] == '-' && decimal(n).drop_first() == nat_digits((-n) as nat),
        n >= 0 ==> decimal(n) == nat_digits(n as nat),
{
    if n < 0 {
        assert(decimal(n).drop_first() =~= nat_digits((-n) as nat));
    }
}

fn digit_str(d: u64) -> (r: &'static str)
    requires
        d < 10,
    ensures
        r@ == seq![digit_char(d as nat)],
{
    if d == 0 {
        proof { reveal_strlit("0"); }
        "0"
    } else if d == 1 {
        proof { reveal_strlit("1"); }
        "1"
    } else if d == 2 {
        proof { reveal_strlit("2"); }
        "2"
    } else if d == 3 {
        proof { reveal_strlit("3"); }
        "3"
    } else if d == 4 {
        proof { reveal_strlit("4"); }
        "4"
    } else if d == 5 {
        proof { reveal_strlit("5"); }
        "5"
    } else if d == 6 {
        proof { reveal_strlit("6"); }
        "6"
    } else if d == 7 {
        proof { reveal_strlit("7"); }
        "7"
    } else if d == 8 {
        proof { reveal_strlit("8"); }
        "8"
    } else {
        proof { reveal_strlit("9"); }
        "9"
    }
}

/// The decimal text of an unsigned number.
pub fn u64_to_decimal(n: u64) -> (s: String)
    ensures
        s@ == nat_digits(n as nat),
    decreases n,
{
    if n < 10 {
        String::from_str(digit_str(n))
    } else {
        let mut s = u64_to_decimal(n / 10);
        s.append(digit_str(n % 10));
        s
    }
}

/// The decimal text of a signed 32-bit number, as `format!("{}", n)` gives it.
pub fn i32_to_decimal(n: i32) -> (s: String)
    ensures
        s@ == decimal(n as int),
{
    if n < 0 {
        let magnitude: u64 = (0i64 - (n as i64)) as u64;
        let digits = u64_to_decimal(magnitude);
        proof { reveal_strlit("-"); }
        let s = String::from_str("-");
        s.concat(digits.as_str())
    } else {
        u64_to_decimal(n as u64)
    }
}

/// Concatenation of two texts into a new string.
pub fn concat2(a: &str, b: &str) -> (s: String)
    ensures
        s@ == a@ + b@,
{
    let s = String::from_str(a);
    s.concat(b)
}

/// Concatenation of three texts into a new string.
pub fn concat3(a: &str, b: &str, c: &str) -> (s: String)
    ensures
        s@ == a@ + b@ + c@,
{
    let s = String::from_str(a);
    let s = s.concat(b);
    s.concat(c)
}

} // verus!
