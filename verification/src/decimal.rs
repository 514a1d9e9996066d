//! Decimal text of integers, as `format!("{:?}", x)` writes it for `i64`.
use vstd::prelude::*;

verus! {

/// The ASCII digit for a value below ten.
pub open spec fn digit_char(d: int) -> char {
    if d == 0 { '0' }
    else if d == 1 { '1' }
    else if d == 2 { '2' }
    else if d == 3 { '3' }
    else if d == 4 { '4' }
    else if d == 5 { '5' }
    else if d == 6 { '6' }
    else if d == 7 { '7' }
    else if d == 8 { '8' }
    else { '9' }
}

/// Decimal digits of a natural number, most significant first, no leading zeros.
pub open spec fn decimal_digits(n: nat) -> Seq<char>
    decreases n,
{
    if n < 10 {
        seq![digit_char(n as int)]
    } else {
        decimal_digits(n / 10).push(digit_char((n % 10) as int))
    }
}

/// Decimal text of an integer: a minus sign before the digits of a negative value.
pub open spec fn decimal_text(x: int) -> Seq<char> {
    if x < 0 {
        seq!['-'] + decimal_digits((-x) as nat)
    } else {
        decimal_digits(x as nat)
    }
}

/// A character among `0`..`9`.
pub open spec fn is_decimal_digit(c: char) -> bool {
    '0' as int <= c as int <= '9' as int
}

/// The value of a decimal digit character.
pub open spec fn digit_value(c: char) -> int {
    c as int - '0' as int
}

/// The number that a string of decimal digits spells, read in base ten.
pub open spec fn digits_value(s: Seq<char>) -> int
    decreases s.len(),
{
    if s.len() == 0 {
        0
    } else {
        digits_value(s.drop_last()) * 10 + digit_value(s.last())
    }
}

proof fn lemma_digit_char_value(d: int)
    requires
        0 <= d < 10,
    ensures
        is_decimal_digit(digit_char(d)),
        digit_value(digit_char(d)) == d,
        d > 0 ==> digit_char(d) != '0',
{
}

/// The decimal digits of a number are digits, begin with a non-zero digit
/// unless the number is zero (then they are just `0`), and read back, in
/// base ten, to the number.
pub proof fn lemma_decimal_digits_read_back(n: nat)
    ensures
        decimal_digits(n).len() >= 1,
        forall|i: int| 0 <= i < decimal_digits(n).len() ==> is_decimal_digit(#[trigger] decimal_digits(n)[i]),
        n == 0 ==> decimal_digits(n) == seq!['0'],
        n > 0 ==> decimal_digits(n)[0] != '0',
        digits_value(decimal_digits(n)) == n,
    decreases n,
{
    lemma_digit_char_value((n % 10) as int);
    if n >= 10 {
        let q: nat = n / 10;
        lemma_decimal_digits_read_back(q);
        let s = decimal_digits(n);
        assert(s.drop_last() =~= decimal_digits(q));
        assert(s.last() == digit_char((n % 10) as int));
        assert(digits_value(s) == digits_value(s.drop_last()) * 10 + digit_value(s.last()));
        assert(digits_value(s) == q * 10 + (n % 10) as int);
        assert(q * 10 + n % 10 == n) by (nonlinear_arith)
            requires q == n / 10;
        assert(q > 0);
    } else {
        let s = decimal_digits(n);
        assert(s.drop_last() =~= Seq::<char>::empty());
        assert(digits_value(s.drop_last()) == 0);
    }
}

/// The decimal text of an integer is a minus sign exactly for a negative
/// number, followed by digits that read back to its magnitude, with no
/// leading zero.
pub proof fn lemma_decimal_text_read_back(x: int)
    ensures
        x < 0 ==> decimal_text(x).len() >= 2 && decimal_text(x)[0] == '-'
            && digits_value(decimal_text(x).drop_first()) == -x
            && decimal_text(x)[1] != '0'
            && forall|i: int| 1 <= i < decimal_text(x).len() ==> is_decimal_digit(#[trigger] decimal_text(x)[i]),
        x >= 0 ==> digits_value(decimal_text(x)) == x
            && (x > 0 ==> decimal_text(x)[0] != '0')
            && forall|i: int| 0 <= i < decimal_text(x).len() ==> is_decimal_digit(#[trigger] decimal_text(x)[i]),
{
    if x < 0 {
        lemma_decimal_digits_read_back((-x) as nat);
        let d = decimal_digits((-x) as nat);
        assert(decimal_text(x).drop_first() =~= d);
        assert forall|i: int| 1 <= i < decimal_text(x).len() implies is_decimal_digit(#[trigger] decimal_text(x)[i]) by {
            assert(decimal_text(x)[i] == d[i - 1]);
        }
    } else {
        lemma_decimal_digits_read_back(x as nat);
    }
}

fn digit_str(d: u64) -> (s: &'static str)
    requires
        d < 10,
    ensures
        s@ == seq![digit_char(d as int)],
{
    match d {
        0 => { proof { reveal_strlit("0"); } "0" },
        1 => { proof { reveal_strlit("1"); } "1" },
        2 => { proof { reveal_strlit("2"); } "2" },
        3 => { proof { reveal_strlit("3"); } "3" },
        4 => { proof { reveal_strlit("4"); } "4" },
        5 => { proof { reveal_strlit("5"); } "5" },
        6 => { proof { reveal_strlit("6"); } "6" },
        7 => { proof { reveal_strlit("7"); } "7" },
        8 => { proof { reveal_strlit("8"); } "8" },
        _ => { proof { reveal_strlit("9"); } "9" },
    }
}

fn natural_to_decimal(n: u64) -> (s: String)
    ensures
        s@ == decimal_digits(n as nat),
    decreases n,
{
    if n < 10 {
        String::from_str(digit_str(n))
    } else {
        let mut s = natural_to_decimal(n / 10);
        s.append(digit_str(n % 10));
        s
    }
}

/// Writes `x` in decimal, with a leading `-` when it is negative.
pub fn i64_to_decimal(x: i64) -> (s: String)
    ensures
        s@ == decimal_text(x as int),
{
    if x < 0 {
        let magnitude: u64 = ((-(x + 1)) as u64) + 1;
        proof { reveal_strlit("-"); }
        let mut s = String::from_str("-");
        let digits = natural_to_decimal(magnitude);
        s.append(digits.as_str());
        s
    } else {
        natural_to_decimal(x as u64)
    }
}

} // verus!
