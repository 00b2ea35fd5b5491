//! Decimal rendering of integers, as used in error messages.
use vstd::prelude::*;

verus! {

/// The ASCII digit for a value below ten.
pub open spec fn digit_char(d: nat) -> char {
    if d == 0 { '0' }
    else if d == 1 { '1' }
    else if d == 2 { '2' }
    else if d == 3 { '3' }
    else if d == 4 { '4' }
    else if d == 5 { '5' }
    else if d == 6 { '6' }
    else if d == 7 { '7' }
    else if d == 8 { '8' }
    else { '9' }
}

/// The decimal digits of a natural number, most significant first, with no
/// leading zeros (zero itself is written `0`).
pub open spec fn decimal_digits(n: nat) -> Seq<char>
    decreases n,
{
    if n < 10 {
        seq![digit_char(n)]
    } else {
        decimal_digits(n / 10).push(digit_char(n % 10))
    }
}

/// The decimal text of an integer, with a leading `-` when it is negative.
pub open spec fn decimal_text(x: int) -> Seq<char> {
    if x < 0 {
        seq!['-'] + decimal_digits((-x) as nat)
    } else {
        decimal_digits(x as nat)
    }
}

/// Whether `c` is one of the ASCII digits `0` to `9`.
pub open spec fn is_ascii_digit(c: char) -> bool {
    48 <= (c as u32) <= 57
}

/// The number that the ASCII digits `s` spell in base ten, most
/// significant first.
pub open spec fn digits_value(s: Seq<char>) -> int
    decreases s.len(),
{
    if s.len() == 0 {
        0
    } else {
        digits_value(s.drop_last()) * 10 + ((s.last() as u32) - 48)
    }
}

proof fn lemma_digit_char(d: nat)
    requires
        d < 10,
    ensures
        (digit_char(d) as u32) == 48 + d,
{
}

/// The decimal digits of a number read back as that number: they are ASCII
/// digits, spell `n` in base ten, and start with `0` only when `n` is zero.
pub proof fn lemma_decimal_digits_read_back(n: nat)
    ensures
        forall|i: int| 0 <= i < decimal_digits(n).len() ==> is_ascii_digit(#[trigger] decimal_digits(n)[i]),
        digits_value(decimal_digits(n)) == n,
        decimal_digits(n).len() >= 1,
        decimal_digits(n)[0] == '0' ==> n == 0,
    decreases n,
{
    lemma_digit_char(n % 10);
    if n >= 10 {
        lemma_decimal_digits_read_back(n / 10);
        let prefix = decimal_digits(n / 10);
        assert(decimal_digits(n) == prefix.push(digit_char(n % 10)));
        assert(decimal_digits(n).drop_last() =~= prefix);
        assert(decimal_digits(n)[0] == prefix[0]);
        assert(n == (n / 10) * 10 + n % 10) by (nonlinear_arith);
        assert(decimal_digits(n).last() == digit_char(n % 10));
        assert(digits_value(decimal_digits(n)) == digits_value(prefix) * 10 + ((digit_char(n % 10) as u32) - 48));
    } else {
        assert(decimal_digits(n).drop_last() =~= Seq::<char>::empty());
        assert(digits_value(Seq::<char>::empty()) == 0);
        assert(decimal_digits(n).last() == digit_char(n));
        assert(digits_value(decimal_digits(n)) == ((digit_char(n) as u32) - 48));
    }
}

/// The decimal text of an integer reads back as that integer: a `-` before
/// the digits of its magnitude when it is negative, its digits alone when
/// it is not.
pub proof fn lemma_decimal_text_read_back(x: int)
    ensures
        x < 0 ==> decimal_text(x)[0] == '-' && digits_value(decimal_text(x).skip(1)) == -x,
        x >= 0 ==> digits_value(decimal_text(x)) == x,
        forall|i: int| (x < 0 ==> 1 <= i) && 0 <= i < decimal_text(x).len() ==> is_ascii_digit(
            #[trigger] decimal_text(x)[i],
        ),
{
    if x < 0 {
        lemma_decimal_digits_read_back((-x) as nat);
        assert(decimal_text(x).skip(1) =~= decimal_digits((-x) as nat));
        assert forall|i: int| 1 <= i && 0 <= i < decimal_text(x).len() implies is_ascii_digit(
            #[trigger] decimal_text(x)[i],
        ) by {
            assert(decimal_text(x)[i] == decimal_digits((-x) as nat)[i - 1]);
        }
    } else {
        lemma_decimal_digits_read_back(x as nat);
    }
}

fn digit_str(d: u64) -> (s: &'static str)
    requires
        d < 10,
    ensures
        s@ == seq![digit_char(d as nat)],
{
    proof {
        reveal_strlit("0");
        reveal_strlit("1");
        reveal_strlit("2");
        reveal_strlit("3");
        reveal_strlit("4");
        reveal_strlit("5");
        reveal_strlit("6");
        reveal_strlit("7");
        reveal_strlit("8");
        reveal_strlit("9");
    }
    if d == 0 { "0" }
    else if d == 1 { "1" }
    else if d == 2 { "2" }
    else if d == 3 { "3" }
    else if d == 4 { "4" }
    else if d == 5 { "5" }
    else if d == 6 { "6" }
    else if d == 7 { "7" }
    else if d == 8 { "8" }
    else { "9" }
}

/// Appends the decimal digits of `n` to `s`.
pub fn append_decimal_digits(s: &mut String, n: u64)
    ensures
        final(s)@ == old(s)@ + decimal_digits(n as nat),
    decreases n,
{
    if n >= 10 {
        append_decimal_digits(s, n / 10);
        s.append(digit_str(n % 10));
        assert(decimal_digits(n as nat) == decimal_digits((n / 10) as nat).push(
            digit_char((n % 10) as nat),
        ));
    } else {
        s.append(digit_str(n));
    }
}

/// Appends the decimal text of `x` to `s`, as `{}` formatting writes it.
pub fn append_decimal_i64(s: &mut String, x: i64)
    ensures
        final(s)@ == old(s)@ + decimal_text(x as int),
{
    if x < 0 {
        proof {
            reveal_strlit("-");
        }
        s.append("-");
        let magnitude: u64 = (0i128 - (x as i128)) as u64;
        append_decimal_digits(s, magnitude);
    } else {
        append_decimal_digits(s, x as u64);
    }
}

} // verus!
