//! Decimal digits and the text of natural numbers.

use vstd::prelude::*;
use vstd::string::StrSliceExecFns;
use crate::value::IntegerFault;

verus! {

/// Appending one character, as `String::push` does.
pub assume_specification[ std::string::String::push ](s: &mut std::string::String, c: char)
    ensures
        final(s)@ == old(s)@.push(c),
;

/// The character that stands for the decimal digit `d`.
pub open spec fn digit_char(d: nat) -> char {
    if d == 0 {
        '0'
    } else if d == 1 {
        '1'
    } else if d == 2 {
        '2'
    } else if d == 3 {
        '3'
    } else if d == 4 {
        '4'
    } else if d == 5 {
        '5'
    } else if d == 6 {
        '6'
    } else if d == 7 {
        '7'
    } else if d == 8 {
        '8'
    } else {
        '9'
    }
}

/// Whether `c` is one of the ten ASCII decimal digits.
pub open spec fn is_digit(c: char) -> bool {
    '0' <= c && c <= '9'
}

/// The value of the decimal digit `c`.
pub open spec fn digit_value(c: char) -> nat
    recommends
        is_digit(c),
{
    (c as u32 - '0' as u32) as nat
}

/// The decimal text of `n`, without leading zeros.
pub open spec fn decimal_text(n: nat) -> Seq<char>
    decreases n,
{
    if n < 10 {
        seq![digit_char(n)]
    } else {
        decimal_text(n / 10).push(digit_char(n % 10))
    }
}

/// Every character of a decimal text is a digit, and the text is never empty.
pub proof fn lemma_decimal_text_digits(n: nat)
    ensures
        decimal_text(n).len() >= 1,
        forall|i: int| 0 <= i < decimal_text(n).len() ==> is_digit(#[trigger] decimal_text(n)[i]),
    decreases n,
{
    if n >= 10 {
        lemma_decimal_text_digits(n / 10);
    }
}

/// The character of a digit below ten.
pub fn digit_to_char(d: u8) -> (c: char)
    requires
        d < 10,
    ensures
        c == digit_char(d as nat),
        is_digit(c),
        digit_value(c) == d,
{
    if d == 0 {
        '0'
    } else if d == 1 {
        '1'
    } else if d == 2 {
        '2'
    } else if d == 3 {
        '3'
    } else if d == 4 {
        '4'
    } else if d == 5 {
        '5'
    } else if d == 6 {
        '6'
    } else if d == 7 {
        '7'
    } else if d == 8 {
        '8'
    } else {
        '9'
    }
}

/// Appends the decimal text of `n` to `out`.
pub fn push_decimal(out: &mut String, n: usize)
    ensures
        final(out)@ == old(out)@ + decimal_text(n as nat),
    decreases n,
{
    if n >= 10 {
        push_decimal(out, n / 10);
    }
    let d: u8 = (n % 10) as u8;
    out.push(digit_to_char(d));
    proof {
        if n >= 10 {
            assert(old(out)@ + decimal_text(n as nat) =~= (old(out)@ + decimal_text(
                (n / 10) as nat,
            )).push(digit_char((n % 10) as nat)));
        } else {
            assert(old(out)@ + decimal_text(n as nat) =~= old(out)@.push(digit_char(n as nat)));
        }
    }
}

/// What reading the characters of `s` from `start` up to `n` as decimal digits
/// gives, from left to right: the number, negated where `negative` is set, or the
/// first fault met. A character that is no digit is a fault, and so is a number
/// that leaves the range from `lo` to `hi`.
pub open spec fn parse_digits(
    s: Seq<char>,
    start: int,
    n: int,
    negative: bool,
    lo: int,
    hi: int,
) -> Result<int, IntegerFault>
    decreases n - start,
{
    if n <= start {
        Ok(0)
    } else {
        match parse_digits(s, start, n - 1, negative, lo, hi) {
            Err(fault) => Err(fault),
            Ok(before) => {
                if !is_digit(s[n - 1]) {
                    Err(IntegerFault::InvalidDigit)
                } else {
                    let d = digit_value(s[n - 1]) as int;
                    let number = if negative {
                        before * 10 - d
                    } else {
                        before * 10 + d
                    };
                    if number > hi {
                        Err(IntegerFault::PosOverflow)
                    } else if number < lo {
                        Err(IntegerFault::NegOverflow)
                    } else {
                        Ok(number)
                    }
                }
            },
        }
    }
}

/// What a text is read as, as an integer between `lo` and `hi`: an optional sign,
/// `+` or `-`, and after it one decimal digit or more, nothing else.
pub open spec fn parse_integer(s: Seq<char>, lo: int, hi: int) -> Result<int, IntegerFault> {
    if s.len() == 0 {
        Err(IntegerFault::Empty)
    } else if s[0] == '+' || s[0] == '-' {
        if s.len() == 1 {
            Err(IntegerFault::InvalidDigit)
        } else {
            parse_digits(s, 1, s.len() as int, s[0] == '-', lo, hi)
        }
    } else {
        parse_digits(s, 0, s.len() as int, false, lo, hi)
    }
}

/// A fault met in a shorter prefix is the fault of every longer one.
pub proof fn lemma_fault_stays(
    s: Seq<char>,
    start: int,
    k: int,
    n: int,
    negative: bool,
    lo: int,
    hi: int,
)
    requires
        start <= k <= n,
        parse_digits(s, start, k, negative, lo, hi) is Err,
    ensures
        parse_digits(s, start, n, negative, lo, hi) == parse_digits(s, start, k, negative, lo, hi),
    decreases n - k,
{
    if k < n {
        lemma_fault_stays(s, start, k, n - 1, negative, lo, hi);
    }
}

/// Reads a text as an integer between `lo` and `hi`.
pub fn read_integer(s: &str, lo: i64, hi: i64) -> (r: Result<i64, IntegerFault>)
    requires
        lo <= 0 <= hi,
    ensures
        match r {
            Ok(n) => parse_integer(s@, lo as int, hi as int) == Ok::<int, IntegerFault>(n as int),
            Err(fault) => parse_integer(s@, lo as int, hi as int) == Err::<int, IntegerFault>(
                fault,
            ),
        },
{
    let mut number: i64 = 0;
    let mut negative = false;
    let mut signed = false;
    let mut first = true;
    let mut digits = false;
    for c in it: s.chars()
        invariant
            it.seq() == s@,
            lo <= 0 <= hi,
            first == (it.index() == 0),
            signed ==> it.index() > 0 && (s@[0] == '+' || s@[0] == '-'),
            !signed && it.index() > 0 ==> !(s@[0] == '+' || s@[0] == '-'),
            negative == (signed && s@[0] == '-'),
            digits == (it.index() > (if signed { 1int } else { 0int })),
            lo <= number <= hi,
            parse_digits(
                s@,
                if signed { 1 } else { 0 },
                it.index() as int,
                negative,
                lo as int,
                hi as int,
            ) == Ok::<int, IntegerFault>(number as int),
    {
        let ghost at = it.index() as int;
        let ghost start = if signed { 1int } else { 0int };
        if first && (c == '+' || c == '-') {
            signed = true;
            negative = c == '-';
        } else {
            digits = true;
            if !(c >= '0' && c <= '9') {
                proof {
                    lemma_fault_stays(s@, start, at + 1, s@.len() as int, negative, lo as int, hi as int);
                }
                return Err(IntegerFault::InvalidDigit);
            }
            let d: i128 = (c as u32 - '0' as u32) as i128;
            let wide: i128 = if negative {
                number as i128 * 10 - d
            } else {
                number as i128 * 10 + d
            };
            if wide > hi as i128 {
                proof {
                    lemma_fault_stays(s@, start, at + 1, s@.len() as int, negative, lo as int, hi as int);
                }
                return Err(IntegerFault::PosOverflow);
            }
            if wide < lo as i128 {
                proof {
                    lemma_fault_stays(s@, start, at + 1, s@.len() as int, negative, lo as int, hi as int);
                }
                return Err(IntegerFault::NegOverflow);
            }
            number = wide as i64;
        }
        first = false;
    }
    if first {
        Err(IntegerFault::Empty)
    } else if !digits {
        Err(IntegerFault::InvalidDigit)
    } else {
        Ok(number)
    }
}

/// Reads a text as a signed 32-bit integer.
pub fn read_i32(s: &str) -> (r: Result<i32, IntegerFault>)
    ensures
        match r {
            Ok(n) => parse_integer(s@, i32::MIN as int, i32::MAX as int) == Ok::<
                int,
                IntegerFault,
            >(n as int),
            Err(fault) => parse_integer(s@, i32::MIN as int, i32::MAX as int) == Err::<
                int,
                IntegerFault,
            >(fault),
        },
{
    match read_integer(s, i32::MIN as i64, i32::MAX as i64) {
        Ok(n) => Ok(n as i32),
        Err(fault) => Err(fault),
    }
}

/// Reads a text as a signed 64-bit integer.
pub fn read_i64(s: &str) -> (r: Result<i64, IntegerFault>)
    ensures
        match r {
            Ok(n) => parse_integer(s@, i64::MIN as int, i64::MAX as int) == Ok::<
                int,
                IntegerFault,
            >(n as int),
            Err(fault) => parse_integer(s@, i64::MIN as int, i64::MAX as int) == Err::<
                int,
                IntegerFault,
            >(fault),
        },
{
    read_integer(s, i64::MIN, i64::MAX)
}

/// Whether two texts hold the same characters, as `==` on `str` does.
pub assume_specification[ <str as PartialEq>::eq ](a: &str, b: &str) -> (r: bool)
    ensures
        r == (a@ == b@),
;

/// Whether two texts hold the same characters.
pub fn same_text(a: &str, b: &str) -> (r: bool)
    ensures
        r == (a@ == b@),
{
    a.eq(b)
}

/// The lowercase equivalent of a text, as the Unicode character database maps it.
pub uninterp spec fn lowercased(s: Seq<char>) -> Seq<char>;

/// The lowercase equivalent of the text, by `str::to_lowercase`. The contract
/// claims that it is a function of the text alone.
#[verifier::external_body]
pub(crate) fn to_lowercase(s: &str) -> (r: String)
    ensures
        r@ == lowercased(s@),
{
    s.to_lowercase()
}

/// Ten to the power `n`.
pub open spec fn pow10(n: nat) -> nat
    decreases n,
{
    if n == 0 {
        1
    } else {
        10 * pow10((n - 1) as nat)
    }
}

/// Whether every character of `s` from `start` up to `n` is a decimal digit.
pub open spec fn all_digits(s: Seq<char>, start: int, n: int) -> bool {
    forall|i: int| start <= i < n ==> is_digit(#[trigger] s[i])
}

/// A run of `k` digits is read as a number below ten to the power `k`, and as
/// one above its negation where a minus stands in front, if the range holds all
/// of these.
pub proof fn lemma_digits_fit(
    s: Seq<char>,
    start: int,
    n: int,
    negative: bool,
    lo: int,
    hi: int,
)
    requires
        0 <= start <= n <= s.len(),
        all_digits(s, start, n),
        lo <= 1 - pow10((n - start) as nat),
        pow10((n - start) as nat) - 1 <= hi,
    ensures
        parse_digits(s, start, n, negative, lo, hi) is Ok,
        ({
            let number = parse_digits(s, start, n, negative, lo, hi)->Ok_0;
            if negative {
                -pow10((n - start) as nat) < number <= 0
            } else {
                0 <= number < pow10((n - start) as nat)
            }
        }),
    decreases n - start,
{
    if n > start {
        assert(pow10((n - start) as nat) == 10 * pow10((n - 1 - start) as nat));
        lemma_digits_fit(s, start, n - 1, negative, lo, hi);
        assert(is_digit(s[n - 1]));
        assert(0 <= digit_value(s[n - 1]) <= 9);
    }
}

/// Every text of one to nine digits, with or without a sign, is a signed 32-bit
/// integer.
pub proof fn lemma_nine_digits_fit_i32(s: Seq<char>)
    requires
        s.len() >= 1,
        ({
            let start: int = if s[0] == '+' || s[0] == '-' { 1 } else { 0 };
            1 <= s.len() - start <= 9 && all_digits(s, start, s.len() as int)
        }),
    ensures
        parse_integer(s, i32::MIN as int, i32::MAX as int) is Ok,
{
    let start: int = if s[0] == '+' || s[0] == '-' { 1 } else { 0 };
    lemma_pow10_monotonic((s.len() - start) as nat, 9);
    assert(pow10(9) == 1_000_000_000) by {
        reveal_with_fuel(pow10, 10);
    }
    lemma_digits_fit(s, start, s.len() as int, s[0] == '-', i32::MIN as int, i32::MAX as int);
}

/// Every text of one to eighteen digits, with or without a sign, is a signed
/// 64-bit integer.
pub proof fn lemma_eighteen_digits_fit_i64(s: Seq<char>)
    requires
        s.len() >= 1,
        ({
            let start: int = if s[0] == '+' || s[0] == '-' { 1 } else { 0 };
            1 <= s.len() - start <= 18 && all_digits(s, start, s.len() as int)
        }),
    ensures
        parse_integer(s, i64::MIN as int, i64::MAX as int) is Ok,
{
    let start: int = if s[0] == '+' || s[0] == '-' { 1 } else { 0 };
    lemma_pow10_monotonic((s.len() - start) as nat, 18);
    assert(pow10(18) == 1_000_000_000_000_000_000) by {
        reveal_with_fuel(pow10, 19);
    }
    lemma_digits_fit(s, start, s.len() as int, s[0] == '-', i64::MIN as int, i64::MAX as int);
}

/// A larger exponent gives a power at least as large.
pub proof fn lemma_pow10_monotonic(m: nat, n: nat)
    requires
        m <= n,
    ensures
        1 <= pow10(m) <= pow10(n),
    decreases n,
{
    if m < n {
        lemma_pow10_monotonic(m, (n - 1) as nat);
    } else if n > 0 {
        lemma_pow10_monotonic((m - 1) as nat, (n - 1) as nat);
    }
}

} // verus!
