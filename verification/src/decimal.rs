//! Decimal numbers of arbitrary precision, read by the `bigdecimal` crate.
//!
//! The adapter reads three things of a decimal text: whether it is a whole
//! number, how many digits its unscaled integer has, and its canonical text.

use vstd::prelude::*;
use bigdecimal::{BigDecimal, Zero};
use std::str::FromStr;
use vstd::pervasive::unreached;
use crate::value::{Error, ErrorView};

verus! {

/// What the adapter reads of a decimal number.
#[derive(Debug)]
pub struct Decimal {
    /// Whether the number has no fractional part.
    pub is_integer: bool,
    /// The number of decimal digits of the unscaled integer.
    pub digits: u64,
    /// The canonical text of the number.
    pub text: String,
}

/// The mathematical model of a [`Decimal`].
pub struct DecimalView {
    pub is_integer: bool,
    pub digits: u64,
    pub text: Seq<char>,
}

impl View for Decimal {
    type V = DecimalView;

    open spec fn view(&self) -> DecimalView {
        DecimalView { is_integer: self.is_integer, digits: self.digits, text: self.text@ }
    }
}

/// Whether `BigDecimal::from_str` accepts the text.
pub uninterp spec fn decimal_parses(s: Seq<char>) -> bool;

/// The text that `BigDecimal`'s `Display` gives the number that the text is parsed to.
pub uninterp spec fn decimal_canonical(s: Seq<char>) -> Seq<char>;

/// The text that `ParseBigDecimalError`'s `Display` gives the error with which
/// `BigDecimal::from_str` refuses the text.
pub uninterp spec fn decimal_fault(s: Seq<char>) -> Seq<char>;

/// What `BigDecimal::fractional_digit_count` returns for the number that the text
/// is parsed to: its scale.
pub uninterp spec fn decimal_scale(s: Seq<char>) -> i64;

/// What `BigDecimal::digits` returns for the number that the text is parsed to.
pub uninterp spec fn decimal_digits(s: Seq<char>) -> u64;

/// What `BigDecimal`'s `is_zero` returns for the number that the text is parsed to.
pub uninterp spec fn decimal_is_zero(s: Seq<char>) -> bool;

/// What `BigDecimal::is_integer` returns for the number that the text is parsed to.
pub uninterp spec fn decimal_is_integer(s: Seq<char>) -> bool;

/// Whether the parser can be asked if the number is whole: its scale is no larger
/// than the count of its digits. The parser answers by raising ten to the scale,
/// a number that is then no longer than the one it was handed.
pub open spec fn decimal_examinable(s: Seq<char>) -> bool {
    decimal_scale(s) <= decimal_digits(s)
}

/// Whether the number that the text is parsed to is whole. Where the parser can
/// be asked, it is what the parser says. A number with a larger scale has more
/// fractional places than digits, and is whole only if it is zero.
pub open spec fn decimal_whole(s: Seq<char>) -> bool {
    if decimal_examinable(s) {
        decimal_is_integer(s)
    } else {
        decimal_is_zero(s)
    }
}

/// What rendering a decimal text anew gives: the canonical text of every text
/// that the parser accepts, and the parser's message for every other.
pub open spec fn decimal_rendering(s: Seq<char>) -> Result<Seq<char>, ErrorView> {
    if decimal_parses(s) {
        Ok(decimal_canonical(s))
    } else {
        Err(ErrorView::Decimal(decimal_fault(s)))
    }
}

/// What reading a decimal text gives: what the adapter reads of the number, for
/// every text that the parser accepts, and the parser's message for every other.
pub open spec fn decimal_reading(s: Seq<char>) -> Result<DecimalView, ErrorView> {
    if decimal_parses(s) {
        Ok(
            DecimalView {
                is_integer: decimal_whole(s),
                digits: decimal_digits(s),
                text: decimal_canonical(s),
            },
        )
    } else {
        Err(ErrorView::Decimal(decimal_fault(s)))
    }
}

/// The canonical text of what was read, or the error.
pub open spec fn reading_text(reading: Result<DecimalView, ErrorView>) -> Result<
    Seq<char>,
    ErrorView,
> {
    match reading {
        Ok(d) => Ok(d.text),
        Err(e) => Err(e),
    }
}

/// The model of the result of reading a decimal text.
pub open spec fn reading_view(r: Result<Decimal, Error>) -> Result<DecimalView, ErrorView> {
    match r {
        Ok(d) => Ok(d@),
        Err(e) => Err(e@),
    }
}

/// The model of the result of rendering a decimal text.
pub open spec fn rendering_view(r: Result<String, Error>) -> Result<Seq<char>, ErrorView> {
    match r {
        Ok(t) => Ok(t@),
        Err(e) => Err(e@),
    }
}

/// The scale of a number, the count of its digits, and whether it is zero.
struct Measure {
    scale: i64,
    digits: u64,
    is_zero: bool,
}

/// Parses the text with `BigDecimal::from_str` and hands out the `Display` text
/// of the number, or that of the error. The contract claims that whether the
/// text is accepted, and both texts, are functions of the text alone.
#[verifier::external_body]
fn render(text: &str) -> (r: Result<String, String>)
    ensures
        r is Ok <==> decimal_parses(text@),
        r matches Ok(t) ==> t@ == decimal_canonical(text@),
        r matches Err(e) ==> e@ == decimal_fault(text@),
{
    match BigDecimal::from_str(text) {
        Ok(d) => Ok(d.to_string()),
        Err(e) => Err(e.to_string()),
    }
}

/// Parses the text with `BigDecimal::from_str` and asks the number for
/// `fractional_digit_count`, `digits` and `is_zero`. None of the three computes
/// with the scale. The contract claims that each is a function of the text alone.
#[verifier::external_body]
fn measure(text: &str) -> (r: Option<Measure>)
    ensures
        r is Some <==> decimal_parses(text@),
        r matches Some(m) ==> m.scale == decimal_scale(text@) && m.digits == decimal_digits(text@)
            && m.is_zero == decimal_is_zero(text@),
{
    match BigDecimal::from_str(text) {
        Ok(d) => Some(
            Measure { scale: d.fractional_digit_count(), digits: d.digits(), is_zero: d.is_zero() },
        ),
        Err(_) => None,
    }
}

/// Parses the text with `BigDecimal::from_str` and asks the number for
/// `is_integer`, which for a scale above zero raises ten to the scale. A number
/// whose scale is larger than the count of its digits is left out: the power
/// grows with the scale, without a bound that the text sets. The contract claims
/// that the answer is a function of the text alone.
#[verifier::external_body]
fn examine(text: &str) -> (r: Option<bool>)
    requires
        decimal_parses(text@) ==> decimal_examinable(text@),
    ensures
        r is Some <==> decimal_parses(text@),
        r matches Some(whole) ==> whole == decimal_is_integer(text@),
{
    match BigDecimal::from_str(text) {
        Ok(d) => Some(d.is_integer()),
        Err(_) => None,
    }
}

/// Renders a decimal text anew: the canonical text of the number.
pub fn render_decimal(text: &str) -> (r: Result<String, Error>)
    ensures
        rendering_view(r) == decimal_rendering(text@),
{
    match render(text) {
        Ok(canonical) => Ok(canonical),
        Err(e) => Err(Error::Decimal(e)),
    }
}

/// Reads a decimal text: whether the number is whole, the count of its digits,
/// and its canonical text.
pub fn read_decimal(text: &str) -> (r: Result<Decimal, Error>)
    ensures
        reading_view(r) == decimal_reading(text@),
{
    match render(text) {
        Err(e) => Err(Error::Decimal(e)),
        Ok(canonical) => {
            let m = match measure(text) {
                Some(m) => m,
                None => unreached(),
            };
            let examinable = m.scale <= 0 || m.scale as u64 <= m.digits;
            let is_integer = if examinable {
                match examine(text) {
                    Some(whole) => whole,
                    None => unreached(),
                }
            } else {
                m.is_zero
            };
            Ok(Decimal { is_integer, digits: m.digits, text: canonical })
        },
    }
}

} // verus!
