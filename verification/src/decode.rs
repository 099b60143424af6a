//! Decoding: one native cell to one neutral value.

use vstd::prelude::*;
use vstd::utf8::is_ascii_chars;
use crate::date::parse_datetime_text;
use crate::decimal::{
    decimal_canonical, decimal_parses, decimal_reading, read_decimal, reading_text, reading_view, render_decimal, rendering_view,
    Decimal, DecimalView,
};
use crate::encode::{param_of, ParamView};
use crate::text::{
    all_digits, lemma_eighteen_digits_fit_i64, lemma_nine_digits_fit_i32, parse_integer, read_i32,
    read_i64,
};
use crate::value::{result_view, tagged_text, Error, ErrorView, Value, ValueView};
use crate::{CellView, NativeType, OracleData};

verus! {

/// The precision with which the engine declares a number without constraints.
pub const UNCONSTRAINED_PRECISION: u8 = 0;

/// The scale with which the engine declares a number without constraints.
pub const UNCONSTRAINED_SCALE: i8 = -127;

/// The most decimal digits of which every number fits a signed 32-bit integer.
pub const I32_DIGITS: u8 = 9;

/// The most decimal digits of which every number fits a signed 64-bit integer.
pub const I64_DIGITS: u8 = 18;

/// The least declared precision of a float that is decoded with 64 bits.
pub const F64_PRECISION: u8 = 24;

/// The message with which a date-time text that is not ASCII is refused.
pub open spec fn date_not_ascii() -> Seq<char> {
    "a date-time text holds a character that is not ASCII"@
}

/// A text decoded as a signed 32-bit integer.
pub open spec fn int32_of(text: Seq<char>) -> Result<ValueView, ErrorView> {
    match parse_integer(text, i32::MIN as int, i32::MAX as int) {
        Ok(n) => Ok(ValueView::I32(n as i32)),
        Err(fault) => Err(ErrorView::Integer(fault)),
    }
}

/// A text decoded as a signed 64-bit integer.
pub open spec fn int64_of(text: Seq<char>) -> Result<ValueView, ErrorView> {
    match parse_integer(text, i64::MIN as int, i64::MAX as int) {
        Ok(n) => Ok(ValueView::I64(n as i64)),
        Err(fault) => Err(ErrorView::Integer(fault)),
    }
}

/// A decimal that was rendered anew, as a string with the tag `Decimal`; the
/// error of one that was not.
pub open spec fn decimal_of(rendering: Result<Seq<char>, ErrorView>) -> Result<
    ValueView,
    ErrorView,
> {
    match rendering {
        Ok(t) => Ok(tagged_text("Decimal"@, t)),
        Err(e) => Err(e),
    }
}

/// The value of a number without constraints, from its text and from what the
/// decimal parser read of it. A whole number with at most 9 digits is a 32-bit
/// integer, one with at most 18 digits a 64-bit integer; every other number is a
/// string with the tag `Decimal`.
pub open spec fn unconstrained_of(
    text: Seq<char>,
    reading: Result<DecimalView, ErrorView>,
) -> Result<ValueView, ErrorView> {
    match reading {
        Err(e) => Err(e),
        Ok(d) => if d.is_integer && 1 <= d.digits <= I32_DIGITS {
            int32_of(text)
        } else if d.is_integer && I32_DIGITS < d.digits <= I64_DIGITS {
            int64_of(text)
        } else {
            Ok(tagged_text("Decimal"@, d.text))
        },
    }
}

/// The value of a numeric cell, from its text, its declared precision and scale,
/// and from what the decimal parser read of the text.
pub open spec fn number_of(
    text: Seq<char>,
    precision: u8,
    scale: i8,
    reading: Result<DecimalView, ErrorView>,
) -> Result<ValueView, ErrorView> {
    if precision == UNCONSTRAINED_PRECISION && scale == UNCONSTRAINED_SCALE {
        unconstrained_of(text, reading)
    } else if scale > 0 {
        decimal_of(reading_text(reading))
    } else if 1 <= precision <= I32_DIGITS {
        int32_of(text)
    } else if I32_DIGITS < precision <= I64_DIGITS {
        int64_of(text)
    } else {
        decimal_of(reading_text(reading))
    }
}

/// The value of a date-time cell, from what the date parser made of its text: the
/// canonical text with the tag `DateTime`, or the parser's message as an error.
pub open spec fn date_of_parsed(parsed: Result<Seq<char>, Seq<char>>) -> Result<
    ValueView,
    ErrorView,
> {
    match parsed {
        Ok(t) => Ok(tagged_text("DateTime"@, t)),
        Err(e) => Err(ErrorView::Date(e)),
    }
}

/// The value of a cell that is not null and whose native type is decoded from the
/// text `text`. The type is none of `Date` and `Blob`.
pub open spec fn text_decoding(column_type: NativeType, text: Seq<char>) -> Result<
    ValueView,
    ErrorView,
> {
    match column_type {
        NativeType::Number(p, s) => number_of(text, p, s, decimal_reading(text)),
        NativeType::Int64 => int32_of(text),
        NativeType::Float(p) => if p >= F64_PRECISION {
            Ok(ValueView::F64(text))
        } else {
            Ok(ValueView::F32(text))
        },
        _ => Ok(ValueView::String(text)),
    }
}

/// Whether `out` is what the cell is decoded to.
///
/// A null cell is `Null` whatever its type. A large binary object is its bytes,
/// or `Null` where none came. Every other type is decoded from the text, and a
/// cell without one is an error: `Unimplemented` for a type that the adapter does
/// not know, `MissingText` for one that it does. The text of a date is read in
/// the zone of the machine where it names none, so of a date only the shape of
/// the outcome is fixed.
pub open spec fn decodes(cell: CellView, out: Result<ValueView, ErrorView>) -> bool {
    if cell.is_sql_null {
        out == Ok::<ValueView, ErrorView>(ValueView::Null)
    } else if cell.column_type is Blob {
        match cell.bin {
            Some(b) => out == Ok::<ValueView, ErrorView>(ValueView::Binary(b)),
            None => out == Ok::<ValueView, ErrorView>(ValueView::Null),
        }
    } else {
        match cell.text {
            None => if cell.column_type is Other {
                out == Err::<ValueView, ErrorView>(ErrorView::Unimplemented)
            } else {
                out == Err::<ValueView, ErrorView>(ErrorView::MissingText)
            },
            Some(t) => if cell.column_type is Date {
                if is_ascii_chars(t) {
                    exists|parsed: Result<Seq<char>, Seq<char>>| out == date_of_parsed(parsed)
                } else {
                    out == Err::<ValueView, ErrorView>(ErrorView::Date(date_not_ascii()))
                }
            } else {
                out == text_decoding(cell.column_type, t)
            },
        }
    }
}

/// Decoding a native cell into a neutral value.
pub trait Decode {
    /// Whether `out` is what the cell is decoded to.
    spec fn decoded(row: &OracleData, out: Result<Value, Error>) -> bool;

    /// Decodes the cell. The cell is not changed.
    fn decode(row: &OracleData) -> (r: Result<Value, Error>)
        ensures
            Self::decoded(row, r),
    ;
}

impl Decode for Value {
    open spec fn decoded(row: &OracleData, out: Result<Value, Error>) -> bool {
        decodes(row@, result_view(out))
    }

    fn decode(row: &OracleData) -> (r: Result<Value, Error>) {
        if row.is_sql_null {
            return Ok(Value::Null);
        }
        match row.column_type {
            NativeType::Blob => match &row.bin {
                Some(b) => Ok(Value::Binary(b.clone())),
                None => Ok(Value::Null),
            },
            NativeType::Other => match &row.str {
                Some(t) => Ok(Value::String(t.clone())),
                None => Err(Error::Unimplemented),
            },
            _ => match &row.str {
                None => Err(Error::MissingText),
                Some(t) => decode_text(row.column_type, t.as_str()),
            },
        }
    }
}

/// Decodes the text of a cell that is not null, for a native type that is
/// decoded from the text.
pub fn decode_text(column_type: NativeType, text: &str) -> (r: Result<Value, Error>)
    requires
        !(column_type is Blob),
    ensures
        column_type is Date ==> if is_ascii_chars(text@) {
            exists|parsed: Result<Seq<char>, Seq<char>>| result_view(r) == date_of_parsed(parsed)
        } else {
            result_view(r) == Err::<ValueView, ErrorView>(ErrorView::Date(date_not_ascii()))
        },
        !(column_type is Date) ==> result_view(r) == text_decoding(column_type, text@),
{
    match column_type {
        NativeType::Number(p, s) => decode_number(text, p, s),
        NativeType::Int64 => int32_value(text),
        NativeType::Float(p) => {
            if p >= F64_PRECISION {
                Ok(Value::F64(text.to_owned()))
            } else {
                Ok(Value::F32(text.to_owned()))
            }
        },
        NativeType::Date => {
            if text.is_ascii() {
                let parsed = parse_datetime_text(text);
                let ghost given = parsed_view(parsed);
                let r = date_value(parsed);
                assert(result_view(r) == date_of_parsed(given));
                r
            } else {
                Err(
                    Error::Date("a date-time text holds a character that is not ASCII".to_owned()),
                )
            }
        },
        _ => Ok(Value::String(text.to_owned())),
    }
}

/// The model of what the date parser made of a text.
pub open spec fn parsed_view(parsed: Result<String, String>) -> Result<Seq<char>, Seq<char>> {
    match parsed {
        Ok(t) => Ok(t@),
        Err(e) => Err(e@),
    }
}

/// The value of a date-time cell, from what the date parser made of its text.
pub fn date_value(parsed: Result<String, String>) -> (r: Result<Value, Error>)
    ensures
        result_view(r) == date_of_parsed(parsed_view(parsed)),
{
    match parsed {
        Ok(t) => Ok(Value::String(t).into_ext("DateTime")),
        Err(e) => Err(Error::Date(e)),
    }
}

/// Decodes a text as a signed 32-bit integer.
pub fn int32_value(text: &str) -> (r: Result<Value, Error>)
    ensures
        result_view(r) == int32_of(text@),
{
    match read_i32(text) {
        Ok(n) => Ok(Value::I32(n)),
        Err(fault) => Err(Error::Integer(fault)),
    }
}

/// Decodes a text as a signed 64-bit integer.
pub fn int64_value(text: &str) -> (r: Result<Value, Error>)
    ensures
        result_view(r) == int64_of(text@),
{
    match read_i64(text) {
        Ok(n) => Ok(Value::I64(n)),
        Err(fault) => Err(Error::Integer(fault)),
    }
}

/// The value of a decimal that was rendered anew: its canonical text with the
/// tag `Decimal`.
pub fn decimal_value(rendering: Result<String, Error>) -> (r: Result<Value, Error>)
    ensures
        result_view(r) == decimal_of(rendering_view(rendering)),
{
    match rendering {
        Ok(t) => Ok(Value::String(t).into_ext("Decimal")),
        Err(e) => Err(e),
    }
}

/// The value of a number without constraints, from its text and from what the
/// decimal parser read of it.
pub fn unconstrained_value(text: &str, reading: Result<Decimal, Error>) -> (r: Result<
    Value,
    Error,
>)
    ensures
        result_view(r) == unconstrained_of(text@, reading_view(reading)),
{
    match reading {
        Err(e) => Err(e),
        Ok(d) => {
            let narrow: u64 = I32_DIGITS as u64;
            let wide: u64 = I64_DIGITS as u64;
            if d.is_integer && 1 <= d.digits && d.digits <= narrow {
                int32_value(text)
            } else if d.is_integer && narrow < d.digits && d.digits <= wide {
                int64_value(text)
            } else {
                Ok(Value::String(d.text).into_ext("Decimal"))
            }
        },
    }
}

/// Decodes the text of a numeric cell with the declared precision and scale.
pub fn decode_number(text: &str, precision: u8, scale: i8) -> (r: Result<Value, Error>)
    ensures
        result_view(r) == number_of(text@, precision, scale, decimal_reading(text@)),
{
    if precision == UNCONSTRAINED_PRECISION && scale == UNCONSTRAINED_SCALE {
        unconstrained_value(text, read_decimal(text))
    } else if scale > 0 {
        decimal_value(render_decimal(text))
    } else if 1 <= precision && precision <= I32_DIGITS {
        int32_value(text)
    } else if I32_DIGITS < precision && precision <= I64_DIGITS {
        int64_value(text)
    } else {
        decimal_value(render_decimal(text))
    }
}

/// A null cell is decoded to `Null`, whatever its native type and whatever
/// renderings it carries.
pub proof fn lemma_null_cell(cell: CellView, out: Result<ValueView, ErrorView>)
    requires
        cell.is_sql_null,
        decodes(cell, out),
    ensures
        out == Ok::<ValueView, ErrorView>(ValueView::Null),
{
}

/// Where the declared precision and scale decide. For a numeric cell that is not
/// declared without constraints: with a scale above zero the value is a decimal
/// string whatever the precision; else with a precision of 1 to 9 it is a 32-bit
/// integer, with one of 10 to 18 a 64-bit integer, and with any other a decimal
/// string.
pub proof fn lemma_number_boundaries(
    text: Seq<char>,
    precision: u8,
    scale: i8,
    reading: Result<DecimalView, ErrorView>,
)
    requires
        !(precision == UNCONSTRAINED_PRECISION && scale == UNCONSTRAINED_SCALE),
    ensures
        scale > 0 ==> number_of(text, precision, scale, reading) == decimal_of(
            reading_text(reading),
        ),
        scale <= 0 && 1 <= precision <= 9 ==> number_of(text, precision, scale, reading)
            == int32_of(text),
        scale <= 0 && 10 <= precision <= 18 ==> number_of(text, precision, scale, reading)
            == int64_of(text),
        scale <= 0 && (precision == 0 || precision >= 19) ==> number_of(
            text,
            precision,
            scale,
            reading,
        ) == decimal_of(reading_text(reading)),
        reading matches Ok(d) ==> decimal_of(reading_text(reading)) == Ok::<ValueView, ErrorView>(
            tagged_text("Decimal"@, d.text),
        ),
        reading matches Err(e) ==> decimal_of(reading_text(reading)) == Err::<
            ValueView,
            ErrorView,
        >(e),
        int32_of(text) matches Ok(v) ==> v is I32,
        int64_of(text) matches Ok(v) ==> v is I64,
{
}

/// A number without constraints is decoded by what the decimal parser reads of
/// it: a whole number of up to 9 digits as a 32-bit integer, one of 10 to 18
/// digits as a 64-bit integer, one of more digits and every number that is not
/// whole as a decimal string.
pub proof fn lemma_unconstrained_boundaries(text: Seq<char>, d: DecimalView)
    ensures
        d.is_integer && 1 <= d.digits <= 9 ==> number_of(
            text,
            UNCONSTRAINED_PRECISION,
            UNCONSTRAINED_SCALE,
            Ok(d),
        ) == int32_of(text),
        d.is_integer && 10 <= d.digits <= 18 ==> number_of(
            text,
            UNCONSTRAINED_PRECISION,
            UNCONSTRAINED_SCALE,
            Ok(d),
        ) == int64_of(text),
        !d.is_integer || d.digits == 0 || d.digits > 18 ==> number_of(
            text,
            UNCONSTRAINED_PRECISION,
            UNCONSTRAINED_SCALE,
            Ok(d),
        ) == Ok::<ValueView, ErrorView>(tagged_text("Decimal"@, d.text)),
{
}

/// The digit counts at which the decoder changes the integer's width are the
/// decimal capacities of the two widths: a text of up to 9 digits is always a
/// 32-bit integer and one of up to 18 digits always a 64-bit integer, with or
/// without a sign.
pub proof fn lemma_cutoffs_are_capacities(text: Seq<char>)
    requires
        text.len() >= 1,
        ({
            let start: int = if text[0] == '+' || text[0] == '-' { 1 } else { 0 };
            1 <= text.len() - start && all_digits(text, start, text.len() as int)
        }),
    ensures
        ({
            let start: int = if text[0] == '+' || text[0] == '-' { 1 } else { 0 };
            &&& text.len() - start <= I32_DIGITS ==> int32_of(text) is Ok
            &&& text.len() - start <= I64_DIGITS ==> int64_of(text) is Ok
        }),
{
    let start: int = if text[0] == '+' || text[0] == '-' { 1 } else { 0 };
    if text.len() - start <= 9 {
        lemma_nine_digits_fit_i32(text);
    }
    if text.len() - start <= 18 {
        lemma_eighteen_digits_fit_i64(text);
    }
}

/// A large binary object comes back as it went in. A binary value is bound as
/// its own bytes, and a cell that holds those bytes is decoded to a binary value
/// of the same bytes; `Null` is bound as the native null, and a null cell is
/// decoded to `Null`.
pub proof fn lemma_binary_round_trip(bytes: Seq<u8>, cell: CellView, out: Result<ValueView, ErrorView>)
    requires
        cell.column_type is Blob,
        decodes(cell, out),
    ensures
        param_of(ValueView::Binary(bytes)) == Ok::<ParamView, ErrorView>(ParamView::Binary(bytes)),
        param_of(ValueView::Null) == Ok::<ParamView, ErrorView>(ParamView::NullText),
        !cell.is_sql_null && cell.bin == Some(bytes) ==> out == Ok::<ValueView, ErrorView>(
            ValueView::Binary(bytes),
        ),
        cell.is_sql_null ==> out == Ok::<ValueView, ErrorView>(ValueView::Null),
{
}

/// Every decimal text that the parser accepts is decoded: in a numeric cell with
/// a scale above zero to its canonical text with the tag `Decimal`, whatever the
/// precision and however large the exponent of the text, never to an integer;
/// and so in a cell whose precision is neither 1 to 18 nor declared without
/// constraints.
pub proof fn lemma_accepted_decimal_is_decoded(text: Seq<char>, precision: u8, scale: i8)
    requires
        decimal_parses(text),
        scale > 0 || (precision == 0 && scale != UNCONSTRAINED_SCALE) || precision > I64_DIGITS,
    ensures
        number_of(text, precision, scale, decimal_reading(text)) == Ok::<ValueView, ErrorView>(
            tagged_text("Decimal"@, decimal_canonical(text)),
        ),
{
}

} // verus!
