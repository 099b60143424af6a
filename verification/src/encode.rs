//! Encoding: one neutral value to the native parameter that is bound in its place.

use vstd::prelude::*;
use crate::date::{
    date_fault, date_of, parse_date, parse_timestamp, timestamp_fault, timestamp_of, Date,
    Timestamp,
};
use crate::decimal::{decimal_canonical, decimal_parses, decimal_rendering, render_decimal};
use crate::text::same_text;
use crate::value::{tagged_text, Error, ErrorView, Value, ValueView};

verus! {

/// A native bind parameter.
#[derive(Debug)]
pub enum NativeParam {
    /// The native null, typed as text.
    NullText,
    /// A text.
    Text(String),
    /// A signed 32-bit integer.
    I32(i32),
    /// A signed 64-bit integer.
    I64(i64),
    /// An unsigned 32-bit integer.
    U32(u32),
    /// An unsigned 64-bit integer.
    U64(u64),
    /// A 32-bit float, as its decimal text.
    F32(String),
    /// A 64-bit float, as its decimal text.
    F64(String),
    /// A binary.
    Binary(Vec<u8>),
    /// A native date.
    Date(Date),
    /// A native timestamp.
    Timestamp(Timestamp),
}

/// The mathematical model of a [`NativeParam`].
pub enum ParamView {
    NullText,
    Text(Seq<char>),
    I32(i32),
    I64(i64),
    U32(u32),
    U64(u64),
    F32(Seq<char>),
    F64(Seq<char>),
    Binary(Seq<u8>),
    Date(Date),
    Timestamp(Timestamp),
}

impl View for NativeParam {
    type V = ParamView;

    open spec fn view(&self) -> ParamView {
        match self {
            NativeParam::NullText => ParamView::NullText,
            NativeParam::Text(t) => ParamView::Text(t@),
            NativeParam::I32(n) => ParamView::I32(*n),
            NativeParam::I64(n) => ParamView::I64(*n),
            NativeParam::U32(n) => ParamView::U32(*n),
            NativeParam::U64(n) => ParamView::U64(*n),
            NativeParam::F32(t) => ParamView::F32(t@),
            NativeParam::F64(t) => ParamView::F64(t@),
            NativeParam::Binary(b) => ParamView::Binary(b@),
            NativeParam::Date(d) => ParamView::Date(*d),
            NativeParam::Timestamp(t) => ParamView::Timestamp(*t),
        }
    }
}

/// One parameter and the position at which the native statement takes it.
/// Positions count from one.
#[derive(Debug)]
pub struct Bind {
    pub position: usize,
    pub param: NativeParam,
}

/// The text of a payload: that of a string, looked for through extension tags.
pub open spec fn payload_text(v: ValueView) -> Option<Seq<char>>
    decreases v,
{
    match v {
        ValueView::String(t) => Some(t),
        ValueView::Ext(_, inner) => payload_text(*inner),
        _ => None,
    }
}

/// The text of a payload, empty where it has none.
pub open spec fn payload_text_or_empty(v: ValueView) -> Seq<char> {
    match payload_text(v) {
        Some(t) => t,
        None => Seq::empty(),
    }
}

/// An unsigned 64-bit number taken as a signed one of the same bits.
pub open spec fn as_signed(n: u64) -> i64 {
    if n <= i64::MAX as u64 {
        n as i64
    } else {
        (n - 0x1_0000_0000_0000_0000) as i64
    }
}

/// The epoch value of a payload, looked for through extension tags: the number
/// of an integer, taken as an unsigned 64-bit number and then as a signed one;
/// zero for a payload that is no number. A float is not taken: `None`.
pub open spec fn payload_epoch(v: ValueView) -> Option<i64>
    decreases v,
{
    match v {
        ValueView::I32(n) => Some(n as i64),
        ValueView::I64(n) => Some(n),
        ValueView::U32(n) => Some(n as i64),
        ValueView::U64(n) => Some(as_signed(n)),
        ValueView::F32(_) => None,
        ValueView::F64(_) => None,
        ValueView::Ext(_, inner) => payload_epoch(*inner),
        _ => Some(0),
    }
}

/// The parameter that a payload with the tag `tag` is bound as.
///
/// `Date` and `DateTime` are parsed into a native date and a native timestamp,
/// `Decimal` is rendered anew as its canonical text, `Timestamp` is an epoch
/// value, `Time` and `Uuid` are the text as it is. A payload that its tag cannot
/// read, and every other tag, is refused.
pub open spec fn ext_param_of(tag: Seq<char>, payload: ValueView) -> Result<ParamView, ErrorView> {
    if tag == "Date"@ {
        match date_of(payload_text_or_empty(payload)) {
            Some(d) => Ok(ParamView::Date(d)),
            None => Err(ErrorView::Date(date_fault(payload_text_or_empty(payload)))),
        }
    } else if tag == "DateTime"@ {
        match timestamp_of(payload_text_or_empty(payload)) {
            Some(t) => Ok(ParamView::Timestamp(t)),
            None => Err(ErrorView::Date(timestamp_fault(payload_text_or_empty(payload)))),
        }
    } else if tag == "Time"@ || tag == "Uuid"@ {
        match payload_text(payload) {
            Some(t) => Ok(ParamView::Text(t)),
            None => Err(ErrorView::Unimplemented),
        }
    } else if tag == "Decimal"@ {
        match decimal_rendering(payload_text_or_empty(payload)) {
            Ok(t) => Ok(ParamView::Text(t)),
            Err(e) => Err(e),
        }
    } else if tag == "Timestamp"@ {
        match payload_epoch(payload) {
            Some(n) => Ok(ParamView::I64(n)),
            None => Err(ErrorView::Unimplemented),
        }
    } else {
        Err(ErrorView::Unimplemented)
    }
}

/// The parameter that a value is bound as.
pub open spec fn param_of(v: ValueView) -> Result<ParamView, ErrorView> {
    match v {
        ValueView::Null => Ok(ParamView::NullText),
        ValueView::I32(n) => Ok(ParamView::I32(n)),
        ValueView::I64(n) => Ok(ParamView::I64(n)),
        ValueView::U32(n) => Ok(ParamView::U32(n)),
        ValueView::U64(n) => Ok(ParamView::U64(n)),
        ValueView::F32(t) => Ok(ParamView::F32(t)),
        ValueView::F64(t) => Ok(ParamView::F64(t)),
        ValueView::String(t) => Ok(ParamView::Text(t)),
        ValueView::Binary(b) => Ok(ParamView::Binary(b)),
        ValueView::Ext(tag, payload) => ext_param_of(tag, *payload),
        ValueView::Rendered(t) => Ok(ParamView::Text(t)),
    }
}

/// The model of the result of an encoding.
pub open spec fn bind_view(r: Result<Bind, Error>) -> Result<(int, ParamView), ErrorView> {
    match r {
        Ok(b) => Ok((b.position as int, b.param@)),
        Err(e) => Err(e@),
    }
}

/// What the parameter with the index `idx`, counted from zero, is encoded to:
/// the parameter of its value at the position `idx + 1`.
pub open spec fn encoding_of(v: ValueView, idx: int) -> Result<(int, ParamView), ErrorView> {
    match param_of(v) {
        Ok(p) => Ok((idx + 1, p)),
        Err(e) => Err(e),
    }
}

/// Encoding a neutral value into a native bind parameter.
pub trait Encode: Sized {
    /// What the value is encoded to as the parameter with the index `idx`.
    spec fn encoded(self, idx: usize) -> Result<(int, ParamView), ErrorView>;

    /// Encodes the value as the parameter with the index `idx`, counted from zero.
    fn encode(self, idx: usize) -> (r: Result<Bind, Error>)
        requires
            idx < usize::MAX,
        ensures
            bind_view(r) == self.encoded(idx),
    ;
}

impl Encode for Value {
    open spec fn encoded(self, idx: usize) -> Result<(int, ParamView), ErrorView> {
        encoding_of(self@, idx as int)
    }

    fn encode(self, idx: usize) -> (r: Result<Bind, Error>) {
        match encode_param(self) {
            Ok(param) => Ok(Bind { position: idx + 1, param }),
            Err(e) => Err(e),
        }
    }
}

/// The text of a payload: that of a string, looked for through extension tags.
pub fn text_of_payload(v: &Value) -> (r: Option<&str>)
    ensures
        match r {
            Some(t) => payload_text(v@) == Some(t@),
            None => payload_text(v@) is None,
        },
    decreases v,
{
    match v {
        Value::String(t) => Some(t.as_str()),
        Value::Ext(_, inner) => text_of_payload(inner),
        _ => None,
    }
}

/// The epoch value of a payload; `None` for a float.
pub fn epoch_of_payload(v: &Value) -> (r: Option<i64>)
    ensures
        r == payload_epoch(v@),
    decreases v,
{
    match v {
        Value::I32(n) => Some(*n as i64),
        Value::I64(n) => Some(*n),
        Value::U32(n) => Some(*n as i64),
        Value::U64(n) => {
            if *n <= i64::MAX as u64 {
                Some(*n as i64)
            } else {
                let low: i64 = (*n - 0x8000_0000_0000_0000) as i64;
                Some(low + i64::MIN)
            }
        },
        Value::F32(_) => None,
        Value::F64(_) => None,
        Value::Ext(_, inner) => epoch_of_payload(inner),
        _ => Some(0),
    }
}

/// The parameter that a payload with the tag `tag` is bound as.
pub fn encode_ext(tag: &str, payload: &Value) -> (r: Result<NativeParam, Error>)
    ensures
        match r {
            Ok(p) => ext_param_of(tag@, payload@) == Ok::<ParamView, ErrorView>(p@),
            Err(e) => ext_param_of(tag@, payload@) == Err::<ParamView, ErrorView>(e@),
        },
{
    let text: &str = match text_of_payload(payload) {
        Some(t) => t,
        None => "",
    };
    proof {
        reveal_strlit("");
        assert(text@ =~= payload_text_or_empty(payload@));
    }
    if same_text(tag, "Date") {
        match parse_date(text) {
            Ok(d) => Ok(NativeParam::Date(d)),
            Err(e) => Err(Error::Date(e)),
        }
    } else if same_text(tag, "DateTime") {
        match parse_timestamp(text) {
            Ok(t) => Ok(NativeParam::Timestamp(t)),
            Err(e) => Err(Error::Date(e)),
        }
    } else if same_text(tag, "Time") || same_text(tag, "Uuid") {
        match text_of_payload(payload) {
            Some(t) => Ok(NativeParam::Text(t.to_owned())),
            None => Err(Error::Unimplemented),
        }
    } else if same_text(tag, "Decimal") {
        match render_decimal(text) {
            Ok(t) => Ok(NativeParam::Text(t)),
            Err(e) => Err(e),
        }
    } else if same_text(tag, "Timestamp") {
        match epoch_of_payload(payload) {
            Some(n) => Ok(NativeParam::I64(n)),
            None => Err(Error::Unimplemented),
        }
    } else {
        Err(Error::Unimplemented)
    }
}

/// The parameter that a value is bound as.
pub fn encode_param(v: Value) -> (r: Result<NativeParam, Error>)
    ensures
        match r {
            Ok(p) => param_of(v@) == Ok::<ParamView, ErrorView>(p@),
            Err(e) => param_of(v@) == Err::<ParamView, ErrorView>(e@),
        },
{
    match v {
        Value::Null => Ok(NativeParam::NullText),
        Value::I32(n) => Ok(NativeParam::I32(n)),
        Value::I64(n) => Ok(NativeParam::I64(n)),
        Value::U32(n) => Ok(NativeParam::U32(n)),
        Value::U64(n) => Ok(NativeParam::U64(n)),
        Value::F32(t) => Ok(NativeParam::F32(t)),
        Value::F64(t) => Ok(NativeParam::F64(t)),
        Value::String(t) => Ok(NativeParam::Text(t)),
        Value::Binary(b) => Ok(NativeParam::Binary(b)),
        Value::Ext(tag, payload) => encode_ext(tag.as_str(), &payload),
        Value::Rendered(t) => Ok(NativeParam::Text(t)),
    }
}

/// Every decimal payload that the parser accepts is bound, as its canonical text
/// and at the position after its index, however large its exponent.
pub proof fn lemma_accepted_decimal_is_bound(text: Seq<char>, idx: int)
    requires
        decimal_parses(text),
    ensures
        encoding_of(tagged_text("Decimal"@, text), idx) == Ok::<(int, ParamView), ErrorView>(
            (idx + 1, ParamView::Text(decimal_canonical(text))),
        ),
{
    reveal_strlit("Decimal");
    reveal_strlit("Date");
    reveal_strlit("DateTime");
    reveal_strlit("Time");
    reveal_strlit("Uuid");
    assert("Decimal"@.len() == 7);
    assert("Date"@.len() == 4);
    assert("DateTime"@.len() == 8);
    assert("Time"@.len() == 4);
    assert("Uuid"@.len() == 4);
    assert(payload_text_or_empty(ValueView::String(text)) == text);
}

/// A value that is no extension always has a parameter: it is bound at the
/// position after its index.
pub proof fn lemma_plain_value_is_bound(v: ValueView, idx: int)
    requires
        !(v is Ext),
    ensures
        encoding_of(v, idx) is Ok,
        encoding_of(v, idx)->Ok_0.0 == idx + 1,
{
}

} // verus!
