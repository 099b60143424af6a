//! The neutral value model that the adapter exchanges with the query layer, and
//! the errors that the adapter reports.

use vstd::prelude::*;

verus! {

/// A neutral value: what a statement's parameter holds on the way in, and what a
/// cell of a result is decoded to on the way out.
///
/// The adapter never computes with floating-point numbers. It carries one as its
/// decimal text, and keeps apart only whether the number has 32 or 64 bits.
#[derive(Debug)]
pub enum Value {
    /// The absence of a value.
    Null,
    /// A signed 32-bit integer.
    I32(i32),
    /// A signed 64-bit integer.
    I64(i64),
    /// An unsigned 32-bit integer.
    U32(u32),
    /// An unsigned 64-bit integer.
    U64(u64),
    /// A 32-bit float, as its decimal text.
    F32(String),
    /// A 64-bit float, as its decimal text.
    F64(String),
    /// A UTF-8 string.
    String(String),
    /// A binary blob.
    Binary(Vec<u8>),
    /// A value with a semantic tag, such as `"Decimal"` or `"Date"`, and the
    /// payload that the tag says how to read.
    Ext(String, Box<Value>),
    /// A value of any other kind (a boolean, a list, a map), held as its generic
    /// string rendering, which is all that the adapter reads of it.
    Rendered(String),
}

/// The mathematical model of a [`Value`].
pub enum ValueView {
    Null,
    I32(i32),
    I64(i64),
    U32(u32),
    U64(u64),
    F32(Seq<char>),
    F64(Seq<char>),
    String(Seq<char>),
    Binary(Seq<u8>),
    Ext(Seq<char>, Box<ValueView>),
    Rendered(Seq<char>),
}

/// The model of a value, by recursion on its payload.
pub open spec fn value_view(v: Value) -> ValueView
    decreases v,
{
    match v {
        Value::Null => ValueView::Null,
        Value::I32(n) => ValueView::I32(n),
        Value::I64(n) => ValueView::I64(n),
        Value::U32(n) => ValueView::U32(n),
        Value::U64(n) => ValueView::U64(n),
        Value::F32(t) => ValueView::F32(t@),
        Value::F64(t) => ValueView::F64(t@),
        Value::String(t) => ValueView::String(t@),
        Value::Binary(b) => ValueView::Binary(b@),
        Value::Ext(tag, payload) => ValueView::Ext(tag@, Box::new(value_view(*payload))),
        Value::Rendered(t) => ValueView::Rendered(t@),
    }
}

impl View for Value {
    type V = ValueView;

    open spec fn view(&self) -> ValueView {
        value_view(*self)
    }
}

/// The model of a string with the semantic tag `tag`.
pub open spec fn tagged_text(tag: Seq<char>, text: Seq<char>) -> ValueView {
    ValueView::Ext(tag, Box::new(ValueView::String(text)))
}

impl Clone for Value {
    fn clone(&self) -> (r: Value)
        ensures
            r@ == self@,
        decreases self,
    {
        match self {
            Value::Null => Value::Null,
            Value::I32(n) => Value::I32(*n),
            Value::I64(n) => Value::I64(*n),
            Value::U32(n) => Value::U32(*n),
            Value::U64(n) => Value::U64(*n),
            Value::F32(t) => Value::F32(t.clone()),
            Value::F64(t) => Value::F64(t.clone()),
            Value::String(t) => Value::String(t.clone()),
            Value::Binary(b) => Value::Binary(b.clone()),
            Value::Ext(tag, payload) => {
                let inner: &Value = &**payload;
                Value::Ext(tag.clone(), Box::new(inner.clone()))
            },
            Value::Rendered(t) => Value::Rendered(t.clone()),
        }
    }
}

impl Value {
    /// Wraps the value in the extension variant with the tag `tag`.
    pub fn into_ext(self, tag: &str) -> (r: Value)
        ensures
            r@ == ValueView::Ext(tag@, Box::new(self@)),
    {
        Value::Ext(tag.to_owned(), Box::new(self))
    }

    /// Whether the value is the absence of a value.
    pub fn is_null(&self) -> (r: bool)
        ensures
            r == (self@ is Null),
    {
        match self {
            Value::Null => true,
            _ => false,
        }
    }
}

/// Why a text is no integer of the width that was asked for.
#[derive(Debug, Clone, Copy, PartialEq, Eq, Structural)]
pub enum IntegerFault {
    /// The text is empty.
    Empty,
    /// The text holds a character that is no digit, or a sign and nothing else.
    InvalidDigit,
    /// The number is above the largest of that width.
    PosOverflow,
    /// The number is below the smallest of that width.
    NegOverflow,
}

/// An error of the adapter.
#[derive(Debug, Clone)]
pub enum Error {
    /// The native layer failed. The text is the native error's.
    Native(String),
    /// A text that should hold an integer does not.
    Integer(IntegerFault),
    /// A text that should hold a decimal number does not. The text is the
    /// decimal parser's message.
    Decimal(String),
    /// A text that should hold a date or a date and time does not. The text is
    /// the date parser's message.
    Date(String),
    /// A cell that is not null came without the textual rendering that its native
    /// type is decoded from.
    MissingText,
    /// The value or the native type is one that the adapter does not handle.
    Unimplemented,
}

/// The mathematical model of an [`Error`].
pub enum ErrorView {
    Native(Seq<char>),
    Integer(IntegerFault),
    Decimal(Seq<char>),
    Date(Seq<char>),
    MissingText,
    Unimplemented,
}

impl View for Error {
    type V = ErrorView;

    open spec fn view(&self) -> ErrorView {
        match self {
            Error::Native(t) => ErrorView::Native(t@),
            Error::Integer(f) => ErrorView::Integer(*f),
            Error::Decimal(t) => ErrorView::Decimal(t@),
            Error::Date(t) => ErrorView::Date(t@),
            Error::MissingText => ErrorView::MissingText,
            Error::Unimplemented => ErrorView::Unimplemented,
        }
    }
}

/// The model of a result over values: the model of the value, or of the error.
pub open spec fn result_view(r: Result<Value, Error>) -> Result<ValueView, ErrorView> {
    match r {
        Ok(v) => Ok(v@),
        Err(e) => Err(e@),
    }
}

/// The message of an integer fault.
pub open spec fn fault_message(fault: IntegerFault) -> Seq<char> {
    match fault {
        IntegerFault::Empty => "cannot parse integer from empty string"@,
        IntegerFault::InvalidDigit => "invalid digit found in string"@,
        IntegerFault::PosOverflow => "number too large to fit in target type"@,
        IntegerFault::NegOverflow => "number too small to fit in target type"@,
    }
}

/// The message of an error: the text that it carries, or the words that stand
/// for its kind.
pub open spec fn message_of(e: ErrorView) -> Seq<char> {
    match e {
        ErrorView::Native(t) => t,
        ErrorView::Integer(fault) => fault_message(fault),
        ErrorView::Decimal(t) => t,
        ErrorView::Date(t) => t,
        ErrorView::MissingText => "the cell has no textual rendering"@,
        ErrorView::Unimplemented => "unimpl"@,
    }
}

impl IntegerFault {
    /// The message of the fault.
    pub fn message(&self) -> (r: String)
        ensures
            r@ == fault_message(*self),
    {
        match self {
            IntegerFault::Empty => "cannot parse integer from empty string".to_owned(),
            IntegerFault::InvalidDigit => "invalid digit found in string".to_owned(),
            IntegerFault::PosOverflow => "number too large to fit in target type".to_owned(),
            IntegerFault::NegOverflow => "number too small to fit in target type".to_owned(),
        }
    }
}

impl Error {
    /// The message of the error.
    pub fn message(&self) -> (r: String)
        ensures
            r@ == message_of(self@),
    {
        match self {
            Error::Native(t) => t.clone(),
            Error::Integer(fault) => fault.message(),
            Error::Decimal(t) => t.clone(),
            Error::Date(t) => t.clone(),
            Error::MissingText => "the cell has no textual rendering".to_owned(),
            Error::Unimplemented => "unimpl".to_owned(),
        }
    }
}

} // verus!
