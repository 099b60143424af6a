//! A driver adapter between a database-agnostic query layer and a relational
//! engine with positional bind variables: placeholder rewriting, the encoding of
//! neutral values into bind parameters, the decoding of native cells into neutral
//! values, and the transaction state of a connection.

use vstd::prelude::*;
use std::sync::Arc;
use crate::decode::{decodes, Decode};
use crate::text::{lowercased, to_lowercase};
use crate::value::{result_view, Error, Value};

pub mod connection;
pub mod date;
pub mod decimal;
pub mod decode;
pub mod driver;
pub mod encode;
pub mod options;
pub mod text;
pub mod value;

verus! {

/// The native type of a column or of a cell, as far as the adapter tells native
/// types apart.
#[derive(Debug, Clone, Copy, PartialEq, Eq, Structural)]
pub enum NativeType {
    /// A number with a declared precision and scale. Precision 0 with scale -127
    /// is the engine's mark of a number without constraints.
    Number(u8, i8),
    /// A fixed-width integer.
    Int64,
    /// A floating-point number with a declared precision.
    Float(u8),
    /// A date with the time of day.
    Date,
    /// A large binary object.
    Blob,
    /// Long text.
    Long,
    /// A large character object.
    Clob,
    /// A large character object in the national character set.
    NClob,
    /// Any other native type.
    Other,
}

/// The descriptor of one column of a result.
#[derive(Debug, Clone)]
pub struct OracleColumn {
    /// The column's name, in lower case.
    pub name: String,
    /// The column's native type.
    pub column_type: NativeType,
    /// The native type as the engine's client prints it.
    pub type_label: String,
}

impl OracleColumn {
    /// The descriptor of a column: the name is kept in lower case, so that a
    /// lookup does not depend on the case that the engine reports.
    pub fn new(name: &str, column_type: NativeType, type_label: &str) -> (r: OracleColumn)
        ensures
            r.name@ == lowercased(name@),
            r.column_type == column_type,
            r.type_label@ == type_label@,
    {
        OracleColumn { name: to_lowercase(name), column_type, type_label: type_label.to_owned() }
    }
}

/// One cell of a result as the engine hands it out: a textual rendering or, for
/// a large binary object, a binary one, with the native type and the null flag.
#[derive(Debug)]
pub struct OracleData {
    /// The textual rendering.
    pub str: Option<String>,
    /// The binary rendering.
    pub bin: Option<Vec<u8>>,
    /// The native type.
    pub column_type: NativeType,
    /// Whether the cell is null.
    pub is_sql_null: bool,
}

/// The mathematical model of a cell.
pub struct CellView {
    pub text: Option<Seq<char>>,
    pub bin: Option<Seq<u8>>,
    pub column_type: NativeType,
    pub is_sql_null: bool,
}

impl View for OracleData {
    type V = CellView;

    open spec fn view(&self) -> CellView {
        CellView {
            text: match self.str {
                Some(t) => Some(t@),
                None => None,
            },
            bin: match self.bin {
                Some(b) => Some(b@),
                None => None,
            },
            column_type: self.column_type,
            is_sql_null: self.is_sql_null,
        }
    }
}

/// What is fetched of a cell.
#[derive(Debug, Clone, Copy, PartialEq, Eq, Structural)]
pub enum Fetch {
    /// Nothing: the cell is null.
    Nothing,
    /// The binary rendering.
    Binary,
    /// The textual rendering.
    Text,
}

/// What is fetched of a cell of the type `column_type`: nothing of a null cell,
/// the bytes of a large binary object, the text of every other cell.
pub open spec fn fetch_of(column_type: NativeType, is_null: bool) -> Fetch {
    if is_null {
        Fetch::Nothing
    } else if column_type is Blob {
        Fetch::Binary
    } else {
        Fetch::Text
    }
}

impl OracleData {
    /// Whether the cell holds what its construction allows: a null cell no
    /// rendering, a large binary object no text, every other cell no bytes.
    pub open spec fn wf(&self) -> bool {
        &&& self.is_sql_null ==> self.str is None && self.bin is None
        &&& self.column_type is Blob ==> self.str is None
        &&& !(self.column_type is Blob) ==> self.bin is None
    }

    /// What is to be fetched of a cell, from its native type and from what the
    /// probe for null gave.
    pub fn plan(column_type: NativeType, is_null: bool) -> (r: Fetch)
        ensures
            r == fetch_of(column_type, is_null),
    {
        if is_null {
            Fetch::Nothing
        } else {
            match column_type {
                NativeType::Blob => Fetch::Binary,
                _ => Fetch::Text,
            }
        }
    }

    /// A null cell.
    pub fn null(column_type: NativeType) -> (r: OracleData)
        ensures
            r.wf(),
            r@ == (CellView { text: None, bin: None, column_type, is_sql_null: true }),
    {
        OracleData { str: None, bin: None, column_type, is_sql_null: true }
    }

    /// The cell of a large binary object, from the bytes that were fetched, if
    /// any were.
    pub fn binary(fetched: Option<Vec<u8>>) -> (r: OracleData)
        ensures
            r.wf(),
            r.str is None,
            r.bin == fetched,
            r.column_type is Blob,
            !r.is_sql_null,
    {
        OracleData { str: None, bin: fetched, column_type: NativeType::Blob, is_sql_null: false }
    }

    /// A cell of the type `column_type`, which is no large binary object, from
    /// the text that was fetched, if any was.
    pub fn text(column_type: NativeType, fetched: Option<String>) -> (r: OracleData)
        requires
            !(column_type is Blob),
        ensures
            r.wf(),
            r.str == fetched,
            r.bin is None,
            r.column_type == column_type,
            !r.is_sql_null,
    {
        OracleData { str: fetched, bin: None, column_type, is_sql_null: false }
    }
}

/// The descriptors of the columns of one result, shared by its rows.
#[derive(Debug)]
pub struct OracleMetaData(pub Arc<Vec<OracleColumn>>);

impl OracleMetaData {
    /// The number of columns.
    pub fn column_len(&self) -> (r: usize)
        ensures
            r == self.0@.len(),
    {
        self.0.len()
    }

    /// The name of the column `i`.
    pub fn column_name(&self, i: usize) -> (r: String)
        requires
            i < self.0@.len(),
        ensures
            r@ == self.0@[i as int].name@,
    {
        self.0[i].name.clone()
    }

    /// The native type of the column `i`, as the engine's client prints it.
    pub fn column_type(&self, i: usize) -> (r: String)
        requires
            i < self.0@.len(),
        ensures
            r@ == self.0@[i as int].type_label@,
    {
        self.0[i].type_label.clone()
    }
}

/// One row of a result: its cells, and the descriptors of the columns, which
/// all rows of the result share.
#[derive(Debug)]
pub struct OracleRow {
    /// The descriptors of the columns.
    pub columns: Arc<Vec<OracleColumn>>,
    /// The cells, one for each column.
    pub datas: Vec<OracleData>,
}

impl OracleRow {
    /// The descriptors of the row's columns.
    pub fn meta_data(&self) -> (r: OracleMetaData)
        ensures
            r.0 == self.columns,
    {
        OracleMetaData(self.columns.clone())
    }

    /// The value of the cell `i`. The row is not changed.
    pub fn get(&mut self, i: usize) -> (r: Result<Value, Error>)
        requires
            i < old(self).datas@.len(),
        ensures
            *final(self) == *old(self),
            decodes(old(self).datas@[i as int]@, result_view(r)),
    {
        Value::decode(&self.datas[i])
    }
}

} // verus!
