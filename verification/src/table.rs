//! The struct-to-table mapping interface: what a record type must provide
//! to travel to and from a SQL table, and the attribute values a mapping
//! declaration can carry.

use vstd::prelude::*;

verus! {

/// Column attributes a field mapping declares.
#[derive(Clone, Debug)]
pub struct FieldAttribute {
    pub size: Option<i32>,
    pub unique: bool,
    pub not_null: bool,
}

/// A record type mapped to a SQL table: its table name, its column
/// schema, and the conversions between the record and a row of column
/// values.
pub trait SQLTable: Sized {
    type Type;

    fn table_name(&self) -> &'static str;

    fn schema_of(&self) -> Vec<(String, String, FieldAttribute)>;

    fn map_to_sql<V: SQLValue<Self::Type>>(self) -> Vec<(String, V)>;

    fn map_from_sql<V: SQLValue<Self::Type>>(v: Vec<V>) -> Self;
}

/// A field type storable in a column of the underlying value type.
pub trait SQLValue<Type>: Sized {
    fn column_type(t: core::marker::PhantomData<Self>) -> &'static str;

    fn serialize(self) -> Type;

    fn deserialize(t: Type) -> Self;
}

/// One literal value of a mapping attribute: a string, an integer, or a
/// boolean.
#[derive(Clone, Debug)]
pub enum Universe {
    VStr(String),
    VI32(i32),
    VBool(bool),
}

impl Universe {
    /// The string this value holds, if it is one.
    pub fn as_str(self) -> (r: Option<String>)
        ensures
            self matches Universe::VStr(s) ==> r == Some(s),
            !(self is VStr) ==> r is None,
    {
        match self {
            Universe::VStr(s) => Some(s),
            _ => None,
        }
    }

    /// The integer this value holds, if it is one.
    pub fn as_i32(self) -> (r: Option<i32>)
        ensures
            self matches Universe::VI32(v) ==> r == Some(v),
            !(self is VI32) ==> r is None,
    {
        match self {
            Universe::VI32(v) => Some(v),
            _ => None,
        }
    }

    /// The boolean this value holds, if it is one.
    pub fn as_bool(self) -> (r: Option<bool>)
        ensures
            self matches Universe::VBool(b) ==> r == Some(b),
            !(self is VBool) ==> r is None,
    {
        match self {
            Universe::VBool(b) => Some(b),
            _ => None,
        }
    }
}

} // verus!
