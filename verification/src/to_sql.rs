//! Conversions of record values to the SQL text and argument lists of
//! queries.

use vstd::prelude::*;

verus! {

/// A value with an SQL text.
pub trait ToSql {
    fn to_sql(&self) -> String;
}

/// A value that spreads into a list, such as a tuple of column values.
pub trait ToArray<T> {
    fn to_array(&self) -> Vec<T>;
}

} // verus!
