//! What a struct stored in a database table declares about it.

use vstd::prelude::*;

verus! {

/// A struct stored in a database table.
pub trait Table {
    /// The type of the table's primary key.
    type PrimaryKeyType;

    /// The table name.
    fn table_name() -> &'static str;
}

} // verus!
