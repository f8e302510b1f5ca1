//! Offline metadata of tables and record structs, and the check that a record
//! struct matches the table it is stored in.

use vstd::prelude::*;
use crate::text::views;

verus! {

/// The column/field types the metadata check understands.
#[derive(PartialEq, Eq, Structural, Clone, Copy, Debug)]
pub enum DataTypes {
    Bool,
    Bytes,
    I8,
    I16,
    I32,
    U32,
    I64,
    F32,
    F64,
    String,
    HashMap,
    SystemTime,
    IpAddr,
    Uuid,
    TimestampWithTimeZone,
}

/// The data type that a Rust type name stands for, if it is supported.
pub open spec fn data_type_of(s: Seq<char>) -> Option<DataTypes> {
    if s == "bool"@ { Some(DataTypes::Bool) }
    else if s == "Vec<u8>"@ || s == "&[u8]"@ { Some(DataTypes::Bytes) }
    else if s == "i8"@ { Some(DataTypes::I8) }
    else if s == "i16"@ { Some(DataTypes::I16) }
    else if s == "i32"@ { Some(DataTypes::I32) }
    else if s == "u32"@ { Some(DataTypes::U32) }
    else if s == "i64"@ { Some(DataTypes::I64) }
    else if s == "f32"@ { Some(DataTypes::F32) }
    else if s == "f64"@ { Some(DataTypes::F64) }
    else if s == "String"@ || s == "&str"@ { Some(DataTypes::String) }
    else if s == "HashMap<String, Option<String>>"@ { Some(DataTypes::HashMap) }
    else if s == "SystemTime"@ { Some(DataTypes::SystemTime) }
    else if s == "IpAddr"@ { Some(DataTypes::IpAddr) }
    else if s == "Uuid"@ { Some(DataTypes::Uuid) }
    else if s == "DateTime<Utc>"@ { Some(DataTypes::TimestampWithTimeZone) }
    else { None }
}

/// The message that rejects an unsupported type name.
pub open spec fn unsupported_type_message(s: Seq<char>) -> Seq<char> {
    "Type "@ + s + " isn't supported at the moment"@
}

impl DataTypes {
    /// Reads a data type from the name of the Rust type that stores it.
    pub fn try_from(value: String) -> (r: Result<DataTypes, String>)
        ensures
            match data_type_of(value@) {
                Some(t) => r == Ok::<DataTypes, String>(t),
                None => r matches Err(e) && e@ == unsupported_type_message(value@),
            },
    {
        let v = value.as_str();
        if crate::text::str_eq(v, "bool") { Ok(DataTypes::Bool) }
        else if crate::text::str_eq(v, "Vec<u8>") || crate::text::str_eq(v, "&[u8]") { Ok(DataTypes::Bytes) }
        else if crate::text::str_eq(v, "i8") { Ok(DataTypes::I8) }
        else if crate::text::str_eq(v, "i16") { Ok(DataTypes::I16) }
        else if crate::text::str_eq(v, "i32") { Ok(DataTypes::I32) }
        else if crate::text::str_eq(v, "u32") { Ok(DataTypes::U32) }
        else if crate::text::str_eq(v, "i64") { Ok(DataTypes::I64) }
        else if crate::text::str_eq(v, "f32") { Ok(DataTypes::F32) }
        else if crate::text::str_eq(v, "f64") { Ok(DataTypes::F64) }
        else if crate::text::str_eq(v, "String") || crate::text::str_eq(v, "&str") { Ok(DataTypes::String) }
        else if crate::text::str_eq(v, "HashMap<String, Option<String>>") { Ok(DataTypes::HashMap) }
        else if crate::text::str_eq(v, "SystemTime") { Ok(DataTypes::SystemTime) }
        else if crate::text::str_eq(v, "IpAddr") { Ok(DataTypes::IpAddr) }
        else if crate::text::str_eq(v, "Uuid") { Ok(DataTypes::Uuid) }
        else if crate::text::str_eq(v, "DateTime<Utc>") { Ok(DataTypes::TimestampWithTimeZone) }
        else {
            let mut e = String::from_str("Type ");
            e.append(v);
            e.append(" isn't supported at the moment");
            Err(e)
        }
    }
}

/// The Rust type a data type is stored in, by its owned name.
pub open spec fn rust_type_name(d: DataTypes) -> Seq<char> {
    match d {
        DataTypes::Bool => "bool"@,
        DataTypes::Bytes => "Vec<u8>"@,
        DataTypes::I8 => "i8"@,
        DataTypes::I16 => "i16"@,
        DataTypes::I32 => "i32"@,
        DataTypes::U32 => "u32"@,
        DataTypes::I64 => "i64"@,
        DataTypes::F32 => "f32"@,
        DataTypes::F64 => "f64"@,
        DataTypes::String => "String"@,
        DataTypes::HashMap => "HashMap<String, Option<String>>"@,
        DataTypes::SystemTime => "SystemTime"@,
        DataTypes::IpAddr => "IpAddr"@,
        DataTypes::Uuid => "Uuid"@,
        DataTypes::TimestampWithTimeZone => "DateTime<Utc>"@,
    }
}

/// The borrowed name that also reads as a data type: `&[u8]` for bytes and
/// `&str` for strings; the owned name for the others.
pub open spec fn borrowed_type_name(d: DataTypes) -> Seq<char> {
    match d {
        DataTypes::Bytes => "&[u8]"@,
        DataTypes::String => "&str"@,
        _ => rust_type_name(d),
    }
}

/// Reading a Rust type name gives the data type of that name and width
/// (`i64` is `I64`, `i32` is `I32`, ...): every data type's name reads back
/// as itself, and a name that reads as a data type is that type's owned or
/// borrowed name. So names of distinct types never read alike.
pub proof fn law_type_names_read_back(d: DataTypes, s: Seq<char>)
    ensures
        data_type_of(rust_type_name(d)) == Some(d),
        data_type_of(borrowed_type_name(d)) == Some(d),
        data_type_of(s) == Some(d) ==> (s == rust_type_name(d) || s == borrowed_type_name(d)),
{
    reveal_strlit("bool");
    reveal_strlit("Vec<u8>");
    reveal_strlit("&[u8]");
    reveal_strlit("i8");
    reveal_strlit("i16");
    reveal_strlit("i32");
    reveal_strlit("u32");
    reveal_strlit("i64");
    reveal_strlit("f32");
    reveal_strlit("f64");
    reveal_strlit("String");
    reveal_strlit("&str");
    reveal_strlit("HashMap<String, Option<String>>");
    reveal_strlit("SystemTime");
    reveal_strlit("IpAddr");
    reveal_strlit("Uuid");
    reveal_strlit("DateTime<Utc>");
    match d {
        DataTypes::Bool => {
        },
        DataTypes::Bytes => {
            assert("Vec<u8>"@.len() != "bool"@.len());
            assert("Vec<u8>"@ != "bool"@);
            assert("&[u8]"@.len() != "bool"@.len());
            assert("&[u8]"@ != "bool"@);
        },
        DataTypes::I8 => {
            assert("i8"@.len() != "bool"@.len());
            assert("i8"@ != "bool"@);
            assert("i8"@.len() != "Vec<u8>"@.len());
            assert("i8"@ != "Vec<u8>"@);
            assert("i8"@.len() != "&[u8]"@.len());
            assert("i8"@ != "&[u8]"@);
        },
        DataTypes::I16 => {
            assert("i16"@.len() != "bool"@.len());
            assert("i16"@ != "bool"@);
            assert("i16"@.len() != "Vec<u8>"@.len());
            assert("i16"@ != "Vec<u8>"@);
            assert("i16"@.len() != "&[u8]"@.len());
            assert("i16"@ != "&[u8]"@);
            assert("i16"@.len() != "i8"@.len());
            assert("i16"@ != "i8"@);
        },
        DataTypes::I32 => {
            assert("i32"@.len() != "bool"@.len());
            assert("i32"@ != "bool"@);
            assert("i32"@.len() != "Vec<u8>"@.len());
            assert("i32"@ != "Vec<u8>"@);
            assert("i32"@.len() != "&[u8]"@.len());
            assert("i32"@ != "&[u8]"@);
            assert("i32"@.len() != "i8"@.len());
            assert("i32"@ != "i8"@);
            assert("i32"@[1] != "i16"@[1]);
            assert("i32"@ != "i16"@);
        },
        DataTypes::U32 => {
            assert("u32"@.len() != "bool"@.len());
            assert("u32"@ != "bool"@);
            assert("u32"@.len() != "Vec<u8>"@.len());
            assert("u32"@ != "Vec<u8>"@);
            assert("u32"@.len() != "&[u8]"@.len());
            assert("u32"@ != "&[u8]"@);
            assert("u32"@.len() != "i8"@.len());
            assert("u32"@ != "i8"@);
            assert("u32"@[0] != "i16"@[0]);
            assert("u32"@ != "i16"@);
            assert("u32"@[0] != "i32"@[0]);
            assert("u32"@ != "i32"@);
        },
        DataTypes::I64 => {
            assert("i64"@.len() != "bool"@.len());
            assert("i64"@ != "bool"@);
            assert("i64"@.len() != "Vec<u8>"@.len());
            assert("i64"@ != "Vec<u8>"@);
            assert("i64"@.len() != "&[u8]"@.len());
            assert("i64"@ != "&[u8]"@);
            assert("i64"@.len() != "i8"@.len());
            assert("i64"@ != "i8"@);
            assert("i64"@[1] != "i16"@[1]);
            assert("i64"@ != "i16"@);
            assert("i64"@[1] != "i32"@[1]);
            assert("i64"@ != "i32"@);
            assert("i64"@[0] != "u32"@[0]);
            assert("i64"@ != "u32"@);
        },
        DataTypes::F32 => {
            assert("f32"@.len() != "bool"@.len());
            assert("f32"@ != "bool"@);
            assert("f32"@.len() != "Vec<u8>"@.len());
            assert("f32"@ != "Vec<u8>"@);
            assert("f32"@.len() != "&[u8]"@.len());
            assert("f32"@ != "&[u8]"@);
            assert("f32"@.len() != "i8"@.len());
            assert("f32"@ != "i8"@);
            assert("f32"@[0] != "i16"@[0]);
            assert("f32"@ != "i16"@);
            assert("f32"@[0] != "i32"@[0]);
            assert("f32"@ != "i32"@);
            assert("f32"@[0] != "u32"@[0]);
            assert("f32"@ != "u32"@);
            assert("f32"@[0] != "i64"@[0]);
            assert("f32"@ != "i64"@);
        },
        DataTypes::F64 => {
            assert("f64"@.len() != "bool"@.len());
            assert("f64"@ != "bool"@);
            assert("f64"@.len() != "Vec<u8>"@.len());
            assert("f64"@ != "Vec<u8>"@);
            assert("f64"@.len() != "&[u8]"@.len());
            assert("f64"@ != "&[u8]"@);
            assert("f64"@.len() != "i8"@.len());
            assert("f64"@ != "i8"@);
            assert("f64"@[0] != "i16"@[0]);
            assert("f64"@ != "i16"@);
            assert("f64"@[0] != "i32"@[0]);
            assert("f64"@ != "i32"@);
            assert("f64"@[0] != "u32"@[0]);
            assert("f64"@ != "u32"@);
            assert("f64"@[0] != "i64"@[0]);
            assert("f64"@ != "i64"@);
            assert("f64"@[1] != "f32"@[1]);
            assert("f64"@ != "f32"@);
        },
        DataTypes::String => {
            assert("String"@.len() != "bool"@.len());
            assert("String"@ != "bool"@);
            assert("String"@.len() != "Vec<u8>"@.len());
            assert("String"@ != "Vec<u8>"@);
            assert("String"@.len() != "&[u8]"@.len());
            assert("String"@ != "&[u8]"@);
            assert("String"@.len() != "i8"@.len());
            assert("String"@ != "i8"@);
            assert("String"@.len() != "i16"@.len());
            assert("String"@ != "i16"@);
            assert("String"@.len() != "i32"@.len());
            assert("String"@ != "i32"@);
            assert("String"@.len() != "u32"@.len());
            assert("String"@ != "u32"@);
            assert("String"@.len() != "i64"@.len());
            assert("String"@ != "i64"@);
            assert("String"@.len() != "f32"@.len());
            assert("String"@ != "f32"@);
            assert("String"@.len() != "f64"@.len());
            assert("String"@ != "f64"@);
            assert("&str"@[0] != "bool"@[0]);
            assert("&str"@ != "bool"@);
            assert("&str"@.len() != "Vec<u8>"@.len());
            assert("&str"@ != "Vec<u8>"@);
            assert("&str"@.len() != "&[u8]"@.len());
            assert("&str"@ != "&[u8]"@);
            assert("&str"@.len() != "i8"@.len());
            assert("&str"@ != "i8"@);
            assert("&str"@.len() != "i16"@.len());
            assert("&str"@ != "i16"@);
            assert("&str"@.len() != "i32"@.len());
            assert("&str"@ != "i32"@);
            assert("&str"@.len() != "u32"@.len());
            assert("&str"@ != "u32"@);
            assert("&str"@.len() != "i64"@.len());
            assert("&str"@ != "i64"@);
            assert("&str"@.len() != "f32"@.len());
            assert("&str"@ != "f32"@);
            assert("&str"@.len() != "f64"@.len());
            assert("&str"@ != "f64"@);
        },
        DataTypes::HashMap => {
            assert("HashMap<String, Option<String>>"@.len() != "bool"@.len());
            assert("HashMap<String, Option<String>>"@ != "bool"@);
            assert("HashMap<String, Option<String>>"@.len() != "Vec<u8>"@.len());
            assert("HashMap<String, Option<String>>"@ != "Vec<u8>"@);
            assert("HashMap<String, Option<String>>"@.len() != "&[u8]"@.len());
            assert("HashMap<String, Option<String>>"@ != "&[u8]"@);
            assert("HashMap<String, Option<String>>"@.len() != "i8"@.len());
            assert("HashMap<String, Option<String>>"@ != "i8"@);
            assert("HashMap<String, Option<String>>"@.len() != "i16"@.len());
            assert("HashMap<String, Option<String>>"@ != "i16"@);
            assert("HashMap<String, Option<String>>"@.len() != "i32"@.len());
            assert("HashMap<String, Option<String>>"@ != "i32"@);
            assert("HashMap<String, Option<String>>"@.len() != "u32"@.len());
            assert("HashMap<String, Option<String>>"@ != "u32"@);
            assert("HashMap<String, Option<String>>"@.len() != "i64"@.len());
            assert("HashMap<String, Option<String>>"@ != "i64"@);
            assert("HashMap<String, Option<String>>"@.len() != "f32"@.len());
            assert("HashMap<String, Option<String>>"@ != "f32"@);
            assert("HashMap<String, Option<String>>"@.len() != "f64"@.len());
            assert("HashMap<String, Option<String>>"@ != "f64"@);
            assert("HashMap<String, Option<String>>"@.len() != "String"@.len());
            assert("HashMap<String, Option<String>>"@ != "String"@);
            assert("HashMap<String, Option<String>>"@.len() != "&str"@.len());
            assert("HashMap<String, Option<String>>"@ != "&str"@);
        },
        DataTypes::SystemTime => {
            assert("SystemTime"@.len() != "bool"@.len());
            assert("SystemTime"@ != "bool"@);
            assert("SystemTime"@.len() != "Vec<u8>"@.len());
            assert("SystemTime"@ != "Vec<u8>"@);
            assert("SystemTime"@.len() != "&[u8]"@.len());
            assert("SystemTime"@ != "&[u8]"@);
            assert("SystemTime"@.len() != "i8"@.len());
            assert("SystemTime"@ != "i8"@);
            assert("SystemTime"@.len() != "i16"@.len());
            assert("SystemTime"@ != "i16"@);
            assert("SystemTime"@.len() != "i32"@.len());
            assert("SystemTime"@ != "i32"@);
            assert("SystemTime"@.len() != "u32"@.len());
            assert("SystemTime"@ != "u32"@);
            assert("SystemTime"@.len() != "i64"@.len());
            assert("SystemTime"@ != "i64"@);
            assert("SystemTime"@.len() != "f32"@.len());
            assert("SystemTime"@ != "f32"@);
            assert("SystemTime"@.len() != "f64"@.len());
            assert("SystemTime"@ != "f64"@);
            assert("SystemTime"@.len() != "String"@.len());
            assert("SystemTime"@ != "String"@);
            assert("SystemTime"@.len() != "&str"@.len());
            assert("SystemTime"@ != "&str"@);
            assert("SystemTime"@.len() != "HashMap<String, Option<String>>"@.len());
            assert("SystemTime"@ != "HashMap<String, Option<String>>"@);
        },
        DataTypes::IpAddr => {
            assert("IpAddr"@.len() != "bool"@.len());
            assert("IpAddr"@ != "bool"@);
            assert("IpAddr"@.len() != "Vec<u8>"@.len());
            assert("IpAddr"@ != "Vec<u8>"@);
            assert("IpAddr"@.len() != "&[u8]"@.len());
            assert("IpAddr"@ != "&[u8]"@);
            assert("IpAddr"@.len() != "i8"@.len());
            assert("IpAddr"@ != "i8"@);
            assert("IpAddr"@.len() != "i16"@.len());
            assert("IpAddr"@ != "i16"@);
            assert("IpAddr"@.len() != "i32"@.len());
            assert("IpAddr"@ != "i32"@);
            assert("IpAddr"@.len() != "u32"@.len());
            assert("IpAddr"@ != "u32"@);
            assert("IpAddr"@.len() != "i64"@.len());
            assert("IpAddr"@ != "i64"@);
            assert("IpAddr"@.len() != "f32"@.len());
            assert("IpAddr"@ != "f32"@);
            assert("IpAddr"@.len() != "f64"@.len());
            assert("IpAddr"@ != "f64"@);
            assert("IpAddr"@[0] != "String"@[0]);
            assert("IpAddr"@ != "String"@);
            assert("IpAddr"@.len() != "&str"@.len());
            assert("IpAddr"@ != "&str"@);
            assert("IpAddr"@.len() != "HashMap<String, Option<String>>"@.len());
            assert("IpAddr"@ != "HashMap<String, Option<String>>"@);
            assert("IpAddr"@.len() != "SystemTime"@.len());
            assert("IpAddr"@ != "SystemTime"@);
        },
        DataTypes::Uuid => {
            assert("Uuid"@[0] != "bool"@[0]);
            assert("Uuid"@ != "bool"@);
            assert("Uuid"@.len() != "Vec<u8>"@.len());
            assert("Uuid"@ != "Vec<u8>"@);
            assert("Uuid"@.len() != "&[u8]"@.len());
            assert("Uuid"@ != "&[u8]"@);
            assert("Uuid"@.len() != "i8"@.len());
            assert("Uuid"@ != "i8"@);
            assert("Uuid"@.len() != "i16"@.len());
            assert("Uuid"@ != "i16"@);
            assert("Uuid"@.len() != "i32"@.len());
            assert("Uuid"@ != "i32"@);
            assert("Uuid"@.len() != "u32"@.len());
            assert("Uuid"@ != "u32"@);
            assert("Uuid"@.len() != "i64"@.len());
            assert("Uuid"@ != "i64"@);
            assert("Uuid"@.len() != "f32"@.len());
            assert("Uuid"@ != "f32"@);
            assert("Uuid"@.len() != "f64"@.len());
            assert("Uuid"@ != "f64"@);
            assert("Uuid"@.len() != "String"@.len());
            assert("Uuid"@ != "String"@);
            assert("Uuid"@[0] != "&str"@[0]);
            assert("Uuid"@ != "&str"@);
            assert("Uuid"@.len() != "HashMap<String, Option<String>>"@.len());
            assert("Uuid"@ != "HashMap<String, Option<String>>"@);
            assert("Uuid"@.len() != "SystemTime"@.len());
            assert("Uuid"@ != "SystemTime"@);
            assert("Uuid"@.len() != "IpAddr"@.len());
            assert("Uuid"@ != "IpAddr"@);
        },
        DataTypes::TimestampWithTimeZone => {
            assert("DateTime<Utc>"@.len() != "bool"@.len());
            assert("DateTime<Utc>"@ != "bool"@);
            assert("DateTime<Utc>"@.len() != "Vec<u8>"@.len());
            assert("DateTime<Utc>"@ != "Vec<u8>"@);
            assert("DateTime<Utc>"@.len() != "&[u8]"@.len());
            assert("DateTime<Utc>"@ != "&[u8]"@);
            assert("DateTime<Utc>"@.len() != "i8"@.len());
            assert("DateTime<Utc>"@ != "i8"@);
            assert("DateTime<Utc>"@.len() != "i16"@.len());
            assert("DateTime<Utc>"@ != "i16"@);
            assert("DateTime<Utc>"@.len() != "i32"@.len());
            assert("DateTime<Utc>"@ != "i32"@);
            assert("DateTime<Utc>"@.len() != "u32"@.len());
            assert("DateTime<Utc>"@ != "u32"@);
            assert("DateTime<Utc>"@.len() != "i64"@.len());
            assert("DateTime<Utc>"@ != "i64"@);
            assert("DateTime<Utc>"@.len() != "f32"@.len());
            assert("DateTime<Utc>"@ != "f32"@);
            assert("DateTime<Utc>"@.len() != "f64"@.len());
            assert("DateTime<Utc>"@ != "f64"@);
            assert("DateTime<Utc>"@.len() != "String"@.len());
            assert("DateTime<Utc>"@ != "String"@);
            assert("DateTime<Utc>"@.len() != "&str"@.len());
            assert("DateTime<Utc>"@ != "&str"@);
            assert("DateTime<Utc>"@.len() != "HashMap<String, Option<String>>"@.len());
            assert("DateTime<Utc>"@ != "HashMap<String, Option<String>>"@);
            assert("DateTime<Utc>"@.len() != "SystemTime"@.len());
            assert("DateTime<Utc>"@ != "SystemTime"@);
            assert("DateTime<Utc>"@.len() != "IpAddr"@.len());
            assert("DateTime<Utc>"@ != "IpAddr"@);
            assert("DateTime<Utc>"@.len() != "Uuid"@.len());
            assert("DateTime<Utc>"@ != "Uuid"@);
        },
    }
}

/// A field of a record struct.
#[derive(Debug)]
pub struct StructFieldMetadata {
    pub ident: String,
    pub ty: DataTypes,
}

/// A record struct: its name and fields.
#[derive(Debug)]
pub struct StructMetadata {
    pub ident: String,
    pub fields: Vec<StructFieldMetadata>,
}

/// A column of a table.
#[derive(Debug)]
pub struct TableColumnMetadata {
    pub name: String,
    pub ty: DataTypes,
    pub is_primary_key: bool,
    pub is_indexed: bool,
}

/// A table: its name and columns.
#[derive(Debug)]
pub struct TableMetadata {
    pub name: String,
    pub columns: Vec<TableColumnMetadata>,
}

/// Index of the first column of `columns` whose name is `name`.
pub open spec fn first_column_named(columns: Seq<TableColumnMetadata>, name: Seq<char>) -> Option<int>
    decreases columns.len(),
{
    if columns.len() == 0 {
        None
    } else if columns[0].name@ == name {
        Some(0)
    } else {
        match first_column_named(columns.drop_first(), name) {
            Some(i) => Some(i + 1),
            None => None,
        }
    }
}

pub open spec fn type_mismatch_message(field: Seq<char>, record: Seq<char>, table: Seq<char>) -> Seq<char> {
    "The field `"@ + field + "` from the struct `"@ + record
        + "` type doesn't match the type from the `"@ + table + "` column"@
}

pub open spec fn missing_column_message(field: Seq<char>, record: Seq<char>, table: Seq<char>) -> Seq<char> {
    "The field `"@ + field + "` from the struct `"@ + record + "` isn't a column of the table `"@
        + table + "`"@
}

/// The complaint about one field, if any: the field must name a column, and the
/// first column of that name must have the field's type.
pub open spec fn field_error(table: TableMetadata, record_ident: Seq<char>, field: StructFieldMetadata) -> Option<Seq<char>> {
    match first_column_named(table.columns@, field.ident@) {
        Some(i) => if table.columns@[i].ty != field.ty {
            Some(type_mismatch_message(field.ident@, record_ident, table.name@))
        } else {
            None
        },
        None => Some(missing_column_message(field.ident@, record_ident, table.name@)),
    }
}

/// The complaints about `fields`, in field order.
pub open spec fn field_errors(table: TableMetadata, record_ident: Seq<char>, fields: Seq<StructFieldMetadata>) -> Seq<Seq<char>>
    decreases fields.len(),
{
    if fields.len() == 0 {
        Seq::empty()
    } else {
        let rest = field_errors(table, record_ident, fields.drop_last());
        match field_error(table, record_ident, fields.last()) {
            Some(e) => rest.push(e),
            None => rest,
        }
    }
}

fn find_column(columns: &Vec<TableColumnMetadata>, name: &String) -> (r: Option<usize>)
    ensures
        r matches Some(k) ==> first_column_named(columns@, name@) == Some(k as int) && k < columns@.len(),
        r is None ==> first_column_named(columns@, name@) is None,
{
    let mut i: usize = 0;
    while i < columns.len()
        invariant
            i <= columns.len(),
            forall|j: int| 0 <= j < i ==> columns@[j].name@ != name@,
        decreases columns.len() - i,
    {
        if columns[i].name == *name {
            proof { lemma_first_column_named(columns@, name@, i as int); }
            return Some(i);
        }
        i = i + 1;
    }
    proof { lemma_first_column_named_none(columns@, name@); }
    None
}

proof fn lemma_first_column_named(columns: Seq<TableColumnMetadata>, name: Seq<char>, i: int)
    requires
        0 <= i < columns.len(),
        columns[i].name@ == name,
        forall|j: int| 0 <= j < i ==> columns[j].name@ != name,
    ensures
        first_column_named(columns, name) == Some(i),
    decreases i,
{
    if i > 0 {
        let rest = columns.drop_first();
        assert forall|j: int| 0 <= j < i - 1 implies rest[j].name@ != name by {
            assert(rest[j] == columns[j + 1]);
        }
        lemma_first_column_named(rest, name, i - 1);
    }
}

proof fn lemma_first_column_named_none(columns: Seq<TableColumnMetadata>, name: Seq<char>)
    requires
        forall|j: int| 0 <= j < columns.len() ==> columns[j].name@ != name,
    ensures
        first_column_named(columns, name) is None,
    decreases columns.len(),
{
    if columns.len() > 0 {
        let rest = columns.drop_first();
        assert forall|j: int| 0 <= j < rest.len() implies rest[j].name@ != name by {
            assert(rest[j] == columns[j + 1]);
        }
        lemma_first_column_named_none(rest, name);
    }
}

/// Checks that every field of `record` is a column of `table` with the same
/// type; on failure returns one message per offending field, in field order.
pub fn validate(table: TableMetadata, record: StructMetadata) -> (r: Result<(), Vec<String>>)
    ensures
        field_errors(table, record.ident@, record.fields@).len() == 0 ==> r is Ok,
        field_errors(table, record.ident@, record.fields@).len() > 0 ==> (r matches Err(e)
            && views(e@) == field_errors(table, record.ident@, record.fields@)),
{
    let mut errors: Vec<String> = Vec::new();
    let n = record.fields.len();
    let mut i: usize = 0;
    while i < n
        invariant
            n == record.fields.len(),
            i <= n,
            views(errors@) == field_errors(table, record.ident@, record.fields@.take(i as int)),
        decreases n - i,
    {
        let field = &record.fields[i];
        let found = find_column(&table.columns, &field.ident);
        let ghost before = errors@;
        match found {
            Some(k) => {
                if table.columns[k].ty != field.ty {
                    let mut e = String::from_str("The field `");
                    e.append(field.ident.as_str());
                    e.append("` from the struct `");
                    e.append(record.ident.as_str());
                    e.append("` type doesn't match the type from the `");
                    e.append(table.name.as_str());
                    e.append("` column");
                    assert(e@ == type_mismatch_message(field.ident@, record.ident@, table.name@));
                    errors.push(e);
                }
                assert(field_error(table, record.ident@, record.fields@[i as int]) == (if table.columns@[k as int].ty != field.ty {
                    Some(type_mismatch_message(field.ident@, record.ident@, table.name@))
                } else { None }));
            },
            None => {
                let mut e = String::from_str("The field `");
                e.append(field.ident.as_str());
                e.append("` from the struct `");
                e.append(record.ident.as_str());
                e.append("` isn't a column of the table `");
                e.append(table.name.as_str());
                e.append("`");
                assert(e@ == missing_column_message(field.ident@, record.ident@, table.name@));
                errors.push(e);
            },
        }
        proof {
            let t = record.fields@.take(i + 1);
            assert(t.drop_last() == record.fields@.take(i as int));
            assert(t.last() == record.fields@[i as int]);
            if errors@.len() > before.len() {
                assert(errors@ == before.push(errors@.last()));
                assert(views(before.push(errors@.last())) == views(before).push(errors@.last()@));
            } else {
                assert(errors@ == before);
            }
        }
        i = i + 1;
    }
    assert(record.fields@.take(n as int) == record.fields@);
    if errors.len() == 0 {
        Ok(())
    } else {
        Err(errors)
    }
}

/// Whether a field names a column of the table, and the first column of that
/// name has the field's type.
pub open spec fn field_matches(table: TableMetadata, field: StructFieldMetadata) -> bool {
    first_column_named(table.columns@, field.ident@) matches Some(k) && table.columns@[k].ty == field.ty
}

/// A record passes validation exactly when each of its fields names a column
/// of the table and the first column of that name has the field's type.
pub proof fn law_validate_accepts(table: TableMetadata, record_ident: Seq<char>, fields: Seq<StructFieldMetadata>)
    ensures
        field_errors(table, record_ident, fields).len() == 0
            <==> (forall|i: int| 0 <= i < fields.len() ==> field_matches(table, #[trigger] fields[i])),
    decreases fields.len(),
{
    if fields.len() > 0 {
        let t = fields.drop_last();
        law_validate_accepts(table, record_ident, t);
        let rest = field_errors(table, record_ident, t);
        if field_errors(table, record_ident, fields).len() == 0 {
            assert(field_error(table, record_ident, fields.last()) is None);
            assert(rest.len() == 0);
            assert forall|i: int| 0 <= i < fields.len() implies field_matches(table, #[trigger] fields[i]) by {
                if i < fields.len() - 1 {
                    assert(fields[i] == t[i]);
                }
            }
        }
        if forall|i: int| 0 <= i < fields.len() ==> field_matches(table, #[trigger] fields[i]) {
            assert forall|i: int| 0 <= i < t.len() implies field_matches(table, #[trigger] t[i]) by {
                assert(t[i] == fields[i]);
            }
            assert(field_matches(table, fields[fields.len() - 1]));
        }
    }
}


proof fn lemma_first_column_named_push(columns: Seq<TableColumnMetadata>, c: TableColumnMetadata, name: Seq<char>)
    requires
        first_column_named(columns, name) is Some || c.name@ != name,
    ensures
        first_column_named(columns.push(c), name) == first_column_named(columns, name),
    decreases columns.len(),
{
    if columns.len() == 0 {
        assert(columns.push(c).drop_first() =~= Seq::<TableColumnMetadata>::empty());
    } else {
        assert(columns.push(c).drop_first() =~= columns.drop_first().push(c));
        if columns[0].name@ != name {
            lemma_first_column_named_push(columns.drop_first(), c, name);
        }
    }
}

proof fn lemma_first_column_named_in_range(columns: Seq<TableColumnMetadata>, name: Seq<char>)
    ensures
        first_column_named(columns, name) matches Some(k) ==> 0 <= k < columns.len() && columns[k].name@ == name,
    decreases columns.len(),
{
    if columns.len() > 0 && columns[0].name@ != name {
        lemma_first_column_named_in_range(columns.drop_first(), name);
    }
}

/// Appending to a table a column that no field names, or one whose name an
/// earlier column already has, leaves the validation of a record unchanged.
pub proof fn law_validate_ignores_unnamed_or_shadowed_column(
    table: TableMetadata,
    grown: TableMetadata,
    c: TableColumnMetadata,
    record_ident: Seq<char>,
    fields: Seq<StructFieldMetadata>,
)
    requires
        grown.name@ == table.name@,
        grown.columns@ == table.columns@.push(c),
        (forall|i: int| 0 <= i < fields.len() ==> (#[trigger] fields[i]).ident@ != c.name@)
            || (exists|j: int| 0 <= j < table.columns@.len() && (#[trigger] table.columns@[j]).name@ == c.name@),
    ensures
        field_errors(grown, record_ident, fields) == field_errors(table, record_ident, fields),
    decreases fields.len(),
{
    if fields.len() > 0 {
        let t = fields.drop_last();
        assert forall|i: int| 0 <= i < t.len() implies #[trigger] t[i] == fields[i] by {}
        law_validate_ignores_unnamed_or_shadowed_column(table, grown, c, record_ident, t);
        let f = fields.last();
        assert(f == fields[fields.len() - 1]);
        if first_column_named(table.columns@, f.ident@) is None && c.name@ == f.ident@ {
            let j = choose|j: int| 0 <= j < table.columns@.len() && (#[trigger] table.columns@[j]).name@ == c.name@;
            lemma_first_column_named_none_only_if(table.columns@, f.ident@, j);
        }
        lemma_first_column_named_push(table.columns@, c, f.ident@);
        lemma_first_column_named_in_range(table.columns@, f.ident@);
        assert(field_error(grown, record_ident, f) == field_error(table, record_ident, f));
    }
}

proof fn lemma_first_column_named_none_only_if(columns: Seq<TableColumnMetadata>, name: Seq<char>, j: int)
    requires
        0 <= j < columns.len(),
        columns[j].name@ == name,
    ensures
        first_column_named(columns, name) is Some,
    decreases columns.len(),
{
    if columns[0].name@ != name {
        lemma_first_column_named_none_only_if(columns.drop_first(), name, j - 1);
    }
}

} // verus!
