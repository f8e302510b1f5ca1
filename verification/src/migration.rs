//! Database migrations: the column builder of a table migration and the
//! PostgreSQL text of each column data type.

use vstd::prelude::*;
use vstd::std_specs::convert::FromSpecImpl;
use crate::text::{decimal, signed_decimal};

verus! {

/// An error of the `anyhow` crate.
#[verifier::external_type_specification]
#[verifier::external_body]
pub struct ExAnyhowError(anyhow::Error);

/// Text collations.
#[derive(Clone, Copy, PartialEq, Eq, Structural, Debug)]
pub enum Collation {
    Utf8,
}

/// Options of a column.
#[derive(Debug)]
pub struct ColumnOptions {
    pub nullable: bool,
    pub visible: bool,
    pub comment: Option<String>,
    pub collation: Collation,
    pub primary_key: bool,
    pub unique: bool,
}

/// The options a column gets when none are given: nullable, visible, without
/// comment, UTF-8, neither primary key nor unique.
pub open spec fn default_options() -> ColumnOptions {
    ColumnOptions {
        nullable: true,
        visible: true,
        comment: None,
        collation: Collation::Utf8,
        primary_key: false,
        unique: false,
    }
}

impl Default for ColumnOptions {
    /// Nullable, visible, without comment, UTF-8, neither primary key nor unique.
    fn default() -> (r: Self)
        ensures
            r == default_options(),
    {
        ColumnOptions {
            nullable: true,
            visible: true,
            comment: None,
            collation: Collation::Utf8,
            primary_key: false,
            unique: false,
        }
    }
}

/// The data type of a column, with its default value where it takes one.
/// (Floating-point columns are handled outside the verified library.)
#[derive(Debug)]
pub enum DataType {
    I8(Option<i8>),
    I16(Option<i16>),
    I32(Option<i32>),
    I64(Option<i64>),
    I128(Option<i128>),
    Isize(Option<isize>),
    U8(Option<u8>),
    U16(Option<u16>),
    U32(Option<u32>),
    U64(Option<u64>),
    U128(Option<u128>),
    Usize(Option<usize>),
    Date,
    DateTime,
    Time,
    /// `(default to the current timestamp, update it on every row update)`
    Timestamp(bool, bool),
    Binary,
    Blob,
    /// `(length, default)`
    Char(u8, Option<String>),
    /// `(enum type name, default)`
    Enum(String, Option<String>),
    SqlSet,
    /// `(length, default)`
    Varchar(u8, Option<String>),
    Text,
    /// `(generate a random default)`
    Uuid(bool),
    Boolean(Option<bool>),
}

/// The data types that have a PostgreSQL rendering: not the 8-bit, 128-bit
/// and pointer-sized integers, not binary, blob and set, and not timestamps
/// that update on every row update.
pub open spec fn has_sql(d: DataType) -> bool {
    match d {
        DataType::I8(_) | DataType::I128(_) | DataType::Isize(_) | DataType::U8(_)
        | DataType::U128(_) | DataType::Usize(_) | DataType::Binary | DataType::Blob
        | DataType::SqlSet => false,
        DataType::Timestamp(_, on_update) => !on_update,
        _ => true,
    }
}

pub open spec fn with_default(base: Seq<char>, value: Option<Seq<char>>) -> Seq<char> {
    match value {
        Some(v) => base + " DEFAULT "@ + v,
        None => base,
    }
}

pub open spec fn bool_text(b: bool) -> Seq<char> {
    if b { "true"@ } else { "false"@ }
}

pub open spec fn paren_len(n: u8) -> Seq<char> {
    "("@ + decimal(n as nat) + ")"@
}

/// The PostgreSQL text of a data type.
pub open spec fn sql_text(d: DataType) -> Seq<char> {
    match d {
        DataType::I16(v) => match v { Some(x) => "SMALLINT"@ + " DEFAULT "@ + signed_decimal(x as int), None => "SMALLINT"@ },
        DataType::I32(v) => match v { Some(x) => "INTEGER"@ + " DEFAULT "@ + signed_decimal(x as int), None => "INTEGER"@ },
        DataType::I64(v) => match v { Some(x) => "BIGINT"@ + " DEFAULT "@ + signed_decimal(x as int), None => "BIGINT"@ },
        DataType::U16(v) => match v { Some(x) => "SMALLSERIAL"@ + " DEFAULT "@ + signed_decimal(x as int), None => "SMALLSERIAL"@ },
        DataType::U32(v) => match v { Some(x) => "SERIAL"@ + " DEFAULT "@ + signed_decimal(x as int), None => "SERIAL"@ },
        DataType::U64(v) => match v { Some(x) => "BIGSERIAL"@ + " DEFAULT "@ + signed_decimal(x as int), None => "BIGSERIAL"@ },
        DataType::Date => "DATE"@,
        DataType::DateTime => "TIMESTAMP"@,
        DataType::Time => "TIME"@,
        DataType::Timestamp(current, _) =>
            if current { "TIMESTAMP WITH TIME ZONE"@ + " DEFAULT CURRENT_TIMESTAMP"@ } else { "TIMESTAMP WITH TIME ZONE"@ },
        DataType::Char(n, v) => match v {
            Some(s) => "CHAR"@ + paren_len(n) + " DEFAULT '"@ + s@ + "'"@,
            None => "CHAR"@ + paren_len(n),
        },
        DataType::Enum(name, v) => match v {
            Some(s) => "\""@ + name@ + "\" DEFAULT E'"@ + s@ + "'"@,
            None => name@,
        },
        DataType::Varchar(n, v) => with_default("VARCHAR"@ + paren_len(n), match v { Some(s) => Some(s@), None => None }),
        DataType::Text => "TEXT"@,
        DataType::Uuid(random) => if random { "UUID gen_random_uuid()"@ } else { "UUID"@ },
        DataType::Boolean(v) => with_default("BOOLEAN"@, match v { Some(b) => Some(bool_text(b)), None => None }),
        _ => Seq::empty(),
    }
}

fn numbered(base: &str, v: Option<i128>) -> (r: String)
    ensures
        match v {
            Some(x) => r@ == base@ + " DEFAULT "@ + signed_decimal(x as int),
            None => r@ == base@,
        },
{
    let mut s = String::from_str(base);
    match v {
        Some(x) => {
            s.append(" DEFAULT ");
            crate::text::push_signed_decimal(&mut s, x);
        },
        None => {},
    }
    s
}

fn length_suffix(s: &mut String, n: u8)
    ensures
        final(s)@ == old(s)@ + paren_len(n),
{
    s.append("(");
    crate::text::push_decimal(s, n as u128);
    s.append(")");
}

/// Values that have an SQL text.
pub trait ToSql {
    /// Whether this value has an SQL text.
    spec fn has_sql_text(&self) -> bool;

    /// The SQL text of this value.
    fn to_sql(&self) -> (r: String)
        requires
            self.has_sql_text(),
    ;
}

/// A change of the database schema, with the SQL that applies and reverts
/// it, where it has one.
pub trait ToSqlMigration {
    /// The SQL that applies the change; by default there is none.
    fn sql_up(&self) -> (r: Option<String>)
        default_ensures
            r is None,
    {
        None
    }

    /// The SQL that reverts the change; by default there is none.
    fn sql_down(&self) -> (r: Option<String>)
        default_ensures
            r is None,
    {
        None
    }
}

impl ToSql for DataType {
    open spec fn has_sql_text(&self) -> bool {
        has_sql(*self)
    }

    /// The PostgreSQL text of this data type.
    fn to_sql(&self) -> (r: String)
        ensures
            r@ == sql_text(*self),
    {
        match self {
            DataType::I16(v) => numbered("SMALLINT", match v { Some(x) => Some(*x as i128), None => None }),
            DataType::I32(v) => numbered("INTEGER", match v { Some(x) => Some(*x as i128), None => None }),
            DataType::I64(v) => numbered("BIGINT", match v { Some(x) => Some(*x as i128), None => None }),
            DataType::U16(v) => numbered("SMALLSERIAL", match v { Some(x) => Some(*x as i128), None => None }),
            DataType::U32(v) => numbered("SERIAL", match v { Some(x) => Some(*x as i128), None => None }),
            DataType::U64(v) => numbered("BIGSERIAL", match v { Some(x) => Some(*x as i128), None => None }),
            DataType::Date => String::from_str("DATE"),
            DataType::DateTime => String::from_str("TIMESTAMP"),
            DataType::Time => String::from_str("TIME"),
            DataType::Timestamp(current, _) => {
                let mut s = String::from_str("TIMESTAMP WITH TIME ZONE");
                if *current {
                    s.append(" DEFAULT CURRENT_TIMESTAMP");
                }
                s
            },
            DataType::Char(n, v) => {
                let mut s = String::from_str("CHAR");
                length_suffix(&mut s, *n);
                match v {
                    Some(d) => {
                        s.append(" DEFAULT '");
                        s.append(d.as_str());
                        s.append("'");
                    },
                    None => {},
                }
                s
            },
            DataType::Enum(name, v) => match v {
                Some(d) => {
                    let mut s = String::from_str("\"");
                    s.append(name.as_str());
                    s.append("\" DEFAULT E'");
                    s.append(d.as_str());
                    s.append("'");
                    s
                },
                None => name.clone(),
            },
            DataType::Varchar(n, v) => {
                let mut s = String::from_str("VARCHAR");
                length_suffix(&mut s, *n);
                match v {
                    Some(d) => {
                        s.append(" DEFAULT ");
                        s.append(d.as_str());
                    },
                    None => {},
                }
                s
            },
            DataType::Text => String::from_str("TEXT"),
            DataType::Uuid(random) => if *random {
                String::from_str("UUID gen_random_uuid()")
            } else {
                String::from_str("UUID")
            },
            DataType::Boolean(v) => {
                let mut s = String::from_str("BOOLEAN");
                match v {
                    Some(b) => {
                        s.append(" DEFAULT ");
                        if *b { s.append("true"); } else { s.append("false"); }
                    },
                    None => {},
                }
                s
            },
            _ => String::new(),
        }
    }
}

impl From<Option<u8>> for DataType {
    fn from(item: Option<u8>) -> (r: Self) {
        DataType::U8(item)
    }
}

impl FromSpecImpl<Option<u8>> for DataType {
    open spec fn obeys_from_spec() -> bool {
        true
    }

    open spec fn from_spec(v: Option<u8>) -> Self {
        DataType::U8(v)
    }
}

impl From<Option<u16>> for DataType {
    fn from(item: Option<u16>) -> (r: Self) {
        DataType::U16(item)
    }
}

impl FromSpecImpl<Option<u16>> for DataType {
    open spec fn obeys_from_spec() -> bool {
        true
    }

    open spec fn from_spec(v: Option<u16>) -> Self {
        DataType::U16(v)
    }
}

impl From<Option<u32>> for DataType {
    fn from(item: Option<u32>) -> (r: Self) {
        DataType::U32(item)
    }
}

impl FromSpecImpl<Option<u32>> for DataType {
    open spec fn obeys_from_spec() -> bool {
        true
    }

    open spec fn from_spec(v: Option<u32>) -> Self {
        DataType::U32(v)
    }
}

impl From<Option<u64>> for DataType {
    fn from(item: Option<u64>) -> (r: Self) {
        DataType::U64(item)
    }
}

impl FromSpecImpl<Option<u64>> for DataType {
    open spec fn obeys_from_spec() -> bool {
        true
    }

    open spec fn from_spec(v: Option<u64>) -> Self {
        DataType::U64(v)
    }
}

impl From<Option<u128>> for DataType {
    fn from(item: Option<u128>) -> (r: Self) {
        DataType::U128(item)
    }
}

impl FromSpecImpl<Option<u128>> for DataType {
    open spec fn obeys_from_spec() -> bool {
        true
    }

    open spec fn from_spec(v: Option<u128>) -> Self {
        DataType::U128(v)
    }
}

impl From<Option<usize>> for DataType {
    fn from(item: Option<usize>) -> (r: Self) {
        DataType::Usize(item)
    }
}

impl FromSpecImpl<Option<usize>> for DataType {
    open spec fn obeys_from_spec() -> bool {
        true
    }

    open spec fn from_spec(v: Option<usize>) -> Self {
        DataType::Usize(v)
    }
}

impl From<Option<i8>> for DataType {
    fn from(item: Option<i8>) -> (r: Self) {
        DataType::I8(item)
    }
}

impl FromSpecImpl<Option<i8>> for DataType {
    open spec fn obeys_from_spec() -> bool {
        true
    }

    open spec fn from_spec(v: Option<i8>) -> Self {
        DataType::I8(v)
    }
}

impl From<Option<i16>> for DataType {
    fn from(item: Option<i16>) -> (r: Self) {
        DataType::I16(item)
    }
}

impl FromSpecImpl<Option<i16>> for DataType {
    open spec fn obeys_from_spec() -> bool {
        true
    }

    open spec fn from_spec(v: Option<i16>) -> Self {
        DataType::I16(v)
    }
}

impl From<Option<i32>> for DataType {
    fn from(item: Option<i32>) -> (r: Self) {
        DataType::I32(item)
    }
}

impl FromSpecImpl<Option<i32>> for DataType {
    open spec fn obeys_from_spec() -> bool {
        true
    }

    open spec fn from_spec(v: Option<i32>) -> Self {
        DataType::I32(v)
    }
}

impl From<Option<i64>> for DataType {
    fn from(item: Option<i64>) -> (r: Self) {
        DataType::I64(item)
    }
}

impl FromSpecImpl<Option<i64>> for DataType {
    open spec fn obeys_from_spec() -> bool {
        true
    }

    open spec fn from_spec(v: Option<i64>) -> Self {
        DataType::I64(v)
    }
}

impl From<Option<i128>> for DataType {
    fn from(item: Option<i128>) -> (r: Self) {
        DataType::I128(item)
    }
}

impl FromSpecImpl<Option<i128>> for DataType {
    open spec fn obeys_from_spec() -> bool {
        true
    }

    open spec fn from_spec(v: Option<i128>) -> Self {
        DataType::I128(v)
    }
}

impl From<Option<isize>> for DataType {
    fn from(item: Option<isize>) -> (r: Self) {
        DataType::Isize(item)
    }
}

impl FromSpecImpl<Option<isize>> for DataType {
    open spec fn obeys_from_spec() -> bool {
        true
    }

    open spec fn from_spec(v: Option<isize>) -> Self {
        DataType::Isize(v)
    }
}

impl From<Option<bool>> for DataType {
    fn from(item: Option<bool>) -> (r: Self) {
        DataType::Boolean(item)
    }
}

impl FromSpecImpl<Option<bool>> for DataType {
    open spec fn obeys_from_spec() -> bool {
        true
    }

    open spec fn from_spec(v: Option<bool>) -> Self {
        DataType::Boolean(v)
    }
}

/// A column type made from an optional default value renders that default:
/// `INTEGER DEFAULT n` for a 32-bit integer, `BOOLEAN DEFAULT true` for a
/// boolean, and the bare type without one.
pub proof fn law_default_rendered(v: Option<i32>, b: Option<bool>)
    ensures
        has_sql(<DataType as vstd::std_specs::convert::FromSpec<Option<i32>>>::from_spec(v)),
        sql_text(<DataType as vstd::std_specs::convert::FromSpec<Option<i32>>>::from_spec(v)) == with_default("INTEGER"@,
            match v { Some(x) => Some(signed_decimal(x as int)), None => None }),
        has_sql(<DataType as vstd::std_specs::convert::FromSpec<Option<bool>>>::from_spec(b)),
        sql_text(<DataType as vstd::std_specs::convert::FromSpec<Option<bool>>>::from_spec(b)) == with_default("BOOLEAN"@,
            match b { Some(x) => Some(bool_text(x)), None => None }),
{
}

/// An integer column renders the same SQL type with and without a default,
/// the default following as ` DEFAULT n`; and each width and signedness has
/// its own type: `SMALLINT`, `INTEGER` and `BIGINT` for the signed 16, 32 and
/// 64-bit integers, `SMALLSERIAL`, `SERIAL` and `BIGSERIAL` for the unsigned
/// ones, so no two of them render alike.
pub proof fn law_integer_columns(a: i16, b: i32, c: i64, d: u16, e: u32, f: u64)
    ensures
        sql_text(DataType::I16(Some(a))) == sql_text(DataType::I16(None)) + " DEFAULT "@ + signed_decimal(a as int),
        sql_text(DataType::I32(Some(b))) == sql_text(DataType::I32(None)) + " DEFAULT "@ + signed_decimal(b as int),
        sql_text(DataType::I64(Some(c))) == sql_text(DataType::I64(None)) + " DEFAULT "@ + signed_decimal(c as int),
        sql_text(DataType::U16(Some(d))) == sql_text(DataType::U16(None)) + " DEFAULT "@ + signed_decimal(d as int),
        sql_text(DataType::U32(Some(e))) == sql_text(DataType::U32(None)) + " DEFAULT "@ + signed_decimal(e as int),
        sql_text(DataType::U64(Some(f))) == sql_text(DataType::U64(None)) + " DEFAULT "@ + signed_decimal(f as int),
        sql_text(DataType::I16(None)) == "SMALLINT"@,
        sql_text(DataType::I32(None)) == "INTEGER"@,
        sql_text(DataType::I64(None)) == "BIGINT"@,
        sql_text(DataType::U16(None)) == "SMALLSERIAL"@,
        sql_text(DataType::U32(None)) == "SERIAL"@,
        sql_text(DataType::U64(None)) == "BIGSERIAL"@,
{
}

/// A column of a migration: name, type and options.
#[derive(Debug)]
pub struct Column {
    pub name: String,
    pub data_type: DataType,
    pub options: ColumnOptions,
}

/// A table of the offline database description: its name and columns.
#[derive(Debug)]
pub struct Table {
    pub name: String,
    pub columns: Vec<Column>,
}

/// The offline database description: its tables.
#[derive(Debug)]
pub struct Schema {
    pub tables: Vec<Table>,
}

/// Whether a migration creates a table or changes an existing one.
#[derive(Clone, Copy, PartialEq, Eq, Structural, Debug)]
pub enum MigrationType {
    CreateTable,
    ChangeTable,
}

/// The changes a migration makes to one table.
#[derive(Debug)]
pub struct MigrationChange {
    pub columns: Vec<Column>,
    pub migration_type: MigrationType,
    pub table_name: String,
}

/// `after` is `before` with one more column named `name`, of type `ty`,
/// with options `options`.
pub open spec fn appended(before: MigrationChange, after: MigrationChange, name: Seq<char>, ty: DataType, options: ColumnOptions) -> bool {
    &&& after.columns@.len() == before.columns@.len() + 1
    &&& after.columns@.take(before.columns@.len() as int) == before.columns@
    &&& after.columns@.last().name@ == name
    &&& after.columns@.last().data_type == ty
    &&& after.columns@.last().options == options
    &&& after.migration_type == before.migration_type
    &&& after.table_name == before.table_name
}

impl MigrationChange {
    /// A migration that creates the table `table_name`, with no columns yet.
    pub fn create_table(table_name: &str) -> (r: Self)
        ensures
            r.columns@.len() == 0,
            r.migration_type == MigrationType::CreateTable,
            r.table_name@ == table_name@,
    {
        MigrationChange { columns: Vec::new(), migration_type: MigrationType::CreateTable, table_name: String::from_str(table_name) }
    }

    /// A migration that changes the table `table_name`, with no columns yet.
    pub fn change_table(table_name: &str) -> (r: Self)
        ensures
            r.columns@.len() == 0,
            r.migration_type == MigrationType::ChangeTable,
            r.table_name@ == table_name@,
    {
        MigrationChange { columns: Vec::new(), migration_type: MigrationType::ChangeTable, table_name: String::from_str(table_name) }
    }

    fn push_column(&mut self, name: &str, data_type: DataType, options: ColumnOptions)
        ensures
            appended(*old(self), *final(self), name@, data_type, options),
    {
        let ghost before = self.columns@;
        self.columns.push(Column { data_type, name: String::from_str(name), options });
        assert(self.columns@.take(before.len() as int) == before);
    }

    /// Adds a `VARCHAR(length)` column.
    pub fn varchar(&mut self, name: &str, default: Option<String>, length: u8, options: ColumnOptions)
        ensures
            appended(*old(self), *final(self), name@, DataType::Varchar(length, default), options),
    {
        self.push_column(name, DataType::Varchar(length, default), options);
    }

    /// Adds a `CHAR(length)` column.
    pub fn char(&mut self, name: &str, length: u8, default: Option<String>, options: ColumnOptions)
        ensures
            appended(*old(self), *final(self), name@, DataType::Char(length, default), options),
    {
        self.push_column(name, DataType::Char(length, default), options);
    }

    /// Adds a `UUID` column, randomly generated by default when asked.
    pub fn uuid(&mut self, name: &str, generate_random: bool, options: ColumnOptions)
        ensures
            appended(*old(self), *final(self), name@, DataType::Uuid(generate_random), options),
    {
        self.push_column(name, DataType::Uuid(generate_random), options);
    }

    /// Adds a `TEXT` column.
    pub fn text(&mut self, name: &str, options: ColumnOptions)
        ensures
            appended(*old(self), *final(self), name@, DataType::Text, options),
    {
        self.push_column(name, DataType::Text, options);
    }

    /// Adds a column of the enum type `enum_name`, with the given default
    /// variant text.
    pub fn enum_(&mut self, name: &str, enum_name: &str, default: Option<String>, options: ColumnOptions)
        ensures
            final(self).columns@.len() == old(self).columns@.len() + 1,
            final(self).columns@.take(old(self).columns@.len() as int) == old(self).columns@,
            final(self).columns@.last().name@ == name@,
            final(self).columns@.last().data_type matches DataType::Enum(n, d) && n@ == enum_name@ && d == default,
            final(self).columns@.last().options == options,
            final(self).migration_type == old(self).migration_type,
            final(self).table_name == old(self).table_name,
    {
        self.push_column(name, DataType::Enum(String::from_str(enum_name), default), options);
    }

    /// Adds a `TIMESTAMP WITH TIME ZONE` column.
    pub fn timestamp(&mut self, name: &str, default_current_timestamp: bool, on_update_current_timestamp: bool, options: ColumnOptions)
        ensures
            appended(*old(self), *final(self), name@, DataType::Timestamp(default_current_timestamp, on_update_current_timestamp), options),
    {
        self.push_column(name, DataType::Timestamp(default_current_timestamp, on_update_current_timestamp), options);
    }

    /// Adds a `DATE` column.
    pub fn date(&mut self, name: &str, options: ColumnOptions)
        ensures
            appended(*old(self), *final(self), name@, DataType::Date, options),
    {
        self.push_column(name, DataType::Date, options);
    }

    /// Adds a `TIMESTAMP` column.
    pub fn datetime(&mut self, name: &str, options: ColumnOptions)
        ensures
            appended(*old(self), *final(self), name@, DataType::DateTime, options),
    {
        self.push_column(name, DataType::DateTime, options);
    }

    /// Adds a `TIME` column.
    pub fn time(&mut self, name: &str, options: ColumnOptions)
        ensures
            appended(*old(self), *final(self), name@, DataType::Time, options),
    {
        self.push_column(name, DataType::Time, options);
    }

    /// Adds the `created_at` (defaults to now) and `updated_at` (defaults to
    /// now and follows row updates) timestamp columns, with default options.
    pub fn timestamps(&mut self)
        ensures
            final(self).columns@.len() == old(self).columns@.len() + 2,
            final(self).columns@.take(old(self).columns@.len() as int) == old(self).columns@,
            final(self).columns@[old(self).columns@.len() as int].name@ == "created_at"@,
            final(self).columns@[old(self).columns@.len() as int].data_type == DataType::Timestamp(true, false),
            final(self).columns@[old(self).columns@.len() as int].options == default_options(),
            final(self).columns@.last().name@ == "updated_at"@,
            final(self).columns@.last().data_type == DataType::Timestamp(true, true),
            final(self).columns@.last().options == default_options(),
            final(self).migration_type == old(self).migration_type,
            final(self).table_name == old(self).table_name,
    {
        let ghost n = self.columns@.len();
        let ghost before = self.columns@;
        self.timestamp("created_at", true, false, ColumnOptions::default());
        let ghost mid = self.columns@;
        self.timestamp("updated_at", true, true, ColumnOptions::default());
        assert(self.columns@.take(n as int) == mid.take(n as int));
        assert(self.columns@[n as int] == mid[n as int]);
    }
}

/// A Rust enum stored in a column of a database enum type.
pub trait DataTypeEnum: ToSqlMigration {
    /// The name of the database enum type.
    fn enum_name() -> &'static str;

    /// The texts of the variants.
    fn enum_values() -> Vec<&'static str>;

    /// The variant of a text.
    fn from(value: &str) -> Result<Self, anyhow::Error> where Self: Sized;

    /// The text of this variant.
    fn into(&self) -> String;
}

/// A migration: the changes it makes.
pub trait Migration {
    fn change() -> MigrationChange;
}

} // verus!
