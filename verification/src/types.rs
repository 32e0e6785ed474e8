//! Logical data types, tables and columns, and the crate's error type.

use vstd::prelude::*;

verus! {

/// The logical type of a generated column or value.  Detail such as a
/// timestamp's timezone or a decimal's precision lives on the generated
/// value, not on the type tag.
#[derive(Debug, Clone, Copy, PartialEq, Eq, Structural)]
pub enum FuzzerDataType {
    Int32,
    Int64,
    UInt32,
    UInt64,
    Float32,
    Float64,
    Boolean,
    Decimal,
    Date32,
    Time64Nanosecond,
    Timestamp,
    IntervalMonthDayNano,
}

impl FuzzerDataType {
    /// The name used when deriving column names.
    pub open spec fn spec_display_name(&self) -> Seq<char> {
        match self {
            FuzzerDataType::Int32 => "int32"@,
            FuzzerDataType::Int64 => "int64"@,
            FuzzerDataType::UInt32 => "uint32"@,
            FuzzerDataType::UInt64 => "uint64"@,
            FuzzerDataType::Float32 => "float32"@,
            FuzzerDataType::Float64 => "float64"@,
            FuzzerDataType::Boolean => "boolean"@,
            FuzzerDataType::Decimal => "decimal128"@,
            FuzzerDataType::Date32 => "date32"@,
            FuzzerDataType::Time64Nanosecond => "time64_nanosecond"@,
            FuzzerDataType::Timestamp => "timestamp"@,
            FuzzerDataType::IntervalMonthDayNano => "interval_month_day_nano"@,
        }
    }

    /// Get the display name for column naming.
    pub fn display_name(&self) -> (r: &'static str)
        ensures
            r@ == self.spec_display_name(),
    {
        match self {
            FuzzerDataType::Int32 => "int32",
            FuzzerDataType::Int64 => "int64",
            FuzzerDataType::UInt32 => "uint32",
            FuzzerDataType::UInt64 => "uint64",
            FuzzerDataType::Float32 => "float32",
            FuzzerDataType::Float64 => "float64",
            FuzzerDataType::Boolean => "boolean",
            FuzzerDataType::Decimal => "decimal128",
            FuzzerDataType::Date32 => "date32",
            FuzzerDataType::Time64Nanosecond => "time64_nanosecond",
            FuzzerDataType::Timestamp => "timestamp",
            FuzzerDataType::IntervalMonthDayNano => "interval_month_day_nano",
        }
    }

    /// Whether the type takes part in arithmetic operators.
    pub open spec fn spec_is_numeric(&self) -> bool {
        match self {
            FuzzerDataType::Int32 => true,
            FuzzerDataType::Int64 => true,
            FuzzerDataType::UInt32 => true,
            FuzzerDataType::UInt64 => true,
            FuzzerDataType::Float32 => true,
            FuzzerDataType::Float64 => true,
            FuzzerDataType::Decimal => true,
            _ => false,
        }
    }

    pub fn is_numeric(&self) -> (r: bool)
        ensures
            r == self.spec_is_numeric(),
    {
        match self {
            FuzzerDataType::Int32
            | FuzzerDataType::Int64
            | FuzzerDataType::UInt32
            | FuzzerDataType::UInt64
            | FuzzerDataType::Float32
            | FuzzerDataType::Float64
            | FuzzerDataType::Decimal => true,
            _ => false,
        }
    }

    /// Whether the type is a date, time, timestamp or interval type.
    pub open spec fn spec_is_time(&self) -> bool {
        match self {
            FuzzerDataType::Date32 => true,
            FuzzerDataType::Time64Nanosecond => true,
            FuzzerDataType::Timestamp => true,
            FuzzerDataType::IntervalMonthDayNano => true,
            _ => false,
        }
    }

    pub fn is_time(&self) -> (r: bool)
        ensures
            r == self.spec_is_time(),
    {
        match self {
            FuzzerDataType::Date32
            | FuzzerDataType::Time64Nanosecond
            | FuzzerDataType::Timestamp
            | FuzzerDataType::IntervalMonthDayNano => true,
            _ => false,
        }
    }

    /// The SQL type name used in CREATE TABLE statements.
    pub open spec fn spec_sql_type(&self) -> Seq<char> {
        match self {
            FuzzerDataType::Int32 => "INT"@,
            FuzzerDataType::Int64 => "BIGINT"@,
            FuzzerDataType::UInt32 => "INT UNSIGNED"@,
            FuzzerDataType::UInt64 => "BIGINT UNSIGNED"@,
            FuzzerDataType::Float32 => "FLOAT"@,
            FuzzerDataType::Float64 => "DOUBLE"@,
            FuzzerDataType::Boolean => "BOOLEAN"@,
            FuzzerDataType::Decimal => "DECIMAL"@,
            FuzzerDataType::Date32 => "DATE"@,
            FuzzerDataType::Time64Nanosecond => "TIME"@,
            FuzzerDataType::Timestamp => "TIMESTAMP"@,
            FuzzerDataType::IntervalMonthDayNano => "INTERVAL"@,
        }
    }

    /// Convert to SQL type string for CREATE TABLE statements.
    pub fn to_sql_type(&self) -> (r: &'static str)
        ensures
            r@ == self.spec_sql_type(),
    {
        match self {
            FuzzerDataType::Int32 => "INT",
            FuzzerDataType::Int64 => "BIGINT",
            FuzzerDataType::UInt32 => "INT UNSIGNED",
            FuzzerDataType::UInt64 => "BIGINT UNSIGNED",
            FuzzerDataType::Float32 => "FLOAT",
            FuzzerDataType::Float64 => "DOUBLE",
            FuzzerDataType::Boolean => "BOOLEAN",
            FuzzerDataType::Decimal => "DECIMAL",
            FuzzerDataType::Date32 => "DATE",
            FuzzerDataType::Time64Nanosecond => "TIME",
            FuzzerDataType::Timestamp => "TIMESTAMP",
            FuzzerDataType::IntervalMonthDayNano => "INTERVAL",
        }
    }
}

impl FuzzerDataType {
    /// A decimal type tag; precision and scale are drawn when values
    /// are generated, so no stream word is spent here.
    pub fn random_decimal(_rng: &mut crate::rng::FuzzerRng) -> (r: Self)
        ensures
            r == FuzzerDataType::Decimal,
    {
        FuzzerDataType::Decimal
    }
}

/// The fixed list of types the generator draws from.
pub open spec fn spec_available_data_types() -> Seq<FuzzerDataType> {
    seq![
        FuzzerDataType::Int32,
        FuzzerDataType::Int64,
        FuzzerDataType::UInt32,
        FuzzerDataType::UInt64,
        FuzzerDataType::Float32,
        FuzzerDataType::Float64,
        FuzzerDataType::Boolean,
        FuzzerDataType::Decimal,
        FuzzerDataType::Date32,
        FuzzerDataType::Time64Nanosecond,
        FuzzerDataType::Timestamp,
        FuzzerDataType::IntervalMonthDayNano,
    ]
}

/// Get all available data types.
pub fn get_available_data_types() -> (r: Vec<FuzzerDataType>)
    ensures
        r@ == spec_available_data_types(),
{
    let mut v: Vec<FuzzerDataType> = Vec::new();
    v.push(FuzzerDataType::Int32);
    v.push(FuzzerDataType::Int64);
    v.push(FuzzerDataType::UInt32);
    v.push(FuzzerDataType::UInt64);
    v.push(FuzzerDataType::Float32);
    v.push(FuzzerDataType::Float64);
    v.push(FuzzerDataType::Boolean);
    v.push(FuzzerDataType::Decimal);
    v.push(FuzzerDataType::Date32);
    v.push(FuzzerDataType::Time64Nanosecond);
    v.push(FuzzerDataType::Timestamp);
    v.push(FuzzerDataType::IntervalMonthDayNano);
    assert(v@ =~= spec_available_data_types());
    v
}

/// The numeric types, in the order of the full list.
pub open spec fn spec_numeric_data_types() -> Seq<FuzzerDataType> {
    seq![
        FuzzerDataType::Int32,
        FuzzerDataType::Int64,
        FuzzerDataType::UInt32,
        FuzzerDataType::UInt64,
        FuzzerDataType::Float32,
        FuzzerDataType::Float64,
        FuzzerDataType::Decimal,
    ]
}

/// The numeric types are exactly the available types that `is_numeric`
/// accepts, in order.
pub proof fn lemma_numeric_data_types_complete()
    ensures
        spec_numeric_data_types() == spec_available_data_types().filter(
            |t: FuzzerDataType| t.spec_is_numeric(),
        ),
{
    reveal_with_fuel(Seq::filter, 13);
    assert(spec_available_data_types().filter(|t: FuzzerDataType| t.spec_is_numeric())
        =~= spec_numeric_data_types());
}

/// Get all numeric data types (excludes Boolean and the time types).
pub fn get_numeric_data_types() -> (r: Vec<FuzzerDataType>)
    ensures
        r@ == spec_numeric_data_types(),
{
    let mut v: Vec<FuzzerDataType> = Vec::new();
    v.push(FuzzerDataType::Int32);
    v.push(FuzzerDataType::Int64);
    v.push(FuzzerDataType::UInt32);
    v.push(FuzzerDataType::UInt64);
    v.push(FuzzerDataType::Float32);
    v.push(FuzzerDataType::Float64);
    v.push(FuzzerDataType::Decimal);
    assert(v@ =~= spec_numeric_data_types());
    v
}

/// The time types, in the order of the full list.
pub open spec fn spec_time_data_types() -> Seq<FuzzerDataType> {
    seq![
        FuzzerDataType::Date32,
        FuzzerDataType::Time64Nanosecond,
        FuzzerDataType::Timestamp,
        FuzzerDataType::IntervalMonthDayNano,
    ]
}

/// The time types are exactly the available types that `is_time`
/// accepts, in order.
pub proof fn lemma_time_data_types_complete()
    ensures
        spec_time_data_types() == spec_available_data_types().filter(
            |t: FuzzerDataType| t.spec_is_time(),
        ),
{
    reveal_with_fuel(Seq::filter, 13);
    assert(spec_available_data_types().filter(|t: FuzzerDataType| t.spec_is_time())
        =~= spec_time_data_types());
}

/// Get all time data types (date, time, timestamp, interval).
pub fn get_time_data_types() -> (r: Vec<FuzzerDataType>)
    ensures
        r@ == spec_time_data_types(),
{
    let mut v: Vec<FuzzerDataType> = Vec::new();
    v.push(FuzzerDataType::Date32);
    v.push(FuzzerDataType::Time64Nanosecond);
    v.push(FuzzerDataType::Timestamp);
    v.push(FuzzerDataType::IntervalMonthDayNano);
    assert(v@ =~= spec_time_data_types());
    v
}

/// The mathematical model of a column: its name and logical type.
pub ghost struct ColumnModel {
    pub name: Seq<char>,
    pub data_type: FuzzerDataType,
}

/// The mathematical model of a table: its name and ordered columns.
pub ghost struct TableModel {
    pub name: Seq<char>,
    pub columns: Seq<ColumnModel>,
}

/// A column of a registered table.
#[derive(Debug)]
pub struct LogicalColumn {
    pub name: String,
    pub data_type: FuzzerDataType,
}

impl View for LogicalColumn {
    type V = ColumnModel;

    open spec fn view(&self) -> ColumnModel {
        ColumnModel { name: self.name@, data_type: self.data_type }
    }
}

/// The models of a column list, in order.
pub open spec fn spec_col_models(cs: Seq<LogicalColumn>) -> Seq<ColumnModel> {
    cs.map_values(|c: LogicalColumn| c@)
}

/// A registered table or view: its name and ordered columns.
#[derive(Debug)]
pub struct LogicalTable {
    pub name: String,
    pub columns: Vec<LogicalColumn>,
}

impl View for LogicalTable {
    type V = TableModel;

    open spec fn view(&self) -> TableModel {
        TableModel { name: self.name@, columns: spec_col_models(self.columns@) }
    }
}

/// How a registered table came to be.
#[derive(Debug)]
pub enum LogicalTableType {
    Table,
    View,
    Subquery(String),
}

impl LogicalTable {
    /// A table with no columns yet.
    pub fn new(name: String) -> (r: LogicalTable)
        ensures
            r@.name == name@,
            r@.columns.len() == 0,
    {
        LogicalTable { name, columns: Vec::new() }
    }

    /// A table with the given columns.
    pub fn with_columns(name: String, columns: Vec<LogicalColumn>) -> (r: LogicalTable)
        ensures
            r@.name == name@,
            r@.columns == spec_col_models(columns@),
    {
        LogicalTable { name, columns }
    }
}

impl LogicalColumn {
    /// Copy the column field by field.
    pub fn duplicate(&self) -> (r: LogicalColumn)
        ensures
            r@ == self@,
    {
        LogicalColumn { name: self.name.clone(), data_type: self.data_type }
    }
}

impl LogicalTable {
    /// Copy the table field by field.
    pub fn duplicate(&self) -> (r: LogicalTable)
        ensures
            r@ == self@,
    {
        let mut columns: Vec<LogicalColumn> = Vec::new();
        let mut i: usize = 0;
        while i < self.columns.len()
            invariant
                i <= self.columns.len(),
                spec_col_models(columns@) == spec_col_models(self.columns@.take(i as int)),
            decreases self.columns.len() - i,
        {
            proof {
                assert(spec_col_models(self.columns@.take(i as int)).len() == i);
                assert(spec_col_models(columns@).len() == i);
                assert(columns@.len() == i);
            }
            columns.push(self.columns[i].duplicate());
            proof {
                assert forall|j: int| 0 <= j <= i implies spec_col_models(columns@)[j]
                    == spec_col_models(self.columns@.take(i + 1))[j] by {
                    if j < i {
                        assert(spec_col_models(columns@)[j] == spec_col_models(
                            columns@.drop_last(),
                        )[j]);
                        assert(spec_col_models(self.columns@.take(i + 1))[j] == spec_col_models(
                            self.columns@.take(i as int),
                        )[j]);
                    }
                }
                assert(spec_col_models(columns@) =~~= spec_col_models(
                    self.columns@.take(i + 1),
                ));
            }
            i += 1;
        }
        proof {
            assert(self.columns@.take(self.columns@.len() as int) =~= self.columns@);
        }
        let r = LogicalTable { name: self.name.clone(), columns };
        assert(r@.columns =~= self@.columns);
        r
    }
}

/// The crate's error type.  Failures from the engine or the host arrive
/// as plain messages.
#[derive(Debug)]
pub enum FuzzerError {
    FuzzerError(String),
}

impl FuzzerError {
    /// The error's message.
    pub open spec fn spec_message(&self) -> Seq<char> {
        match self {
            FuzzerError::FuzzerError(m) => m@,
        }
    }

    pub fn message(&self) -> (r: &str)
        ensures
            r@ == self.spec_message(),
    {
        match self {
            FuzzerError::FuzzerError(m) => m.as_str(),
        }
    }
}

/// Build a `FuzzerError` from a message.
pub fn fuzzer_err(msg: &str) -> (r: FuzzerError)
    ensures
        r.spec_message() == msg@,
{
    FuzzerError::FuzzerError(msg.to_owned())
}

} // verus!
