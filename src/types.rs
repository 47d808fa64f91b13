use std::sync::Arc;
use vstd::prelude::*;

verus! {

/// The sub-second resolution of a time, timestamp or duration.
#[derive(Debug, Clone, Copy, PartialEq, Eq, Hash, PartialOrd, Ord)]
pub enum TimeUnit {
    Second,
    Millisecond,
    Microsecond,
    Nanosecond,
}

/// The kind of an interval.
#[derive(Debug, Clone, Copy, PartialEq, Eq, Hash, PartialOrd, Ord)]
pub enum IntervalUnit {
    YearMonth,
    DayTime,
    MonthDayNano,
}

/// The memory layout of a union.
#[derive(Debug, Clone, Copy, PartialEq, Eq, Hash, PartialOrd, Ord)]
pub enum UnionMode {
    Sparse,
    Dense,
}

/// A named, typed child of a nested physical type.
#[derive(Debug, Clone, PartialEq, Eq, Hash)]
pub struct Field {
    pub name: String,
    pub data_type: DataType,
    pub nullable: bool,
}

/// A physical (columnar) data type. Parameterized variants carry their
/// parameters: time unit, time zone, precision and scale, children.
#[derive(Debug, PartialEq, Eq, Hash)]
pub enum DataType {
    Null,
    Boolean,
    Int8,
    Int16,
    Int32,
    Int64,
    UInt8,
    UInt16,
    UInt32,
    UInt64,
    Float16,
    Float32,
    Float64,
    Timestamp(TimeUnit, Option<String>),
    Date32,
    Date64,
    Time32(TimeUnit),
    Time64(TimeUnit),
    Duration(TimeUnit),
    Interval(IntervalUnit),
    Binary,
    FixedSizeBinary(i32),
    LargeBinary,
    Utf8,
    LargeUtf8,
    List(Arc<Field>),
    FixedSizeList(Arc<Field>, i32),
    LargeList(Arc<Field>),
    Struct(Arc<Vec<Field>>),
    Union(Arc<Vec<(i8, Field)>>, UnionMode),
    Dictionary(Box<DataType>, Box<DataType>),
    Decimal128(u8, i8),
    Decimal256(u8, i8),
    KeyValueMap(Arc<Field>, bool),
    RunEndEncoded(Arc<Field>, Arc<Field>),
}

/// A value tagged with its physical type. Floating-point payloads are held
/// as their IEEE-754 bit patterns.
#[derive(Debug, PartialEq, Eq, Hash)]
pub enum ScalarValue {
    Null,
    Boolean(Option<bool>),
    Float32(Option<u32>),
    Float64(Option<u64>),
    Decimal128(Option<i128>, u8, i8),
    Int8(Option<i8>),
    Int16(Option<i16>),
    Int32(Option<i32>),
    Int64(Option<i64>),
    UInt8(Option<u8>),
    UInt16(Option<u16>),
    UInt32(Option<u32>),
    UInt64(Option<u64>),
    Utf8(Option<String>),
    LargeUtf8(Option<String>),
    Binary(Option<Vec<u8>>),
    FixedSizeBinary(i32, Option<Vec<u8>>),
    LargeBinary(Option<Vec<u8>>),
    List(Option<Vec<ScalarValue>>, Arc<Field>),
    Date32(Option<i32>),
    Date64(Option<i64>),
    Time32Second(Option<i32>),
    Time32Millisecond(Option<i32>),
    Time64Microsecond(Option<i64>),
    Time64Nanosecond(Option<i64>),
    TimestampSecond(Option<i64>, Option<String>),
    TimestampMillisecond(Option<i64>, Option<String>),
    TimestampMicrosecond(Option<i64>, Option<String>),
    TimestampNanosecond(Option<i64>, Option<String>),
    IntervalYearMonth(Option<i32>),
    IntervalDayTime(Option<i64>),
    IntervalMonthDayNano(Option<i128>),
    Struct(Option<Vec<ScalarValue>>, Arc<Vec<Field>>),
    Dictionary(Box<DataType>, Box<ScalarValue>),
}

/// The kind of a relational expression.
#[derive(Debug, Clone, Copy, PartialEq, Eq, Hash, PartialOrd, Ord)]
pub enum RexType {
    Alias,
    Literal,
    Call,
    Reference,
    ScalarSubquery,
    Other,
}

/// How a value of a physical type surfaces to host-language code.
#[derive(Debug, Clone, Copy, PartialEq, Eq, Hash, PartialOrd, Ord)]
pub enum PythonType {
    Array,
    Bool,
    Bytes,
    Datetime,
    Float,
    Int,
    List,
    NoneType,
    Object,
    Str,
}

/// The ANSI SQL logical type names.
#[allow(non_camel_case_types)]
#[allow(clippy::upper_case_acronyms)]
#[derive(Debug, Clone, Copy, PartialEq, Eq, Hash, PartialOrd, Ord)]
pub enum SqlType {
    ANY,
    ARRAY,
    BIGINT,
    BINARY,
    BOOLEAN,
    CHAR,
    COLUMN_LIST,
    CURSOR,
    DATE,
    DECIMAL,
    DISTINCT,
    DOUBLE,
    DYNAMIC_STAR,
    FLOAT,
    GEOMETRY,
    INTEGER,
    INTERVAL,
    INTERVAL_DAY,
    INTERVAL_DAY_HOUR,
    INTERVAL_DAY_MINUTE,
    INTERVAL_DAY_SECOND,
    INTERVAL_HOUR,
    INTERVAL_HOUR_MINUTE,
    INTERVAL_HOUR_SECOND,
    INTERVAL_MINUTE,
    INTERVAL_MINUTE_SECOND,
    INTERVAL_MONTH,
    INTERVAL_SECOND,
    INTERVAL_YEAR,
    INTERVAL_YEAR_MONTH,
    MAP,
    MULTISET,
    NULL,
    OTHER,
    REAL,
    ROW,
    SARG,
    SMALLINT,
    STRUCTURED,
    SYMBOL,
    TIME,
    TIME_WITH_LOCAL_TIME_ZONE,
    TIMESTAMP,
    TIMESTAMP_WITH_LOCAL_TIME_ZONE,
    TINYINT,
    UNKNOWN,
    VARBINARY,
    VARCHAR,
}

/// A physical data type as handed across the host boundary.
#[derive(Debug, Clone, PartialEq, Eq, Hash)]
pub struct PyDataType {
    pub data_type: DataType,
}

/// One correspondence between a physical type, a host type and a SQL type.
#[derive(Debug, Clone, PartialEq, Eq, Hash)]
pub struct DataTypeMap {
    pub arrow_type: PyDataType,
    pub python_type: PythonType,
    pub sql_type: SqlType,
}

/// Why no mapping could be produced: the type that has none.
#[derive(Debug, Clone, PartialEq, Eq, Hash)]
pub enum MappingError {
    UnsupportedArrowType(DataType),
    UnsupportedSqlType(SqlType),
}

/// An exact copy of an optional time-zone name.
pub(crate) fn copy_zone(s: &Option<String>) -> (r: Option<String>)
    ensures
        r == *s,
{
    match s {
        Some(zone) => Some(zone.clone()),
        None => None,
    }
}

impl DataType {
    /// An exact copy of this type, children included.
    pub(crate) fn copied(&self) -> (r: DataType)
        ensures
            r == *self,
        decreases self,
    {
        match self {
            DataType::Null => DataType::Null,
            DataType::Boolean => DataType::Boolean,
            DataType::Int8 => DataType::Int8,
            DataType::Int16 => DataType::Int16,
            DataType::Int32 => DataType::Int32,
            DataType::Int64 => DataType::Int64,
            DataType::UInt8 => DataType::UInt8,
            DataType::UInt16 => DataType::UInt16,
            DataType::UInt32 => DataType::UInt32,
            DataType::UInt64 => DataType::UInt64,
            DataType::Float16 => DataType::Float16,
            DataType::Float32 => DataType::Float32,
            DataType::Float64 => DataType::Float64,
            DataType::Timestamp(unit, tz) => DataType::Timestamp(*unit, copy_zone(tz)),
            DataType::Date32 => DataType::Date32,
            DataType::Date64 => DataType::Date64,
            DataType::Time32(unit) => DataType::Time32(*unit),
            DataType::Time64(unit) => DataType::Time64(*unit),
            DataType::Duration(unit) => DataType::Duration(*unit),
            DataType::Interval(unit) => DataType::Interval(*unit),
            DataType::Binary => DataType::Binary,
            DataType::FixedSizeBinary(size) => DataType::FixedSizeBinary(*size),
            DataType::LargeBinary => DataType::LargeBinary,
            DataType::Utf8 => DataType::Utf8,
            DataType::LargeUtf8 => DataType::LargeUtf8,
            DataType::List(f) => DataType::List(f.clone()),
            DataType::FixedSizeList(f, size) => DataType::FixedSizeList(f.clone(), *size),
            DataType::LargeList(f) => DataType::LargeList(f.clone()),
            DataType::Struct(fields) => DataType::Struct(fields.clone()),
            DataType::Union(fields, mode) => DataType::Union(fields.clone(), *mode),
            DataType::Dictionary(k, v) => DataType::Dictionary(
                Box::new(k.copied()),
                Box::new(v.copied()),
            ),
            DataType::Decimal128(p, s) => DataType::Decimal128(*p, *s),
            DataType::Decimal256(p, s) => DataType::Decimal256(*p, *s),
            DataType::KeyValueMap(f, sorted) => DataType::KeyValueMap(f.clone(), *sorted),
            DataType::RunEndEncoded(ends, values) => DataType::RunEndEncoded(ends.clone(), values.clone()),
        }
    }
}

impl Clone for DataType {
    fn clone(&self) -> (r: DataType)
        ensures
            r == *self,
    {
        self.copied()
    }
}

impl From<PyDataType> for DataType {
    fn from(data_type: PyDataType) -> (r: DataType)
        ensures
            r == data_type.data_type,
    {
        data_type.data_type
    }
}

impl vstd::std_specs::convert::FromSpecImpl<PyDataType> for DataType {
    open spec fn obeys_from_spec() -> bool {
        true
    }

    open spec fn from_spec(v: PyDataType) -> DataType {
        v.data_type
    }
}

impl From<DataType> for PyDataType {
    fn from(data_type: DataType) -> (r: PyDataType)
        ensures
            r == (PyDataType { data_type }),
    {
        PyDataType { data_type }
    }
}

impl vstd::std_specs::convert::FromSpecImpl<DataType> for PyDataType {
    open spec fn obeys_from_spec() -> bool {
        true
    }

    open spec fn from_spec(v: DataType) -> PyDataType {
        PyDataType { data_type: v }
    }
}

} // verus!
