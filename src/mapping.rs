use crate::types::{
    DataType, DataTypeMap, IntervalUnit, MappingError, PyDataType, PythonType, ScalarValue,
    SqlType, TimeUnit, copy_zone,
};
use vstd::prelude::*;

verus! {

/// The record that pairs the three given types.
pub open spec fn record(arrow_type: DataType, python_type: PythonType, sql_type: SqlType) -> DataTypeMap {
    DataTypeMap { arrow_type: PyDataType { data_type: arrow_type }, python_type, sql_type }
}

/// The host type and SQL type of a physical type, or `None` where the
/// physical type has no mapping (durations, fixed-size binaries and every
/// nested or encoded container).
pub open spec fn arrow_classification(t: DataType) -> Option<(PythonType, SqlType)> {
    match t {
        DataType::Null => Some((PythonType::NoneType, SqlType::NULL)),
        DataType::Boolean => Some((PythonType::Bool, SqlType::BOOLEAN)),
        DataType::Int8 | DataType::UInt8 => Some((PythonType::Int, SqlType::TINYINT)),
        DataType::Int16 | DataType::UInt16 => Some((PythonType::Int, SqlType::SMALLINT)),
        DataType::Int32 | DataType::UInt32 => Some((PythonType::Int, SqlType::INTEGER)),
        DataType::Int64 | DataType::UInt64 => Some((PythonType::Int, SqlType::BIGINT)),
        DataType::Float16 | DataType::Float32 | DataType::Float64 => Some(
            (PythonType::Float, SqlType::FLOAT),
        ),
        DataType::Timestamp(_, _)
        | DataType::Date32
        | DataType::Date64
        | DataType::Time32(_)
        | DataType::Time64(_) => Some((PythonType::Datetime, SqlType::DATE)),
        DataType::Interval(IntervalUnit::YearMonth) => Some(
            (PythonType::Datetime, SqlType::INTERVAL_YEAR_MONTH),
        ),
        DataType::Interval(IntervalUnit::DayTime) => Some(
            (PythonType::Datetime, SqlType::INTERVAL_DAY),
        ),
        DataType::Interval(IntervalUnit::MonthDayNano) => Some(
            (PythonType::Datetime, SqlType::INTERVAL_MONTH),
        ),
        DataType::Binary | DataType::LargeBinary => Some((PythonType::Bytes, SqlType::BINARY)),
        DataType::Utf8 | DataType::LargeUtf8 => Some((PythonType::Str, SqlType::VARCHAR)),
        DataType::Decimal128(_, _) | DataType::Decimal256(_, _) => Some(
            (PythonType::Float, SqlType::DECIMAL),
        ),
        DataType::Duration(_)
        | DataType::FixedSizeBinary(_)
        | DataType::List(_)
        | DataType::FixedSizeList(_, _)
        | DataType::LargeList(_)
        | DataType::Struct(_)
        | DataType::Union(_, _)
        | DataType::Dictionary(_, _)
        | DataType::KeyValueMap(_, _)
        | DataType::RunEndEncoded(_, _) => None,
    }
}

/// The outcome of mapping a physical type: the record that keeps the type
/// itself, parameters included, or the error that names it.
pub open spec fn arrow_mapping(t: DataType) -> Result<DataTypeMap, MappingError> {
    match arrow_classification(t) {
        Some((python_type, sql_type)) => Ok(record(t, python_type, sql_type)),
        None => Err(MappingError::UnsupportedArrowType(t)),
    }
}

/// The default physical type and the host type of a SQL type, or `None`
/// where the SQL type has no defined physical counterpart.
pub open spec fn sql_defaults(s: SqlType) -> Option<(DataType, PythonType)> {
    match s {
        SqlType::BIGINT => Some((DataType::Int64, PythonType::Int)),
        SqlType::BINARY => Some((DataType::Binary, PythonType::Bytes)),
        SqlType::BOOLEAN => Some((DataType::Boolean, PythonType::Bool)),
        SqlType::CHAR => Some((DataType::UInt8, PythonType::Int)),
        SqlType::DATE => Some((DataType::Date64, PythonType::Datetime)),
        SqlType::DECIMAL => Some((DataType::Decimal128(1, 1), PythonType::Float)),
        SqlType::DOUBLE => Some((DataType::Decimal256(1, 1), PythonType::Float)),
        SqlType::FLOAT => Some((DataType::Decimal128(1, 1), PythonType::Float)),
        SqlType::INTEGER => Some((DataType::Int8, PythonType::Int)),
        SqlType::NULL => Some((DataType::Null, PythonType::NoneType)),
        SqlType::SMALLINT => Some((DataType::Int16, PythonType::Int)),
        SqlType::TINYINT => Some((DataType::Int8, PythonType::Int)),
        SqlType::VARBINARY => Some((DataType::LargeBinary, PythonType::Bytes)),
        SqlType::VARCHAR => Some((DataType::Utf8, PythonType::Str)),
        _ => None,
    }
}

/// The outcome of mapping a SQL type: the record that keeps the SQL type
/// itself, or the error that names it.
pub open spec fn sql_mapping(s: SqlType) -> Result<DataTypeMap, MappingError> {
    match sql_defaults(s) {
        Some((arrow_type, python_type)) => Ok(record(arrow_type, python_type, s)),
        None => Err(MappingError::UnsupportedSqlType(s)),
    }
}

/// The physical type of a tagged value. The parameters come from the tag
/// (precision and scale, time unit and time zone, interval kind, width,
/// children); a dictionary value keeps its key type and takes as value type
/// the physical type of the value it wraps.
pub open spec fn scalar_arrow_type(v: ScalarValue) -> DataType
    decreases v,
{
    match v {
        ScalarValue::Null => DataType::Null,
        ScalarValue::Boolean(_) => DataType::Boolean,
        ScalarValue::Float32(_) => DataType::Float32,
        ScalarValue::Float64(_) => DataType::Float64,
        ScalarValue::Decimal128(_, precision, scale) => DataType::Decimal128(precision, scale),
        ScalarValue::Int8(_) => DataType::Int8,
        ScalarValue::Int16(_) => DataType::Int16,
        ScalarValue::Int32(_) => DataType::Int32,
        ScalarValue::Int64(_) => DataType::Int64,
        ScalarValue::UInt8(_) => DataType::UInt8,
        ScalarValue::UInt16(_) => DataType::UInt16,
        ScalarValue::UInt32(_) => DataType::UInt32,
        ScalarValue::UInt64(_) => DataType::UInt64,
        ScalarValue::Utf8(_) => DataType::Utf8,
        ScalarValue::LargeUtf8(_) => DataType::LargeUtf8,
        ScalarValue::Binary(_) => DataType::Binary,
        ScalarValue::FixedSizeBinary(size, _) => DataType::FixedSizeBinary(size),
        ScalarValue::LargeBinary(_) => DataType::LargeBinary,
        ScalarValue::List(_, field) => DataType::List(field),
        ScalarValue::Date32(_) => DataType::Date32,
        ScalarValue::Date64(_) => DataType::Date64,
        ScalarValue::Time32Second(_) => DataType::Time32(TimeUnit::Second),
        ScalarValue::Time32Millisecond(_) => DataType::Time32(TimeUnit::Millisecond),
        ScalarValue::Time64Microsecond(_) => DataType::Time64(TimeUnit::Microsecond),
        ScalarValue::Time64Nanosecond(_) => DataType::Time64(TimeUnit::Nanosecond),
        ScalarValue::TimestampSecond(_, tz) => DataType::Timestamp(TimeUnit::Second, tz),
        ScalarValue::TimestampMillisecond(_, tz) => DataType::Timestamp(TimeUnit::Millisecond, tz),
        ScalarValue::TimestampMicrosecond(_, tz) => DataType::Timestamp(TimeUnit::Microsecond, tz),
        ScalarValue::TimestampNanosecond(_, tz) => DataType::Timestamp(TimeUnit::Nanosecond, tz),
        ScalarValue::IntervalYearMonth(_) => DataType::Interval(IntervalUnit::YearMonth),
        ScalarValue::IntervalDayTime(_) => DataType::Interval(IntervalUnit::DayTime),
        ScalarValue::IntervalMonthDayNano(_) => DataType::Interval(IntervalUnit::MonthDayNano),
        ScalarValue::Struct(_, fields) => DataType::Struct(fields),
        ScalarValue::Dictionary(key_type, value) => DataType::Dictionary(
            key_type,
            Box::new(scalar_arrow_type(*value)),
        ),
    }
}

impl DataTypeMap {
    fn new(arrow_type: DataType, python_type: PythonType, sql_type: SqlType) -> (r: DataTypeMap)
        ensures
            r == record(arrow_type, python_type, sql_type),
    {
        DataTypeMap { arrow_type: PyDataType { data_type: arrow_type }, python_type, sql_type }
    }

    /// Maps a physical type to its host type and SQL type.
    pub fn map_from_arrow_type(arrow_type: &DataType) -> (r: Result<DataTypeMap, MappingError>)
        ensures
            r == arrow_mapping(*arrow_type),
    {
        match arrow_type {
            DataType::Null => Ok(DataTypeMap::new(DataType::Null, PythonType::NoneType, SqlType::NULL)),
            DataType::Boolean => Ok(
                DataTypeMap::new(DataType::Boolean, PythonType::Bool, SqlType::BOOLEAN),
            ),
            DataType::Int8 => Ok(DataTypeMap::new(DataType::Int8, PythonType::Int, SqlType::TINYINT)),
            DataType::Int16 => Ok(
                DataTypeMap::new(DataType::Int16, PythonType::Int, SqlType::SMALLINT),
            ),
            DataType::Int32 => Ok(
                DataTypeMap::new(DataType::Int32, PythonType::Int, SqlType::INTEGER),
            ),
            DataType::Int64 => Ok(DataTypeMap::new(DataType::Int64, PythonType::Int, SqlType::BIGINT)),
            DataType::UInt8 => Ok(
                DataTypeMap::new(DataType::UInt8, PythonType::Int, SqlType::TINYINT),
            ),
            DataType::UInt16 => Ok(
                DataTypeMap::new(DataType::UInt16, PythonType::Int, SqlType::SMALLINT),
            ),
            DataType::UInt32 => Ok(
                DataTypeMap::new(DataType::UInt32, PythonType::Int, SqlType::INTEGER),
            ),
            DataType::UInt64 => Ok(
                DataTypeMap::new(DataType::UInt64, PythonType::Int, SqlType::BIGINT),
            ),
            DataType::Float16 => Ok(
                DataTypeMap::new(DataType::Float16, PythonType::Float, SqlType::FLOAT),
            ),
            DataType::Float32 => Ok(
                DataTypeMap::new(DataType::Float32, PythonType::Float, SqlType::FLOAT),
            ),
            DataType::Float64 => Ok(
                DataTypeMap::new(DataType::Float64, PythonType::Float, SqlType::FLOAT),
            ),
            DataType::Timestamp(_, _) => Ok(
                DataTypeMap::new(arrow_type.clone(), PythonType::Datetime, SqlType::DATE),
            ),
            DataType::Date32 => Ok(
                DataTypeMap::new(DataType::Date32, PythonType::Datetime, SqlType::DATE),
            ),
            DataType::Date64 => Ok(
                DataTypeMap::new(DataType::Date64, PythonType::Datetime, SqlType::DATE),
            ),
            DataType::Time32(unit) => Ok(
                DataTypeMap::new(DataType::Time32(*unit), PythonType::Datetime, SqlType::DATE),
            ),
            DataType::Time64(unit) => Ok(
                DataTypeMap::new(DataType::Time64(*unit), PythonType::Datetime, SqlType::DATE),
            ),
            DataType::Duration(_) => Err(MappingError::UnsupportedArrowType(arrow_type.clone())),
            DataType::Interval(interval_unit) => Ok(
                DataTypeMap::new(
                    DataType::Interval(*interval_unit),
                    PythonType::Datetime,
                    match interval_unit {
                        IntervalUnit::DayTime => SqlType::INTERVAL_DAY,
                        IntervalUnit::MonthDayNano => SqlType::INTERVAL_MONTH,
                        IntervalUnit::YearMonth => SqlType::INTERVAL_YEAR_MONTH,
                    },
                ),
            ),
            DataType::Binary => Ok(
                DataTypeMap::new(DataType::Binary, PythonType::Bytes, SqlType::BINARY),
            ),
            DataType::FixedSizeBinary(_) => Err(
                MappingError::UnsupportedArrowType(arrow_type.clone()),
            ),
            DataType::LargeBinary => Ok(
                DataTypeMap::new(DataType::LargeBinary, PythonType::Bytes, SqlType::BINARY),
            ),
            DataType::Utf8 => Ok(DataTypeMap::new(DataType::Utf8, PythonType::Str, SqlType::VARCHAR)),
            DataType::LargeUtf8 => Ok(
                DataTypeMap::new(DataType::LargeUtf8, PythonType::Str, SqlType::VARCHAR),
            ),
            DataType::List(_) => Err(MappingError::UnsupportedArrowType(arrow_type.clone())),
            DataType::FixedSizeList(_, _) => Err(
                MappingError::UnsupportedArrowType(arrow_type.clone()),
            ),
            DataType::LargeList(_) => Err(MappingError::UnsupportedArrowType(arrow_type.clone())),
            DataType::Struct(_) => Err(MappingError::UnsupportedArrowType(arrow_type.clone())),
            DataType::Union(_, _) => Err(MappingError::UnsupportedArrowType(arrow_type.clone())),
            DataType::Dictionary(_, _) => Err(
                MappingError::UnsupportedArrowType(arrow_type.clone()),
            ),
            DataType::Decimal128(precision, scale) => Ok(
                DataTypeMap::new(
                    DataType::Decimal128(*precision, *scale),
                    PythonType::Float,
                    SqlType::DECIMAL,
                ),
            ),
            DataType::Decimal256(precision, scale) => Ok(
                DataTypeMap::new(
                    DataType::Decimal256(*precision, *scale),
                    PythonType::Float,
                    SqlType::DECIMAL,
                ),
            ),
            DataType::KeyValueMap(_, _) => Err(
                MappingError::UnsupportedArrowType(arrow_type.clone()),
            ),
            DataType::RunEndEncoded(_, _) => Err(
                MappingError::UnsupportedArrowType(arrow_type.clone()),
            ),
        }
    }

    /// Maps a tagged value by way of its physical type.
    pub fn map_from_scalar_value(scalar_val: &ScalarValue) -> (r: Result<DataTypeMap, MappingError>)
        ensures
            r == arrow_mapping(scalar_arrow_type(*scalar_val)),
    {
        match DataTypeMap::map_from_scalar_to_arrow(scalar_val) {
            Ok(arrow_type) => DataTypeMap::map_from_arrow_type(&arrow_type),
            Err(e) => Err(e),
        }
    }

    /// Infers the physical type of a tagged value; this never fails.
    pub fn map_from_scalar_to_arrow(scalar_val: &ScalarValue) -> (r: Result<DataType, MappingError>)
        ensures
            r == Ok::<DataType, MappingError>(scalar_arrow_type(*scalar_val)),
        decreases scalar_val,
    {
        match scalar_val {
            ScalarValue::Boolean(_) => Ok(DataType::Boolean),
            ScalarValue::Float32(_) => Ok(DataType::Float32),
            ScalarValue::Float64(_) => Ok(DataType::Float64),
            ScalarValue::Decimal128(_, precision, scale) => Ok(DataType::Decimal128(*precision, *scale)),
            ScalarValue::Dictionary(data_type, scalar_type) => {
                // the value type is inferred from the wrapped value
                match DataTypeMap::map_from_scalar_to_arrow(scalar_type) {
                    Ok(value_type) => Ok(
                        DataType::Dictionary(Box::new((**data_type).clone()), Box::new(value_type)),
                    ),
                    Err(e) => Err(e),
                }
            },
            ScalarValue::Int8(_) => Ok(DataType::Int8),
            ScalarValue::Int16(_) => Ok(DataType::Int16),
            ScalarValue::Int32(_) => Ok(DataType::Int32),
            ScalarValue::Int64(_) => Ok(DataType::Int64),
            ScalarValue::UInt8(_) => Ok(DataType::UInt8),
            ScalarValue::UInt16(_) => Ok(DataType::UInt16),
            ScalarValue::UInt32(_) => Ok(DataType::UInt32),
            ScalarValue::UInt64(_) => Ok(DataType::UInt64),
            ScalarValue::Utf8(_) => Ok(DataType::Utf8),
            ScalarValue::LargeUtf8(_) => Ok(DataType::LargeUtf8),
            ScalarValue::Binary(_) => Ok(DataType::Binary),
            ScalarValue::LargeBinary(_) => Ok(DataType::LargeBinary),
            ScalarValue::Date32(_) => Ok(DataType::Date32),
            ScalarValue::Date64(_) => Ok(DataType::Date64),
            ScalarValue::Time32Second(_) => Ok(DataType::Time32(TimeUnit::Second)),
            ScalarValue::Time32Millisecond(_) => Ok(DataType::Time32(TimeUnit::Millisecond)),
            ScalarValue::Time64Microsecond(_) => Ok(DataType::Time64(TimeUnit::Microsecond)),
            ScalarValue::Time64Nanosecond(_) => Ok(DataType::Time64(TimeUnit::Nanosecond)),
            ScalarValue::Null => Ok(DataType::Null),
            ScalarValue::TimestampSecond(_, tz) => Ok(DataType::Timestamp(TimeUnit::Second, copy_zone(tz))),
            ScalarValue::TimestampMillisecond(_, tz) => Ok(
                DataType::Timestamp(TimeUnit::Millisecond, copy_zone(tz)),
            ),
            ScalarValue::TimestampMicrosecond(_, tz) => Ok(
                DataType::Timestamp(TimeUnit::Microsecond, copy_zone(tz)),
            ),
            ScalarValue::TimestampNanosecond(_, tz) => Ok(
                DataType::Timestamp(TimeUnit::Nanosecond, copy_zone(tz)),
            ),
            ScalarValue::IntervalYearMonth(_) => Ok(DataType::Interval(IntervalUnit::YearMonth)),
            ScalarValue::IntervalDayTime(_) => Ok(DataType::Interval(IntervalUnit::DayTime)),
            ScalarValue::IntervalMonthDayNano(_) => Ok(DataType::Interval(IntervalUnit::MonthDayNano)),
            ScalarValue::List(_, field) => Ok(DataType::List(field.clone())),
            ScalarValue::Struct(_, fields) => Ok(DataType::Struct(fields.clone())),
            ScalarValue::FixedSizeBinary(size, _) => Ok(DataType::FixedSizeBinary(*size)),
        }
    }

    /// Builds a record from its three parts, as given.
    pub fn py_new(arrow_type: PyDataType, python_type: PythonType, sql_type: SqlType) -> (r: DataTypeMap)
        ensures
            r == (DataTypeMap { arrow_type, python_type, sql_type }),
    {
        DataTypeMap { arrow_type, python_type, sql_type }
    }

    /// Maps the physical type that `arrow_type` carries.
    pub fn py_map_from_arrow_type(arrow_type: &PyDataType) -> (r: Result<DataTypeMap, MappingError>)
        ensures
            r == arrow_mapping(arrow_type.data_type),
    {
        DataTypeMap::map_from_arrow_type(&arrow_type.data_type)
    }

    /// Maps a SQL type to a default physical type and its host type.
    pub fn py_map_from_sql_type(sql_type: &SqlType) -> (r: Result<DataTypeMap, MappingError>)
        ensures
            r == sql_mapping(*sql_type),
    {
        match sql_type {
            SqlType::ANY => Err(MappingError::UnsupportedSqlType(SqlType::ANY)),
            SqlType::ARRAY => Err(MappingError::UnsupportedSqlType(SqlType::ARRAY)),
            SqlType::BIGINT => Ok(
                DataTypeMap::new(DataType::Int64, PythonType::Int, SqlType::BIGINT),
            ),
            SqlType::BINARY => Ok(
                DataTypeMap::new(DataType::Binary, PythonType::Bytes, SqlType::BINARY),
            ),
            SqlType::BOOLEAN => Ok(
                DataTypeMap::new(DataType::Boolean, PythonType::Bool, SqlType::BOOLEAN),
            ),
            SqlType::CHAR => Ok(
                DataTypeMap::new(DataType::UInt8, PythonType::Int, SqlType::CHAR),
            ),
            SqlType::COLUMN_LIST => Err(MappingError::UnsupportedSqlType(SqlType::COLUMN_LIST)),
            SqlType::CURSOR => Err(MappingError::UnsupportedSqlType(SqlType::CURSOR)),
            SqlType::DATE => Ok(
                DataTypeMap::new(DataType::Date64, PythonType::Datetime, SqlType::DATE),
            ),
            SqlType::DECIMAL => Ok(
                DataTypeMap::new(DataType::Decimal128(1, 1), PythonType::Float, SqlType::DECIMAL),
            ),
            SqlType::DISTINCT => Err(MappingError::UnsupportedSqlType(SqlType::DISTINCT)),
            SqlType::DOUBLE => Ok(
                DataTypeMap::new(DataType::Decimal256(1, 1), PythonType::Float, SqlType::DOUBLE),
            ),
            SqlType::DYNAMIC_STAR => Err(MappingError::UnsupportedSqlType(SqlType::DYNAMIC_STAR)),
            SqlType::FLOAT => Ok(
                DataTypeMap::new(DataType::Decimal128(1, 1), PythonType::Float, SqlType::FLOAT),
            ),
            SqlType::GEOMETRY => Err(MappingError::UnsupportedSqlType(SqlType::GEOMETRY)),
            SqlType::INTEGER => Ok(
                DataTypeMap::new(DataType::Int8, PythonType::Int, SqlType::INTEGER),
            ),
            SqlType::INTERVAL => Err(MappingError::UnsupportedSqlType(SqlType::INTERVAL)),
            SqlType::INTERVAL_DAY => Err(MappingError::UnsupportedSqlType(SqlType::INTERVAL_DAY)),
            SqlType::INTERVAL_DAY_HOUR => Err(MappingError::UnsupportedSqlType(SqlType::INTERVAL_DAY_HOUR)),
            SqlType::INTERVAL_DAY_MINUTE => Err(MappingError::UnsupportedSqlType(SqlType::INTERVAL_DAY_MINUTE)),
            SqlType::INTERVAL_DAY_SECOND => Err(MappingError::UnsupportedSqlType(SqlType::INTERVAL_DAY_SECOND)),
            SqlType::INTERVAL_HOUR => Err(MappingError::UnsupportedSqlType(SqlType::INTERVAL_HOUR)),
            SqlType::INTERVAL_HOUR_MINUTE => Err(MappingError::UnsupportedSqlType(SqlType::INTERVAL_HOUR_MINUTE)),
            SqlType::INTERVAL_HOUR_SECOND => Err(MappingError::UnsupportedSqlType(SqlType::INTERVAL_HOUR_SECOND)),
            SqlType::INTERVAL_MINUTE => Err(MappingError::UnsupportedSqlType(SqlType::INTERVAL_MINUTE)),
            SqlType::INTERVAL_MINUTE_SECOND => Err(MappingError::UnsupportedSqlType(SqlType::INTERVAL_MINUTE_SECOND)),
            SqlType::INTERVAL_MONTH => Err(MappingError::UnsupportedSqlType(SqlType::INTERVAL_MONTH)),
            SqlType::INTERVAL_SECOND => Err(MappingError::UnsupportedSqlType(SqlType::INTERVAL_SECOND)),
            SqlType::INTERVAL_YEAR => Err(MappingError::UnsupportedSqlType(SqlType::INTERVAL_YEAR)),
            SqlType::INTERVAL_YEAR_MONTH => Err(MappingError::UnsupportedSqlType(SqlType::INTERVAL_YEAR_MONTH)),
            SqlType::MAP => Err(MappingError::UnsupportedSqlType(SqlType::MAP)),
            SqlType::MULTISET => Err(MappingError::UnsupportedSqlType(SqlType::MULTISET)),
            SqlType::NULL => Ok(
                DataTypeMap::new(DataType::Null, PythonType::NoneType, SqlType::NULL),
            ),
            SqlType::OTHER => Err(MappingError::UnsupportedSqlType(SqlType::OTHER)),
            SqlType::REAL => Err(MappingError::UnsupportedSqlType(SqlType::REAL)),
            SqlType::ROW => Err(MappingError::UnsupportedSqlType(SqlType::ROW)),
            SqlType::SARG => Err(MappingError::UnsupportedSqlType(SqlType::SARG)),
            SqlType::SMALLINT => Ok(
                DataTypeMap::new(DataType::Int16, PythonType::Int, SqlType::SMALLINT),
            ),
            SqlType::STRUCTURED => Err(MappingError::UnsupportedSqlType(SqlType::STRUCTURED)),
            SqlType::SYMBOL => Err(MappingError::UnsupportedSqlType(SqlType::SYMBOL)),
            SqlType::TIME => Err(MappingError::UnsupportedSqlType(SqlType::TIME)),
            SqlType::TIME_WITH_LOCAL_TIME_ZONE => Err(MappingError::UnsupportedSqlType(SqlType::TIME_WITH_LOCAL_TIME_ZONE)),
            SqlType::TIMESTAMP => Err(MappingError::UnsupportedSqlType(SqlType::TIMESTAMP)),
            SqlType::TIMESTAMP_WITH_LOCAL_TIME_ZONE => Err(MappingError::UnsupportedSqlType(SqlType::TIMESTAMP_WITH_LOCAL_TIME_ZONE)),
            SqlType::TINYINT => Ok(
                DataTypeMap::new(DataType::Int8, PythonType::Int, SqlType::TINYINT),
            ),
            SqlType::UNKNOWN => Err(MappingError::UnsupportedSqlType(SqlType::UNKNOWN)),
            SqlType::VARBINARY => Ok(
                DataTypeMap::new(DataType::LargeBinary, PythonType::Bytes, SqlType::VARBINARY),
            ),
            SqlType::VARCHAR => Ok(
                DataTypeMap::new(DataType::Utf8, PythonType::Str, SqlType::VARCHAR),
            ),
        }
    }
}

} // verus!
