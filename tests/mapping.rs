use std::sync::Arc;

use type_map::{
    DataType, DataTypeMap, Field, IntervalUnit, MappingError, PyDataType, PythonType, ScalarValue,
    SqlType, TimeUnit, UnionMode,
};

fn record(arrow_type: DataType, python_type: PythonType, sql_type: SqlType) -> DataTypeMap {
    DataTypeMap { arrow_type: PyDataType { data_type: arrow_type }, python_type, sql_type }
}

fn int_field(name: &str) -> Field {
    Field { name: name.to_string(), data_type: DataType::Int32, nullable: true }
}

const ALL_SQL_TYPES: [SqlType; 48] = [
    SqlType::ANY, SqlType::ARRAY, SqlType::BIGINT, SqlType::BINARY, SqlType::BOOLEAN,
    SqlType::CHAR, SqlType::COLUMN_LIST, SqlType::CURSOR, SqlType::DATE, SqlType::DECIMAL,
    SqlType::DISTINCT, SqlType::DOUBLE, SqlType::DYNAMIC_STAR, SqlType::FLOAT,
    SqlType::GEOMETRY, SqlType::INTEGER, SqlType::INTERVAL, SqlType::INTERVAL_DAY,
    SqlType::INTERVAL_DAY_HOUR, SqlType::INTERVAL_DAY_MINUTE, SqlType::INTERVAL_DAY_SECOND,
    SqlType::INTERVAL_HOUR, SqlType::INTERVAL_HOUR_MINUTE, SqlType::INTERVAL_HOUR_SECOND,
    SqlType::INTERVAL_MINUTE, SqlType::INTERVAL_MINUTE_SECOND, SqlType::INTERVAL_MONTH,
    SqlType::INTERVAL_SECOND, SqlType::INTERVAL_YEAR, SqlType::INTERVAL_YEAR_MONTH,
    SqlType::MAP, SqlType::MULTISET, SqlType::NULL, SqlType::OTHER, SqlType::REAL,
    SqlType::ROW, SqlType::SARG, SqlType::SMALLINT, SqlType::STRUCTURED, SqlType::SYMBOL,
    SqlType::TIME, SqlType::TIME_WITH_LOCAL_TIME_ZONE, SqlType::TIMESTAMP,
    SqlType::TIMESTAMP_WITH_LOCAL_TIME_ZONE, SqlType::TINYINT, SqlType::UNKNOWN,
    SqlType::VARBINARY, SqlType::VARCHAR,
];

#[test]
fn boolean_maps_to_bool() {
    assert_eq!(
        DataTypeMap::map_from_arrow_type(&DataType::Boolean),
        Ok(record(DataType::Boolean, PythonType::Bool, SqlType::BOOLEAN))
    );
}

#[test]
fn sql_bigint_maps_to_int64() {
    assert_eq!(
        DataTypeMap::py_map_from_sql_type(&SqlType::BIGINT),
        Ok(record(DataType::Int64, PythonType::Int, SqlType::BIGINT))
    );
}

#[test]
fn sql_geometry_is_unsupported() {
    assert_eq!(
        DataTypeMap::py_map_from_sql_type(&SqlType::GEOMETRY),
        Err(MappingError::UnsupportedSqlType(SqlType::GEOMETRY))
    );
}

#[test]
fn year_month_interval_value_maps_to_interval() {
    assert_eq!(
        DataTypeMap::map_from_scalar_value(&ScalarValue::IntervalYearMonth(Some(5))),
        Ok(record(
            DataType::Interval(IntervalUnit::YearMonth),
            PythonType::Datetime,
            SqlType::INTERVAL_YEAR_MONTH
        ))
    );
}

#[test]
fn int32_value_maps_as_int32_type() {
    let from_value = DataTypeMap::map_from_scalar_value(&ScalarValue::Int32(Some(42)));
    assert_eq!(from_value, DataTypeMap::map_from_arrow_type(&DataType::Int32));
    assert_eq!(from_value, Ok(record(DataType::Int32, PythonType::Int, SqlType::INTEGER)));
}

#[test]
fn decimal_parameters_are_kept() {
    let r = DataTypeMap::map_from_arrow_type(&DataType::Decimal128(10, 2)).unwrap();
    assert_eq!(r, record(DataType::Decimal128(10, 2), PythonType::Float, SqlType::DECIMAL));
    let r = DataTypeMap::map_from_arrow_type(&DataType::Decimal256(76, -3)).unwrap();
    assert_eq!(r.arrow_type.data_type, DataType::Decimal256(76, -3));
    assert_eq!(r.sql_type, SqlType::DECIMAL);
}

#[test]
fn timestamp_parameters_are_kept() {
    let t = DataType::Timestamp(TimeUnit::Microsecond, Some("UTC".to_string()));
    assert_eq!(
        DataTypeMap::map_from_arrow_type(&t),
        Ok(record(t.clone(), PythonType::Datetime, SqlType::DATE))
    );
    let t = DataType::Timestamp(TimeUnit::Second, None);
    assert_eq!(DataTypeMap::map_from_arrow_type(&t).unwrap().arrow_type.data_type, t);
}

#[test]
fn temporal_types_map_to_date() {
    for t in [
        DataType::Date32,
        DataType::Date64,
        DataType::Time32(TimeUnit::Millisecond),
        DataType::Time64(TimeUnit::Nanosecond),
    ] {
        assert_eq!(
            DataTypeMap::map_from_arrow_type(&t),
            Ok(record(t.clone(), PythonType::Datetime, SqlType::DATE))
        );
    }
}

#[test]
fn interval_kinds_map_to_their_sql_types() {
    let cases = [
        (IntervalUnit::YearMonth, SqlType::INTERVAL_YEAR_MONTH),
        (IntervalUnit::DayTime, SqlType::INTERVAL_DAY),
        (IntervalUnit::MonthDayNano, SqlType::INTERVAL_MONTH),
    ];
    for (unit, sql) in cases {
        let r = DataTypeMap::map_from_arrow_type(&DataType::Interval(unit)).unwrap();
        assert_eq!(r, record(DataType::Interval(unit), PythonType::Datetime, sql));
    }
}

#[test]
fn leaf_types_map_as_in_the_table() {
    let cases = [
        (DataType::Null, PythonType::NoneType, SqlType::NULL),
        (DataType::Float16, PythonType::Float, SqlType::FLOAT),
        (DataType::Float32, PythonType::Float, SqlType::FLOAT),
        (DataType::Float64, PythonType::Float, SqlType::FLOAT),
        (DataType::Binary, PythonType::Bytes, SqlType::BINARY),
        (DataType::LargeBinary, PythonType::Bytes, SqlType::BINARY),
        (DataType::Utf8, PythonType::Str, SqlType::VARCHAR),
        (DataType::LargeUtf8, PythonType::Str, SqlType::VARCHAR),
    ];
    for (t, p, s) in cases {
        assert_eq!(DataTypeMap::map_from_arrow_type(&t), Ok(record(t.clone(), p, s)));
    }
}

#[test]
fn integer_widths_get_matching_sql_types() {
    let cases = [
        (DataType::Int8, SqlType::TINYINT),
        (DataType::UInt8, SqlType::TINYINT),
        (DataType::Int16, SqlType::SMALLINT),
        (DataType::UInt16, SqlType::SMALLINT),
        (DataType::Int32, SqlType::INTEGER),
        (DataType::UInt32, SqlType::INTEGER),
        (DataType::Int64, SqlType::BIGINT),
        (DataType::UInt64, SqlType::BIGINT),
    ];
    for (t, s) in cases {
        assert_eq!(DataTypeMap::map_from_arrow_type(&t), Ok(record(t.clone(), PythonType::Int, s)));
    }
}

#[test]
fn containers_are_unsupported() {
    let field = Arc::new(int_field("item"));
    let cases = [
        DataType::Duration(TimeUnit::Second),
        DataType::FixedSizeBinary(16),
        DataType::List(field.clone()),
        DataType::FixedSizeList(field.clone(), 3),
        DataType::LargeList(field.clone()),
        DataType::Struct(Arc::new(vec![int_field("a"), int_field("b")])),
        DataType::Union(Arc::new(vec![(0, int_field("a"))]), UnionMode::Dense),
        DataType::Dictionary(Box::new(DataType::Int32), Box::new(DataType::Utf8)),
        DataType::KeyValueMap(field.clone(), false),
        DataType::RunEndEncoded(Arc::new(int_field("ends")), field.clone()),
    ];
    for t in cases {
        assert_eq!(
            DataTypeMap::map_from_arrow_type(&t),
            Err(MappingError::UnsupportedArrowType(t.clone()))
        );
    }
}

#[test]
fn repeated_calls_agree() {
    let t = DataType::Timestamp(TimeUnit::Nanosecond, Some("Europe/Paris".to_string()));
    assert_eq!(DataTypeMap::map_from_arrow_type(&t), DataTypeMap::map_from_arrow_type(&t));
    let d = DataType::List(Arc::new(int_field("x")));
    assert_eq!(DataTypeMap::map_from_arrow_type(&d), DataTypeMap::map_from_arrow_type(&d));
    for s in ALL_SQL_TYPES {
        assert_eq!(DataTypeMap::py_map_from_sql_type(&s), DataTypeMap::py_map_from_sql_type(&s));
    }
}

#[test]
fn every_sql_type_has_an_outcome() {
    let mut supported = 0;
    for s in ALL_SQL_TYPES {
        match DataTypeMap::py_map_from_sql_type(&s) {
            Ok(m) => {
                assert_eq!(m.sql_type, s);
                supported += 1;
            }
            Err(e) => assert_eq!(e, MappingError::UnsupportedSqlType(s)),
        }
    }
    assert_eq!(supported, 14);
}

#[test]
fn sql_defaults_are_as_documented() {
    let cases = [
        (SqlType::BINARY, DataType::Binary, PythonType::Bytes),
        (SqlType::BOOLEAN, DataType::Boolean, PythonType::Bool),
        (SqlType::CHAR, DataType::UInt8, PythonType::Int),
        (SqlType::DATE, DataType::Date64, PythonType::Datetime),
        (SqlType::DECIMAL, DataType::Decimal128(1, 1), PythonType::Float),
        (SqlType::DOUBLE, DataType::Decimal256(1, 1), PythonType::Float),
        (SqlType::FLOAT, DataType::Decimal128(1, 1), PythonType::Float),
        (SqlType::INTEGER, DataType::Int8, PythonType::Int),
        (SqlType::NULL, DataType::Null, PythonType::NoneType),
        (SqlType::SMALLINT, DataType::Int16, PythonType::Int),
        (SqlType::TINYINT, DataType::Int8, PythonType::Int),
        (SqlType::VARBINARY, DataType::LargeBinary, PythonType::Bytes),
        (SqlType::VARCHAR, DataType::Utf8, PythonType::Str),
    ];
    for (s, t, p) in cases {
        assert_eq!(DataTypeMap::py_map_from_sql_type(&s), Ok(record(t, p, s)));
    }
}

#[test]
fn sql_types_without_counterpart_fail() {
    for s in [
        SqlType::ANY,
        SqlType::ARRAY,
        SqlType::INTERVAL_DAY,
        SqlType::INTERVAL_YEAR_MONTH,
        SqlType::REAL,
        SqlType::TIME,
        SqlType::TIMESTAMP,
        SqlType::TIMESTAMP_WITH_LOCAL_TIME_ZONE,
        SqlType::UNKNOWN,
        SqlType::DYNAMIC_STAR,
    ] {
        assert_eq!(DataTypeMap::py_map_from_sql_type(&s), Err(MappingError::UnsupportedSqlType(s)));
    }
}

#[test]
fn sql_integer_round_trip_is_not_identity() {
    let m = DataTypeMap::py_map_from_sql_type(&SqlType::INTEGER).unwrap();
    let back = DataTypeMap::map_from_arrow_type(&m.arrow_type.data_type).unwrap();
    assert_eq!(back.sql_type, SqlType::TINYINT);
}

#[test]
fn scalar_tags_give_their_types() {
    let zone = Some("UTC".to_string());
    let cases = [
        (ScalarValue::Null, DataType::Null),
        (ScalarValue::Boolean(Some(true)), DataType::Boolean),
        (ScalarValue::Float32(Some(0x3f80_0000)), DataType::Float32),
        (ScalarValue::Float64(None), DataType::Float64),
        (ScalarValue::Decimal128(Some(12345), 10, 2), DataType::Decimal128(10, 2)),
        (ScalarValue::UInt16(Some(7)), DataType::UInt16),
        (ScalarValue::Utf8(Some("a".to_string())), DataType::Utf8),
        (ScalarValue::LargeBinary(Some(vec![1, 2])), DataType::LargeBinary),
        (ScalarValue::Time32Second(Some(1)), DataType::Time32(TimeUnit::Second)),
        (ScalarValue::Time64Nanosecond(Some(1)), DataType::Time64(TimeUnit::Nanosecond)),
        (
            ScalarValue::TimestampMicrosecond(Some(1), zone.clone()),
            DataType::Timestamp(TimeUnit::Microsecond, zone.clone()),
        ),
        (
            ScalarValue::TimestampMillisecond(None, None),
            DataType::Timestamp(TimeUnit::Millisecond, None),
        ),
        (ScalarValue::IntervalDayTime(Some(3)), DataType::Interval(IntervalUnit::DayTime)),
        (
            ScalarValue::IntervalMonthDayNano(Some(3)),
            DataType::Interval(IntervalUnit::MonthDayNano),
        ),
        (ScalarValue::FixedSizeBinary(4, Some(vec![0, 1, 2, 3])), DataType::FixedSizeBinary(4)),
    ];
    for (v, t) in cases {
        assert_eq!(DataTypeMap::map_from_scalar_to_arrow(&v), Ok(t));
    }
}

#[test]
fn dictionary_value_type_is_inferred() {
    let v = ScalarValue::Dictionary(
        Box::new(DataType::Int8),
        Box::new(ScalarValue::Utf8(Some("x".to_string()))),
    );
    let t = DataType::Dictionary(Box::new(DataType::Int8), Box::new(DataType::Utf8));
    assert_eq!(DataTypeMap::map_from_scalar_to_arrow(&v), Ok(t.clone()));
    assert_eq!(
        DataTypeMap::map_from_scalar_value(&v),
        Err(MappingError::UnsupportedArrowType(t))
    );
}

#[test]
fn inferred_containers_fail_to_map() {
    let field = Arc::new(int_field("item"));
    let fields = Arc::new(vec![int_field("a")]);
    let cases = [
        (ScalarValue::List(None, field.clone()), DataType::List(field.clone())),
        (
            ScalarValue::Struct(Some(vec![ScalarValue::Int32(Some(1))]), fields.clone()),
            DataType::Struct(fields.clone()),
        ),
        (ScalarValue::FixedSizeBinary(2, None), DataType::FixedSizeBinary(2)),
    ];
    for (v, t) in cases {
        assert_eq!(DataTypeMap::map_from_scalar_to_arrow(&v), Ok(t.clone()));
        assert_eq!(
            DataTypeMap::map_from_scalar_value(&v),
            Err(MappingError::UnsupportedArrowType(t))
        );
    }
}

#[test]
fn py_new_keeps_its_parts() {
    let m = DataTypeMap::py_new(
        PyDataType { data_type: DataType::Utf8 },
        PythonType::Object,
        SqlType::OTHER,
    );
    assert_eq!(m, record(DataType::Utf8, PythonType::Object, SqlType::OTHER));
}

#[test]
fn py_map_from_arrow_type_maps_the_carried_type() {
    let t = PyDataType { data_type: DataType::UInt32 };
    assert_eq!(
        DataTypeMap::py_map_from_arrow_type(&t),
        Ok(record(DataType::UInt32, PythonType::Int, SqlType::INTEGER))
    );
    let d = PyDataType { data_type: DataType::Duration(TimeUnit::Millisecond) };
    assert_eq!(
        DataTypeMap::py_map_from_arrow_type(&d),
        Err(MappingError::UnsupportedArrowType(DataType::Duration(TimeUnit::Millisecond)))
    );
}

#[test]
fn data_type_wrapper_converts_both_ways() {
    let t = DataType::Decimal128(5, 1);
    let wrapped = PyDataType::from(t.clone());
    assert_eq!(wrapped, PyDataType { data_type: t.clone() });
    assert_eq!(DataType::from(wrapped), t);
}

#[test]
fn clone_keeps_nested_types() {
    let t = DataType::Dictionary(
        Box::new(DataType::Int16),
        Box::new(DataType::Timestamp(TimeUnit::Second, Some("UTC".to_string()))),
    );
    assert_eq!(t.clone(), t);
}
