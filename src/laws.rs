use crate::mapping::{arrow_mapping, scalar_arrow_type, sql_mapping};
use crate::types::{DataType, MappingError, PythonType, ScalarValue, SqlType};
use vstd::prelude::*;

verus! {

/// Mapping a physical type ends in a record or in the error that names that
/// very type; no physical type is left without an outcome.
pub proof fn from_physical_is_total(t: DataType)
    ensures
        arrow_mapping(t) is Ok || arrow_mapping(t) == Err::<crate::types::DataTypeMap, MappingError>(
            MappingError::UnsupportedArrowType(t),
        ),
{
}

/// Mapping a SQL type ends in a record that carries that SQL type or in the
/// error that names it; no SQL type is left without an outcome.
pub proof fn from_sql_is_total(s: SqlType)
    ensures
        match sql_mapping(s) {
            Ok(m) => m.sql_type == s,
            Err(e) => e == MappingError::UnsupportedSqlType(s),
        },
{
}

/// Equal inputs give equal outcomes, for each of the three mappings.
pub proof fn mappings_are_deterministic(
    t1: DataType,
    t2: DataType,
    s1: SqlType,
    s2: SqlType,
    v1: ScalarValue,
    v2: ScalarValue,
)
    requires
        t1 == t2,
        s1 == s2,
        v1 == v2,
    ensures
        arrow_mapping(t1) == arrow_mapping(t2),
        sql_mapping(s1) == sql_mapping(s2),
        arrow_mapping(scalar_arrow_type(v1)) == arrow_mapping(scalar_arrow_type(v2)),
{
}

/// A physical type that maps is kept whole in the record, with its
/// parameters (unit, time zone, precision, scale) unchanged.
pub proof fn from_physical_keeps_parameters(t: DataType)
    requires
        arrow_mapping(t) is Ok,
    ensures
        arrow_mapping(t)->Ok_0.arrow_type.data_type == t,
{
}

/// Every physical type classified as a host integer gets the SQL integer
/// type of its bit width, signed or not.
pub proof fn classification_is_width_consistent(t: DataType)
    requires
        arrow_mapping(t) is Ok,
        arrow_mapping(t)->Ok_0.python_type == PythonType::Int,
    ensures
        ({
            let sql = arrow_mapping(t)->Ok_0.sql_type;
            ||| (t is Int8 || t is UInt8) && sql == SqlType::TINYINT
            ||| (t is Int16 || t is UInt16) && sql == SqlType::SMALLINT
            ||| (t is Int32 || t is UInt32) && sql == SqlType::INTEGER
            ||| (t is Int64 || t is UInt64) && sql == SqlType::BIGINT
        }),
{
}

/// A 32-bit integer value, whatever its payload, maps as its physical type does.
pub proof fn scalar_inference_composes(payload: Option<i32>)
    ensures
        arrow_mapping(scalar_arrow_type(ScalarValue::Int32(payload))) == arrow_mapping(
            DataType::Int32,
        ),
{
}

/// Durations, fixed-size binaries and every nested or encoded container are
/// rejected with the error that names them.
pub proof fn containers_are_rejected(t: DataType)
    requires
        t is Duration || t is FixedSizeBinary || t is List || t is FixedSizeList || t is LargeList
            || t is Struct || t is Union || t is Dictionary || t is KeyValueMap || t is RunEndEncoded,
    ensures
        arrow_mapping(t) == Err::<crate::types::DataTypeMap, MappingError>(
            MappingError::UnsupportedArrowType(t),
        ),
{
}

/// Inference succeeds on list, struct, fixed-size binary and dictionary
/// values, and the mapping of the inferred type then fails, naming it.
pub proof fn inferred_containers_are_rejected(v: ScalarValue)
    requires
        v is List || v is Struct || v is FixedSizeBinary || v is Dictionary,
    ensures
        arrow_mapping(scalar_arrow_type(v)) == Err::<crate::types::DataTypeMap, MappingError>(
            MappingError::UnsupportedArrowType(scalar_arrow_type(v)),
        ),
{
}

} // verus!
