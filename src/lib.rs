//! A registry that ties together three type vocabularies of a query engine:
//! the columnar (Arrow) physical types, the SQL logical types, and the host
//! language's value types.

mod laws;
mod mapping;
mod types;

pub use laws::{
    classification_is_width_consistent, containers_are_rejected, from_physical_is_total,
    from_physical_keeps_parameters, from_sql_is_total, inferred_containers_are_rejected,
    mappings_are_deterministic, scalar_inference_composes,
};
pub use mapping::{arrow_classification, arrow_mapping, record, scalar_arrow_type, sql_defaults, sql_mapping};
pub use types::{
    DataType, DataTypeMap, Field, IntervalUnit, MappingError, PyDataType, PythonType, RexType,
    ScalarValue, SqlType, TimeUnit, UnionMode,
};
