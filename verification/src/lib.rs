pub mod errors;
pub mod normalize;
pub mod schema;
pub mod render;
pub mod spark_sql_types;

pub use crate::errors::DdlError;
pub use crate::normalize::convert_field_to_compatible;
pub use crate::normalize::convert_fields_to_compatible;
pub use crate::normalize::convert_type_to_compatible;
pub use crate::render::field_to_spark;
pub use crate::render::get_spark_ddl;
pub use crate::render::type_to_spark;
pub use crate::schema::Field;
pub use crate::schema::LogicalType;
pub use crate::spark_sql_types::SparkSqlType;
