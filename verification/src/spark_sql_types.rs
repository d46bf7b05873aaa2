//! The destination dialect's type keywords.

use vstd::prelude::*;
use vstd::string::StringExecFns;

verus! {

/// One keyword of the destination dialect's type grammar.
#[derive(Debug, Clone, Copy, PartialEq, Eq, Structural)]
pub enum SparkSqlType {
    Boolean,
    String,
    Float,
    Double,
    Int,
    BigInt,
    Array,
    MapType,
    Struct,
}

impl SparkSqlType {
    /// The keyword's exact spelling.
    pub open spec fn spec_str(self) -> Seq<char> {
        match self {
            SparkSqlType::Boolean => "BOOLEAN"@,
            SparkSqlType::String => "STRING"@,
            SparkSqlType::Float => "FLOAT"@,
            SparkSqlType::Double => "DOUBLE"@,
            SparkSqlType::Int => "INT"@,
            SparkSqlType::BigInt => "BIGINT"@,
            SparkSqlType::Array => "ARRAY"@,
            SparkSqlType::MapType => "MAP"@,
            SparkSqlType::Struct => "STRUCT"@,
        }
    }

    /// Render the keyword.
    pub fn sql_str(&self) -> (r: String)
        ensures
            r@ == self.spec_str(),
    {
        match self {
            SparkSqlType::Boolean => String::from_str("BOOLEAN"),
            SparkSqlType::String => String::from_str("STRING"),
            SparkSqlType::Float => String::from_str("FLOAT"),
            SparkSqlType::Double => String::from_str("DOUBLE"),
            SparkSqlType::Int => String::from_str("INT"),
            SparkSqlType::BigInt => String::from_str("BIGINT"),
            SparkSqlType::Array => String::from_str("ARRAY"),
            SparkSqlType::MapType => String::from_str("MAP"),
            SparkSqlType::Struct => String::from_str("STRUCT"),
        }
    }
}

} // verus!
