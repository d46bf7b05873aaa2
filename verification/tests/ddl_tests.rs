use pyspark_arrow_rs::DdlError;
use pyspark_arrow_rs::Field;
use pyspark_arrow_rs::LogicalType;
use pyspark_arrow_rs::convert_field_to_compatible;
use pyspark_arrow_rs::field_to_spark;
use pyspark_arrow_rs::get_spark_ddl;
use pyspark_arrow_rs::type_to_spark;

fn field(name: &str, data_type: LogicalType) -> Field {
    Field { name: name.to_string(), data_type, nullable: false }
}

/// The schema that tracing a record of strings, integers, floats, a bool and
/// two vectors produces: text and sequences arrive as their "large" variants.
fn traced_flat_schema() -> Vec<Field> {
    vec![
        field("string_field", LogicalType::LargeUtf8),
        field("smallint_field", LogicalType::Int32),
        field("bigint_field", LogicalType::Int64),
        field("smallfloat_field", LogicalType::Float32),
        field("bigfloat_field", LogicalType::Float64),
        field("bool_field", LogicalType::Boolean),
        field(
            "string_vec",
            LogicalType::LargeList(Box::new(LogicalType::LargeUtf8)),
        ),
        field("int_vec", LogicalType::LargeList(Box::new(LogicalType::Int32))),
    ]
}

#[test]
fn test_spark_types() {
    let expected = "`string_field` STRING, `smallint_field` INT, `bigint_field` BIGINT, `smallfloat_field` FLOAT, `bigfloat_field` DOUBLE, `bool_field` BOOLEAN, `string_vec` ARRAY<STRING>, `int_vec` ARRAY<INT>".to_string();
    let ddl = get_spark_ddl(traced_flat_schema()).unwrap();
    println!("{}", ddl);
    let trunc = &ddl[..expected.len()];
    assert_eq!(expected, trunc);
}

#[test]
fn test_map_types() {
    let expected = "`string_field` STRING, `map_field` MAP<STRING,STRUCT<string_field: STRING, smallint_field: INT, bigint_field: BIGINT, smallfloat_field: FLOAT, bigfloat_field: DOUBLE, bool_field: BOOLEAN, string_vec: ARRAY<STRING>, int_vec: ARRAY<INT>>>".to_string();
    let fields = vec![
        field("string_field", LogicalType::LargeUtf8),
        field(
            "map_field",
            LogicalType::MapType(Box::new(LogicalType::Struct(vec![
                field("key", LogicalType::LargeUtf8),
                field("value", LogicalType::Struct(traced_flat_schema())),
            ]))),
        ),
    ];
    let ddl = get_spark_ddl(fields).unwrap();
    println!("{}", ddl);
    let trunc = &ddl[..expected.len()];
    assert_eq!(expected, trunc);
}

fn render(t: LogicalType) -> Result<String, DdlError> {
    type_to_spark(&t)
}

#[test]
fn scalar_mapping_table() {
    assert_eq!(render(LogicalType::Boolean).unwrap(), "BOOLEAN");
    assert_eq!(render(LogicalType::Int8).unwrap(), "INT");
    assert_eq!(render(LogicalType::Int16).unwrap(), "INT");
    assert_eq!(render(LogicalType::Int32).unwrap(), "INT");
    assert_eq!(render(LogicalType::UInt8).unwrap(), "INT");
    assert_eq!(render(LogicalType::UInt16).unwrap(), "INT");
    assert_eq!(render(LogicalType::UInt32).unwrap(), "INT");
    assert_eq!(render(LogicalType::Int64).unwrap(), "BIGINT");
    assert_eq!(render(LogicalType::UInt64).unwrap(), "BIGINT");
    assert_eq!(render(LogicalType::Float16).unwrap(), "FLOAT");
    assert_eq!(render(LogicalType::Float32).unwrap(), "FLOAT");
    assert_eq!(render(LogicalType::Float64).unwrap(), "DOUBLE");
    assert_eq!(render(LogicalType::Utf8).unwrap(), "STRING");
}

fn assert_unsupported(t: LogicalType, expected_name: &str) {
    match render(t) {
        Err(DdlError::UnsupportedType(name)) => assert_eq!(name, expected_name),
        other => panic!("expected an unsupported-type failure, got {:?}", other),
    }
}

#[test]
fn no_other_scalar_renders() {
    assert_unsupported(LogicalType::Null, "null");
    assert_unsupported(LogicalType::LargeUtf8, "large-text");
    assert_unsupported(LogicalType::LargeList(Box::new(LogicalType::Int32)), "large-list");
    assert_unsupported(LogicalType::Timestamp, "timestamp");
    assert_unsupported(LogicalType::Date32, "date32");
    assert_unsupported(LogicalType::Date64, "date64");
    assert_unsupported(LogicalType::Time32, "time32");
    assert_unsupported(LogicalType::Time64, "time64");
    assert_unsupported(LogicalType::Duration, "duration");
    assert_unsupported(LogicalType::Interval, "interval");
    assert_unsupported(LogicalType::Binary, "binary");
    assert_unsupported(LogicalType::FixedSizeBinary, "fixed-size-binary");
    assert_unsupported(LogicalType::LargeBinary, "large-binary");
    assert_unsupported(LogicalType::BinaryView, "binary-view");
    assert_unsupported(LogicalType::Utf8View, "utf8-view");
    assert_unsupported(LogicalType::ListView, "list-view");
    assert_unsupported(LogicalType::FixedSizeList, "fixed-size-list");
    assert_unsupported(LogicalType::LargeListView, "large-list-view");
    assert_unsupported(LogicalType::Union, "union");
    assert_unsupported(LogicalType::Dictionary, "dictionary");
    assert_unsupported(LogicalType::Decimal128, "decimal128");
    assert_unsupported(LogicalType::Decimal256, "decimal256");
    assert_unsupported(LogicalType::RunEndEncoded, "run-end-encoded");
}

#[test]
fn nested_list_recursion() {
    let t = LogicalType::List(Box::new(LogicalType::List(Box::new(LogicalType::Int32))));
    assert_eq!(render(t).unwrap(), "ARRAY<ARRAY<INT>>");
}

#[test]
fn nested_struct_recursion() {
    let t = LogicalType::Struct(vec![
        field("a", LogicalType::Int32),
        field("b", LogicalType::List(Box::new(LogicalType::Utf8))),
    ]);
    assert_eq!(render(t).unwrap(), "STRUCT<a: INT, b: ARRAY<STRING>>");
}

#[test]
fn map_round_trip() {
    let t = LogicalType::MapType(Box::new(LogicalType::Struct(vec![
        field("key", LogicalType::Utf8),
        field("value", LogicalType::Struct(vec![field("x", LogicalType::Int64)])),
    ])));
    assert_eq!(render(t).unwrap(), "MAP<STRING,STRUCT<x: BIGINT>>");
}

#[test]
fn normalization_rewrites_large_text() {
    let f = field("note", LogicalType::LargeUtf8);
    let normalized = convert_field_to_compatible(&f);
    assert_eq!(field_to_spark(&normalized).unwrap(), "STRING");
    // Un-normalized, the same field is a policy failure, not a coercion.
    match field_to_spark(&f) {
        Err(DdlError::UnsupportedType(name)) => assert_eq!(name, "large-text"),
        other => panic!("expected an unsupported-type failure, got {:?}", other),
    }
}

#[test]
fn normalization_recurses_into_containers() {
    let f = field(
        "deep",
        LogicalType::List(Box::new(LogicalType::Struct(vec![field(
            "inner",
            LogicalType::LargeList(Box::new(LogicalType::LargeUtf8)),
        )]))),
    );
    let normalized = convert_field_to_compatible(&f);
    assert_eq!(
        field_to_spark(&normalized).unwrap(),
        "ARRAY<STRUCT<inner: ARRAY<STRING>>>"
    );
}

#[test]
fn normalization_is_idempotent_on_values() {
    let f = field(
        "v",
        LogicalType::LargeList(Box::new(LogicalType::Struct(vec![field(
            "s",
            LogicalType::LargeUtf8,
        )]))),
    );
    let once = convert_field_to_compatible(&f);
    let twice = convert_field_to_compatible(&once);
    assert_eq!(format!("{:?}", once), format!("{:?}", twice));
}

#[test]
fn rendering_is_deterministic() {
    let t = LogicalType::Struct(vec![
        field("a", LogicalType::Int32),
        field("b", LogicalType::MapType(Box::new(LogicalType::Struct(vec![
            field("key", LogicalType::Utf8),
            field("value", LogicalType::Float64),
        ])))),
    ]);
    let first = render(t).unwrap();
    let t_again = LogicalType::Struct(vec![
        field("a", LogicalType::Int32),
        field("b", LogicalType::MapType(Box::new(LogicalType::Struct(vec![
            field("key", LogicalType::Utf8),
            field("value", LogicalType::Float64),
        ])))),
    ]);
    let second = render(t_again).unwrap();
    assert_eq!(first, second);
}

#[test]
fn end_to_end_example() {
    let fields = vec![
        field("name", LogicalType::Utf8),
        field("scores", LogicalType::List(Box::new(LogicalType::Int32))),
    ];
    assert_eq!(get_spark_ddl(fields).unwrap(), "`name` STRING, `scores` ARRAY<INT>");
}

#[test]
fn malformed_map_three_fields() {
    let t = LogicalType::MapType(Box::new(LogicalType::Struct(vec![
        field("key", LogicalType::Utf8),
        field("value", LogicalType::Int32),
        field("extra", LogicalType::Int32),
    ])));
    assert!(matches!(render(t), Err(DdlError::MalformedMapEncoding)));
}

#[test]
fn malformed_map_not_a_struct() {
    let t = LogicalType::MapType(Box::new(LogicalType::Int32));
    assert!(matches!(render(t), Err(DdlError::MalformedMapEncoding)));
}

#[test]
fn null_root_is_unrepresentable() {
    let fields = vec![field("nothing", LogicalType::Null)];
    assert!(matches!(
        get_spark_ddl(fields),
        Err(DdlError::UnrepresentableRootType)
    ));
}

#[test]
fn nested_null_is_unsupported() {
    let t = LogicalType::List(Box::new(LogicalType::Null));
    assert_unsupported(t, "null");
}

#[test]
fn empty_schema_renders_empty_fragment() {
    assert_eq!(get_spark_ddl(Vec::new()).unwrap(), "");
}

#[test]
fn empty_struct_renders_empty_members() {
    assert_eq!(render(LogicalType::Struct(Vec::new())).unwrap(), "STRUCT<>");
}

#[test]
fn first_error_wins_in_schema() {
    let fields = vec![
        field("ok_field", LogicalType::Utf8),
        field("bad_field", LogicalType::Timestamp),
        field("worse_field", LogicalType::Union),
    ];
    match get_spark_ddl(fields) {
        Err(DdlError::UnsupportedType(name)) => assert_eq!(name, "timestamp"),
        other => panic!("expected an unsupported-type failure, got {:?}", other),
    }
}

#[test]
fn map_key_error_precedes_value_error() {
    let t = LogicalType::MapType(Box::new(LogicalType::Struct(vec![
        field("key", LogicalType::Date32),
        field("value", LogicalType::Union),
    ])));
    assert_unsupported(t, "date32");
}

#[test]
fn whole_schema_fails_without_partial_ddl() {
    let fields = vec![
        field("good", LogicalType::Boolean),
        field("bad", LogicalType::Binary),
    ];
    assert!(get_spark_ddl(fields).is_err());
}
