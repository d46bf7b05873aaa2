//! The recursive DDL-rendering engine and the schema orchestration.
//!
//! The renderer walks a logical type tree and emits the exact
//! destination-dialect type string, or fails with a typed error: every
//! catalogue entry with no destination equivalent is recognized by name and
//! rejected as `UnsupportedType`, and a map-shaped value that does not wrap a
//! struct with exactly two fields is rejected as `MalformedMapEncoding`.
//! Rendering is a pure function of the type tree; the first error encountered
//! propagates upward unchanged.
//!
//! The orchestration turns an ordered sequence of fields into one
//! comma-separated column-list fragment: each field is normalized, its type
//! rendered, and its name wrapped in backtick quotes (the name is used
//! verbatim; no escaping is performed).

use vstd::prelude::*;
use vstd::string::StringExecFns;

use crate::errors::DdlError;
use crate::errors::ErrorModel;
use crate::normalize::convert_type_to_compatible;
use crate::normalize::norm_type;
use crate::schema::Field;
use crate::schema::FieldModel;
use crate::schema::LogicalType;
use crate::schema::TypeModel;
use crate::schema::lemma_models_of;
use crate::schema::models_of;
use crate::spark_sql_types::SparkSqlType;

verus! {

/// The destination-dialect type string of a type tree, or the first error
/// met while walking it.
pub open spec fn spec_render_type(t: TypeModel) -> Result<Seq<char>, ErrorModel>
    decreases t, 0int,
{
    match t {
        TypeModel::Null => Err(ErrorModel::UnsupportedType("null"@)),
        TypeModel::Boolean => Ok(SparkSqlType::Boolean.spec_str()),
        TypeModel::Int8 => Ok(SparkSqlType::Int.spec_str()),
        TypeModel::Int16 => Ok(SparkSqlType::Int.spec_str()),
        TypeModel::Int32 => Ok(SparkSqlType::Int.spec_str()),
        TypeModel::Int64 => Ok(SparkSqlType::BigInt.spec_str()),
        TypeModel::UInt8 => Ok(SparkSqlType::Int.spec_str()),
        TypeModel::UInt16 => Ok(SparkSqlType::Int.spec_str()),
        TypeModel::UInt32 => Ok(SparkSqlType::Int.spec_str()),
        TypeModel::UInt64 => Ok(SparkSqlType::BigInt.spec_str()),
        TypeModel::Float16 => Ok(SparkSqlType::Float.spec_str()),
        TypeModel::Float32 => Ok(SparkSqlType::Float.spec_str()),
        TypeModel::Float64 => Ok(SparkSqlType::Double.spec_str()),
        TypeModel::Utf8 => Ok(SparkSqlType::String.spec_str()),
        TypeModel::LargeUtf8 => Err(ErrorModel::UnsupportedType("large-text"@)),
        TypeModel::List(e) => match spec_render_type(*e) {
            Ok(inner) => Ok(SparkSqlType::Array.spec_str() + "<"@ + inner + ">"@),
            Err(err) => Err(err),
        },
        TypeModel::LargeList(_) => Err(ErrorModel::UnsupportedType("large-list"@)),
        TypeModel::Struct(fs) => match spec_render_members(fs) {
            Ok(inner) => Ok(SparkSqlType::Struct.spec_str() + "<"@ + inner + ">"@),
            Err(err) => Err(err),
        },
        TypeModel::MapType(entry) => match *entry {
            TypeModel::Struct(kv) => if kv.len() == 2 {
                match spec_render_type(kv[0].data_type) {
                    Err(err) => Err(err),
                    Ok(k) => match spec_render_type(kv[1].data_type) {
                        Err(err) => Err(err),
                        Ok(v) => Ok(
                            SparkSqlType::MapType.spec_str() + "<"@ + k + ","@ + v + ">"@,
                        ),
                    },
                }
            } else {
                Err(ErrorModel::MalformedMapEncoding)
            },
            _ => Err(ErrorModel::MalformedMapEncoding),
        },
        TypeModel::Timestamp => Err(ErrorModel::UnsupportedType("timestamp"@)),
        TypeModel::Date32 => Err(ErrorModel::UnsupportedType("date32"@)),
        TypeModel::Date64 => Err(ErrorModel::UnsupportedType("date64"@)),
        TypeModel::Time32 => Err(ErrorModel::UnsupportedType("time32"@)),
        TypeModel::Time64 => Err(ErrorModel::UnsupportedType("time64"@)),
        TypeModel::Duration => Err(ErrorModel::UnsupportedType("duration"@)),
        TypeModel::Interval => Err(ErrorModel::UnsupportedType("interval"@)),
        TypeModel::Binary => Err(ErrorModel::UnsupportedType("binary"@)),
        TypeModel::FixedSizeBinary => Err(ErrorModel::UnsupportedType("fixed-size-binary"@)),
        TypeModel::LargeBinary => Err(ErrorModel::UnsupportedType("large-binary"@)),
        TypeModel::BinaryView => Err(ErrorModel::UnsupportedType("binary-view"@)),
        TypeModel::Utf8View => Err(ErrorModel::UnsupportedType("utf8-view"@)),
        TypeModel::ListView => Err(ErrorModel::UnsupportedType("list-view"@)),
        TypeModel::FixedSizeList => Err(ErrorModel::UnsupportedType("fixed-size-list"@)),
        TypeModel::LargeListView => Err(ErrorModel::UnsupportedType("large-list-view"@)),
        TypeModel::Union => Err(ErrorModel::UnsupportedType("union"@)),
        TypeModel::Dictionary => Err(ErrorModel::UnsupportedType("dictionary"@)),
        TypeModel::Decimal128 => Err(ErrorModel::UnsupportedType("decimal128"@)),
        TypeModel::Decimal256 => Err(ErrorModel::UnsupportedType("decimal256"@)),
        TypeModel::RunEndEncoded => Err(ErrorModel::UnsupportedType("run-end-encoded"@)),
    }
}

/// One struct member, rendered as `name: type`.
pub open spec fn spec_render_member(f: FieldModel) -> Result<Seq<char>, ErrorModel>
    decreases f, 1int,
{
    match spec_render_type(f.data_type) {
        Ok(ty) => Ok(f.name + ": "@ + ty),
        Err(err) => Err(err),
    }
}

/// The members of a struct, rendered in order and joined with `", "`; the
/// first error from the left propagates.
pub open spec fn spec_render_members(fs: Seq<FieldModel>) -> Result<Seq<char>, ErrorModel>
    decreases fs, 2int,
{
    if fs.len() == 0 {
        Ok(Seq::empty())
    } else {
        match spec_render_member(fs[0]) {
            Err(err) => Err(err),
            Ok(first) => match spec_render_members(fs.subrange(1, fs.len() as int)) {
                Err(err) => Err(err),
                Ok(rest) => Ok(
                    if fs.len() == 1 {
                        first
                    } else {
                        first + ", "@ + rest
                    },
                ),
            },
        }
    }
}

/// How an executable rendering result realizes a ghost one: same success or
/// failure, and the same characters or the same error.
pub open spec fn render_matches(
    r: Result<String, DdlError>,
    m: Result<Seq<char>, ErrorModel>,
) -> bool {
    match r {
        Ok(s) => m == Ok::<Seq<char>, ErrorModel>(s@),
        Err(e) => m == Err::<Seq<char>, ErrorModel>(e.model()),
    }
}

/// Law: rendering is deterministic — it is a function of the logical type
/// tree alone, so any two results that realize it on the same tree are
/// byte-identical strings, or the same error.
pub proof fn lemma_render_deterministic(
    t: TypeModel,
    r1: Result<Seq<char>, ErrorModel>,
    r2: Result<Seq<char>, ErrorModel>,
)
    requires
        r1 == spec_render_type(t),
        r2 == spec_render_type(t),
    ensures
        r1 == r2,
{
}

/// Law: no catalogue entry outside the supported scalars and containers ever
/// renders successfully — the null leaf, both "large" variants and every
/// currently-unsupported leaf fail by name instead of degrading to some
/// destination type.
pub proof fn lemma_unsupported_catalogue(t: TypeModel)
    requires
        !(t matches TypeModel::Boolean || t matches TypeModel::Int8 || t matches TypeModel::Int16
            || t matches TypeModel::Int32 || t matches TypeModel::Int64
            || t matches TypeModel::UInt8 || t matches TypeModel::UInt16
            || t matches TypeModel::UInt32 || t matches TypeModel::UInt64
            || t matches TypeModel::Float16 || t matches TypeModel::Float32
            || t matches TypeModel::Float64 || t matches TypeModel::Utf8
            || t matches TypeModel::List(_) || t matches TypeModel::Struct(_)
            || t matches TypeModel::MapType(_)),
    ensures
        spec_render_type(t) matches Err(e) && (e matches ErrorModel::UnsupportedType(_)),
{
}

/// Render one logical type tree to its destination-dialect type string.
pub fn type_to_spark(t: &LogicalType) -> (r: Result<String, DdlError>)
    ensures
        render_matches(r, spec_render_type(t.model())),
    decreases t, 0int,
{
    match t {
        LogicalType::Null => Err(DdlError::UnsupportedType(String::from_str("null"))),
        LogicalType::Boolean => Ok(SparkSqlType::Boolean.sql_str()),
        LogicalType::Int8 => Ok(SparkSqlType::Int.sql_str()),
        LogicalType::Int16 => Ok(SparkSqlType::Int.sql_str()),
        LogicalType::Int32 => Ok(SparkSqlType::Int.sql_str()),
        LogicalType::Int64 => Ok(SparkSqlType::BigInt.sql_str()),
        LogicalType::UInt8 => Ok(SparkSqlType::Int.sql_str()),
        LogicalType::UInt16 => Ok(SparkSqlType::Int.sql_str()),
        LogicalType::UInt32 => Ok(SparkSqlType::Int.sql_str()),
        LogicalType::UInt64 => Ok(SparkSqlType::BigInt.sql_str()),
        LogicalType::Float16 => Ok(SparkSqlType::Float.sql_str()),
        LogicalType::Float32 => Ok(SparkSqlType::Float.sql_str()),
        LogicalType::Float64 => Ok(SparkSqlType::Double.sql_str()),
        LogicalType::Utf8 => Ok(SparkSqlType::String.sql_str()),
        LogicalType::LargeUtf8 => Err(DdlError::UnsupportedType(String::from_str("large-text"))),
        LogicalType::List(e) => match type_to_spark(&**e) {
            Ok(inner) => {
                let mut s = SparkSqlType::Array.sql_str();
                s.append("<");
                s.append(inner.as_str());
                s.append(">");
                Ok(s)
            },
            Err(err) => {
                proof {
                    assert(spec_render_type(t.model()) == Err::<Seq<char>, ErrorModel>(
                        err.model(),
                    ));
                }
                Err(err)
            },
        },
        LogicalType::LargeList(_) => Err(
            DdlError::UnsupportedType(String::from_str("large-list")),
        ),
        LogicalType::Struct(fs) => match struct_members_to_spark(fs, 0) {
            Ok(inner) => {
                proof {
                    lemma_models_of(fs@);
                    assert(models_of(fs@).subrange(0, models_of(fs@).len() as int) =~= models_of(
                        fs@,
                    ));
                }
                let mut s = SparkSqlType::Struct.sql_str();
                s.append("<");
                s.append(inner.as_str());
                s.append(">");
                Ok(s)
            },
            Err(err) => {
                proof {
                    lemma_models_of(fs@);
                    assert(models_of(fs@).subrange(0, models_of(fs@).len() as int) =~= models_of(
                        fs@,
                    ));
                }
                Err(err)
            },
        },
        LogicalType::MapType(e) => match &**e {
            LogicalType::Struct(kv) => {
                proof {
                    lemma_models_of(kv@);
                }
                if kv.len() == 2 {
                    proof {
                        assert(models_of(kv@)[0] == kv@[0].model());
                        assert(models_of(kv@)[1] == kv@[1].model());
                    }
                    match type_to_spark(&kv[0].data_type) {
                        Err(err) => {
                            proof {
                                assert((**e).model() == TypeModel::Struct(models_of(kv@)));
                                assert(spec_render_type(t.model()) == Err::<Seq<char>, ErrorModel>(
                                    err.model(),
                                ));
                            }
                            Err(err)
                        },
                        Ok(k) => match type_to_spark(&kv[1].data_type) {
                            Err(err) => {
                                proof {
                                    assert((**e).model() == TypeModel::Struct(models_of(kv@)));
                                    assert(spec_render_type(t.model()) == Err::<
                                        Seq<char>,
                                        ErrorModel,
                                    >(err.model()));
                                }
                                Err(err)
                            },
                            Ok(v) => {
                                let mut s = SparkSqlType::MapType.sql_str();
                                s.append("<");
                                s.append(k.as_str());
                                s.append(",");
                                s.append(v.as_str());
                                s.append(">");
                                Ok(s)
                            },
                        },
                    }
                } else {
                    Err(DdlError::MalformedMapEncoding)
                }
            },
            _ => Err(DdlError::MalformedMapEncoding),
        },
        LogicalType::Timestamp => Err(DdlError::UnsupportedType(String::from_str("timestamp"))),
        LogicalType::Date32 => Err(DdlError::UnsupportedType(String::from_str("date32"))),
        LogicalType::Date64 => Err(DdlError::UnsupportedType(String::from_str("date64"))),
        LogicalType::Time32 => Err(DdlError::UnsupportedType(String::from_str("time32"))),
        LogicalType::Time64 => Err(DdlError::UnsupportedType(String::from_str("time64"))),
        LogicalType::Duration => Err(DdlError::UnsupportedType(String::from_str("duration"))),
        LogicalType::Interval => Err(DdlError::UnsupportedType(String::from_str("interval"))),
        LogicalType::Binary => Err(DdlError::UnsupportedType(String::from_str("binary"))),
        LogicalType::FixedSizeBinary => Err(
            DdlError::UnsupportedType(String::from_str("fixed-size-binary")),
        ),
        LogicalType::LargeBinary => Err(
            DdlError::UnsupportedType(String::from_str("large-binary")),
        ),
        LogicalType::BinaryView => Err(DdlError::UnsupportedType(String::from_str("binary-view"))),
        LogicalType::Utf8View => Err(DdlError::UnsupportedType(String::from_str("utf8-view"))),
        LogicalType::ListView => Err(DdlError::UnsupportedType(String::from_str("list-view"))),
        LogicalType::FixedSizeList => Err(
            DdlError::UnsupportedType(String::from_str("fixed-size-list")),
        ),
        LogicalType::LargeListView => Err(
            DdlError::UnsupportedType(String::from_str("large-list-view")),
        ),
        LogicalType::Union => Err(DdlError::UnsupportedType(String::from_str("union"))),
        LogicalType::Dictionary => Err(DdlError::UnsupportedType(String::from_str("dictionary"))),
        LogicalType::Decimal128 => Err(DdlError::UnsupportedType(String::from_str("decimal128"))),
        LogicalType::Decimal256 => Err(DdlError::UnsupportedType(String::from_str("decimal256"))),
        LogicalType::RunEndEncoded => Err(
            DdlError::UnsupportedType(String::from_str("run-end-encoded")),
        ),
    }
}

/// Render the members of a struct from `start` on, joined with `", "`.
fn struct_members_to_spark(fields: &Vec<Field>, start: usize) -> (r: Result<String, DdlError>)
    requires
        start <= fields@.len(),
    ensures
        render_matches(
            r,
            spec_render_members(
                models_of(fields@).subrange(start as int, models_of(fields@).len() as int),
            ),
        ),
    decreases fields, fields@.len() - start,
{
    proof {
        lemma_models_of(fields@);
    }
    if start == fields.len() {
        Ok(String::new())
    } else {
        let ghost m = models_of(fields@).subrange(start as int, models_of(fields@).len() as int);
        let f = &fields[start];
        proof {
            assert(m[0] == fields@[start as int].model());
        }
        match type_to_spark(&f.data_type) {
            Err(err) => {
                proof {
                    assert(spec_render_member(m[0]) == Err::<Seq<char>, ErrorModel>(err.model()));
                    assert(spec_render_members(m) == Err::<Seq<char>, ErrorModel>(err.model()));
                }
                Err(err)
            },
            Ok(ty) => {
                let mut s = f.name.clone();
                s.append(": ");
                s.append(ty.as_str());
                proof {
                    assert(spec_render_member(m[0]) == Ok::<Seq<char>, ErrorModel>(s@));
                }
                match struct_members_to_spark(fields, start + 1) {
                    Err(err) => {
                        proof {
                            assert(m.subrange(1, m.len() as int) =~= models_of(fields@).subrange(
                                start as int + 1,
                                models_of(fields@).len() as int,
                            ));
                        }
                        Err(err)
                    },
                    Ok(rest) => {
                        proof {
                            assert(m.subrange(1, m.len() as int) =~= models_of(fields@).subrange(
                                start as int + 1,
                                models_of(fields@).len() as int,
                            ));
                        }
                        if start + 1 == fields.len() {
                            Ok(s)
                        } else {
                            s.append(", ");
                            s.append(rest.as_str());
                            Ok(s)
                        }
                    },
                }
            },
        }
    }
}

/// Render one field's logical type to its destination-dialect type string.
pub fn field_to_spark(field: &Field) -> (r: Result<String, DdlError>)
    ensures
        render_matches(r, spec_render_type(field.model().data_type)),
{
    type_to_spark(&field.data_type)
}

/// The DDL entry of one field: the field is normalized and rendered, and its
/// name is wrapped in backtick quotes.  A field whose own type is null has no
/// destination column type at all and is rejected before rendering.
pub open spec fn spec_field_ddl(f: FieldModel) -> Result<Seq<char>, ErrorModel> {
    if (f.data_type matches TypeModel::Null) {
        Err(ErrorModel::UnrepresentableRootType)
    } else {
        match spec_render_type(norm_type(f.data_type)) {
            Ok(ty) => Ok("`"@ + f.name + "` "@ + ty),
            Err(err) => Err(err),
        }
    }
}

/// The DDL fragment of an ordered sequence of fields: the fields' entries in
/// order, joined with `", "`; the first error from the left propagates.
pub open spec fn spec_ddl(fs: Seq<FieldModel>) -> Result<Seq<char>, ErrorModel>
    decreases fs,
{
    if fs.len() == 0 {
        Ok(Seq::empty())
    } else {
        match spec_field_ddl(fs[0]) {
            Err(err) => Err(err),
            Ok(first) => match spec_ddl(fs.subrange(1, fs.len() as int)) {
                Err(err) => Err(err),
                Ok(rest) => Ok(
                    if fs.len() == 1 {
                        first
                    } else {
                        first + ", "@ + rest
                    },
                ),
            },
        }
    }
}

/// Build the DDL fragment of the fields from `start` on.
fn ddl_from(fields: &Vec<Field>, start: usize) -> (r: Result<String, DdlError>)
    requires
        start <= fields@.len(),
    ensures
        render_matches(
            r,
            spec_ddl(models_of(fields@).subrange(start as int, models_of(fields@).len() as int)),
        ),
    decreases fields@.len() - start,
{
    proof {
        lemma_models_of(fields@);
    }
    if start == fields.len() {
        Ok(String::new())
    } else {
        let ghost m = models_of(fields@).subrange(start as int, models_of(fields@).len() as int);
        let f = &fields[start];
        proof {
            assert(m[0] == fields@[start as int].model());
        }
        match &f.data_type {
            LogicalType::Null => {
                proof {
                    assert(spec_field_ddl(m[0]) == Err::<Seq<char>, ErrorModel>(
                        ErrorModel::UnrepresentableRootType,
                    ));
                    assert(spec_ddl(m) == Err::<Seq<char>, ErrorModel>(
                        ErrorModel::UnrepresentableRootType,
                    ));
                }
                Err(DdlError::UnrepresentableRootType)
            },
            _ => {
                let normalized = convert_type_to_compatible(&f.data_type);
                match type_to_spark(&normalized) {
                    Err(err) => {
                        proof {
                            assert(spec_field_ddl(m[0]) == Err::<Seq<char>, ErrorModel>(
                                err.model(),
                            ));
                            assert(spec_ddl(m) == Err::<Seq<char>, ErrorModel>(err.model()));
                        }
                        Err(err)
                    },
                    Ok(ty) => {
                        let mut s = String::from_str("`");
                        s.append(f.name.as_str());
                        s.append("` ");
                        s.append(ty.as_str());
                        proof {
                            assert(spec_field_ddl(m[0]) == Ok::<Seq<char>, ErrorModel>(s@));
                        }
                        match ddl_from(fields, start + 1) {
                            Err(err) => {
                                proof {
                                    assert(m.subrange(1, m.len() as int) =~= models_of(
                                        fields@,
                                    ).subrange(start as int + 1, models_of(fields@).len() as int));
                                }
                                Err(err)
                            },
                            Ok(rest) => {
                                proof {
                                    assert(m.subrange(1, m.len() as int) =~= models_of(
                                        fields@,
                                    ).subrange(start as int + 1, models_of(fields@).len() as int));
                                }
                                if start + 1 == fields.len() {
                                    Ok(s)
                                } else {
                                    s.append(", ");
                                    s.append(rest.as_str());
                                    Ok(s)
                                }
                            },
                        }
                    },
                }
            },
        }
    }
}

/// Turn an ordered sequence of fields into one destination-dialect
/// column-list fragment: each field is normalized, rendered and
/// backtick-quoted, and the entries are joined with `", "`.  If any field
/// fails, the whole operation fails with that field's error and no partial
/// fragment is returned.
pub fn get_spark_ddl(fields: Vec<Field>) -> (r: Result<String, DdlError>)
    ensures
        render_matches(r, spec_ddl(models_of(fields@))),
{
    let r = ddl_from(&fields, 0);
    proof {
        assert(models_of(fields@).subrange(0, models_of(fields@).len() as int) =~= models_of(
            fields@,
        ));
    }
    r
}

} // verus!
