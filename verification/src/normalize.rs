//! The schema normalization pass.
//!
//! Normalization eliminates the two logical-type variants that have an exact
//! portable substitute in the destination dialect: "large" text becomes
//! standard text and "large" list becomes a standard list.  It recurses into
//! every container so that, afterwards, no "large" variant remains anywhere
//! in a field's transitive structure; every other variant — the scalars and
//! the explicitly unsupported catalogue — is left unchanged.  Names,
//! nullability and field order are preserved, and normalization is total:
//! it never fails.

use vstd::prelude::*;

use crate::schema::Field;
use crate::schema::FieldModel;
use crate::schema::LogicalType;
use crate::schema::TypeModel;
use crate::schema::is_normalized;
use crate::schema::is_normalized_field;
use crate::schema::lemma_models_of;
use crate::schema::models_of;

verus! {

/// The normalization of a type tree.
pub open spec fn norm_type(t: TypeModel) -> TypeModel
    decreases t, 0int,
{
    match t {
        TypeModel::LargeUtf8 => TypeModel::Utf8,
        TypeModel::List(e) => TypeModel::List(Box::new(norm_type(*e))),
        TypeModel::LargeList(e) => TypeModel::List(Box::new(norm_type(*e))),
        TypeModel::Struct(fs) => TypeModel::Struct(norm_fields(fs)),
        TypeModel::MapType(e) => TypeModel::MapType(Box::new(norm_type(*e))),
        _ => t,
    }
}

/// The normalization of a field: its type tree is normalized; its name and
/// nullability are untouched.
pub open spec fn norm_field(f: FieldModel) -> FieldModel
    decreases f, 1int,
{
    FieldModel { name: f.name, data_type: norm_type(f.data_type), nullable: f.nullable }
}

/// The normalization of an ordered sequence of fields, in order.
pub open spec fn norm_fields(fs: Seq<FieldModel>) -> Seq<FieldModel>
    decreases fs, 2int,
{
    if fs.len() == 0 {
        Seq::empty()
    } else {
        norm_fields(fs.subrange(0, fs.len() - 1)).push(norm_field(fs[fs.len() - 1]))
    }
}

/// `norm_fields` maps `norm_field` over the sequence pointwise.
pub proof fn lemma_norm_fields(fs: Seq<FieldModel>)
    ensures
        norm_fields(fs).len() == fs.len(),
        forall|i: int| 0 <= i < fs.len() ==> norm_fields(fs)[i] == norm_field(fs[i]),
    decreases fs.len(),
{
    if fs.len() > 0 {
        lemma_norm_fields(fs.subrange(0, fs.len() - 1));
        assert forall|i: int| 0 <= i < fs.len() implies norm_fields(fs)[i] == norm_field(
            fs[i],
        ) by {
            if i < fs.len() - 1 {
                assert(fs.subrange(0, fs.len() - 1)[i] == fs[i]);
            }
        }
    }
}

/// Law: normalization establishes the portability invariant — after it, no
/// "large" text and no "large" list variant remains anywhere in the tree.
pub proof fn lemma_norm_normalized(t: TypeModel)
    ensures
        is_normalized(norm_type(t)),
    decreases t,
{
    match t {
        TypeModel::List(e) => {
            lemma_norm_normalized(*e);
        },
        TypeModel::LargeList(e) => {
            lemma_norm_normalized(*e);
        },
        TypeModel::MapType(e) => {
            lemma_norm_normalized(*e);
        },
        TypeModel::Struct(fs) => {
            lemma_norm_fields(fs);
            assert forall|i: int| 0 <= i < norm_fields(fs).len() implies is_normalized_field(
                #[trigger] norm_fields(fs)[i],
            ) by {
                lemma_norm_normalized(fs[i].data_type);
            }
        },
        _ => {},
    }
}

/// Law: normalizing an already-normalized type returns it identically.
pub proof fn lemma_normalized_fixed(t: TypeModel)
    requires
        is_normalized(t),
    ensures
        norm_type(t) == t,
    decreases t,
{
    match t {
        TypeModel::List(e) => {
            lemma_normalized_fixed(*e);
        },
        TypeModel::MapType(e) => {
            lemma_normalized_fixed(*e);
        },
        TypeModel::Struct(fs) => {
            lemma_norm_fields(fs);
            assert forall|i: int| 0 <= i < fs.len() implies norm_fields(fs)[i] == fs[i] by {
                assert(is_normalized_field(fs[i]));
                lemma_normalized_fixed(fs[i].data_type);
            }
            assert(norm_fields(fs) =~= fs);
        },
        _ => {},
    }
}

/// Law: normalization is idempotent.
pub proof fn lemma_norm_idempotent(t: TypeModel)
    ensures
        norm_type(norm_type(t)) == norm_type(t),
{
    lemma_norm_normalized(t);
    lemma_normalized_fixed(norm_type(t));
}

/// Law: normalizing an already-normalized schema returns an identical
/// schema, and a second normalization of any schema changes nothing.
pub proof fn lemma_norm_fields_idempotent(fs: Seq<FieldModel>)
    ensures
        (forall|i: int| 0 <= i < fs.len() ==> is_normalized_field(#[trigger] fs[i]))
            ==> norm_fields(fs) == fs,
        norm_fields(norm_fields(fs)) == norm_fields(fs),
{
    lemma_norm_fields(fs);
    lemma_norm_fields(norm_fields(fs));
    if forall|i: int| 0 <= i < fs.len() ==> is_normalized_field(#[trigger] fs[i]) {
        assert forall|i: int| 0 <= i < fs.len() implies norm_fields(fs)[i] == fs[i] by {
            assert(is_normalized_field(fs[i]));
            lemma_normalized_fixed(fs[i].data_type);
        }
        assert(norm_fields(fs) =~= fs);
    }
    assert forall|i: int| 0 <= i < fs.len() implies norm_fields(norm_fields(fs))[i]
        == norm_fields(fs)[i] by {
        lemma_norm_idempotent(fs[i].data_type);
    }
    assert(norm_fields(norm_fields(fs)) =~= norm_fields(fs));
}

/// Rewrite a type tree so that no non-portable variant remains: "large" text
/// becomes standard text and "large" list becomes a standard list, recursing
/// into lists, structs and maps; everything else is rebuilt unchanged.
pub fn convert_type_to_compatible(t: &LogicalType) -> (r: LogicalType)
    ensures
        r.model() == norm_type(t.model()),
    decreases t, 0int,
{
    match t {
        LogicalType::Null => LogicalType::Null,
        LogicalType::Boolean => LogicalType::Boolean,
        LogicalType::Int8 => LogicalType::Int8,
        LogicalType::Int16 => LogicalType::Int16,
        LogicalType::Int32 => LogicalType::Int32,
        LogicalType::Int64 => LogicalType::Int64,
        LogicalType::UInt8 => LogicalType::UInt8,
        LogicalType::UInt16 => LogicalType::UInt16,
        LogicalType::UInt32 => LogicalType::UInt32,
        LogicalType::UInt64 => LogicalType::UInt64,
        LogicalType::Float16 => LogicalType::Float16,
        LogicalType::Float32 => LogicalType::Float32,
        LogicalType::Float64 => LogicalType::Float64,
        LogicalType::Utf8 => LogicalType::Utf8,
        LogicalType::LargeUtf8 => LogicalType::Utf8,
        LogicalType::List(e) => LogicalType::List(Box::new(convert_type_to_compatible(&**e))),
        LogicalType::LargeList(e) => LogicalType::List(Box::new(convert_type_to_compatible(&**e))),
        LogicalType::Struct(fs) => LogicalType::Struct(convert_fields_to_compatible(fs)),
        LogicalType::MapType(e) => LogicalType::MapType(Box::new(convert_type_to_compatible(&**e))),
        LogicalType::Timestamp => LogicalType::Timestamp,
        LogicalType::Date32 => LogicalType::Date32,
        LogicalType::Date64 => LogicalType::Date64,
        LogicalType::Time32 => LogicalType::Time32,
        LogicalType::Time64 => LogicalType::Time64,
        LogicalType::Duration => LogicalType::Duration,
        LogicalType::Interval => LogicalType::Interval,
        LogicalType::Binary => LogicalType::Binary,
        LogicalType::FixedSizeBinary => LogicalType::FixedSizeBinary,
        LogicalType::LargeBinary => LogicalType::LargeBinary,
        LogicalType::BinaryView => LogicalType::BinaryView,
        LogicalType::Utf8View => LogicalType::Utf8View,
        LogicalType::ListView => LogicalType::ListView,
        LogicalType::FixedSizeList => LogicalType::FixedSizeList,
        LogicalType::LargeListView => LogicalType::LargeListView,
        LogicalType::Union => LogicalType::Union,
        LogicalType::Dictionary => LogicalType::Dictionary,
        LogicalType::Decimal128 => LogicalType::Decimal128,
        LogicalType::Decimal256 => LogicalType::Decimal256,
        LogicalType::RunEndEncoded => LogicalType::RunEndEncoded,
    }
}

/// Rewrite a field so that its type tree is normalized; its name and
/// nullability are kept as they are.
pub fn convert_field_to_compatible(f: &Field) -> (r: Field)
    ensures
        r.model() == norm_field(f.model()),
    decreases f, 1int,
{
    Field {
        name: f.name.clone(),
        data_type: convert_type_to_compatible(&f.data_type),
        nullable: f.nullable,
    }
}

/// Rewrite every field of an ordered sequence, preserving the order.
pub fn convert_fields_to_compatible(fs: &Vec<Field>) -> (r: Vec<Field>)
    ensures
        models_of(r@) == norm_fields(models_of(fs@)),
    decreases fs, 2int,
{
    let mut out: Vec<Field> = Vec::new();
    let mut i: usize = 0;
    while i < fs.len()
        invariant
            i <= fs.len(),
            out@.len() == i,
            forall|j: int| 0 <= j < i ==> (#[trigger] out@[j]).model() == norm_field(
                fs@[j].model(),
            ),
        decreases fs.len() - i,
    {
        let nf = convert_field_to_compatible(&fs[i]);
        out.push(nf);
        i += 1;
    }
    proof {
        lemma_models_of(fs@);
        lemma_models_of(out@);
        lemma_norm_fields(models_of(fs@));
        assert(models_of(out@) =~= norm_fields(models_of(fs@)));
    }
    out
}

} // verus!
