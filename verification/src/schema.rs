//! The logical type tree of a columnar schema, and its mathematical model.
//!
//! A `LogicalType` describes the shape of one value slot: a scalar leaf, a
//! nested container (list, struct, map), or one of the catalogue entries that
//! the destination dialect cannot express yet.  A `Field` is a named,
//! possibly nullable slot; a schema is an ordered sequence of fields.
//!
//! Contracts speak of the ghost mirrors `TypeModel` and `FieldModel`, reached
//! through the `model` spec functions.

use vstd::prelude::*;

verus! {

/// Ghost model of a logical type tree.
pub enum TypeModel {
    Null,
    Boolean,
    Int8,
    Int16,
    Int32,
    Int64,
    UInt8,
    UInt16,
    UInt32,
    UInt64,
    Float16,
    Float32,
    Float64,
    Utf8,
    LargeUtf8,
    List(Box<TypeModel>),
    LargeList(Box<TypeModel>),
    Struct(Seq<FieldModel>),
    MapType(Box<TypeModel>),
    Timestamp,
    Date32,
    Date64,
    Time32,
    Time64,
    Duration,
    Interval,
    Binary,
    FixedSizeBinary,
    LargeBinary,
    BinaryView,
    Utf8View,
    ListView,
    FixedSizeList,
    LargeListView,
    Union,
    Dictionary,
    Decimal128,
    Decimal256,
    RunEndEncoded,
}

/// Ghost model of one named slot of a schema.
pub struct FieldModel {
    pub name: Seq<char>,
    pub data_type: TypeModel,
    pub nullable: bool,
}

/// The shape of one value slot of a columnar schema.
///
/// The variants fall into three families: scalar leaves (`Null` through
/// `LargeUtf8`), nested containers (`List`, `LargeList`, `Struct`, `Map`),
/// and leaves with no destination-dialect equivalent (`Timestamp` onwards),
/// which the renderer must recognize by name and reject explicitly.
///
/// A map is carried as its wire representation: a list wrapping one entry
/// type, which is well-formed exactly when it is a struct with two fields
/// (key and value).
#[derive(Debug)]
pub enum LogicalType {
    Null,
    Boolean,
    Int8,
    Int16,
    Int32,
    Int64,
    UInt8,
    UInt16,
    UInt32,
    UInt64,
    Float16,
    Float32,
    Float64,
    Utf8,
    LargeUtf8,
    List(Box<LogicalType>),
    LargeList(Box<LogicalType>),
    Struct(Vec<Field>),
    MapType(Box<LogicalType>),
    Timestamp,
    Date32,
    Date64,
    Time32,
    Time64,
    Duration,
    Interval,
    Binary,
    FixedSizeBinary,
    LargeBinary,
    BinaryView,
    Utf8View,
    ListView,
    FixedSizeList,
    LargeListView,
    Union,
    Dictionary,
    Decimal128,
    Decimal256,
    RunEndEncoded,
}

/// One named slot of a schema.  The name is used verbatim as the destination
/// column identifier; field order within a schema is significant and is
/// preserved end to end.
#[derive(Debug)]
pub struct Field {
    pub name: String,
    pub data_type: LogicalType,
    pub nullable: bool,
}

impl LogicalType {
    /// The ghost model of this type tree.
    pub open spec fn model(self) -> TypeModel
        decreases self, 0int,
    {
        match self {
            LogicalType::Null => TypeModel::Null,
            LogicalType::Boolean => TypeModel::Boolean,
            LogicalType::Int8 => TypeModel::Int8,
            LogicalType::Int16 => TypeModel::Int16,
            LogicalType::Int32 => TypeModel::Int32,
            LogicalType::Int64 => TypeModel::Int64,
            LogicalType::UInt8 => TypeModel::UInt8,
            LogicalType::UInt16 => TypeModel::UInt16,
            LogicalType::UInt32 => TypeModel::UInt32,
            LogicalType::UInt64 => TypeModel::UInt64,
            LogicalType::Float16 => TypeModel::Float16,
            LogicalType::Float32 => TypeModel::Float32,
            LogicalType::Float64 => TypeModel::Float64,
            LogicalType::Utf8 => TypeModel::Utf8,
            LogicalType::LargeUtf8 => TypeModel::LargeUtf8,
            LogicalType::List(e) => TypeModel::List(Box::new(e.model())),
            LogicalType::LargeList(e) => TypeModel::LargeList(Box::new(e.model())),
            LogicalType::Struct(fs) => TypeModel::Struct(models_of(fs@)),
            LogicalType::MapType(e) => TypeModel::MapType(Box::new(e.model())),
            LogicalType::Timestamp => TypeModel::Timestamp,
            LogicalType::Date32 => TypeModel::Date32,
            LogicalType::Date64 => TypeModel::Date64,
            LogicalType::Time32 => TypeModel::Time32,
            LogicalType::Time64 => TypeModel::Time64,
            LogicalType::Duration => TypeModel::Duration,
            LogicalType::Interval => TypeModel::Interval,
            LogicalType::Binary => TypeModel::Binary,
            LogicalType::FixedSizeBinary => TypeModel::FixedSizeBinary,
            LogicalType::LargeBinary => TypeModel::LargeBinary,
            LogicalType::BinaryView => TypeModel::BinaryView,
            LogicalType::Utf8View => TypeModel::Utf8View,
            LogicalType::ListView => TypeModel::ListView,
            LogicalType::FixedSizeList => TypeModel::FixedSizeList,
            LogicalType::LargeListView => TypeModel::LargeListView,
            LogicalType::Union => TypeModel::Union,
            LogicalType::Dictionary => TypeModel::Dictionary,
            LogicalType::Decimal128 => TypeModel::Decimal128,
            LogicalType::Decimal256 => TypeModel::Decimal256,
            LogicalType::RunEndEncoded => TypeModel::RunEndEncoded,
        }
    }
}

impl Field {
    /// The ghost model of this field.
    pub open spec fn model(self) -> FieldModel
        decreases self, 1int,
    {
        FieldModel {
            name: self.name@,
            data_type: self.data_type.model(),
            nullable: self.nullable,
        }
    }
}

/// The ghost models of an ordered sequence of fields, in order.
pub open spec fn models_of(fs: Seq<Field>) -> Seq<FieldModel>
    decreases fs, 2int,
{
    if fs.len() == 0 {
        Seq::empty()
    } else {
        models_of(fs.subrange(0, fs.len() - 1)).push(fs[fs.len() - 1].model())
    }
}

/// `models_of` maps `model` over the sequence pointwise.
pub proof fn lemma_models_of(fs: Seq<Field>)
    ensures
        models_of(fs).len() == fs.len(),
        forall|i: int| 0 <= i < fs.len() ==> models_of(fs)[i] == fs[i].model(),
    decreases fs.len(),
{
    if fs.len() > 0 {
        lemma_models_of(fs.subrange(0, fs.len() - 1));
        assert forall|i: int| 0 <= i < fs.len() implies models_of(fs)[i] == fs[i].model() by {
            if i < fs.len() - 1 {
                assert(fs.subrange(0, fs.len() - 1)[i] == fs[i]);
            }
        }
    }
}

/// Whether a type tree is normalized: no "large" text and no "large" list
/// variant remains anywhere in its transitive structure.
pub open spec fn is_normalized(t: TypeModel) -> bool
    decreases t, 0int,
{
    match t {
        TypeModel::LargeUtf8 => false,
        TypeModel::LargeList(_) => false,
        TypeModel::List(e) => is_normalized(*e),
        TypeModel::Struct(fs) => forall|i: int|
            0 <= i < fs.len() ==> is_normalized_field(#[trigger] fs[i]),
        TypeModel::MapType(e) => is_normalized(*e),
        _ => true,
    }
}

/// Whether a field's type tree is normalized.
pub open spec fn is_normalized_field(f: FieldModel) -> bool
    decreases f, 1int,
{
    is_normalized(f.data_type)
}

} // verus!
