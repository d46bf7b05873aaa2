//! The error taxonomy of DDL rendering.

use vstd::prelude::*;

verus! {

/// Ghost model of a rendering error.
pub enum ErrorModel {
    UnsupportedType(Seq<char>),
    MalformedMapEncoding,
    UnrepresentableRootType,
}

/// Why a schema, or one of its fields, could not be rendered.
///
/// `UnsupportedType` carries the name of a catalogue variant with no
/// destination-dialect equivalent; it is a permanent classification of the
/// type, not a transient failure.  `MalformedMapEncoding` reports a map-shaped
/// value that does not wrap a struct with exactly two fields, which indicates
/// an upstream contract violation.  `UnrepresentableRootType` reports a field
/// whose own type is null: no destination column can be null-typed at the top
/// level.
#[derive(Debug)]
pub enum DdlError {
    UnsupportedType(String),
    MalformedMapEncoding,
    UnrepresentableRootType,
}

impl DdlError {
    /// The ghost model of this error.
    pub open spec fn model(self) -> ErrorModel {
        match self {
            DdlError::UnsupportedType(name) => ErrorModel::UnsupportedType(name@),
            DdlError::MalformedMapEncoding => ErrorModel::MalformedMapEncoding,
            DdlError::UnrepresentableRootType => ErrorModel::UnrepresentableRootType,
        }
    }
}

} // verus!
