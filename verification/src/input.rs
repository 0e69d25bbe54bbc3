//! The structured form of an annotated type declaration, as handed to the
//! resolver by the front end, and the errors that abort derivation.

use vstd::prelude::*;

verus! {

/// One struct member: its identifier, the text of its declared type, and
/// whether it carries the primary-key marker.
pub struct FieldDecl {
    pub name: String,
    pub ty: String,
    pub is_id: bool,
}

/// The type-level annotations, already parsed into structured form: the
/// database selector's value if one is present, and whether the type carries
/// the externally-assigned-identifier marker.
pub struct TypeAttrs {
    pub database: Option<String>,
    pub external_id: bool,
}

/// The shape of the annotated type. Only structs with named fields carry a
/// schema; anything else aborts derivation.
pub enum TypeData {
    NamedStruct { fields: Vec<FieldDecl> },
    Unsupported,
}

/// An annotated type declaration: its identifier, its annotations, and its
/// field declarations in declaration order.
pub struct TypeDecl {
    pub ident: String,
    pub attrs: TypeAttrs,
    pub data: TypeData,
}

/// Why derivation aborted. Every failure is unrecoverable: there is no
/// partial or degraded schema.
#[derive(Debug)]
pub enum MetaError {
    /// The annotated item is not a struct with named fields.
    NotNamedStruct,
    /// The struct declares no fields, so no column or key exists.
    NoFields,
    /// The database annotation names an unrecognized database type.
    UnknownDatabase(String),
}

/// The field identifiers as mathematical character sequences, in declaration
/// order.
pub open spec fn field_names(fields: Seq<FieldDecl>) -> Seq<Seq<char>> {
    fields.map_values(|f: FieldDecl| f.name@)
}

/// Field identifiers of one struct are pairwise distinct, as the language
/// guarantees of a struct's members.
pub open spec fn distinct_names(fields: Seq<FieldDecl>) -> bool {
    forall|i: int, j: int|
        0 <= i < j < fields.len() ==> fields[i].name@ != fields[j].name@
}

impl TypeDecl {
    /// A well-formed declaration: a field-record shape never declares two
    /// members under one identifier.
    pub open spec fn wf(&self) -> bool {
        match self.data {
            TypeData::NamedStruct { fields } => distinct_names(fields@),
            TypeData::Unsupported => true,
        }
    }
}

impl MetaError {
    /// The descriptive message a build abort reports.
    pub fn message(&self) -> (r: String)
        ensures
            match self {
                MetaError::NotNamedStruct => r@ == "this derive only works on structs with named fields"@,
                MetaError::NoFields => r@ == "the struct must declare at least one named field"@,
                MetaError::UnknownDatabase(name) => r@ == "unknown database type "@ + name@,
            },
    {
        match self {
            MetaError::NotNamedStruct => String::from_str(
                "this derive only works on structs with named fields",
            ),
            MetaError::NoFields => String::from_str(
                "the struct must declare at least one named field",
            ),
            MetaError::UnknownDatabase(name) => {
                let head = String::from_str("unknown database type ");
                head.concat(name.as_str())
            },
        }
    }
}

} // verus!
