//! The interface the generated code attaches to an annotated type: schema
//! accessors derived from the descriptor, and the two binding procedures
//! over a caller-supplied statement builder.

use vstd::prelude::*;

verus! {

/// Schema facts of an entity type, all derived from its schema descriptor.
/// Implemented by generated code, never by hand.
pub trait Schema {
    type Id;

    /// The table the type maps to.
    fn table_name() -> &'static str;

    /// The primary-key value of the given instance.
    fn id(&self) -> Self::Id;

    /// The column name of the primary key.
    fn id_column() -> &'static str;

    /// The column names, in declaration order.
    fn columns() -> &'static [&'static str];
}

/// The binding procedures the generated code attaches to an entity type:
/// each appends the instance's field values, in its bind order, to a
/// statement builder `B` that accepts positional parameters and returns
/// itself for chaining.
pub trait Binds<B>: Schema {
    /// Appends one value per column, in declaration order.
    fn insert_binds(&self, query: B) -> B;

    /// Appends every non-key value in declaration order, then the key value
    /// once more, last.
    fn update_binds(&self, query: B) -> B;
}

} // verus!
