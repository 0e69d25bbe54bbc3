//! The schema metadata of an annotated type: the owned descriptor the
//! resolver computes, and the borrowed form that generated code bakes into
//! the program as one static value per type.

use vstd::prelude::*;

verus! {

/// The schema metadata as generated code embeds it: borrowed strings and a
/// column array whose length is fixed at generation time.
pub struct Metadata<'s, const C: usize> {
    pub table_name: &'s str,
    pub id_column: &'s str,
    pub columns: [&'s str; C],
}

impl<'s, const C: usize> Metadata<'s, C> {
    /// The column names as mathematical character sequences.
    pub open spec fn columns_view(&self) -> Seq<Seq<char>> {
        Seq::new(C as nat, |i: int| self.columns@[i]@)
    }

    /// The metadata's invariant: the primary-key column is one of the
    /// columns.
    pub open spec fn wf(&self) -> bool {
        exists|i: int|
            0 <= i < self.columns_view().len() && self.columns_view()[i] == self.id_column@
    }
}

/// The computed schema descriptor of one annotated type: its table name, its
/// primary-key column, and its column names in declaration order.
pub struct Descriptor {
    pub table_name: String,
    pub id_column: String,
    pub columns: Vec<String>,
}

impl Descriptor {
    /// The column names as mathematical character sequences.
    pub open spec fn columns_view(&self) -> Seq<Seq<char>> {
        self.columns.deep_view()
    }

    /// The descriptor's invariant: the primary-key column is one of the
    /// columns.
    pub open spec fn wf(&self) -> bool {
        exists|i: int|
            0 <= i < self.columns_view().len() && self.columns_view()[i] == self.id_column@
    }
}

} // verus!
