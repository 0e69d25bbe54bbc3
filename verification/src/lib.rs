//! Build-time persistence metadata for annotated record types.
//!
//! Given a type's field declarations and a small set of annotations, this
//! library resolves a canonical schema descriptor (table name, primary-key
//! column, ordered column list) and the deterministic bind-order sequences
//! for parameterized insert and update statements.

pub mod config;
pub mod generate;
pub mod input;
pub mod naming;
pub mod schema;
pub mod traits;

pub use naming::table_case;
pub use naming::screaming_snake_case;
