//! Typed edits of a figure: the property paths that address what an edit changes,
//! the registry of settable properties, and the errors of edits.

pub mod choice;
pub mod effect;
pub mod error;
pub mod path;
pub mod registry;
pub mod structure;
pub mod transaction;
pub mod tree;
pub mod value;
pub mod walk;

pub use error::{as_index, error_counts, introduced_errors, EditError};
pub use path::{PathError, PropertyPath};
pub use registry::{properties, NodeKind, Property};
pub use value::ValueType;
