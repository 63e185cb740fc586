//! Semantic validation of index-like declarations in a schema definition
//! language: given one parsed index, unique-constraint or full-text
//! declaration, the rules here decide whether it is legal against the enabled
//! preview features, the capability profile of the active connector, and the
//! names already taken in its namespace scope, and append precise diagnostics
//! to an accumulator when it is not.

pub mod bundling;
pub mod context;
pub mod diagnostics;
pub mod laws;
pub mod rules;
pub mod schema;
