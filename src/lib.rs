//! Line search over text: the lines of a text that hold a query, matched
//! exactly or with letter case folded, returned in order as slices of the
//! text.

pub mod config;
pub mod laws;
pub mod search;
pub mod text;
