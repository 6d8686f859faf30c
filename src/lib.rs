//! Recursive purge of files whose names match a query: filename
//! decomposition, matching rules, the decisions of a depth-first walk and
//! the confirmation step before each deletion.

pub mod name;
pub mod text;
pub mod matcher;
pub mod gate;
pub mod walk;
pub mod options;
