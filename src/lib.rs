//! A directory lister: resolves entries, filters and orders them, and renders
//! each one as columns of optionally colored text.
pub mod arguments;
pub mod display;
pub mod entry;
pub mod help;
pub mod listing;
pub mod pipeline;
pub mod sort;
pub mod style;
pub mod text;
