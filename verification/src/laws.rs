//! What is proved of the library as a whole: laws that relate several of its
//! operations.

pub mod header;
pub mod scalars;
pub mod table;
pub mod text;
