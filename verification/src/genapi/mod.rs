//! The generator of the typed API: from the editor's description of its
//! functions to the methods of the handle types.

pub mod error;
pub mod function;
pub mod generate;
pub mod names;
pub mod types;
