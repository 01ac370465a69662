//! Introspection of the dispatch table behind a type-erased reference.
//!
//! A reference to a value that is known only by an interface is two words
//! wide: a pointer to the value, and a pointer to a table that holds the
//! value's destructor, its size, its alignment and one code pointer for each
//! method of the interface. This crate describes such a table.
//!
//! * [`table`] holds the table as plain values, [`VTable`];
//! * [`symbol`] looks a code address up in the symbols of the running
//!   program;
//! * [`report`] holds the record of a table whose addresses were looked up,
//!   and turns it into text;
//! * [`text`] writes numbers and quoted strings.
//!
//! Nothing here reads a table out of memory or calls through one: addresses
//! are numbers from beginning to end.

pub mod report;
pub mod symbol;
pub mod table;
pub mod text;

pub use report::{FunctionPtr, Style, VTableReport};
pub use symbol::SymbolInfo;
pub use table::{Dyn, VTable};
