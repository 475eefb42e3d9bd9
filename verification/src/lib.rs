//! Printer for the top-level items of a module: functions, structs, global
//! variables and constants, overrides, imports and type aliases.
//!
//! [`module_data`] holds the items and their records, [`db`] the database that
//! turns a type reference into text, and [`module_data::pretty`] the printer
//! itself, with the exact text of every item stated over character sequences.
//! [`module_data::shape`] proves what follows for every printed text.

pub mod db;
pub mod module_data;
pub mod text;
