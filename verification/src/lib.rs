//! Renaming invoices by their amount.
//!
//! The text of a document is searched for the amount of the invoice
//! (`pdf_service`), the amount gives the document a name (`naming_engine`),
//! the names of a batch are kept apart and kept clear of what the target
//! directory holds (`naming_engine`, `file_service`, `filename`), and a
//! rename is planned step by step so that it never overwrites
//! (`file_service`). `commands` puts these together for the command layer.
//!
//! The library reads no file and renames none: what was read, and how each
//! action went, comes in as plain values. Regular expressions are searched
//! by the `regex` crate (`pattern`) and paths are taken apart by
//! `std::path` (`path`); what they return is named, not specified.

pub mod amount;
pub mod commands;
pub mod config;
pub mod directory_utils;
pub mod error;
pub mod file_service;
pub mod filename;
pub mod naming_engine;
pub mod numeral;
pub mod path;
pub mod pattern;
pub mod pdf_service;
pub mod text;
pub mod types;
