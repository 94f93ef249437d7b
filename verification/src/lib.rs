//! A compiler for a sigil-based macro markup language: it expands a source
//! document into HTML, resolving numbered sections, boxes, definitions and
//! cross-references over two passes.
//!
//! The library itself performs no I/O: it is handed the input files as plain
//! values and returns the files to write, so a thin shell around it can read
//! and write the disk.
pub mod ast;
pub mod errors;
pub mod expand;
pub mod hsections;
pub mod laws;
pub mod params;
pub mod parse;
pub mod rope;
pub mod run;
pub mod setops;
pub mod state;
pub mod strmap;
pub mod tex;
pub mod text;
pub mod trace;
