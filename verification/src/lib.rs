//! Turns tabular schema sheets into generated source text.
//!
//! A job names a worksheet, three header columns (field name, field type,
//! remark) and an output location. The library binds the declared header
//! names to column positions, walks the data rows, skips sentinel rows,
//! reformats multi-line remarks for doc comments, assembles one
//! (name, type, remark) triple per surviving row, and renders the triples
//! into one field declaration each. Reading workbooks and writing files is
//! left to the surrounding program.

pub mod headers;
pub mod job;
pub mod pipeline;
pub mod render;
pub mod rows;
