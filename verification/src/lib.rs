//! Code generator that turns protocol buffer descriptors into Rust source text.
//!
//! The modules are layered: `text` holds character-level string operations,
//! `names` the naming rules for files, packages and scalar types, `writer` the
//! line buffer and the indenting writer, `model` the parsed view of messages
//! and fields, and `codegen` the templates that produce the generated source;
//! `braces` counts the braces of what the templates write.
pub mod text;
pub mod descriptor;
pub mod wire_format;
pub mod names;
pub mod model;
pub mod writer;
pub mod codegen;
pub mod braces;
pub mod laws;
