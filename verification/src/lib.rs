//! A small embeddable WebAssembly runtime: a decoder for the binary module
//! format and a stack machine that runs the decoded program against a linear
//! memory.  Every executable function carries a contract over a mathematical
//! model of the data it handles.

pub mod exec;
pub mod parse;
