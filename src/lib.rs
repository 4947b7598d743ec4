//! Code generation for an expression-oriented language that compiles to
//! JavaScript, by two emitters: one that writes JavaScript text, one that
//! builds a JavaScript syntax tree for a printer to render.
pub mod ast;
pub mod compiler;
pub mod laws;
pub mod structural;
pub mod target;
