//! A verified tree-walking interpreter for a small dynamically typed
//! scripting language in the Lox family.
//!
//! The pipeline has three stages: the scanner turns source characters into
//! tokens, the recursive-descent parser turns tokens into an abstract syntax
//! tree, and the evaluator reduces statements against a chain of lexically
//! nested scopes.  Each stage is specified by a mathematical model (a spec
//! lexer, a spec parser, and a big-step spec semantics) and the executable
//! code is proved to agree with its model.
//!
//! Numbers are IEEE binary64 values carried as their 64-bit patterns; the
//! arithmetic itself is delegated to `rustc_apfloat`, a software
//! implementation of IEEE 754, behind a small set of trusted wrappers.

pub mod token;
pub mod lexing;
pub mod scanner;
pub mod numerics;
pub mod ast;
pub mod parsing;
pub mod parser;
pub mod value;
pub mod environment;
pub mod semantics;
pub mod evaluator;
pub mod laws;
