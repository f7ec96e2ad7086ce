//! A minimal stack-based language: programs are flat sequences of
//! instructions whose structured control flow (`IF`/`ELSE`/`END`,
//! `WHILE`/`DO`/`END`) is linked into address-indexed jumps by the block
//! resolver, then either interpreted directly or translated to an
//! assembly text artifact. Both backends follow one shared stack-machine
//! semantics.

pub mod codegen;
pub mod decimal;
pub mod lexer;
pub mod machine;
pub mod parser;
pub mod operations;
pub mod stack;
pub mod resolver;
