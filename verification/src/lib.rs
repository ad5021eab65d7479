//! Compilation of WebAssembly function bodies into relocatable machine code,
//! and name-based resolution of imports among instances.

pub mod entity;
pub mod relocation;
pub mod compilation;
pub mod resolver;
pub mod namespace;
