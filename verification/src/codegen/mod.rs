//! Code generation: the decisions that lower the high-level representation
//! to LLVM IR, and the emitter that drives LLVM through inkwell.

pub mod format;
pub mod scope;
pub mod types;
pub mod ops;
pub mod names;
pub mod llvm;
pub mod emit;
pub mod gen;
pub mod tree;
