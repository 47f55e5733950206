use vstd::prelude::*;

pub mod ast;
pub mod text;
pub mod seqs;
pub mod hir;
pub mod cmd;
pub mod debug;
pub mod ast_dump;
pub mod codegen;
pub mod builtin;

verus! {

} // verus!
