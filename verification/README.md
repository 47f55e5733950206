# langc

The middle and back end of the compiler of the Lang programming language,
written in Verus: the syntax tree and its dump, the typed intermediate
representation (HIR) and its text, the command logic (`env`, `init`,
`symbol`, `typelist`), and the LLVM code generator, built on inkwell
(LLVM 14).

Layout:

- `src/ast.rs`, `src/ast_dump.rs`: the syntax tree, its model, and the
  indented dump `lang ast` prints.
- `src/hir.rs`: the HIR and its text.
- `src/cmd/`: environment resolution, project files, the symbol table and
  the type list.
- `src/codegen/`: code generation. `llvm.rs` holds every call into inkwell,
  each with the contract it is trusted to meet; `emit.rs` the generator's
  state and declarations; `gen.rs` the HIR path; `tree.rs` the path that
  works on the syntax tree directly; `types.rs`, `names.rs`, `ops.rs`,
  `format.rs` and `scope.rs` the decisions code generation makes, as
  functions on plain values.
- `src/builtin.rs`: the `@` intrinsics.
- `app/`: the commands around the library (environment variables, files,
  the terminal).
- `tests/`: tests that run the library with inkwell linked.

Pointers are LLVM 14 typed pointers: a value of a pointer type is an `i8*`,
and element addresses are computed on 64-bit integers.
