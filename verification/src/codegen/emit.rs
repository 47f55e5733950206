//! The code generator: the state kept while a module is generated, the LLVM
//! types of language types, and the declarations of functions, structs and
//! enums.

use vstd::prelude::*;
use inkwell::basic_block::BasicBlock;
use inkwell::builder::Builder;
use inkwell::context::Context;
use inkwell::module::Module;
use inkwell::types::{BasicTypeEnum, FunctionType};
use inkwell::values::{BasicValueEnum, FunctionValue, PointerValue};
use crate::ast::{EnumDef, ExternalFnDef, FnDef, Program, StructDef, Type, TypeV, Visibility};
use crate::codegen::llvm::{self as ll, LlvmError};
use crate::codegen::names::{import_namespace, last_component, mangle_name, mangled, method_name, method_symbol, namespace_of_import, package_module};
use crate::codegen::scope::{DeferStack, LoopTargets};
use crate::codegen::types::{LType, LTypeV, all_buildable, buildable, ltypes_view, lang_ltype, ltype_clone, ltype_of, names_view};
use crate::hir::{HirFn, HirStmt};
use crate::text::{owned, push_str, push_string, str_eq};
use crate::seqs::last_position;

verus! {

/// An LLVM value together with the type the library gave it.
pub struct Val<'ctx> {
    pub raw: BasicValueEnum<'ctx>,
    pub ty: LType,
}

/// A local variable: its stack slot, its language type, and whether it is
/// a constant.
pub struct Variable<'ctx> {
    pub name: String,
    pub ptr: PointerValue<'ctx>,
    pub ty: Type,
    pub is_const: bool,
}

/// A function the generator declared: its symbol, its parameter count, and
/// the LLVM type of its result (none for a void function).
pub struct FnSig {
    pub symbol: String,
    pub param_count: usize,
    pub ret: Option<LType>,
}

/// A struct the generator declared: its name, its field names and the LLVM
/// types of its fields.
pub struct StructLayout {
    pub name: String,
    pub fields: Vec<String>,
    pub types: Vec<LType>,
}

/// The result of a step of code generation; errors are messages.
pub type CodegenResult<T> = Result<T, String>;

/// The generator of one LLVM module.
pub struct CodeGenerator<'ctx> {
    pub context: &'ctx Context,
    pub module: Module<'ctx>,
    pub builder: ll::IrBuilder<'ctx>,
    /// The module name, the prefix of mangled symbols.
    pub module_name: String,
    /// The function being generated.
    pub current_function: Option<FunctionValue<'ctx>>,
    /// The return type of the function being generated.
    pub return_type: Option<Type>,
    /// The variables in scope, the most recent last.
    pub variables: Vec<Variable<'ctx>>,
    /// The functions declared so far.
    pub functions: Vec<FnSig>,
    /// The structs declared so far.
    pub structs: Vec<StructLayout>,
    /// The variants of each enum, in order.
    pub enum_variants: Vec<(String, Vec<String>)>,
    /// Imported packages: namespace and package path.
    pub imported_packages: Vec<(String, String)>,
    /// The loaded packages of the standard library, by path.
    pub packages: Vec<(String, Program)>,
    /// The names the syntax-tree generator saw declared `const`; they stay
    /// constant until a function of the high-level representation begins.
    pub const_names: Vec<String>,
    /// Deferred statements per scope.
    pub defer_stack: DeferStack<HirStmt>,
    /// Statements deferred until an error, per scope.
    pub defer_bang_stack: DeferStack<HirStmt>,
    /// Where `break` jumps, per enclosing loop.
    pub loop_end_blocks: LoopTargets<BasicBlock<'ctx>>,
    /// Where `continue` jumps, per enclosing loop.
    pub loop_continue_blocks: LoopTargets<BasicBlock<'ctx>>,
}

/// The models of a list of types.
pub open spec fn type_views(ts: Seq<Type>) -> Seq<TypeV> {
    ts.map_values(|t: Type| t@)
}

/// Whether a signature's LLVM type can be built without looking up a
/// named struct: every parameter's type and the result's are
/// [`buildable`] (a function without a result has none to build).
pub open spec fn signature_buildable(params: Seq<TypeV>, ret: TypeV, is_main: bool, known: Seq<Seq<char>>) -> bool {
    &&& forall|i: int| 0 <= i < params.len() ==> #[trigger] buildable(ltype_of(params[i], known))
    &&& match return_ltype(ret, is_main, known) {
        Some(t) => buildable(t),
        None => true,
    }
}

/// Whether declaring a struct needs no named struct looked up: its fields'
/// types are [`buildable`] among the structs known before it, and so are
/// its methods' signatures among those and itself.
pub open spec fn struct_buildable(def: StructDef, known: Seq<Seq<char>>) -> bool {
    layout_buildable(def, def.name@, known)
}

/// [`struct_buildable`] for a struct declared under the given name.
pub open spec fn layout_buildable(def: StructDef, name: Seq<char>, known: Seq<Seq<char>>) -> bool {
    &&& forall|i: int| 0 <= i < def.fields@.len() ==> #[trigger] buildable(ltype_of(def.fields@[i].ty@, known))
    &&& forall|q: int| 0 <= q < def.methods@.len() ==> #[trigger] signature_buildable(
        param_views(def.methods@[q].params@),
        def.methods@[q].return_ty@,
        false,
        known.push(name),
    )
}

/// Whether none of the imports names a package that was loaded.
pub open spec fn none_loaded(imports: Seq<(Option<String>, String)>, packages: Seq<(String, Program)>) -> bool {
    forall|i: int, k: int| 0 <= i < imports.len() && 0 <= k < packages.len() ==> #[trigger] packages[k].0@
        != #[trigger] imports[i].1@
}

/// The message for a value or type of an unexpected kind.
pub open spec fn kind_error_text() -> Seq<char> {
    "LLVM value or type of an unexpected kind"@
}

/// The message of an inkwell failure: the builder's own text, or the
/// unexpected-kind message.
pub fn llvm_error_text(e: LlvmError) -> (r: String)
    ensures
        e is Kind ==> r@ == kind_error_text(),
{
    match e {
        LlvmError::Builder(b) => ll::builder_error_text(&b),
        LlvmError::Kind => owned("LLVM value or type of an unexpected kind"),
    }
}

/// The model of the variables in scope: name and type of each.
pub open spec fn vars_view<'ctx>(v: Seq<Variable<'ctx>>) -> Seq<(Seq<char>, TypeV)> {
    v.map_values(|x: Variable<'ctx>| (x.name@, x.ty@))
}

/// The instructions built between the states `a` and `b`.
pub open spec fn emitted_since<'ctx>(a: CodeGenerator<'ctx>, b: CodeGenerator<'ctx>) -> Seq<ll::IrInstr> {
    b.builder.emitted@.subrange(a.builder.emitted@.len() as int, b.builder.emitted@.len() as int)
}

/// Whether the last instructions built are `t`, in order.
pub open spec fn ends_with<'ctx>(g: CodeGenerator<'ctx>, t: Seq<ll::IrInstr>) -> bool {
    &&& t.len() <= g.builder.emitted@.len()
    &&& g.builder.emitted@.subrange(g.builder.emitted@.len() - t.len(), g.builder.emitted@.len() as int) == t
}

/// Whether the instruction `x` was built between the states `a` and `b`.
pub open spec fn built_since<'ctx>(a: CodeGenerator<'ctx>, b: CodeGenerator<'ctx>, x: ll::IrInstr) -> bool {
    exists|k: int| a.builder.emitted@.len() <= k < b.builder.emitted@.len() && #[trigger] b.builder.emitted@[k] == x
}

/// What was built after `s` when `x` is built next.
pub proof fn lemma_since_push(s: Seq<ll::IrInstr>, x: ll::IrInstr)
    ensures
        s.push(x).subrange(s.len() as int, s.len() + 1 as int) == seq![x],
{
    assert(s.push(x).subrange(s.len() as int, s.len() + 1 as int) =~= seq![x]);
}

/// Whether the record of requests at `b` begins with the record at `a`, and
/// a builder given a block at `a` still has one at `b`.
pub open spec fn emitted_grows<'ctx>(a: CodeGenerator<'ctx>, b: CodeGenerator<'ctx>) -> bool {
    &&& a.builder.positioned@ ==> b.builder.positioned@
    &&& a.builder.emitted@.len() <= b.builder.emitted@.len()
    &&& forall|i: int| 0 <= i < a.builder.emitted@.len() ==> #[trigger] b.builder.emitted@[i] == a.builder.emitted@[i]
}

/// Whether `b` is `a` with nothing changed but the builder's record of the
/// instructions it has built.
pub open spec fn only_emitted<'ctx>(a: CodeGenerator<'ctx>, b: CodeGenerator<'ctx>) -> bool {
    b == CodeGenerator {
        builder: ll::IrBuilder { raw: a.builder.raw, emitted: b.builder.emitted, positioned: a.builder.positioned },
        ..a
    }
}

/// The position of the most recent variable with a name, or -1.
pub open spec fn var_index(vars: Seq<(Seq<char>, TypeV)>, name: Seq<char>) -> int
    decreases vars.len(),
{
    if vars.len() == 0 {
        -1
    } else if vars.last().0 == name {
        vars.len() - 1
    } else {
        var_index(vars.drop_last(), name)
    }
}

/// The variables that stay in scope when a name goes out of scope: all
/// the others, in their order.
pub open spec fn without_name(vars: Seq<(Seq<char>, TypeV)>, name: Seq<char>) -> Seq<(Seq<char>, TypeV)>
    decreases vars.len(),
{
    if vars.len() == 0 {
        vars
    } else {
        let rest = without_name(vars.drop_last(), name);
        if vars.last().0 == name { rest } else { rest.push(vars.last()) }
    }
}

proof fn lemma_var_index_bound(vars: Seq<(Seq<char>, TypeV)>, name: Seq<char>)
    ensures
        -1 <= var_index(vars, name) < vars.len(),
        var_index(vars, name) >= 0 ==> vars[var_index(vars, name)].0 == name,
    decreases vars.len(),
{
    if vars.len() > 0 {
        lemma_var_index_bound(vars.drop_last(), name);
    }
}

/// Taking a name out of scope unbinds it and leaves every other name as
/// it was: afterwards the name finds no variable, and another name finds
/// a variable exactly when it did before, with the same name and type.
pub proof fn law_out_of_scope(vars: Seq<(Seq<char>, TypeV)>, n: Seq<char>, m: Seq<char>)
    ensures
        var_index(without_name(vars, n), n) == -1,
        m != n ==> (var_index(without_name(vars, n), m) == -1 <==> var_index(vars, m) == -1),
        m != n && var_index(vars, m) >= 0 ==> without_name(vars, n)[var_index(without_name(vars, n), m)]
            == vars[var_index(vars, m)],
    decreases vars.len(),
{
    if vars.len() > 0 {
        let init = vars.drop_last();
        let last = vars.last();
        let w = without_name(init, n);
        law_out_of_scope(init, n, m);
        lemma_var_index_bound(w, m);
        lemma_var_index_bound(init, m);
        if last.0 != n {
            assert(w.push(last).drop_last() =~= w);
            assert(w.push(last).last() == last);
            if var_index(w, m) >= 0 {
                assert(w.push(last)[var_index(w, m)] == w[var_index(w, m)]);
            }
        }
        if var_index(init, m) >= 0 {
            assert(vars[var_index(init, m)] == init[var_index(init, m)]);
        }
    }
}

/// The namespace-to-package pairs of the imports recorded so far.
pub open spec fn package_pairs(v: Seq<(String, String)>) -> Seq<(Seq<char>, Seq<char>)> {
    v.map_values(|p: (String, String)| (p.0@, p.1@))
}

/// The namespaces of namespace-to-package pairs.
pub open spec fn pair_firsts(v: Seq<(Seq<char>, Seq<char>)>) -> Seq<Seq<char>> {
    v.map_values(|p: (Seq<char>, Seq<char>)| p.0)
}

/// The package a namespace names: that of its latest recorded import.
pub open spec fn package_lookup(pairs: Seq<(Seq<char>, Seq<char>)>, ns: Seq<char>) -> Option<Seq<char>> {
    let j = last_position(pair_firsts(pairs), ns);
    if j < 0 { None } else { Some(pairs[j].1) }
}

/// The namespace-to-package pairs an import list records, in order: the
/// alias, or else the last component of the package path, with the package.
pub open spec fn import_pairs(imports: Seq<(Option<String>, String)>) -> Seq<(Seq<char>, Seq<char>)> {
    imports.map_values(|p: (Option<String>, String)| (import_namespace(
        match p.0 {
            Some(a) => Some(a@),
            None => None,
        },
        p.1@,
    ), p.1@))
}

/// Importing binds namespaces: once a list of imports is recorded, a
/// namespace the list binds names the package of the last import in the
/// list that binds it, whatever imports were recorded before.
pub proof fn law_import_binds_namespace(before: Seq<(String, String)>, imports: Seq<(Option<String>, String)>, i: int)
    requires
        0 <= i < imports.len(),
        forall|j: int| i < j < imports.len() ==> #[trigger] import_pairs(imports)[j].0 != import_pairs(imports)[i].0,
    ensures
        package_lookup(package_pairs(before) + import_pairs(imports), import_pairs(imports)[i].0) == Some(imports[i].1@),
{
    let pairs = package_pairs(before) + import_pairs(imports);
    let firsts = pair_firsts(pairs);
    let ns = import_pairs(imports)[i].0;
    let p = before.len() + i;
    assert forall|q: int| p < q < firsts.len() implies firsts[q] != ns by {
        assert(firsts[q] == import_pairs(imports)[q - before.len()].0);
    }
    crate::seqs::lemma_last_position_at(firsts, ns, firsts.len() as int, p);
}

/// The model of the names of the declared structs.
pub open spec fn struct_names<'ctx>(s: Seq<StructLayout>) -> Seq<Seq<char>> {
    s.map_values(|x: StructLayout| x.name@)
}

/// The model of the declared function symbols.
pub open spec fn fn_symbols(s: Seq<FnSig>) -> Seq<Seq<char>> {
    s.map_values(|x: FnSig| x.symbol@)
}

/// The LLVM type a function returns: `i64` for `main`, none for a void
/// function, else the type of its return type.
pub open spec fn return_ltype(ret: TypeV, is_main: bool, known: Seq<Seq<char>>) -> Option<LTypeV> {
    if is_main {
        Some(LTypeV::Int(64))
    } else if ret == TypeV::Void {
        None
    } else {
        Some(ltype_of(ret, known))
    }
}

impl<'ctx> CodeGenerator<'ctx> {
    /// A generator for a new module of the given name, with nothing declared
    /// and no scope open.
    pub fn new(context: &'ctx Context, module_name: &str) -> (r: Self)
        ensures
            r.module_name@ == module_name@,
            r.variables@.len() == 0,
            r.functions@.len() == 0,
            r.structs@.len() == 0,
            r.enum_variants@.len() == 0,
            r.imported_packages@.len() == 0,
            r.packages@.len() == 0,
            r.const_names@.len() == 0,
            r.current_function is None,
            r.return_type is None,
            r.defer_stack@.len() == 0,
            r.defer_bang_stack@.len() == 0,
            r.loop_end_blocks@.len() == 0,
            r.loop_continue_blocks@.len() == 0,
            r.builder.emitted@.len() == 0,
            !r.builder.positioned@,
    {
        CodeGenerator {
            context,
            module: ll::create_module(context, module_name),
            builder: ll::IrBuilder { raw: ll::create_builder(context), emitted: Ghost(Seq::empty()), positioned: Ghost(false) },
            module_name: owned(module_name),
            current_function: None,
            return_type: None,
            variables: Vec::new(),
            functions: Vec::new(),
            structs: Vec::new(),
            enum_variants: Vec::new(),
            imported_packages: Vec::new(),
            packages: Vec::new(),
            const_names: Vec::new(),
            defer_stack: DeferStack::new(),
            defer_bang_stack: DeferStack::new(),
            loop_end_blocks: LoopTargets::new(),
            loop_continue_blocks: LoopTargets::new(),
        }
    }

    /// The generated module as textual LLVM IR.
    pub fn print_ir(&self) -> String {
        ll::module_text(&self.module)
    }

    /// The names of the declared structs.
    pub fn struct_names(&self) -> (r: Vec<String>)
        ensures
            names_view(r@) == struct_names(self.structs@),
    {
        let mut r: Vec<String> = Vec::new();
        let mut i: usize = 0;
        while i < self.structs.len()
            invariant
                i <= self.structs.len(),
                names_view(r@) == struct_names(self.structs@.subrange(0, i as int)),
            decreases self.structs.len() - i,
        {
            let n = self.structs[i].name.clone();
            let ghost before = r@;
            r.push(n);
            assert(names_view(r@) =~= names_view(before).push(self.structs@[i as int].name@));
            assert(struct_names(self.structs@.subrange(0, i + 1)) =~= struct_names(self.structs@.subrange(0, i as int)).push(
                self.structs@[i as int].name@,
            ));
            i = i + 1;
        }
        assert(self.structs@.subrange(0, i as int) =~= self.structs@);
        r
    }

    /// The LLVM type of a language type (a custom type is its struct when
    /// the struct was declared, else `i64`).
    pub fn llvm_type(&self, ty: &Type) -> (r: LType)
        ensures
            r@ == ltype_of(ty@, struct_names(self.structs@)),
    {
        let names = self.struct_names();
        lang_ltype(ty, &names)
    }

    /// The LLVM handle of a modelled type.
    pub fn basic_type(&self, t: &LType) -> (r: CodegenResult<BasicTypeEnum<'ctx>>)
        ensures
            *t matches LType::Int(w) ==> (r is Ok <==> 1 <= w <= 64),
            *t matches LType::Int(w) ==> (!(1 <= w <= 64) ==> (r matches Err(m) && m@ == "Unsupported integer width"@)),
            (*t is F32 || *t is F64 || *t is Ptr) ==> r is Ok,
            buildable(t@) ==> r is Ok,
        decreases t,
    {
        match t {
            LType::Int(w) => {
                if *w == 0 || *w > 64 {
                    return Err(owned("Unsupported integer width"));
                }
                match ll::int_type(self.context, *w) {
                    Some(x) => Ok(ll::int_basic_type(x)),
                    None => Err(owned("Unsupported integer width")),
                }
            },
            LType::F32 => Ok(ll::f32_type(self.context)),
            LType::F64 => Ok(ll::f64_type(self.context)),
            LType::Ptr => Ok(ll::ptr_type(self.context)),
            LType::Struct(fs) => {
                proof {
                    crate::codegen::types::lemma_ltypes_view(fs@);
                }
                let fields = self.basic_types(fs)?;
                Ok(ll::struct_type(self.context, &fields))
            },
            LType::Named(n) => match ll::get_struct_type(self.context, n.as_str()) {
                Some(x) => Ok(x),
                None => {
                    let mut m = owned("Struct type not found: ");
                    push_string(&mut m, n);
                    Err(m)
                },
            },
            LType::Array(e, n) => {
                let et = self.basic_type(e)?;
                Ok(ll::array_type(et, *n))
            },
        }
    }

    /// The LLVM handles of a list of modelled types.
    pub fn basic_types(&self, ts: &Vec<LType>) -> (r: CodegenResult<Vec<BasicTypeEnum<'ctx>>>)
        ensures
            r matches Ok(v) ==> v@.len() == ts@.len(),
            all_buildable(ltypes_view(ts@)) ==> r is Ok,
        decreases ts,
    {
        proof {
            crate::codegen::types::lemma_ltypes_view(ts@);
            crate::codegen::types::lemma_all_buildable(ltypes_view(ts@));
            if all_buildable(ltypes_view(ts@)) {
                assert forall|j: int| 0 <= j < ts@.len() implies #[trigger] buildable(ts@[j]@) by {
                    assert(buildable(ltypes_view(ts@)[j]));
                }
            }
        }
        let mut r: Vec<BasicTypeEnum<'ctx>> = Vec::new();
        let mut i: usize = 0;
        while i < ts.len()
            invariant
                i <= ts.len(),
                r@.len() == i,
                all_buildable(ltypes_view(ts@)) ==> forall|j: int| 0 <= j < ts@.len() ==> #[trigger] buildable(ts@[j]@),
            decreases ts.len() - i,
        {
            let t = self.basic_type(&ts[i])?;
            r.push(t);
            i = i + 1;
        }
        Ok(r)
    }

    /// Mangles a function name for this module.
    pub fn mangle_name(&self, name: &str, is_main: bool) -> (r: String)
        ensures
            r@ == mangled(self.module_name@, name@, is_main),
    {
        mangle_name(self.module_name.as_str(), name, is_main)
    }

    /// The LLVM result type of a function.
    pub fn llvm_function_return_type(&self, return_ty: &Type, is_main: bool) -> (r: Option<LType>)
        ensures
            match r {
                Some(t) => return_ltype(return_ty@, is_main, struct_names(self.structs@)) == Some(t@),
                None => return_ltype(return_ty@, is_main, struct_names(self.structs@)) is None,
            },
    {
        if is_main {
            Some(LType::Int(64))
        } else if matches!(return_ty, Type::Void) {
            None
        } else {
            Some(self.llvm_type(return_ty))
        }
    }

    /// The LLVM type of a function with the given parameter and result
    /// types (`main` returns `i64`, a `void` result returns nothing).
    pub fn build_function_type(&self, ret: &Type, params: &Vec<Type>, is_main: bool) -> (r: CodegenResult<FunctionType<'ctx>>)
        ensures
            signature_buildable(type_views(params@), ret@, is_main, struct_names(self.structs@)) ==> r is Ok,
    {
        proof {
            if signature_buildable(type_views(params@), ret@, is_main, struct_names(self.structs@)) {
                assert forall|j: int| 0 <= j < params@.len() implies #[trigger] buildable(
                    ltype_of(params@[j]@, struct_names(self.structs@)),
                ) by {
                    assert(type_views(params@)[j] == params@[j]@);
                }
            }
        }
        let mut ptypes: Vec<BasicTypeEnum<'ctx>> = Vec::new();
        let mut i: usize = 0;
        while i < params.len()
            invariant
                i <= params.len(),
                signature_buildable(type_views(params@), ret@, is_main, struct_names(self.structs@)) ==> forall|j: int|
                    0 <= j < params@.len() ==> #[trigger] buildable(ltype_of(params@[j]@, struct_names(self.structs@))),
            decreases params.len() - i,
        {
            let lt = self.llvm_type(&params[i]);
            let bt = self.basic_type(&lt)?;
            ptypes.push(bt);
            i = i + 1;
        }
        match self.llvm_function_return_type(ret, is_main) {
            Some(t) => {
                let bt = self.basic_type(&t)?;
                Ok(ll::fn_type(bt, &ptypes))
            },
            None => Ok(ll::void_fn_type(self.context, &ptypes)),
        }
    }

    /// Declares a function in the module and records its signature.
    pub fn declare_symbol(&mut self, symbol: &str, params: &Vec<Type>, ret: &Type, is_main: bool, external: bool)
        -> (r: CodegenResult<()>)
        ensures
            emitted_grows(*old(self), *final(self)),
            final(self).module_name == old(self).module_name,
            final(self).structs == old(self).structs,
            final(self).variables == old(self).variables,
            final(self).imported_packages == old(self).imported_packages,
            final(self).current_function == old(self).current_function,
            final(self).const_names == old(self).const_names,
            r is Ok ==> fn_symbols(final(self).functions@) == fn_symbols(old(self).functions@).push(symbol@),
            r is Err ==> final(self).functions == old(self).functions,
            signature_buildable(type_views(params@), ret@, is_main, struct_names(old(self).structs@)) ==> r is Ok,
    {
        let fn_ty = self.build_function_type(ret, params, is_main)?;
        let ret_lt = self.llvm_function_return_type(ret, is_main);
        if external {
            let _ = ll::add_external_function(&self.module, symbol, fn_ty);
        } else {
            let _ = ll::add_function(&self.module, symbol, fn_ty);
        }
        let ghost before = self.functions@;
        self.functions.push(FnSig { symbol: owned(symbol), param_count: params.len(), ret: ret_lt });
        assert(fn_symbols(self.functions@) =~= fn_symbols(before).push(symbol@));
        Ok(())
    }

    /// Declares a function of this module (the symbol is the mangled name).
    pub fn declare_function(&mut self, f: &HirFn) -> (r: CodegenResult<()>)
        ensures
            emitted_grows(*old(self), *final(self)),
            r is Ok ==> fn_symbols(final(self).functions@) == fn_symbols(old(self).functions@).push(
                mangled(old(self).module_name@, f.name@, f.name@ == "main"@),
            ),
            signature_buildable(
                f.params@.map_values(|p: (String, Type)| p.1@),
                f.return_ty@,
                f.name@ == "main"@,
                struct_names(old(self).structs@),
            ) ==> r is Ok,
    {
        let is_main = str_eq(f.name.as_str(), "main");
        let symbol = self.mangle_name(f.name.as_str(), is_main);
        let mut params: Vec<Type> = Vec::new();
        let mut i: usize = 0;
        while i < f.params.len()
            invariant
                emitted_grows(*old(self), *self),
                i <= f.params.len(),
                type_views(params@) == f.params@.take(i as int).map_values(|p: (String, Type)| p.1@),
            decreases f.params.len() - i,
        {
            let ghost before = params@;
            params.push(f.params[i].1.deep_clone());
            proof {
                assert(type_views(params@) =~= type_views(before).push(f.params@[i as int].1@));
                assert(f.params@.take(i + 1).map_values(|p: (String, Type)| p.1@)
                    =~= f.params@.take(i as int).map_values(|p: (String, Type)| p.1@).push(f.params@[i as int].1@));
            }
            i = i + 1;
        }
        assert(f.params@.take(f.params@.len() as int) =~= f.params@);
        self.declare_symbol(symbol.as_str(), &params, &f.return_ty, is_main, false)
    }

    /// Declares a function of a syntax tree (a library function) in this
    /// module.
    pub fn declare_stdlib_function(&mut self, f: &FnDef) -> (r: CodegenResult<()>)
        ensures
            emitted_grows(*old(self), *final(self)),
            final(self).variables == old(self).variables,
            final(self).imported_packages == old(self).imported_packages,
            final(self).current_function == old(self).current_function,
            final(self).const_names == old(self).const_names,
            r is Ok ==> fn_symbols(final(self).functions@) == fn_symbols(old(self).functions@).push(
                mangled(old(self).module_name@, f.name@, f.name@ == "main"@),
            ),
            signature_buildable(param_views(f.params@), f.return_ty@, f.name@ == "main"@, struct_names(old(self).structs@))
                ==> r is Ok,
    {
        let is_main = str_eq(f.name.as_str(), "main");
        let symbol = self.mangle_name(f.name.as_str(), is_main);
        let params = param_types(&f.params);
        self.declare_symbol(symbol.as_str(), &params, &f.return_ty, is_main, false)
    }

    /// Declares a function of another module (`module_function`, external
    /// linkage).
    pub fn declare_external_function(&mut self, f: &FnDef, target_module: &str) -> (r: CodegenResult<()>)
        ensures
            emitted_grows(*old(self), *final(self)),
            final(self).imported_packages == old(self).imported_packages,
            r is Ok ==> fn_symbols(final(self).functions@) == fn_symbols(old(self).functions@).push(
                target_module@ + "_"@ + f.name@,
            ),
            signature_buildable(param_views(f.params@), f.return_ty@, false, struct_names(old(self).structs@)) ==> r is Ok,
    {
        let mut symbol = owned(target_module);
        push_str(&mut symbol, "_");
        push_string(&mut symbol, &f.name);
        let params = param_types(&f.params);
        self.declare_symbol(symbol.as_str(), &params, &f.return_ty, false, true)
    }

    /// Declares a C function under its own name (external linkage).
    pub fn declare_c_function(&mut self, f: &ExternalFnDef) -> (r: CodegenResult<()>)
        ensures
            emitted_grows(*old(self), *final(self)),
            final(self).imported_packages == old(self).imported_packages,
            r is Ok ==> fn_symbols(final(self).functions@) == fn_symbols(old(self).functions@).push(f.name@),
            signature_buildable(param_views(f.params@), f.return_ty@, false, struct_names(old(self).structs@)) ==> r is Ok,
    {
        let params = param_types(&f.params);
        self.declare_symbol(f.name.as_str(), &params, &f.return_ty, false, true)
    }

    /// Declares a struct: its LLVM type with the fields' types, its field
    /// order, and its methods as functions named `Struct_method`.
    pub fn declare_struct(&mut self, def: &StructDef) -> (r: CodegenResult<()>)
        ensures
            emitted_grows(*old(self), *final(self)),
            r is Ok ==> struct_names(final(self).structs@) == struct_names(old(self).structs@).push(def.name@),
            r is Ok ==> final(self).structs@.last().fields@.len() == def.fields@.len()
                && final(self).structs@.last().types@.len() == def.fields@.len(),
            r is Ok ==> forall|i: int| 0 <= i < def.fields@.len() ==> (#[trigger] final(self).structs@.last().fields@[i])@
                == def.fields@[i].name@,
            r is Ok ==> forall|i: int| 0 <= i < def.fields@.len() ==> (#[trigger] final(self).structs@.last().types@[i])@
                == ltype_of(def.fields@[i].ty@, struct_names(old(self).structs@)),
            struct_buildable(*def, struct_names(old(self).structs@)) ==> r is Ok,
    {
        let mut names: Vec<String> = Vec::new();
        let mut types: Vec<LType> = Vec::new();
        let mut i: usize = 0;
        while i < def.fields.len()
            invariant
                emitted_grows(*old(self), *self),
                i <= def.fields.len(),
                names@.len() == i && types@.len() == i,
                self == old(self),
                forall|j: int| 0 <= j < i ==> (#[trigger] names@[j])@ == def.fields@[j].name@,
                forall|j: int| 0 <= j < i ==> (#[trigger] types@[j])@ == ltype_of(def.fields@[j].ty@, struct_names(old(self).structs@)),
            decreases def.fields.len() - i,
        {
            names.push(owned(def.fields[i].name.as_str()));
            types.push(self.llvm_type(&def.fields[i].ty));
            i = i + 1;
        }
        proof {
            if struct_buildable(*def, struct_names(old(self).structs@)) {
                crate::codegen::types::lemma_ltypes_view(types@);
                crate::codegen::types::lemma_all_buildable(ltypes_view(types@));
                assert forall|j: int| 0 <= j < ltypes_view(types@).len() implies #[trigger] buildable(
                    ltypes_view(types@)[j],
                ) by {
                    assert(types@[j]@ == ltype_of(def.fields@[j].ty@, struct_names(old(self).structs@)));
                }
            }
        }
        let field_types = self.basic_types(&types)?;
        let st = ll::opaque_struct_type(self.context, def.name.as_str());
        ll::set_struct_body(st, &field_types);
        let ghost before = self.structs@;
        let ghost names_v = names@;
        let ghost types_v = types@;
        self.structs.push(StructLayout { name: def.name.clone(), fields: names, types });
        assert(struct_names(self.structs@) =~= struct_names(before).push(def.name@));
        assert(self.structs@.last().fields@ == names_v && self.structs@.last().types@ == types_v);
        let ghost after = self.structs@;
        let mut k: usize = 0;
        while k < def.methods.len()
            invariant
                emitted_grows(*old(self), *self),
                k <= def.methods.len(),
                self.structs@ == after,
                struct_names(after) == struct_names(old(self).structs@).push(def.name@),
                struct_buildable(*def, struct_names(old(self).structs@)) ==> forall|q: int| 0 <= q < def.methods@.len() ==>
                    #[trigger] signature_buildable(
                    param_views(def.methods@[q].params@),
                    def.methods@[q].return_ty@,
                    false,
                    struct_names(after),
                ),
            decreases def.methods.len() - k,
        {
            let m = &def.methods[k];
            let mname = method_name(def.name.as_str(), m.name.as_str());
            let symbol = self.mangle_name(mname.as_str(), false);
            let params = param_types(&m.params);
            let res = self.declare_symbol(symbol.as_str(), &params, &m.return_ty, false, false);
            match res {
                Ok(()) => {},
                Err(e) => {
                    return Err(e);
                },
            }
            k = k + 1;
        }
        assert forall|i: int| 0 <= i < def.fields@.len() implies (#[trigger] self.structs@.last().fields@[i])@
            == def.fields@[i].name@ by {
            assert(names_v[i]@ == def.fields@[i].name@);
        }
        assert forall|i: int| 0 <= i < def.fields@.len() implies (#[trigger] self.structs@.last().types@[i])@
            == ltype_of(def.fields@[i].ty@, struct_names(old(self).structs@)) by {
            assert(types_v[i]@ == ltype_of(def.fields@[i].ty@, struct_names(old(self).structs@)));
        }
        Ok(())
    }

    /// Records the variants of an enum, in order (an enum is an `i64`).
    pub fn declare_enum(&mut self, def: &EnumDef) -> (r: CodegenResult<()>)
        ensures
            emitted_grows(*old(self), *final(self)),
            r is Ok,
            final(self).enum_variants@.drop_last() == old(self).enum_variants@,
            final(self).enum_variants@.len() == old(self).enum_variants@.len() + 1,
            final(self).enum_variants@.last().0@ == def.name@,
            names_view(final(self).enum_variants@.last().1@) == def.variants@.map_values(|v: crate::ast::EnumVariant| v.name@),
    {
        let mut names: Vec<String> = Vec::new();
        let mut i: usize = 0;
        while i < def.variants.len()
            invariant
                emitted_grows(*old(self), *self),
                i <= def.variants.len(),
                names_view(names@) == def.variants@.take(i as int).map_values(|v: crate::ast::EnumVariant| v.name@),
            decreases def.variants.len() - i,
        {
            let ghost before = names@;
            names.push(owned(def.variants[i].name.as_str()));
            proof {
                assert(names_view(names@) =~= names_view(before).push(def.variants@[i as int].name@));
                assert(def.variants@.take(i + 1).map_values(|v: crate::ast::EnumVariant| v.name@)
                    =~= def.variants@.take(i as int).map_values(|v: crate::ast::EnumVariant| v.name@).push(def.variants@[i as int].name@));
            }
            i = i + 1;
        }
        assert(def.variants@.take(def.variants@.len() as int) =~= def.variants@);
        let ghost before = self.enum_variants@;
        self.enum_variants.push((owned(def.name.as_str()), names));
        assert(self.enum_variants@.drop_last() =~= before);
        Ok(())
    }

    /// Records the imports of a program and declares what the imported
    /// packages export: their public functions (as `package_function`),
    /// their C functions, and their public structs and enums under the
    /// package's name prefix. Packages that were not loaded export nothing.
    pub fn process_imports(&mut self, imports: &Vec<(Option<String>, String)>) -> (r: CodegenResult<()>)
        ensures
            emitted_grows(*old(self), *final(self)),
            r is Ok ==> package_pairs(final(self).imported_packages@) == package_pairs(old(self).imported_packages@)
                + import_pairs(imports@),
            final(self).packages == old(self).packages,
            none_loaded(imports@, old(self).packages@) ==> r is Ok,
    {
        let mut packages: Vec<(String, Program)> = Vec::new();
        std::mem::swap(&mut packages, &mut self.packages);
        let r = self.import_packages(imports, &packages);
        std::mem::swap(&mut packages, &mut self.packages);
        r
    }

    /// Records the imports and declares what the packages export.
    fn import_packages(&mut self, imports: &Vec<(Option<String>, String)>, packages: &Vec<(String, Program)>) -> (r: CodegenResult<()>)
        ensures
            emitted_grows(*old(self), *final(self)),
            r is Ok ==> package_pairs(final(self).imported_packages@) == package_pairs(old(self).imported_packages@)
                + import_pairs(imports@),
            none_loaded(imports@, packages@) ==> r is Ok,
    {
        let mut i: usize = 0;
        let ghost start = package_pairs(self.imported_packages@);
        while i < imports.len()
            invariant
                emitted_grows(*old(self), *self),
                i <= imports.len(),
                package_pairs(self.imported_packages@) == start + import_pairs(imports@.take(i as int)),
                none_loaded(imports@, packages@) ==> forall|k: int| 0 <= k < packages@.len() ==> #[trigger] packages@[k].0@
                    != imports@[i as int].1@ || i >= imports@.len(),
            decreases imports.len() - i,
        {
            let (alias, package) = &imports[i];
            let ns = namespace_of_import(alias, package.as_str());
            let ghost before = self.imported_packages@;
            self.imported_packages.push((ns, owned(package.as_str())));
            let ghost pushed = self.imported_packages@;
            proof {
                assert(imports@.take(i + 1) =~= imports@.take(i as int).push(imports@[i as int]));
                assert(package_pairs(pushed) =~= package_pairs(before).push((ns@, package@)));
                assert(import_pairs(imports@.take(i + 1)) =~= import_pairs(imports@.take(i as int)).push((ns@, package@)));
            }
            let pkg_ns = package_module(package.as_str());
            let mut k: usize = 0;
            while k < packages.len()
                invariant
                    emitted_grows(*old(self), *self),
                    k <= packages.len(),
                    self.imported_packages@ == pushed,
                    i < imports@.len(),
                    imports@[i as int].1 == *package,
                    none_loaded(imports@, packages@) ==> forall|q: int| 0 <= q < packages@.len() ==> #[trigger] packages@[q].0@
                        != package@,
                decreases packages.len() - k,
            {
                if str_eq(packages[k].0.as_str(), package.as_str()) {
                    proof {
                        if none_loaded(imports@, packages@) {
                            assert(packages@[k as int].0@ != package@);
                        }
                    }
                    let prog = &packages[k].1;
                    let mut j: usize = 0;
                    while j < prog.functions.len()
                        invariant
                            emitted_grows(*old(self), *self),
                            j <= prog.functions.len(),
                            self.imported_packages@ == pushed,
                            !none_loaded(imports@, packages@),
                        decreases prog.functions.len() - j,
                    {
                        if prog.functions[j].visibility == Visibility::Public {
                            let res = self.declare_external_function(&prog.functions[j], pkg_ns.as_str());
                            match res {
                                Ok(()) => {},
                                Err(e) => {
                                    return Err(e);
                                },
                            }
                        }
                        j = j + 1;
                    }
                    let mut j: usize = 0;
                    while j < prog.external_functions.len()
                        invariant
                            emitted_grows(*old(self), *self),
                            j <= prog.external_functions.len(),
                            self.imported_packages@ == pushed,
                            !none_loaded(imports@, packages@),
                        decreases prog.external_functions.len() - j,
                    {
                        let res = self.declare_c_function(&prog.external_functions[j]);
                        match res {
                            Ok(()) => {},
                            Err(e) => {
                                return Err(e);
                            },
                        }
                        j = j + 1;
                    }
                    let mut j: usize = 0;
                    while j < prog.structs.len()
                        invariant
                            emitted_grows(*old(self), *self),
                            j <= prog.structs.len(),
                            self.imported_packages@ == pushed,
                            !none_loaded(imports@, packages@),
                        decreases prog.structs.len() - j,
                    {
                        if prog.structs[j].visibility == Visibility::Public {
                            let res = self.declare_prefixed_struct(&prog.structs[j], pkg_ns.as_str());
                            match res {
                                Ok(()) => {},
                                Err(e) => {
                                    return Err(e);
                                },
                            }
                        }
                        j = j + 1;
                    }
                    let mut j: usize = 0;
                    while j < prog.enums.len()
                        invariant
                            emitted_grows(*old(self), *self),
                            j <= prog.enums.len(),
                            self.imported_packages@ == pushed,
                            !none_loaded(imports@, packages@),
                        decreases prog.enums.len() - j,
                    {
                        if prog.enums[j].visibility == Visibility::Public {
                            let mut names: Vec<String> = Vec::new();
                            let variants = &prog.enums[j].variants;
                            let mut v: usize = 0;
                            while v < variants.len()
                                invariant
                                    emitted_grows(*old(self), *self),
                                    v <= variants.len(),
                                decreases variants.len() - v,
                            {
                                names.push(variants[v].name.clone());
                                v = v + 1;
                            }
                            let mut en = pkg_ns.clone();
                            push_str(&mut en, "_");
                            push_string(&mut en, &prog.enums[j].name);
                            self.enum_variants.push((en, names));
                        }
                        j = j + 1;
                    }
                }
                k = k + 1;
            }
            i = i + 1;
        }
        assert(imports@.take(imports@.len() as int) =~= imports@);
        Ok(())
    }

    /// Declares a struct of a package under the name `package_Struct`.
    fn declare_prefixed_struct(&mut self, def: &StructDef, prefix: &str) -> (r: CodegenResult<()>)
        ensures
            emitted_grows(*old(self), *final(self)),
            final(self).imported_packages == old(self).imported_packages,
            r is Ok ==> struct_names(final(self).structs@) == struct_names(old(self).structs@).push(
                prefix@ + "_"@ + def.name@,
            ),
            layout_buildable(*def, prefix@ + "_"@ + def.name@, struct_names(old(self).structs@)) ==> r is Ok,
    {
        let mut full = owned(prefix);
        push_str(&mut full, "_");
        push_string(&mut full, &def.name);
        assert(full@ == prefix@ + "_"@ + def.name@);
        let mut names: Vec<String> = Vec::new();
        let mut types: Vec<LType> = Vec::new();
        let mut i: usize = 0;
        while i < def.fields.len()
            invariant
                emitted_grows(*old(self), *self),
                i <= def.fields.len(),
                types@.len() == i,
                self == old(self),
                forall|j: int| 0 <= j < i ==> (#[trigger] types@[j])@ == ltype_of(def.fields@[j].ty@, struct_names(old(self).structs@)),
            decreases def.fields.len() - i,
        {
            names.push(def.fields[i].name.clone());
            types.push(self.llvm_type(&def.fields[i].ty));
            i = i + 1;
        }
        proof {
            if layout_buildable(*def, full@, struct_names(old(self).structs@)) {
                crate::codegen::types::lemma_ltypes_view(types@);
                crate::codegen::types::lemma_all_buildable(ltypes_view(types@));
                assert forall|j: int| 0 <= j < ltypes_view(types@).len() implies #[trigger] buildable(
                    ltypes_view(types@)[j],
                ) by {
                    assert(types@[j]@ == ltype_of(def.fields@[j].ty@, struct_names(old(self).structs@)));
                }
            }
        }
        let field_types = self.basic_types(&types)?;
        let st = ll::opaque_struct_type(self.context, full.as_str());
        ll::set_struct_body(st, &field_types);
        let ghost before = self.structs@;
        self.structs.push(StructLayout { name: owned(full.as_str()), fields: names, types });
        assert(struct_names(self.structs@) =~= struct_names(before).push(full@));
        let ghost after = self.structs@;
        let mut k: usize = 0;
        while k < def.methods.len()
            invariant
                emitted_grows(*old(self), *self),
                k <= def.methods.len(),
                self.imported_packages == old(self).imported_packages,
                self.structs@ == after,
                full@ == prefix@ + "_"@ + def.name@,
                struct_names(after) == struct_names(old(self).structs@).push(full@),
                layout_buildable(*def, full@, struct_names(old(self).structs@)) ==> forall|q: int| 0 <= q < def.methods@.len()
                    ==> #[trigger] signature_buildable(
                    param_views(def.methods@[q].params@),
                    def.methods@[q].return_ty@,
                    false,
                    struct_names(after),
                ),
            decreases def.methods.len() - k,
        {
            let m = &def.methods[k];
            let mname = method_name(full.as_str(), m.name.as_str());
            let symbol = self.mangle_name(mname.as_str(), false);
            let params = param_types(&m.params);
            assert(layout_buildable(*def, full@, struct_names(old(self).structs@)) ==> signature_buildable(
                type_views(params@),
                m.return_ty@,
                false,
                struct_names(self.structs@),
            ));
            let res = self.declare_symbol(symbol.as_str(), &params, &m.return_ty, false, false);
            match res {
                Ok(()) => {},
                Err(e) => {
                    return Err(e);
                },
            }
            k = k + 1;
        }
        Ok(())
    }
}

/// The types of a parameter list.
pub fn param_types(ps: &Vec<crate::ast::FnParam>) -> (r: Vec<Type>)
    ensures
        r@.len() == ps@.len(),
        type_views(r@) == param_views(ps@),
{
    let mut r: Vec<Type> = Vec::new();
    let mut i: usize = 0;
    while i < ps.len()
        invariant
            i <= ps.len(),
            r@.len() == i,
            type_views(r@) == param_views(ps@.take(i as int)),
        decreases ps.len() - i,
    {
        let ghost before = r@;
        r.push(ps[i].ty.deep_clone());
        proof {
            assert(type_views(r@) =~= type_views(before).push(ps@[i as int].ty@));
            assert(param_views(ps@.take(i + 1)) =~= param_views(ps@.take(i as int)).push(ps@[i as int].ty@));
        }
        i = i + 1;
    }
    assert(ps@.take(ps@.len() as int) =~= ps@);
    r
}

/// The models of the types of a list of parameters.
pub open spec fn param_views(ps: Seq<crate::ast::FnParam>) -> Seq<TypeV> {
    ps.map_values(|p: crate::ast::FnParam| p.ty@)
}


/// Whether two function handles are the same function (`PartialEq` of
/// inkwell).
#[verifier::external_body]
pub(crate) fn same_function<'ctx>(a: FunctionValue<'ctx>, b: FunctionValue<'ctx>) -> bool {
    a == b
}

} // verus!
