//! Generation of LLVM IR for the high-level representation: expressions,
//! statements, functions and programs.

use vstd::prelude::*;
use inkwell::basic_block::BasicBlock;
use inkwell::types::BasicTypeEnum;
use inkwell::values::{BasicValueEnum, FloatValue, IntValue, PointerValue};
use crate::ast::{AssignOp, BinaryOp, Mutability, Span, Type, TypeV};
use crate::builtin::{
    AlignOfIntrinsic, IntrinsicKind, IsNotNullIntrinsic, IsNullIntrinsic, SizeOfIntrinsic, TypeOfIntrinsic, intrinsic_named,
    lookup_intrinsic,
};
use crate::codegen::emit::{CodeGenerator, CodegenResult, StructLayout, Val, Variable, llvm_error_text, only_emitted, emitted_grows, emitted_since, ends_with, built_since, without_name, package_lookup, package_pairs, pair_firsts, struct_names, var_index, vars_view};
use crate::codegen::format::{PrintfArgKind, parse_hir_format_string};
use crate::codegen::llvm as ll;
use crate::codegen::names::{CallPlan, mangled, plan_call, split_target};
use crate::codegen::ops::{BinaryInstr, Comparison, binary_instr, binary_result, printf_widening, widened_type, FloatOp, IntOp, UnaryInstr, Widening, promote_printf_arg, select_binary, select_unary};
use crate::codegen::scope::{find_target, label_view};
use crate::codegen::types::{Conversion, LType, LTypeV, conversion, conversion_between, ltype_of, ltype_clone, ltype_equal, ltypes_view, names_view};
use crate::seqs::{last_position, last_position_before};
use crate::hir::{HirCase, HirExpr, HirFn, HirProgram, HirStmt, hir_expr_type, same_case, same_expr, same_stmt};
use crate::text::{owned, push_str, push_string, push_u64, str_eq};

verus! {

/// The text `{:?}` gives a span.
pub open spec fn span_debug(s: Span) -> Seq<char> {
    "Span { start: "@ + crate::text::nat_text(s.start as nat) + ", end: "@ + crate::text::nat_text(s.end as nat) + " }"@
}

pub(crate) fn span_debug_string(s: Span) -> (r: String)
    ensures
        r@ == span_debug(s),
{
    let mut r = owned("Span { start: ");
    push_u64(&mut r, s.start as u64);
    push_str(&mut r, ", end: ");
    push_u64(&mut r, s.end as u64);
    push_str(&mut r, " }");
    r
}

/// The message for a `break` or `continue` (`word`) that finds no loop.
pub open spec fn jump_error(word: Seq<char>, label: Option<Seq<char>>, span: Span) -> Seq<char> {
    match label {
        Some(l) => word + " statement with label '"@ + l + "' not found in scope at span "@ + span_debug(span),
        None => word + " statement outside of loop at span "@ + span_debug(span),
    }
}

fn jump_error_string(word: &str, label: &Option<String>, span: Span) -> (r: String)
    ensures
        r@ == jump_error(word@, label_view(*label), span),
{
    let mut r = owned(word);
    match label {
        Some(l) => {
            push_str(&mut r, " statement with label '");
            push_string(&mut r, l);
            push_str(&mut r, "' not found in scope at span ");
        },
        None => {
            push_str(&mut r, " statement outside of loop at span ");
        },
    }
    push_string(&mut r, &span_debug_string(span));
    r
}

/// The name `{:?}` gives an assignment operator.
pub open spec fn assign_debug(op: AssignOp) -> Seq<char> {
    crate::ast_dump::assign_op_name(op)
}

/// What a field lookup finds: the position and LLVM type of the last
/// field named `field` in the latest struct declared as `sname`, when the
/// layout gives it a type and the position fits in 32 bits.
pub open spec fn field_lookup(structs: Seq<StructLayout>, sname: Seq<char>, field: Seq<char>) -> Option<(int, LTypeV)> {
    let j = last_position(struct_names(structs), sname);
    if j < 0 {
        None
    } else {
        let k = last_position(names_view(structs[j].fields@), field);
        if k < 0 || k >= structs[j].types@.len() || k > u32::MAX {
            None
        } else {
            Some((k, structs[j].types@[k]@))
        }
    }
}

/// A declared struct's fields are found where it declared them: when the
/// latest struct layout carries a name, a field of it that no later field
/// of the same name shadows is found at its position, with its type.
pub proof fn law_declared_field_found(structs: Seq<StructLayout>, i: int)
    requires
        structs.len() > 0,
        0 <= i < structs.last().fields@.len(),
        structs.last().fields@.len() == structs.last().types@.len(),
        i <= u32::MAX,
        forall|q: int| i < q < structs.last().fields@.len() ==> (#[trigger] structs.last().fields@[q])@
            != structs.last().fields@[i]@,
    ensures
        field_lookup(structs, structs.last().name@, structs.last().fields@[i]@)
            == Some((i, structs.last().types@[i]@)),
{
    let names = struct_names(structs);
    let last = structs.last();
    crate::seqs::lemma_last_position_at(names, last.name@, names.len() as int, names.len() - 1);
    let fields = names_view(last.fields@);
    assert forall|q: int| i < q < fields.len() implies fields[q] != fields[i] by {
        assert(fields[q] == last.fields@[q]@);
    }
    crate::seqs::lemma_last_position_at(fields, last.fields@[i]@, fields.len() as int, i);
}

/// The names of the known enums.
pub open spec fn enum_names(enums: Seq<(String, Vec<String>)>) -> Seq<Seq<char>> {
    enums.map_values(|p: (String, Vec<String>)| p.0@)
}

/// What a variant lookup finds: `None` for an unknown enum, else the
/// position of the variant in the latest enum of that name, if it has it.
pub open spec fn variant_lookup(enums: Seq<(String, Vec<String>)>, e: Seq<char>, v: Seq<char>) -> Option<Option<int>> {
    let j = last_position(enum_names(enums), e);
    if j < 0 {
        None
    } else {
        let k = last_position(names_view(enums[j].1@), v);
        if k < 0 { Some(None) } else { Some(Some(k)) }
    }
}

/// The LLVM type of an integer or character literal of a language type:
/// that type's when it is an integer type, else `i64`.
pub open spec fn literal_ltype(ty: TypeV, names: Seq<Seq<char>>) -> LTypeV {
    let lt = ltype_of(ty, names);
    if lt is Int { lt } else { LTypeV::Int(64) }
}

/// The LLVM type of the value an identifier generates: `i64` for `_`, a
/// pointer for a function, else that of the latest variable of the name.
pub open spec fn ident_value_type(name: Seq<char>, ty: Type, vars: Seq<(Seq<char>, TypeV)>, names: Seq<Seq<char>>) -> LTypeV {
    if name == "_"@ {
        LTypeV::Int(64)
    } else if ty is Function {
        LTypeV::Ptr
    } else {
        ltype_of(vars[var_index(vars, name)].1, names)
    }
}

/// The type of the value slot of `null` of a language type: that of the
/// option's payload, else `i64`.
pub open spec fn null_payload_type(ty: Type, names: Seq<Seq<char>>) -> LTypeV {
    match ty {
        Type::Option(inner) => ltype_of((*inner)@, names),
        _ => LTypeV::Int(64),
    }
}

/// The LLVM type of the value an expression generates, where the form of
/// the expression alone decides it (given the declared struct names).
pub open spec fn expr_value_type(e: HirExpr, names: Seq<Seq<char>>) -> Option<LTypeV> {
    match e {
        HirExpr::Int(_, ty, _) => Some(literal_ltype(ty@, names)),
        HirExpr::Char(_, ty, _) => Some(literal_ltype(ty@, names)),
        HirExpr::Float(..) => Some(LTypeV::F64),
        HirExpr::Bool(..) => Some(LTypeV::Int(1)),
        HirExpr::String(_, ty, _) => Some(ltype_of(ty@, names)),
        HirExpr::Null(ty, _) => Some(LTypeV::Struct(seq![null_payload_type(ty, names), LTypeV::Int(1)])),
        HirExpr::Tuple { ty, .. } => Some(ltype_of(ty@, names)),
        HirExpr::Struct { ty, .. } => Some(ltype_of(ty@, names)),
        HirExpr::Array { ty, .. } => Some(ltype_of(ty@, names)),
        _ => None,
    }
}

/// A declared enum's variants are found where it declared them: when the
/// latest recorded enum carries a name, a variant of it that no later
/// variant of the same name shadows is found at its position.
pub proof fn law_declared_variant_found(enums: Seq<(String, Vec<String>)>, k: int)
    requires
        enums.len() > 0,
        0 <= k < enums.last().1@.len(),
        forall|q: int| k < q < enums.last().1@.len() ==> (#[trigger] enums.last().1@[q])@ != enums.last().1@[k]@,
    ensures
        variant_lookup(enums, enums.last().0@, enums.last().1@[k]@) == Some(Some(k)),
{
    let names = enum_names(enums);
    let last = enums.last();
    crate::seqs::lemma_last_position_at(names, last.0@, names.len() as int, names.len() - 1);
    let vs = names_view(last.1@);
    assert forall|q: int| k < q < vs.len() implies vs[q] != vs[k] by {
        assert(vs[q] == last.1@[q]@);
    }
    crate::seqs::lemma_last_position_at(vs, last.1@[k]@, vs.len() as int, k);
}

pub(crate) fn lerr<T>(r: Result<T, ll::LlvmError>) -> (out: CodegenResult<T>)
    ensures
        r matches Ok(v) ==> out == Ok::<T, String>(v),
        r is Err ==> out is Err,
        r matches Err(ll::LlvmError::Kind) ==> (out matches Err(m) && m@ == crate::codegen::emit::kind_error_text()),
{
    match r {
        Ok(v) => Ok(v),
        Err(e) => Err(llvm_error_text(e)),
    }
}

impl<'ctx> CodeGenerator<'ctx> {
    /// The position of the most recent variable with this name.
    pub fn lookup_variable(&self, name: &str) -> (r: Option<usize>)
        ensures
            r matches Some(k) ==> k < self.variables@.len() && k as int == var_index(vars_view(self.variables@), name@),
            r is None ==> var_index(vars_view(self.variables@), name@) == -1,
    {
        let ghost vv = vars_view(self.variables@);
        let mut i = self.variables.len();
        assert(vv.subrange(0, i as int) =~= vv);
        while i > 0
            invariant
                i <= self.variables.len(),
                vv == vars_view(self.variables@),
                var_index(vv, name@) == var_index(vv.subrange(0, i as int), name@),
            decreases i,
        {
            let ghost pre = vv.subrange(0, i as int);
            assert(pre.last() == vv[i - 1]);
            if str_eq(self.variables[i - 1].name.as_str(), name) {
                return Some(i - 1);
            }
            assert(pre.drop_last() =~= vv.subrange(0, i - 1));
            i = i - 1;
        }
        None
    }

    /// Brings a variable into scope.
    pub fn add_variable(&mut self, name: &String, ptr: PointerValue<'ctx>, ty: &Type, is_const: bool)
        ensures
            final(self).loop_end_blocks@ == old(self).loop_end_blocks@,
            final(self).loop_continue_blocks@ == old(self).loop_continue_blocks@,
            emitted_grows(*old(self), *final(self)),
            vars_view(final(self).variables@) == vars_view(old(self).variables@).push((name@, ty@)),
            final(self).variables@.last().ptr == ptr,
            final(self).variables@.last().is_const == is_const,
            final(self).builder == old(self).builder,
            final(self).current_function == old(self).current_function,
            final(self).loop_end_blocks == old(self).loop_end_blocks,
            final(self).loop_continue_blocks == old(self).loop_continue_blocks,
    {
        let ghost before = self.variables@;
        self.variables.push(Variable { name: name.clone(), ptr, ty: ty.deep_clone(), is_const });
        assert(vars_view(self.variables@) =~= vars_view(before).push((name@, ty@)));
    }

    /// Takes a name out of scope: every variable of that name goes.
    pub fn remove_variable(&mut self, name: &str)
        ensures
            final(self).loop_end_blocks@ == old(self).loop_end_blocks@,
            final(self).loop_continue_blocks@ == old(self).loop_continue_blocks@,
            emitted_grows(*old(self), *final(self)),
            vars_view(final(self).variables@) == without_name(vars_view(old(self).variables@), name@),
            final(self).current_function == old(self).current_function,
            final(self).loop_end_blocks == old(self).loop_end_blocks,
            final(self).loop_continue_blocks == old(self).loop_continue_blocks,
    {
        let ghost vv = vars_view(self.variables@);
        let mut kept: Vec<Variable<'ctx>> = Vec::new();
        let mut i: usize = 0;
        while i < self.variables.len()
            invariant
                self.loop_end_blocks@ == old(self).loop_end_blocks@,
                self.loop_continue_blocks@ == old(self).loop_continue_blocks@,
                emitted_grows(*old(self), *self),
                i <= self.variables.len(),
                vv == vars_view(self.variables@),
                vars_view(kept@) == without_name(vv.take(i as int), name@),
            decreases self.variables.len() - i,
        {
            let ghost before = kept@;
            proof {
                assert(vv.take(i + 1).drop_last() =~= vv.take(i as int));
                assert(vv.take(i + 1).last() == vv[i as int]);
            }
            if !str_eq(self.variables[i].name.as_str(), name) {
                let v = &self.variables[i];
                let copy = Variable { name: owned(v.name.as_str()), ptr: v.ptr, ty: v.ty.deep_clone(), is_const: v.is_const };
                kept.push(copy);
                proof {
                    assert(vars_view(kept@) =~= vars_view(before).push(vv[i as int]));
                }
            }
            i = i + 1;
        }
        assert(vv.take(vv.len() as int) =~= vv);
        self.variables = kept;
    }

    /// The integer constant `value` of an integer type (sign-extended when
    /// `sign_extend`); the type must be 1 to 64 bits wide.
    pub(crate) fn const_int_of(&mut self, t: &LType, value: u64, sign_extend: bool) -> (r: CodegenResult<Val<'ctx>>)
        ensures
            only_emitted(*old(self), *final(self)),
            emitted_grows(*old(self), *final(self)),
            r matches Ok(v) ==> v.ty@ == t@,
            *t matches LType::Int(w) ==> (!(1 <= w <= 64) ==> (r matches Err(m) && m@ == "Unsupported integer width"@)),
            *t matches LType::Int(w) ==> (1 <= w <= 64 ==> r is Ok),
            !(*t is Int) ==> r is Err,
            r is Ok ==> emitted_since(*old(self), *final(self)) == seq![ll::IrInstr::IntConst(value, sign_extend)],
            r is Err ==> *final(self) == *old(self),
    {
        match t {
            LType::Int(w) => {
                if *w == 0 || *w > 64 {
                    return Err(owned("Unsupported integer width"));
                }
                match ll::int_type(self.context, *w) {
                    Some(it) => {
                        let ghost before = self.builder.emitted@;
                        let raw = ll::const_int(&mut self.builder, it, value, sign_extend);
                        proof {
                            crate::codegen::emit::lemma_since_push(before, ll::IrInstr::IntConst(value, sign_extend));
                        }
                        Ok(Val { raw, ty: LType::Int(*w) })
                    },
                    None => Err(owned("Unsupported integer width")),
                }
            },
            _ => {
                let _ = self.basic_type(t)?;
                Err(llvm_error_text(ll::LlvmError::Kind))
            },
        }
    }

    /// The `i64` constant `value` (not sign-extended).
    pub(crate) fn const_i64(&mut self, value: u64) -> (r: CodegenResult<Val<'ctx>>)
        ensures
            only_emitted(*old(self), *final(self)),
            emitted_grows(*old(self), *final(self)),
            r is Ok,
            r matches Ok(v) ==> v.ty@ == crate::codegen::types::LTypeV::Int(64),
            emitted_since(*old(self), *final(self)) == seq![ll::IrInstr::IntConst(value, false)],
    {
        self.const_int_of(&LType::Int(64), value, false)
    }

    /// Brings a value to an LLVM type: integers and floats are resized or
    /// converted (unsigned) as `conversion` says; other values stay as they
    /// are.
    pub fn coerce_to_llvm_type(&self, v: Val<'ctx>, target: &LType) -> (r: CodegenResult<Val<'ctx>>)
        ensures
            r matches Ok(x) ==> x.ty@ == (if conversion(v.ty@, target@) == Conversion::Keep { v.ty@ } else { target@ }),
            conversion(v.ty@, target@) == Conversion::Keep && (r is Ok) ==> r == Ok::<Val<'ctx>, String>(v),
            *target matches LType::Int(w) ==> (!(1 <= w <= 64) ==> r is Err),
            conversion(v.ty@, target@) == Conversion::Keep && crate::codegen::types::buildable(target@) ==> r
                == Ok::<Val<'ctx>, String>(v),
    {
        let bt = self.basic_type(target)?;
        match conversion_between(&v.ty, target) {
            Conversion::Keep => Ok(v),
            Conversion::IntResize => {
                let raw = lerr(ll::build_int_cast(&self.builder, v.raw, bt, "coerce_int"))?;
                Ok(Val { raw, ty: ltype_clone(target) })
            },
            Conversion::FloatResize => {
                let raw = lerr(ll::build_float_cast(&self.builder, v.raw, bt, "coerce_float"))?;
                Ok(Val { raw, ty: ltype_clone(target) })
            },
            Conversion::UnsignedToFloat => {
                let raw = lerr(ll::build_unsigned_int_to_float(&self.builder, v.raw, bt, "coerce_int_to_float"))?;
                Ok(Val { raw, ty: ltype_clone(target) })
            },
            Conversion::FloatToUnsigned => {
                let raw = lerr(ll::build_float_to_unsigned_int(&self.builder, v.raw, bt, "coerce_float_to_int"))?;
                Ok(Val { raw, ty: ltype_clone(target) })
            },
        }
    }

    /// Brings a value to the LLVM type of a language type: an option or
    /// result is wrapped as `{ value, flag }` (the flag is 1 for an option
    /// and 0 for a result), an integer is resized to an integer type, other
    /// values stay as they are.
    pub fn coerce_type(&mut self, v: Val<'ctx>, expected: &Type) -> (r: CodegenResult<Val<'ctx>>)
        ensures
            final(self).loop_end_blocks@ == old(self).loop_end_blocks@,
            final(self).loop_continue_blocks@ == old(self).loop_continue_blocks@,
            emitted_grows(*old(self), *final(self)),
            only_emitted(*old(self), *final(self)),
            ({
                let target = ltype_of(expected@, struct_names(old(self).structs@));
                &&& v.ty@ == target ==> r == Ok::<Val<'ctx>, String>(v)
                &&& r matches Ok(x) ==> (x.ty@ == target || x == v)
                &&& (expected is Option || expected is Result) ==> (r matches Ok(x) ==> x.ty@ == target)
                &&& (expected is Option || expected is Result) && v.ty@ != target && !(v.ty is Struct || v.ty is Named) && r is Ok
                    ==> ends_with(*final(self), seq![ll::IrInstr::IntConst(if expected is Option { 1 } else { 0 }, false)])
            }),
    {
        let target = self.llvm_type(expected);
        if ltype_equal(&v.ty, &target) {
            return Ok(v);
        }
        match expected {
            Type::Option(_) | Type::Result(_) => {
                let flag: u64 = if matches!(expected, Type::Option(_)) { 1 } else { 0 };
                let field = match &target {
                    LType::Struct(fs) => {
                        if fs.len() == 2 {
                            ltype_clone(&fs[0])
                        } else {
                            return Err(owned("Option layout expected"));
                        }
                    },
                    _ => {
                        return Err(owned("Option layout expected"));
                    },
                };
                let bt = self.basic_type(&target)?;
                let inner = if ltype_equal(&v.ty, &field) {
                    v.raw
                } else {
                    let fbt = self.basic_type(&field)?;
                    match (&field, &v.ty) {
                        (LType::Int(_), LType::Int(_)) => lerr(ll::build_int_cast(&self.builder, v.raw, fbt, "cast"))?,
                        (LType::F32, LType::F32) | (LType::F32, LType::F64) | (LType::F64, LType::F32) | (LType::F64, LType::F64) => {
                            lerr(ll::build_float_cast(&self.builder, v.raw, fbt, "cast"))?
                        },
                        (_, LType::Struct(_)) | (_, LType::Named(_)) => {
                            return Ok(Val { raw: ll::const_zero(bt), ty: target });
                        },
                        _ => v.raw,
                    }
                };
                let undef = lerr(ll::undef_struct(bt))?;
                let with_val = lerr(ll::build_insert_value(&self.builder, undef, inner, 0, "ret_val"))?;
                let ghost before = self.builder.emitted@;
                let flag_val = self.const_int_of(&LType::Int(1), flag, false)?;
                proof {
                    crate::codegen::emit::lemma_since_push(before, ll::IrInstr::IntConst(flag, false));
                }
                let raw = lerr(ll::build_insert_value(&self.builder, with_val, flag_val.raw, 1, "flag"))?;
                Ok(Val { raw, ty: target })
            },
            _ => {
                if matches!(target, LType::Int(_)) && matches!(v.ty, LType::Int(_)) {
                    let bt = self.basic_type(&target)?;
                    let raw = lerr(ll::build_int_cast(&self.builder, v.raw, bt, "cast"))?;
                    Ok(Val { raw, ty: target })
                } else {
                    Ok(v)
                }
            },
        }
    }

    /// A condition as an `i1`: kept when it is one, the validity flag of an
    /// option-like struct, else a comparison with zero.
    pub fn condition_to_i1(&mut self, v: Val<'ctx>) -> (r: CodegenResult<Val<'ctx>>)
        ensures
            final(self).loop_end_blocks@ == old(self).loop_end_blocks@,
            final(self).loop_continue_blocks@ == old(self).loop_continue_blocks@,
            emitted_grows(*old(self), *final(self)),
            only_emitted(*old(self), *final(self)),
            r matches Ok(x) ==> x.ty@ == crate::codegen::types::LTypeV::Int(1),
            v.ty@ == crate::codegen::types::LTypeV::Int(1) ==> r == Ok::<Val<'ctx>, String>(v),
    {
        match &v.ty {
            LType::Int(w) => {
                if *w == 1 {
                    Ok(v)
                } else {
                    let zero = self.const_int_of(&v.ty, 0, false)?;
                    let raw = lerr(ll::build_int_compare(&mut self.builder, Comparison::Ne, v.raw, zero.raw, "is_true"))?;
                    Ok(Val { raw, ty: LType::Int(1) })
                }
            },
            LType::Struct(_) => {
                let raw = lerr(ll::build_extract_value(&self.builder, v.raw, 1, "is_valid"))?;
                Ok(Val { raw, ty: LType::Int(1) })
            },
            _ => {
                let zero = self.const_i64(0)?;
                let raw = lerr(ll::build_int_compare(&mut self.builder, Comparison::Ne, v.raw, zero.raw, "is_true"))?;
                Ok(Val { raw, ty: LType::Int(1) })
            },
        }
    }

    /// Whether the block the builder writes to already ends in a terminator.
    pub fn current_block_has_terminator(&self) -> bool {
        match ll::insert_block(&self.builder) {
            Some(b) => ll::has_terminator(b),
            None => false,
        }
    }

    pub(crate) fn new_block(&self, name: &str) -> (r: CodegenResult<BasicBlock<'ctx>>)
        ensures
            self.current_function is Some <==> r is Ok,
            self.current_function is None ==> (r matches Err(m) && m@ == "No current function"@),
    {
        match self.current_function {
            Some(f) => Ok(ll::append_block(self.context, f, name)),
            None => Err(owned("No current function")),
        }
    }

    /// The field index and LLVM type of a field of a declared struct (the
    /// latest declaration of a name counts).
    #[verifier::loop_isolation(false)]
    pub fn field_of(&self, struct_name: &str, field: &str) -> (r: Option<(u32, LType)>)
        ensures
            match r {
                Some((k, t)) => field_lookup(self.structs@, struct_name@, field@) == Some((k as int, t@)),
                None => field_lookup(self.structs@, struct_name@, field@) is None,
            },
    {
        let ghost names = struct_names(self.structs@);
        let mut i: usize = self.structs.len();
        while i > 0
            invariant
                i <= self.structs.len(),
                names == struct_names(self.structs@),
                last_position(names, struct_name@) == last_position_before(names, struct_name@, i as int),
            decreases i,
        {
            if str_eq(self.structs[i - 1].name.as_str(), struct_name) {
                let layout = &self.structs[i - 1];
                let ghost fields = names_view(layout.fields@);
                assert(last_position(names, struct_name@) == i - 1);
                let mut k: usize = layout.fields.len();
                while k > 0
                    invariant
                        k <= layout.fields.len(),
                        fields == names_view(layout.fields@),
                        last_position(fields, field@) == last_position_before(fields, field@, k as int),
                    decreases k,
                {
                    if str_eq(layout.fields[k - 1].as_str(), field) {
                        assert(last_position(fields, field@) == k - 1);
                        if k - 1 < layout.types.len() && k - 1 <= u32::MAX as usize {
                            return Some(((k - 1) as u32, ltype_clone(&layout.types[k - 1])));
                        }
                        return None;
                    }
                    k = k - 1;
                }
                return None;
            }
            i = i - 1;
        }
        None
    }

    /// The position of a variant of an enum, if the enum is known: `None`
    /// for an unknown enum, `Some(None)` for an unknown variant of a known
    /// one (the latest enum of that name counts).
    #[verifier::loop_isolation(false)]
    pub fn enum_variant_index(&self, enum_name: &str, variant: &str) -> (r: Option<Option<u64>>)
        ensures
            match variant_lookup(self.enum_variants@, enum_name@, variant@) {
                None => r is None,
                Some(None) => r == Some(None::<u64>),
                Some(Some(k)) => r matches Some(Some(x)) && x == k,
            },
    {
        let ghost names = enum_names(self.enum_variants@);
        let mut i: usize = self.enum_variants.len();
        while i > 0
            invariant
                i <= self.enum_variants.len(),
                names == enum_names(self.enum_variants@),
                last_position(names, enum_name@) == last_position_before(names, enum_name@, i as int),
            decreases i,
        {
            if str_eq(self.enum_variants[i - 1].0.as_str(), enum_name) {
                let vs = &self.enum_variants[i - 1].1;
                let ghost vnames = names_view(vs@);
                assert(last_position(names, enum_name@) == i - 1);
                let mut k: usize = vs.len();
                while k > 0
                    invariant
                        k <= vs.len(),
                        vnames == names_view(vs@),
                        last_position(vnames, variant@) == last_position_before(vnames, variant@, k as int),
                    decreases k,
                {
                    if str_eq(vs[k - 1].as_str(), variant) {
                        assert(last_position(vnames, variant@) == k - 1);
                        return Some(Some((k - 1) as u64));
                    }
                    k = k - 1;
                }
                return Some(None);
            }
            i = i - 1;
        }
        None
    }

    /// The declared function with a symbol, as its position.
    pub fn find_function(&self, symbol: &str) -> (r: Option<usize>)
        ensures
            r matches Some(k) ==> k < self.functions@.len() && self.functions@[k as int].symbol@ == symbol@,
            r matches Some(k) ==> forall|j: int| 0 <= j < k ==> #[trigger] self.functions@[j].symbol@ != symbol@,
            r is None ==> forall|k: int| 0 <= k < self.functions@.len() ==> #[trigger] self.functions@[k].symbol@ != symbol@,
    {
        let mut i: usize = 0;
        while i < self.functions.len()
            invariant
                i <= self.functions.len(),
                forall|k: int| 0 <= k < i ==> #[trigger] self.functions@[k].symbol@ != symbol@,
            decreases self.functions.len() - i,
        {
            if str_eq(self.functions[i].symbol.as_str(), symbol) {
                return Some(i);
            }
            i = i + 1;
        }
        None
    }

    /// The name of the struct a variable's type designates (directly or
    /// through a pointer).
    fn struct_of_type(ty: &Type) -> (r: CodegenResult<String>)
        ensures
            match designated_struct(*ty) {
                Some(n) => r matches Ok(x) && x@ == n,
                None => r is Err,
            },
            *ty matches Type::Pointer(inner) ==> (!(*inner is Custom) ==> (r matches Err(m) && m@
                == "Member access on non-custom pointer type"@)),
            !(*ty is Pointer || *ty is Custom) ==> (r matches Err(m) && m@ == "Member access on non-struct type"@),
    {
        match ty {
            Type::Pointer(inner) => match &**inner {
                Type::Custom { name, .. } => Ok(name.clone()),
                _ => Err(owned("Member access on non-custom pointer type")),
            },
            Type::Custom { name, .. } => Ok(name.clone()),
            _ => Err(owned("Member access on non-struct type")),
        }
    }

    /// A pointer to a field of the struct a variable holds (or points to).
    fn variable_field_pointer(&mut self, var: usize, member: &str) -> (r: CodegenResult<(PointerValue<'ctx>, LType)>)
        requires
            var < old(self).variables@.len(),
        ensures
            final(self).loop_end_blocks@ == old(self).loop_end_blocks@,
            final(self).loop_continue_blocks@ == old(self).loop_continue_blocks@,
            emitted_grows(*old(self), *final(self)),
            only_emitted(*old(self), *final(self)),
            designated_struct(old(self).variables@[var as int].ty) is None ==> r is Err,
            designated_struct(old(self).variables@[var as int].ty) matches Some(n) ==> (field_lookup(old(self).structs@, n, member@)
                is None ==> (r matches Err(m) && m@ == "Field '"@ + member@ + "' not found in struct '"@ + n + "'"@)),
            r matches Ok((_, t)) ==> (designated_struct(old(self).variables@[var as int].ty) matches Some(n) && field_lookup(
                old(self).structs@,
                n,
                member@,
            ) matches Some(f) && f.1 == t@),
    {
        let ptr = self.variables[var].ptr;
        let sname = Self::struct_of_type(&self.variables[var].ty)?;
        let (idx, fty) = match self.field_of(sname.as_str(), member) {
            Some(x) => x,
            None => {
                let mut m = owned("Field '");
                push_str(&mut m, member);
                push_str(&mut m, "' not found in struct '");
                push_string(&mut m, &sname);
                push_str(&mut m, "'");
                return Err(m);
            },
        };
        let base = if matches!(self.variables[var].ty, Type::Pointer(_)) {
            lerr(ll::build_load(&mut self.builder, ptr, "deref_ptr"))?
        } else {
            ll::pointer_value(ptr)
        };
        let fp = lerr(ll::build_struct_gep(&self.builder, base, idx, "field_ptr"))?;
        Ok((fp, fty))
    }
}


impl<'ctx> CodeGenerator<'ctx> {
    /// Generates an expression and hands back its value; `depth` bounds how
    /// deeply deferred statements may run inside one another.
    #[verifier::loop_isolation(false)]
    #[verifier::rlimit(60)]
    fn gen_expr(&mut self, e: &HirExpr, depth: usize) -> (r: CodegenResult<Val<'ctx>>)
        ensures
            final(self).loop_end_blocks@ == old(self).loop_end_blocks@,
            final(self).loop_continue_blocks@ == old(self).loop_continue_blocks@,
            emitted_grows(*old(self), *final(self)),
            *e matches HirExpr::Ident(name, ty, _) ==> (name@ != "_"@ && !(ty is Function) && var_index(
                vars_view(old(self).variables@),
                name@,
            ) == -1 ==> (r matches Err(m) && m@ == "Var not found: "@ + name@)),
            *e matches HirExpr::Intrinsic { name, .. } ==> (intrinsic_named(name@) is None ==> (r matches Err(m) && m@
                == "Intrinsic function '"@ + name@ + "' not found"@)),
            *e matches HirExpr::Index { object, .. } ==> (!(hir_expr_type(*object) is Array) ==> (r matches Err(m) && m@
                == "Indexing only supported on array or slice types"@)),
            *e matches HirExpr::Array { ty, .. } ==> (!(ty is Array) ==> (r matches Err(m) && m@
                == "Array expression is missing an array type"@)),
            expr_value_type(*e, struct_names(old(self).structs@)) matches Some(t) ==> (r matches Ok(v) ==> v.ty@ == t),
            *e matches HirExpr::MemberAccess { object, member, ty, .. } ==> (!(ty is Error) ==> (*object matches HirExpr::Ident(
                obj,
                _,
                _,
            ) ==> (variant_lookup(old(self).enum_variants@, obj@, member@) == Some(None::<int>) ==> (r matches Err(m) && m@
                == "Enum variant not found: "@ + obj@ + "."@ + member@)))),
            *e matches HirExpr::Ident(name, ty, _) ==> (r matches Ok(v) ==> v.ty@ == ident_value_type(
                name@,
                ty,
                vars_view(old(self).variables@),
                struct_names(old(self).structs@),
            )),
            *e matches HirExpr::Int(n, _, _) ==> (emitted_since(*old(self), *final(self)).len() == 1 && (emitted_since(
                *old(self),
                *final(self),
            )[0] matches ll::IrInstr::IntConst(x, _) && x == n as u64)),
            *e matches HirExpr::Bool(b, _, _) ==> emitted_since(*old(self), *final(self)) == seq![
                ll::IrInstr::IntConst(if b { 1 } else { 0 }, false),
            ],
            *e is Int || *e is Bool ==> only_emitted(*old(self), *final(self)),
            *e is Int || *e is Bool ==> r is Ok,
        decreases depth, e, 3nat,
    {
        match e {
            HirExpr::Int(v, ty, _) => {
                let lt = self.llvm_type(ty);
                proof {
                    crate::codegen::types::lemma_ltype_of_int_width(ty@, struct_names(self.structs@));
                }
                if matches!(lt, LType::Int(_)) {
                    self.const_int_of(&lt, *v as u64, ty.is_signed_integer())
                } else {
                    self.const_int_of(&LType::Int(64), *v as u64, true)
                }
            },
            HirExpr::Float(v, _, _) => {
                let bits = self.const_i64(v.bits)?;
                let ft = ll::f64_type(self.context);
                let raw = lerr(ll::build_bit_cast(&self.builder, bits.raw, ft, "float"))?;
                Ok(Val { raw, ty: LType::F64 })
            },
            HirExpr::Bool(b, _, _) => self.const_int_of(&LType::Int(1), if *b { 1 } else { 0 }, false),
            HirExpr::String(v, ty, _) => {
                let ptr = lerr(ll::build_global_string_ptr(&self.builder, v.as_str(), "str"))?;
                let len = self.const_i64(crate::text::byte_len(v.as_str()))?;
                let lt = self.llvm_type(ty);
                let bt = self.basic_type(&lt)?;
                let undef = lerr(ll::undef_struct(bt))?;
                let with_ptr = lerr(ll::build_insert_value(&self.builder, undef, ptr, 0, "slice_ptr"))?;
                let raw = lerr(ll::build_insert_value(&self.builder, with_ptr, len.raw, 1, "slice_len"))?;
                Ok(Val { raw, ty: lt })
            },
            HirExpr::Char(c, ty, _) => {
                let lt = self.llvm_type(ty);
                let code = *c as u32 as u64;
                if matches!(lt, LType::Int(_)) {
                    self.const_int_of(&lt, code, ty.is_signed_integer())
                } else {
                    self.const_i64(code)
                }
            },
            HirExpr::Null(ty, _) => {
                let inner = match ty {
                    Type::Option(inner) => self.llvm_type(inner),
                    _ => LType::Int(64),
                };
                let ghost inner_view = inner@;
                let mut fs: Vec<LType> = Vec::new();
                fs.push(inner);
                fs.push(LType::Int(1));
                proof {
                    crate::codegen::types::lemma_ltypes_view(fs@);
                    assert(ltypes_view(fs@) =~= seq![inner_view, LTypeV::Int(1)]);
                }
                let lt = LType::Struct(fs);
                let bt = self.basic_type(&lt)?;
                Ok(Val { raw: ll::const_zero(bt), ty: lt })
            },
            HirExpr::Ident(name, ty, _) => {
                if str_eq(name.as_str(), "_") {
                    return self.const_i64(0);
                }
                if matches!(ty, Type::Function { .. }) {
                    let is_main = str_eq(name.as_str(), "main");
                    let fname = self.mangle_name(name.as_str(), is_main);
                    return match ll::get_function(&self.module, fname.as_str()) {
                        Some(f) => self.function_address(f),
                        None => {
                            let mut m = owned("Function not found: ");
                            push_string(&mut m, &fname);
                            Err(m)
                        },
                    };
                }
                match self.lookup_variable(name.as_str()) {
                    Some(k) => {
                        let lt = self.llvm_type(&self.variables[k].ty);
                        let raw = lerr(ll::build_load(&mut self.builder, self.variables[k].ptr, name.as_str()))?;
                        Ok(Val { raw, ty: lt })
                    },
                    None => {
                        let mut m = owned("Var not found: ");
                        push_string(&mut m, name);
                        Err(m)
                    },
                }
            },
            HirExpr::Tuple { vals, ty, .. } => {
                let lt = self.llvm_type(ty);
                let bt = self.basic_type(&lt)?;
                let mut agg = lerr(ll::undef_struct(bt))?;
                let mut i: usize = 0;
                while i < vals.len()
                    invariant
                        self.loop_end_blocks@ == old(self).loop_end_blocks@,
                        self.loop_continue_blocks@ == old(self).loop_continue_blocks@,
                        emitted_grows(*old(self), *self),
                        i <= vals.len(),
                    decreases vals.len() - i,
                {
                    proof {
                        assert(decreases_to!(*e => *vals));
                        assert(decreases_to!(*vals => vals@));
                        assert(decreases_to!(vals@ => vals@[i as int]));
                    }
                    let v = self.gen_expr(&vals[i], depth)?;
                    if i > u32::MAX as usize {
                        return Err(owned("Tuple too large"));
                    }
                    agg = lerr(ll::build_insert_value(&self.builder, agg, v.raw, i as u32, "tuple"))?;
                    i = i + 1;
                }
                Ok(Val { raw: agg, ty: lt })
            },
            HirExpr::TupleIndex { tuple, index, ty, .. } => {
                let t = self.gen_expr(tuple, depth)?;
                match &t.ty {
                    LType::Struct(_) | LType::Named(_) => {},
                    _ => {
                        return Err(owned("Tuple index access requires a tuple value"));
                    },
                }
                if *index > u32::MAX as usize {
                    return Err(owned("Tuple index out of range"));
                }
                let raw = lerr(ll::build_extract_value(&self.builder, t.raw, *index as u32, "tuple_elem"))?;
                Ok(Val { raw, ty: self.llvm_type(ty) })
            },
            HirExpr::Binary { op, left, right, .. } => {
                let l = self.gen_expr(left, depth)?;
                let mut r = self.gen_expr(right, depth)?;
                match (&l.ty, &r.ty) {
                    (LType::Int(lw), LType::Int(rw)) => {
                        if *lw != *rw {
                            let bt = self.basic_type(&l.ty)?;
                            let raw = lerr(ll::build_int_cast(&self.builder, r.raw, bt, "binary_cast"))?;
                            r = Val { raw, ty: ltype_clone(&l.ty) };
                        }
                    },
                    _ => {},
                }
                self.generate_binary(*op, l, r)
            },
            HirExpr::Unary { op, expr, .. } => {
                match select_unary(*op) {
                    UnaryInstr::AddressOf => {
                        let p = self.gen_lvalue(expr, depth)?;
                        match expr.ty() {
                            Type::Array { size: Some(n), element_type } => {
                                let first = lerr(ll::build_bit_cast(&self.builder, p.raw, ll::ptr_type(self.context), "first_elem_ptr"))?;
                                let slice_ty = Type::Array { size: None, element_type: Box::new((**element_type).deep_clone()) };
                                let lt = self.llvm_type(&slice_ty);
                                let bt = self.basic_type(&lt)?;
                                let len = self.const_i64(*n as u64)?;
                                let undef = lerr(ll::undef_struct(bt))?;
                                let with_ptr = lerr(ll::build_insert_value(&self.builder, undef, first, 0, "slice_ptr"))?;
                                let raw = lerr(ll::build_insert_value(&self.builder, with_ptr, len.raw, 1, "slice_len"))?;
                                Ok(Val { raw, ty: lt })
                            },
                            _ => Ok(p),
                        }
                    },
                    UnaryInstr::Keep => self.gen_expr(expr, depth),
                    UnaryInstr::Negate => {
                        let v = self.gen_expr(expr, depth)?;
                        let raw = lerr(ll::build_int_neg(&mut self.builder, v.raw))?;
                        Ok(Val { raw, ty: v.ty })
                    },
                    UnaryInstr::IsZero => {
                        let v = self.gen_expr(expr, depth)?;
                        let zero = self.const_int_of(&v.ty, 0, false)?;
                        let raw = lerr(ll::build_int_compare(&mut self.builder, Comparison::Eq, v.raw, zero.raw, "not"))?;
                        Ok(Val { raw, ty: LType::Int(1) })
                    },
                }
            },
            HirExpr::Call { .. } => self.gen_call(e, depth),
            HirExpr::If { .. } => self.gen_if_expr(e, depth),
            HirExpr::Block { stmts, expr, .. } => {
                let mut i: usize = 0;
                while i < stmts.len()
                    invariant
                        self.loop_end_blocks@ == old(self).loop_end_blocks@,
                        self.loop_continue_blocks@ == old(self).loop_continue_blocks@,
                        emitted_grows(*old(self), *self),
                        i <= stmts.len(),
                    decreases stmts.len() - i,
                {
                    proof {
                        assert(decreases_to!(*e => *stmts));
                        assert(decreases_to!(*stmts => stmts@));
                        assert(decreases_to!(stmts@ => stmts@[i as int]));
                    }
                    self.gen_stmt(&stmts[i], depth)?;
                    i = i + 1;
                }
                match expr {
                    Some(x) => self.gen_expr(x, depth),
                    None => self.const_i64(0),
                }
            },
            HirExpr::MemberAccess { object, member, ty, .. } => {
                if matches!(ty, Type::Error) {
                    let error_name = match &**object {
                        HirExpr::Ident(obj_name, _, _) => {
                            let mut n = obj_name.clone();
                            push_str(&mut n, ".");
                            push_string(&mut n, member);
                            n
                        },
                        _ => member.clone(),
                    };
                    self.set_last_error_message(error_name.as_str())?;
                    return self.const_i64(1);
                }
                match &**object {
                    HirExpr::Ident(obj_name, _, _) => {
                        match self.enum_variant_index(obj_name.as_str(), member.as_str()) {
                            Some(Some(idx)) => {
                                return self.const_i64(idx);
                            },
                            Some(None) => {
                                let mut m = owned("Enum variant not found: ");
                                push_string(&mut m, obj_name);
                                push_str(&mut m, ".");
                                push_string(&mut m, member);
                                return Err(m);
                            },
                            None => {},
                        }
                        let k = match self.lookup_variable(obj_name.as_str()) {
                            Some(k) => k,
                            None => {
                                let mut m = owned("Variable type not found: ");
                                push_string(&mut m, obj_name);
                                return Err(m);
                            },
                        };
                        let (fp, fty) = self.variable_field_pointer(k, member.as_str())?;
                        let raw = lerr(ll::build_load(&mut self.builder, fp, member.as_str()))?;
                        Ok(Val { raw, ty: fty })
                    },
                    _ => {
                        let index: u32 = match crate::text::parse_u64(member.as_str()) {
                            Some(n) => if n <= u32::MAX as u64 { n as u32 } else { 0 },
                            None => 0,
                        };
                        let o = self.gen_expr(object, depth)?;
                        match &o.ty {
                            LType::Struct(_) | LType::Named(_) => {
                                let raw = lerr(ll::build_extract_value(&self.builder, o.raw, index, member.as_str()))?;
                                Ok(Val { raw, ty: self.llvm_type(ty) })
                            },
                            _ => self.const_i64(0),
                        }
                    },
                }
            },
            HirExpr::Struct { name, fields, ty, .. } => {
                let lt = self.llvm_type(ty);
                let sname = match ty {
                    Type::Custom { name: n, .. } => n.clone(),
                    _ => name.clone(),
                };
                let bt = self.basic_type(&lt)?;
                let mut agg = lerr(ll::undef_struct(bt))?;
                let mut i: usize = 0;
                while i < fields.len()
                    invariant
                        self.loop_end_blocks@ == old(self).loop_end_blocks@,
                        self.loop_continue_blocks@ == old(self).loop_continue_blocks@,
                        emitted_grows(*old(self), *self),
                        i <= fields.len(),
                    decreases fields.len() - i,
                {
                    proof {
                        assert(decreases_to!(*e => *fields));
                        assert(decreases_to!(*fields => fields@));
                        assert(decreases_to!(fields@ => fields@[i as int]));
                        assert(decreases_to!(fields@[i as int] => fields@[i as int].1));
                    }
                    let v = self.gen_expr(&fields[i].1, depth)?;
                    let (idx, fty) = match self.field_of(sname.as_str(), fields[i].0.as_str()) {
                        Some(x) => x,
                        None => {
                            let mut m = owned("Field '");
                            push_string(&mut m, &fields[i].0);
                            push_str(&mut m, "' not found in struct '");
                            push_string(&mut m, &sname);
                            push_str(&mut m, "'");
                            return Err(m);
                        },
                    };
                    let cv = self.coerce_to_llvm_type(v, &fty)?;
                    let mut label = sname.clone();
                    push_str(&mut label, ".");
                    push_string(&mut label, &fields[i].0);
                    agg = lerr(ll::build_insert_value(&self.builder, agg, cv.raw, idx, label.as_str()))?;
                    i = i + 1;
                }
                Ok(Val { raw: agg, ty: lt })
            },
            HirExpr::Cast { target_type, expr, .. } => {
                let v = self.gen_expr(expr, depth)?;
                let target = self.llvm_type(target_type);
                self.coerce_to_llvm_type(v, &target)
            },
            HirExpr::Dereference { expr, ty, .. } => {
                let p = self.gen_expr(expr, depth)?;
                let ptr = lerr(ll::as_pointer(p.raw))?;
                let raw = lerr(ll::build_load(&mut self.builder, ptr, "deref_load"))?;
                Ok(Val { raw, ty: self.llvm_type(ty) })
            },
            HirExpr::Array { vals, ty, .. } => {
                let expected = match ty {
                    Type::Array { element_type, .. } => &**element_type,
                    _ => {
                        return Err(owned("Array expression is missing an array type"));
                    },
                };
                let lt = self.llvm_type(ty);
                let mut raws: Vec<BasicValueEnum<'ctx>> = Vec::new();
                let mut i: usize = 0;
                while i < vals.len()
                    invariant
                        self.loop_end_blocks@ == old(self).loop_end_blocks@,
                        self.loop_continue_blocks@ == old(self).loop_continue_blocks@,
                        emitted_grows(*old(self), *self),
                        i <= vals.len(),
                    decreases vals.len() - i,
                {
                    proof {
                        assert(decreases_to!(*e => *vals));
                        assert(decreases_to!(*vals => vals@));
                        assert(decreases_to!(vals@ => vals@[i as int]));
                    }
                    let v = self.gen_expr(&vals[i], depth)?;
                    let cv = self.coerce_type(v, expected)?;
                    raws.push(cv.raw);
                    i = i + 1;
                }
                let elem = match &lt {
                    LType::Array(el, _) => ltype_clone(el),
                    _ => {
                        return Err(owned("Array expression needs a fixed size"));
                    },
                };
                let et = self.basic_type(&elem)?;
                let constant = match elem {
                    LType::Int(_) => {
                        let mut xs: Vec<IntValue<'ctx>> = Vec::new();
                        let mut j: usize = 0;
                        while j < raws.len()
                            invariant
                                self.loop_end_blocks@ == old(self).loop_end_blocks@,
                                self.loop_continue_blocks@ == old(self).loop_continue_blocks@,
                                emitted_grows(*old(self), *self),
                                j <= raws.len(),
                            decreases raws.len() - j,
                        {
                            xs.push(lerr(ll::as_int_value(raws[j]))?);
                            j = j + 1;
                        }
                        lerr(ll::const_int_array(et, &xs))?
                    },
                    LType::F32 | LType::F64 => {
                        let mut xs: Vec<FloatValue<'ctx>> = Vec::new();
                        let mut j: usize = 0;
                        while j < raws.len()
                            invariant
                                self.loop_end_blocks@ == old(self).loop_end_blocks@,
                                self.loop_continue_blocks@ == old(self).loop_continue_blocks@,
                                emitted_grows(*old(self), *self),
                                j <= raws.len(),
                            decreases raws.len() - j,
                        {
                            xs.push(lerr(ll::as_float_value(raws[j]))?);
                            j = j + 1;
                        }
                        lerr(ll::const_float_array(et, &xs))?
                    },
                    _ => {
                        return Err(owned("Unsupported array element type"));
                    },
                };
                let at = self.basic_type(&lt)?;
                let slot = lerr(ll::build_alloca(&mut self.builder, at, "array"))?;
                lerr(ll::build_store(&mut self.builder, slot, constant))?;
                let raw = lerr(ll::build_load(&mut self.builder, slot, "array_load"))?;
                Ok(Val { raw, ty: lt })
            },
            HirExpr::Index { object, index, ty, .. } => {
                let elem = match object.ty() {
                    Type::Array { element_type, .. } => self.llvm_type(element_type),
                    _ => {
                        return Err(owned("Indexing only supported on array or slice types"));
                    },
                };
                match &**index {
                    HirExpr::Binary { op: BinaryOp::Range, left, right, .. } => {
                        let start = self.gen_expr(left, depth)?;
                        let end = self.gen_expr(right, depth)?;
                        let base = self.array_base(object, depth)?;
                        let addr = self.element_address(base, &start, &elem)?;
                        let ptr = lerr(ll::build_int_to_ptr(&self.builder, self.context, addr, "slice_ptr"))?;
                        let len = lerr(ll::build_int_sub(&mut self.builder, end.raw, start.raw, "slice_len"))?;
                        let lt = self.llvm_type(ty);
                        let bt = self.basic_type(&lt)?;
                        let undef = lerr(ll::undef_struct(bt))?;
                        let with_ptr = lerr(ll::build_insert_value(&self.builder, undef, ptr, 0, "slice_ptr"))?;
                        let raw = lerr(ll::build_insert_value(&self.builder, with_ptr, len, 1, "slice_len"))?;
                        Ok(Val { raw, ty: lt })
                    },
                    _ => {
                        let p = self.gen_lvalue(e, depth)?;
                        let ptr = lerr(ll::as_pointer(p.raw))?;
                        let raw = lerr(ll::build_load(&mut self.builder, ptr, "index_load"))?;
                        Ok(Val { raw, ty: elem })
                    },
                }
            },
            HirExpr::Try { .. } => self.gen_try(e, depth),
            HirExpr::Catch { .. } => self.gen_catch(e, depth),
            HirExpr::Intrinsic { name, args, .. } => match lookup_intrinsic(name.as_str()) {
                None => {
                    let mut m = owned("Intrinsic function '");
                    push_string(&mut m, name);
                    push_str(&mut m, "' not found");
                    Err(m)
                },
                Some(IntrinsicKind::SizeOf) => {
                    if args.len() == 0 {
                        return Err(owned("Argument to @size_of must be a type literal"));
                    }
                    SizeOfIntrinsic.generate(&args[0])
                },
                Some(IntrinsicKind::AlignOf) => {
                    if args.len() == 0 {
                        return Err(owned("Argument to @align_of must be a type literal"));
                    }
                    AlignOfIntrinsic.generate(&args[0])
                },
                Some(kind) => {
                    if args.len() == 0 {
                        let mut m = owned("Intrinsic function '");
                        push_string(&mut m, name);
                        push_str(&mut m, "' expects an argument");
                        return Err(m);
                    }
                    match kind {
                        IntrinsicKind::TypeOf => TypeOfIntrinsic.generate(self, &args[0]),
                        _ => {
                            proof {
                                assert(decreases_to!(*e => *args));
                                assert(decreases_to!(*args => args@));
                                assert(decreases_to!(args@ => args@[0]));
                            }
                            let v = self.gen_expr(&args[0], depth)?;
                            if kind == IntrinsicKind::IsNull {
                                IsNullIntrinsic.generate(self, v)
                            } else {
                                IsNotNullIntrinsic.generate(self, v)
                            }
                        },
                    }
                },
            },
        }
    }

    /// The address of a function as a value of the byte pointer type that
    /// function values are held in.
    fn function_address(&self, f: inkwell::values::FunctionValue<'ctx>) -> (r: CodegenResult<Val<'ctx>>)
        ensures
            r matches Ok(v) ==> v.ty@ == LTypeV::Ptr,
    {
        let raw = lerr(ll::build_bit_cast(&self.builder, ll::function_pointer(f), ll::ptr_type(self.context), "fn_addr"))?;
        Ok(Val { raw, ty: LType::Ptr })
    }

    /// Where the elements of an array or slice start: the address of a
    /// fixed-size array, or the data pointer a slice holds.
    fn array_base(&mut self, object: &HirExpr, depth: usize) -> (r: CodegenResult<BasicValueEnum<'ctx>>)
        ensures
            final(self).loop_end_blocks@ == old(self).loop_end_blocks@,
            final(self).loop_continue_blocks@ == old(self).loop_continue_blocks@,
            emitted_grows(*old(self), *final(self)),
        decreases depth, object, 4nat,
    {
        match object.ty() {
            Type::Array { size: Some(_), .. } => {
                let p = self.gen_lvalue(object, depth)?;
                Ok(p.raw)
            },
            _ => {
                let s = self.gen_expr(object, depth)?;
                lerr(ll::build_extract_value(&self.builder, s.raw, 0, "slice_ptr"))
            },
        }
    }

    /// The integer address of element `index` of an array starting at
    /// `base`: `base + index * size_of(element)`, on 64-bit integers.
    fn element_address(&mut self, base: BasicValueEnum<'ctx>, index: &Val<'ctx>, elem: &LType) -> (r: CodegenResult<BasicValueEnum<'ctx>>)
        ensures
            final(self).loop_end_blocks@ == old(self).loop_end_blocks@,
            final(self).loop_continue_blocks@ == old(self).loop_continue_blocks@,
            emitted_grows(*old(self), *final(self)),
            only_emitted(*old(self), *final(self)),
            !(index.ty is Int) ==> (r matches Err(m) && m@ == "Index must be an integer"@),
    {
        if !matches!(index.ty, LType::Int(_)) {
            return Err(owned("Index must be an integer"));
        }
        let et = self.basic_type(elem)?;
        let size = match ll::size_of(et) {
            Some(x) => x,
            None => {
                return Err(owned("Unsupported array element type"));
            },
        };
        let i64t = self.basic_type(&LType::Int(64))?;
        let idx = lerr(ll::build_int_cast(&self.builder, index.raw, i64t, "index"))?;
        let start = lerr(ll::build_ptr_to_int(&self.builder, self.context, base, "elem_base"))?;
        let offset = lerr(ll::build_int_mul(&mut self.builder, idx, size, "elem_offset"))?;
        lerr(ll::build_int_add(&mut self.builder, start, offset, "elem_addr"))
    }

    /// The address of an l-value: a variable's slot, a field of a struct
    /// variable, or what a dereferenced pointer holds.
    fn gen_lvalue(&mut self, e: &HirExpr, depth: usize) -> (r: CodegenResult<Val<'ctx>>)
        ensures
            final(self).loop_end_blocks@ == old(self).loop_end_blocks@,
            final(self).loop_continue_blocks@ == old(self).loop_continue_blocks@,
            emitted_grows(*old(self), *final(self)),
            *e matches HirExpr::Ident(name, _, _) ==> (var_index(vars_view(old(self).variables@), name@) == -1 ==> (r matches Err(
                m,
            ) && m@ == "Variable not found for address-of: "@ + name@)),
            !(*e is Ident || *e is MemberAccess || *e is Index || *e is Dereference) ==> (r matches Err(m) && m@
                == "Expression is not an l-value (cannot take address)"@),
            *e matches HirExpr::Index { object, .. } ==> (!(hir_expr_type(*object) is Array) ==> (r matches Err(m) && m@
                == "Indexing only supported on array or slice types"@)),
            !(*e is Dereference) ==> (r matches Ok(v) ==> v.ty@ == LTypeV::Ptr),
        decreases depth, e, 2nat,
    {
        match e {
            HirExpr::Ident(name, _, _) => match self.lookup_variable(name.as_str()) {
                Some(k) => Ok(Val { raw: ll::pointer_value(self.variables[k].ptr), ty: LType::Ptr }),
                None => {
                    let mut m = owned("Variable not found for address-of: ");
                    push_string(&mut m, name);
                    Err(m)
                },
            },
            HirExpr::MemberAccess { object, member, .. } => {
                let obj = self.gen_lvalue(object, depth)?;
                let sname = Self::struct_of_type(object.ty())?;
                let (idx, _) = match self.field_of(sname.as_str(), member.as_str()) {
                    Some(x) => x,
                    None => {
                        let mut m = owned("Field '");
                        push_string(&mut m, member);
                        push_str(&mut m, "' not found in struct '");
                        push_string(&mut m, &sname);
                        push_str(&mut m, "'");
                        return Err(m);
                    },
                };
                if ll::get_struct_type(self.context, sname.as_str()).is_none() {
                    let mut m = owned("Struct type not found: ");
                    push_string(&mut m, &sname);
                    return Err(m);
                }
                let base = if matches!(object.ty(), Type::Pointer(_)) {
                    let p = lerr(ll::as_pointer(obj.raw))?;
                    lerr(ll::build_load(&mut self.builder, p, "deref_ptr"))?
                } else {
                    obj.raw
                };
                let fp = lerr(ll::build_struct_gep(&self.builder, base, idx, "field_ptr"))?;
                Ok(Val { raw: ll::pointer_value(fp), ty: LType::Ptr })
            },
            HirExpr::Index { object, index, .. } => {
                let elem = match object.ty() {
                    Type::Array { element_type, .. } => self.llvm_type(element_type),
                    _ => {
                        return Err(owned("Indexing only supported on array or slice types"));
                    },
                };
                let iv = self.gen_expr(index, depth)?;
                let base = self.array_base(object, depth)?;
                let addr = self.element_address(base, &iv, &elem)?;
                let et = self.basic_type(&elem)?;
                let raw = lerr(ll::build_int_to_ptr_of(&self.builder, addr, et, "index_ptr"))?;
                Ok(Val { raw, ty: LType::Ptr })
            },
            HirExpr::Dereference { expr, .. } => self.gen_expr(expr, depth),
            _ => Err(owned("Expression is not an l-value (cannot take address)")),
        }
    }

    /// Generates the instruction of a binary operator on two values.
    pub fn generate_binary(&mut self, op: BinaryOp, l: Val<'ctx>, r: Val<'ctx>) -> (res: CodegenResult<Val<'ctx>>)
        ensures
            final(self).loop_end_blocks@ == old(self).loop_end_blocks@,
            final(self).loop_continue_blocks@ == old(self).loop_continue_blocks@,
            only_emitted(*old(self), *final(self)),
            res is Ok ==> emitted_since(*old(self), *final(self)) == binary_emitted(
                binary_instr(op, l.ty is F32 || l.ty is F64),
                int_instr_text(op),
            ),
            emitted_grows(*old(self), *final(self)),
            res matches Ok(v) ==> v.ty@ == binary_result(binary_instr(op, l.ty is F32 || l.ty is F64), l.ty@),
    {
        let ghost before = self.builder.emitted@;
        let is_float = matches!(l.ty, LType::F32 | LType::F64);
        let name = int_instr_name(op);

        match select_binary(op, is_float) {
            BinaryInstr::Int(iop) => {
                let raw = match iop {
                    IntOp::Add => lerr(ll::build_int_add(&mut self.builder, l.raw, r.raw, name))?,
                    IntOp::Sub => lerr(ll::build_int_sub(&mut self.builder, l.raw, r.raw, name))?,
                    IntOp::Mul => lerr(ll::build_int_mul(&mut self.builder, l.raw, r.raw, name))?,
                    IntOp::UnsignedDiv => lerr(ll::build_int_unsigned_div(&mut self.builder, l.raw, r.raw, name))?,
                    IntOp::UnsignedRem => lerr(ll::build_int_unsigned_rem(&mut self.builder, l.raw, r.raw, name))?,
                    IntOp::SignedDiv => lerr(ll::build_int_signed_div(&mut self.builder, l.raw, r.raw, name))?,
                    IntOp::SignedRem => lerr(ll::build_int_signed_rem(&mut self.builder, l.raw, r.raw, name))?,
                    IntOp::And => lerr(ll::build_and(&mut self.builder, l.raw, r.raw, name))?,
                    IntOp::Or => lerr(ll::build_or(&mut self.builder, l.raw, r.raw, name))?,
                    IntOp::Xor => lerr(ll::build_xor(&mut self.builder, l.raw, r.raw, name))?,
                    IntOp::Shl => lerr(ll::build_left_shift(&mut self.builder, l.raw, r.raw, name))?,
                    IntOp::LogicalShr => lerr(ll::build_logical_right_shift(&mut self.builder, l.raw, r.raw, name))?,
                };
                proof {
                    crate::codegen::emit::lemma_since_push(before, ll::IrInstr::IntBinary(iop, name@));
                }
                Ok(Val { raw, ty: l.ty })
            },
            BinaryInstr::Float(fop) => {
                let raw = match fop {
                    FloatOp::Add => lerr(ll::build_float_add(&mut self.builder, l.raw, r.raw))?,
                    FloatOp::Sub => lerr(ll::build_float_sub(&mut self.builder, l.raw, r.raw))?,
                    FloatOp::Mul => lerr(ll::build_float_mul(&mut self.builder, l.raw, r.raw))?,
                    FloatOp::Div => lerr(ll::build_float_div(&mut self.builder, l.raw, r.raw))?,
                    FloatOp::Rem => lerr(ll::build_float_rem(&mut self.builder, l.raw, r.raw))?,
                };
                proof {
                    crate::codegen::emit::lemma_since_push(before, ll::IrInstr::FloatBinary(fop));
                }
                Ok(Val { raw, ty: l.ty })
            },
            BinaryInstr::IntCompare(c) => {
                let raw = lerr(ll::build_int_compare(&mut self.builder, c, l.raw, r.raw, comparison_name(c)))?;
                proof {
                    crate::codegen::emit::lemma_since_push(before, ll::IrInstr::IntCompare(false, c, comparison_text(c)));
                }
                Ok(Val { raw, ty: LType::Int(1) })
            },
            BinaryInstr::FloatCompare(c) => {
                let raw = lerr(ll::build_float_compare(&mut self.builder, c, l.raw, r.raw, float_comparison_name(c)))?;
                proof {
                    crate::codegen::emit::lemma_since_push(before, ll::IrInstr::FloatCompare(c, float_comparison_text(c)));
                }
                Ok(Val { raw, ty: LType::Int(1) })
            },
            BinaryInstr::RangePair => {
                let mut fs: Vec<LType> = Vec::new();
                fs.push(LType::Int(64));
                fs.push(LType::Int(64));
                let lt = LType::Struct(fs);
                proof {
                    crate::codegen::types::lemma_ltypes_view(fs@);
                    assert(ltypes_view(fs@) =~= seq![LTypeV::Int(64), LTypeV::Int(64)]);
                }
                let bt = self.basic_type(&lt)?;
                let undef = lerr(ll::undef_struct(bt))?;
                let with_start = lerr(ll::build_insert_value(&self.builder, undef, l.raw, 0, "range_start"))?;
                let raw = lerr(ll::build_insert_value(&self.builder, with_start, r.raw, 1, "range"))?;
                assert(self.builder.emitted@.subrange(before.len() as int, before.len() as int) =~= Seq::<ll::IrInstr>::empty());
                Ok(Val { raw, ty: lt })
            },
        }
    }
}

/// The instructions `generate_binary` builds for an instruction choice;
/// integer instructions carry `name`, comparisons the name of their
/// predicate. A range builds a struct value and no instruction of the model.
pub open spec fn binary_emitted(i: BinaryInstr, name: Seq<char>) -> Seq<ll::IrInstr> {
    match i {
        BinaryInstr::Int(iop) => seq![ll::IrInstr::IntBinary(iop, name)],
        BinaryInstr::Float(fop) => seq![ll::IrInstr::FloatBinary(fop)],
        BinaryInstr::IntCompare(c) => seq![ll::IrInstr::IntCompare(false, c, comparison_text(c))],
        BinaryInstr::FloatCompare(c) => seq![ll::IrInstr::FloatCompare(c, float_comparison_text(c))],
        BinaryInstr::RangePair => Seq::empty(),
    }
}

impl<'ctx> CodeGenerator<'ctx> {
    /// The module's `__lang_last_error_message` global (a string pointer,
    /// null at first), created on first use.
    pub fn get_or_create_last_error_global(&self) -> PointerValue<'ctx> {
        match ll::get_global(&self.module, "__lang_last_error_message") {
            Some(p) => p,
            None => {
                let pt = ll::ptr_type(self.context);
                let g = ll::add_global(&self.module, pt, "__lang_last_error_message");
                ll::set_initializer(g, ll::const_null_ptr(self.context));
                ll::global_pointer(g)
            },
        }
    }

    /// Stores null in the last error message.
    pub fn clear_last_error_message(&mut self) -> (r: CodegenResult<()>)
        ensures
            final(self).loop_end_blocks@ == old(self).loop_end_blocks@,
            final(self).loop_continue_blocks@ == old(self).loop_continue_blocks@,
            emitted_grows(*old(self), *final(self)),
            final(self).current_function == old(self).current_function,
    {
        let g = self.get_or_create_last_error_global();
        lerr(ll::build_store(&mut self.builder, g, ll::const_null_ptr(self.context)))
    }

    /// Stores a message in the last error message.
    pub fn set_last_error_message(&mut self, message: &str) -> (r: CodegenResult<()>)
        ensures
            final(self).loop_end_blocks@ == old(self).loop_end_blocks@,
            final(self).loop_continue_blocks@ == old(self).loop_continue_blocks@,
            emitted_grows(*old(self), *final(self)),
            final(self).current_function == old(self).current_function,
    {
        let g = self.get_or_create_last_error_global();
        let m = lerr(ll::build_global_string_ptr(&self.builder, message, "last_error_message"))?;
        lerr(ll::build_store(&mut self.builder, g, m))
    }

    /// Prints the last error message (blocks `main_error_print`,
    /// `main_error_print_fallback`, `main_error_print_done`), or `error`
    /// when there is none.
    pub fn emit_last_error_message(&mut self) -> (r: CodegenResult<()>)
        ensures
            final(self).loop_end_blocks@ == old(self).loop_end_blocks@,
            final(self).loop_continue_blocks@ == old(self).loop_continue_blocks@,
            emitted_grows(*old(self), *final(self)),
            final(self).current_function == old(self).current_function,
            old(self).current_function is None ==> (r matches Err(m) && m@ == "No current function"@),
    {
        let function = match self.current_function {
            Some(f) => f,
            None => {
                return Err(owned("No current function"));
            },
        };
        let g = self.get_or_create_last_error_global();
        let msg = lerr(ll::build_load(&mut self.builder, g, "last_error_message_ptr"))?;
        let has = lerr(ll::build_is_not_null(&self.builder, msg, "has_last_error_message"))?;
        let print_block = ll::append_block(self.context, function, "main_error_print");
        let fallback_block = ll::append_block(self.context, function, "main_error_print_fallback");
        let merge = ll::append_block(self.context, function, "main_error_print_done");
        lerr(ll::build_cond_branch(&mut self.builder, has, print_block, fallback_block))?;
        ll::position_at_end(&mut self.builder, print_block);
        let printf = self.get_or_create_printf()?;
        let fmt = lerr(ll::build_global_string_ptr(&self.builder, "%s\n", "main_error_fmt"))?;
        let mut xs: Vec<BasicValueEnum<'ctx>> = Vec::new();
        xs.push(fmt);
        xs.push(msg);
        let _ = lerr(ll::build_call(&self.builder, printf, &xs, ""))?;
        lerr(ll::build_branch(&mut self.builder, merge))?;
        ll::position_at_end(&mut self.builder, fallback_block);
        let fallback = lerr(ll::build_global_string_ptr(&self.builder, "error\n", "main_error"))?;
        let mut ys: Vec<BasicValueEnum<'ctx>> = Vec::new();
        ys.push(fallback);
        let _ = lerr(ll::build_call(&self.builder, printf, &ys, ""))?;
        lerr(ll::build_branch(&mut self.builder, merge))?;
        ll::position_at_end(&mut self.builder, merge);
        Ok(())
    }

    /// Prints the last error message and returns 1 from `main`.
    pub fn emit_main_error_exit(&mut self) -> (r: CodegenResult<()>)
        ensures
            final(self).loop_end_blocks@ == old(self).loop_end_blocks@,
            final(self).loop_continue_blocks@ == old(self).loop_continue_blocks@,
            emitted_grows(*old(self), *final(self)),
            final(self).current_function == old(self).current_function,
            old(self).current_function is None ==> (r matches Err(m) && m@ == "No current function"@),
            r is Ok ==> ends_with(*final(self), seq![ll::IrInstr::Return]),
    {
        self.emit_last_error_message()?;
        let one = self.const_i64(1)?;
        let ghost mid = self.builder.emitted@;
        let r = lerr(ll::build_return_value(&mut self.builder, one.raw));
        proof {
            crate::codegen::emit::lemma_since_push(mid, ll::IrInstr::Return);
        }
        r
    }

    /// Whether the function being generated is `main`.
    pub fn current_function_is_main(&self) -> (r: bool)
        ensures
            self.current_function is None ==> !r,
    {
        match self.current_function {
            Some(f) => match ll::get_function(&self.module, "main") {
                Some(m) => crate::codegen::emit::same_function(f, m),
                None => false,
            },
            None => false,
        }
    }

    /// The field types of a struct value's type, if it is a struct.
    #[verifier::loop_isolation(false)]
    pub(crate) fn struct_fields_of(&self, t: &LType) -> (r: Option<Vec<LType>>)
        ensures
            *t matches LType::Struct(fs) ==> (r matches Some(v) && ltypes_view(v@) == ltypes_view(fs@)),
            !(*t is Struct || *t is Named) ==> r is None,
            *t matches LType::Named(n) ==> match r {
                Some(v) => exists|i: int| 0 <= i < self.structs@.len() && #[trigger] self.structs@[i].name@ == n@
                    && ltypes_view(v@) == ltypes_view(self.structs@[i].types@),
                None => forall|i: int| 0 <= i < self.structs@.len() ==> #[trigger] self.structs@[i].name@ != n@,
            },
    {
        match t {
            LType::Struct(fs) => Some(crate::codegen::types::ltypes_clone(fs)),
            LType::Named(n) => {
                let mut i: usize = 0;
                while i < self.structs.len()
                    invariant
                        i <= self.structs@.len(),
                        forall|j: int| 0 <= j < i ==> #[trigger] self.structs@[j].name@ != n@,
                    decreases self.structs@.len() - i,
                {
                    if str_eq(self.structs[i].name.as_str(), n.as_str()) {
                        return Some(crate::codegen::types::ltypes_clone(&self.structs[i].types));
                    }
                    i = i + 1;
                }
                None
            },
            _ => None,
        }
    }
}

/// How deeply deferred statements may run inside one another.
pub const DEFER_DEPTH: usize = 64;

impl<'ctx> CodeGenerator<'ctx> {
    /// Generates an expression and hands back its value.
    pub fn generate_hir_expr(&mut self, e: &HirExpr) -> (r: CodegenResult<Val<'ctx>>)
        ensures
            final(self).loop_end_blocks@ == old(self).loop_end_blocks@,
            final(self).loop_continue_blocks@ == old(self).loop_continue_blocks@,
            emitted_grows(*old(self), *final(self)),
            *e matches HirExpr::Ident(name, ty, _) ==> (name@ != "_"@ && !(ty is Function) && var_index(
                vars_view(old(self).variables@),
                name@,
            ) == -1 ==> (r matches Err(m) && m@ == "Var not found: "@ + name@)),
            *e matches HirExpr::Intrinsic { name, .. } ==> (intrinsic_named(name@) is None ==> (r matches Err(m) && m@
                == "Intrinsic function '"@ + name@ + "' not found"@)),
            *e matches HirExpr::Index { object, .. } ==> (!(hir_expr_type(*object) is Array) ==> (r matches Err(m) && m@
                == "Indexing only supported on array or slice types"@)),
            *e matches HirExpr::Array { ty, .. } ==> (!(ty is Array) ==> (r matches Err(m) && m@
                == "Array expression is missing an array type"@)),
            expr_value_type(*e, struct_names(old(self).structs@)) matches Some(t) ==> (r matches Ok(v) ==> v.ty@ == t),
            *e matches HirExpr::MemberAccess { object, member, ty, .. } ==> (!(ty is Error) ==> (*object matches HirExpr::Ident(
                obj,
                _,
                _,
            ) ==> (variant_lookup(old(self).enum_variants@, obj@, member@) == Some(None::<int>) ==> (r matches Err(m) && m@
                == "Enum variant not found: "@ + obj@ + "."@ + member@)))),
            *e matches HirExpr::Ident(name, ty, _) ==> (r matches Ok(v) ==> v.ty@ == ident_value_type(
                name@,
                ty,
                vars_view(old(self).variables@),
                struct_names(old(self).structs@),
            )),
            *e matches HirExpr::Int(n, _, _) ==> (emitted_since(*old(self), *final(self)).len() == 1 && (emitted_since(
                *old(self),
                *final(self),
            )[0] matches ll::IrInstr::IntConst(x, _) && x == n as u64)),
            *e matches HirExpr::Bool(b, _, _) ==> emitted_since(*old(self), *final(self)) == seq![
                ll::IrInstr::IntConst(if b { 1 } else { 0 }, false),
            ],
            *e is Int || *e is Bool ==> r is Ok,
    {
        self.gen_expr(e, DEFER_DEPTH)
    }

    /// Generates a statement.
    pub fn generate_hir_stmt(&mut self, stmt: &HirStmt) -> (r: CodegenResult<()>)
        ensures
            final(self).loop_end_blocks@ == old(self).loop_end_blocks@,
            final(self).loop_continue_blocks@ == old(self).loop_continue_blocks@,
            emitted_grows(*old(self), *final(self)),
            *stmt matches HirStmt::For { var_name: Some(x), .. } ==> (r is Ok ==> var_index(vars_view(final(self).variables@), x@) == -1),
            *stmt matches HirStmt::For { index_var: Some(x), .. } ==> (r is Ok ==> var_index(vars_view(final(self).variables@), x@) == -1),
            *stmt matches HirStmt::Break { label, span } ==> (find_target(old(self).loop_end_blocks@, label_view(label)) is None
                ==> (r matches Err(m) && m@ == jump_error("break"@, label_view(label), span))),
            *stmt matches HirStmt::Continue { label, span } ==> (find_target(old(self).loop_continue_blocks@, label_view(label))
                is None ==> (r matches Err(m) && m@ == jump_error("continue"@, label_view(label), span))),
            *stmt matches HirStmt::Assign { op, .. } ==> (op != AssignOp::Assign ==> (r matches Err(m) && m@
                == "Compound assignment "@ + assign_debug(op) + " should have been lowered"@)),
            *stmt matches HirStmt::Let { name, ty, .. } ==> (r is Ok ==> vars_view(final(self).variables@).len() > 0
                && vars_view(final(self).variables@).last() == (name@, ty@)),
            *stmt matches HirStmt::Let { name, value, .. } ==> (r is Ok ==> emitted_since(*old(self), *final(self)).len() > 0
                && emitted_since(*old(self), *final(self))[0] == ll::IrInstr::Alloca(name@) && (value is Some ==> ends_with(
                *final(self),
                seq![ll::IrInstr::Store],
            ))),
            *stmt matches HirStmt::Assign { target, op, .. } ==> (op == AssignOp::Assign && target@ != "_"@ && r is Ok
                ==> ends_with(*final(self), seq![ll::IrInstr::Store])),
            *stmt matches HirStmt::Return(Some(_), _) ==> (r is Ok ==> ends_with(*final(self), seq![ll::IrInstr::Return])),
            *stmt matches HirStmt::Break { label, .. } ==> (find_target(old(self).loop_end_blocks@, label_view(label)) is None
                ==> *final(self) == *old(self)),
            *stmt matches HirStmt::Continue { label, .. } ==> (find_target(old(self).loop_continue_blocks@, label_view(label))
                is None ==> *final(self) == *old(self)),
            *stmt matches HirStmt::Break { label, .. } ==> (r is Ok ==> ends_with(*final(self), seq![ll::IrInstr::Branch])),
            *stmt matches HirStmt::Continue { label, .. } ==> (r is Ok ==> ends_with(*final(self), seq![ll::IrInstr::Branch])),
            *stmt is If && r is Ok ==> built_since(*old(self), *final(self), ll::IrInstr::CondBranch),
            *stmt matches HirStmt::For { iterable, .. } ==> (for_kind(iterable, struct_names(old(self).structs@)) == Some(
                LoopKind::Range,
            ) && r is Ok ==> built_since(
                *old(self),
                *final(self),
                ll::IrInstr::IntCompare(true, Comparison::Lt, "range_cmp"@),
            )),
            *stmt matches HirStmt::For { iterable, .. } ==> (for_kind(iterable, struct_names(old(self).structs@)) == Some(
                LoopKind::Array,
            ) && r is Ok ==> built_since(
                *old(self),
                *final(self),
                ll::IrInstr::IntCompare(true, Comparison::Lt, "array_cmp"@),
            )),
            *stmt matches HirStmt::Let { ty, value: Some(HirExpr::Int(_, lt, _)), .. } ==> (old(self).builder.positioned@
                && ltype_of(ty@, struct_names(old(self).structs@)) is Int && literal_ltype(lt@, struct_names(old(self).structs@)) == ltype_of(
                ty@,
                struct_names(old(self).structs@),
            ) ==> r is Ok),
            *stmt matches HirStmt::Assign { target, op, value: HirExpr::Int(_, lt, _), .. } ==> ({
                let parts = crate::codegen::names::target_parts(target@, Seq::empty());
                let k = var_index(vars_view(old(self).variables@), parts[0]);
                old(self).builder.positioned@ && op == AssignOp::Assign && target@ != "_"@ && parts.len() == 1 && k >= 0 && literal_ltype(
                    lt@,
                    struct_names(old(self).structs@),
                ) == ltype_of(vars_view(old(self).variables@)[k].1, struct_names(old(self).structs@)) ==> r is Ok
            }),
            *stmt matches HirStmt::Return(Some(HirExpr::Int(_, lt, _)), _) ==> (old(self).builder.positioned@
                && old(self).defer_stack@.len() == 0 && old(self).return_type is Some && !(old(self).return_type->0@ is Result)
                && literal_ltype(lt@, struct_names(old(self).structs@)) == LTypeV::Int(64) && ltype_of(old(self).return_type->0@, struct_names(old(self).structs@)) == LTypeV::Int(64) ==> r is Ok),
    {
        self.gen_stmt(stmt, DEFER_DEPTH)
    }
}

/// The name given to the integer instruction of a binary operator.
pub open spec fn int_instr_text(op: BinaryOp) -> Seq<char> {
    match op {
        BinaryOp::Add => "add"@,
        BinaryOp::Sub => "sub"@,
        BinaryOp::Mul => "mul"@,
        BinaryOp::Div => "div"@,
        BinaryOp::Mod => "mod"@,
        BinaryOp::And => "and"@,
        BinaryOp::Or => "or"@,
        BinaryOp::BitAnd => "bitand"@,
        BinaryOp::BitOr => "bitor"@,
        BinaryOp::BitXor => "bitxor"@,
        BinaryOp::Shl => "shl"@,
        BinaryOp::Shr => "shr"@,
        _ => "binop"@,
    }
}

/// The name given to an integer comparison.
pub open spec fn comparison_text(c: Comparison) -> Seq<char> {
    match c {
        Comparison::Eq => "eq"@,
        Comparison::Ne => "ne"@,
        Comparison::Lt => "lt"@,
        Comparison::Gt => "gt"@,
        Comparison::Le => "le"@,
        Comparison::Ge => "ge"@,
    }
}

/// The name given to a floating-point comparison.
pub open spec fn float_comparison_text(c: Comparison) -> Seq<char> {
    match c {
        Comparison::Eq => "feq"@,
        Comparison::Ne => "fne"@,
        Comparison::Lt => "flt"@,
        Comparison::Gt => "fgt"@,
        Comparison::Le => "fle"@,
        Comparison::Ge => "fge"@,
    }
}

/// The struct a variable's type designates: a struct type, or a pointer
/// to one.
pub open spec fn designated_struct(ty: Type) -> Option<Seq<char>> {
    match ty {
        Type::Custom { name, .. } => Some(name@),
        Type::Pointer(inner) => match *inner {
            Type::Custom { name, .. } => Some(name@),
            _ => None,
        },
        _ => None,
    }
}

/// The name of the integer instruction of a binary operator.
fn int_instr_name(op: BinaryOp) -> (r: &'static str)
    ensures
        r@ == int_instr_text(op),
{
    match op {
        BinaryOp::Add => "add",
        BinaryOp::Sub => "sub",
        BinaryOp::Mul => "mul",
        BinaryOp::Div => "div",
        BinaryOp::Mod => "mod",
        BinaryOp::And => "and",
        BinaryOp::Or => "or",
        BinaryOp::BitAnd => "bitand",
        BinaryOp::BitOr => "bitor",
        BinaryOp::BitXor => "bitxor",
        BinaryOp::Shl => "shl",
        BinaryOp::Shr => "shr",
        _ => "binop",
    }
}

/// The name of the instruction of a comparison.
pub(crate) fn comparison_name(c: Comparison) -> (r: &'static str)
    ensures
        r@ == comparison_text(c),
{
    match c {
        Comparison::Eq => "eq",
        Comparison::Ne => "ne",
        Comparison::Lt => "lt",
        Comparison::Gt => "gt",
        Comparison::Le => "le",
        Comparison::Ge => "ge",
    }
}


/// The name of the instruction of a floating-point comparison.
fn float_comparison_name(c: Comparison) -> (r: &'static str)
    ensures
        r@ == float_comparison_text(c),
{
    match c {
        Comparison::Eq => "feq",
        Comparison::Ne => "fne",
        Comparison::Lt => "flt",
        Comparison::Gt => "fgt",
        Comparison::Le => "fle",
        Comparison::Ge => "fge",
    }
}

impl<'ctx> CodeGenerator<'ctx> {
    /// The `printf` function, declared on first use (`i64 (i8*, ...)`).
    pub fn get_or_create_printf(&self) -> (r: CodegenResult<inkwell::values::FunctionValue<'ctx>>)
        ensures
            r is Ok,
    {
        match ll::get_function(&self.module, "printf") {
            Some(f) => Ok(f),
            None => {
                let mut ps: Vec<BasicTypeEnum<'ctx>> = Vec::new();
                ps.push(ll::ptr_type(self.context));
                let i64t = self.basic_type(&LType::Int(64))?;
                let fty = ll::variadic_fn_type(i64t, &ps);
                Ok(ll::add_external_function(&self.module, "printf", fty))
            },
        }
    }

    /// Generates `io.println(..)`: with no argument a newline; with a
    /// format string first, a `printf` of its rewrite with the arguments its
    /// placeholders take (booleans printed as `true`/`false`); with another
    /// first argument, that value printed by its kind.
    #[verifier::loop_isolation(false)]
    fn gen_println(&mut self, e: &HirExpr, depth: usize) -> (r: CodegenResult<Val<'ctx>>)
        ensures
            final(self).loop_end_blocks@ == old(self).loop_end_blocks@,
            final(self).loop_continue_blocks@ == old(self).loop_continue_blocks@,
            emitted_grows(*old(self), *final(self)),
            !(*e is Call) ==> (r matches Err(m) && m@ == "Call expected"@),
            *e matches HirExpr::Call { args, .. } ==> (args@.len() == 0 ==> (r matches Ok(v) ==> v.ty@ == LTypeV::Int(64))),
        decreases depth, e, 1nat,
    {
        let args = match e {
            HirExpr::Call { args, .. } => args,
            _ => {
                return Err(owned("Call expected"));
            },
        };
        let printf = self.get_or_create_printf()?;
        if args.len() == 0 {
            let nl = lerr(ll::build_global_string_ptr(&self.builder, "\n", "empty"))?;
            let mut xs: Vec<BasicValueEnum<'ctx>> = Vec::new();
            xs.push(nl);
            let _ = lerr(ll::build_call(&self.builder, printf, &xs, ""))?;
            return self.const_i64(0);
        }
        match &args[0] {
            HirExpr::String(fmt, _, _) => {
                let (text, specs) = parse_hir_format_string(fmt.as_str(), args.len() - 1);
                let f = lerr(ll::build_global_string_ptr(&self.builder, text.as_str(), "fmt"))?;
                let mut xs: Vec<BasicValueEnum<'ctx>> = Vec::new();
                xs.push(f);
                let true_str = lerr(ll::build_global_string_ptr(&self.builder, "true", "true_str"))?;
                let false_str = lerr(ll::build_global_string_ptr(&self.builder, "false", "false_str"))?;
                let mut i: usize = 0;
                while i < specs.len()
                    invariant
                        self.loop_end_blocks@ == old(self).loop_end_blocks@,
                        self.loop_continue_blocks@ == old(self).loop_continue_blocks@,
                        emitted_grows(*old(self), *self),
                        i <= specs.len(),
                    decreases specs.len() - i,
                {
                    let (idx, kind) = specs[i];
                    if idx < args.len() && idx + 1 < args.len() {
                        proof {
                            assert(decreases_to!(*e => *args));
                            assert(decreases_to!(*args => args@));
                            assert(decreases_to!(args@ => args@[idx + 1]));
                        }
                        let v = self.gen_expr(&args[idx + 1], depth)?;
                        match kind {
                            PrintfArgKind::Boolean => {
                                let c = self.condition_to_i1(v)?;
                                let sel = self.select_text(c, true_str, false_str)?;
                                xs.push(sel);
                            },
                            _ => {
                                let w = self.widen_printf_arg(v, kind)?;
                                xs.push(w.raw);
                            },
                        }
                    }
                    i = i + 1;
                }
                let _ = lerr(ll::build_call(&self.builder, printf, &xs, ""))?;
            },
            _ => {
                let v = self.gen_expr(&args[0], depth)?;
                let (fmt, arg) = match &v.ty {
                    LType::Ptr => ("%s\n", v),
                    LType::Struct(fs) => {
                        if fs.len() == 2 && matches!(fs[0], LType::Ptr) && matches!(fs[1], LType::Int(_)) {
                            let raw = lerr(ll::build_extract_value(&self.builder, v.raw, 0, "slice_ptr"))?;
                            ("%s\n", Val { raw, ty: LType::Ptr })
                        } else {
                            ("%lld\n", self.widen_printf_arg(v, PrintfArgKind::Integer)?)
                        }
                    },
                    LType::F32 | LType::F64 => ("%f\n", self.widen_printf_arg(v, PrintfArgKind::Float)?),
                    _ => ("%lld\n", self.widen_printf_arg(v, PrintfArgKind::Integer)?),
                };
                let f = lerr(ll::build_global_string_ptr(&self.builder, fmt, "fmt"))?;
                let mut xs: Vec<BasicValueEnum<'ctx>> = Vec::new();
                xs.push(f);
                xs.push(arg.raw);
                let _ = lerr(ll::build_call(&self.builder, printf, &xs, ""))?;
            },
        }
        self.const_i64(0)
    }

    /// Chooses between two texts by a condition, through a branch and a
    /// merge.
    fn select_text(&mut self, c: Val<'ctx>, a: BasicValueEnum<'ctx>, b: BasicValueEnum<'ctx>) -> (r: CodegenResult<BasicValueEnum<'ctx>>)
        ensures
            final(self).loop_end_blocks@ == old(self).loop_end_blocks@,
            final(self).loop_continue_blocks@ == old(self).loop_continue_blocks@,
            emitted_grows(*old(self), *final(self)),
            old(self).current_function is None ==> (r matches Err(m) && m@ == "No current function"@),
    {
        let then_block = self.new_block("bool_true")?;
        let else_block = self.new_block("bool_false")?;
        let merge = self.new_block("bool_str")?;
        lerr(ll::build_cond_branch(&mut self.builder, c.raw, then_block, else_block))?;
        ll::position_at_end(&mut self.builder, then_block);
        lerr(ll::build_branch(&mut self.builder, merge))?;
        ll::position_at_end(&mut self.builder, else_block);
        lerr(ll::build_branch(&mut self.builder, merge))?;
        ll::position_at_end(&mut self.builder, merge);
        let pt = ll::ptr_type(self.context);
        let phi = lerr(ll::build_phi(&self.builder, pt, "bool_str"))?;
        ll::phi_add_two(phi, a, then_block, b, else_block);
        Ok(ll::phi_value(phi))
    }

    /// Widens a value for `printf` as `printf_widening` says.
    pub fn widen_printf_arg(&self, v: Val<'ctx>, kind: PrintfArgKind) -> (r: CodegenResult<Val<'ctx>>)
        ensures
            r matches Ok(x) ==> x.ty@ == widened_type(printf_widening(kind, v.ty@), v.ty@),
            printf_widening(kind, v.ty@) == Widening::Keep ==> r == Ok::<Val<'ctx>, String>(v),
    {
        match promote_printf_arg(kind, &v.ty) {
            Widening::Keep => Ok(v),
            Widening::ZeroExtend(w) => {
                let t = LType::Int(w);
                let bt = self.basic_type(&t)?;
                let raw = lerr(ll::build_int_z_extend(&self.builder, v.raw, bt, "printf_bool"))?;
                Ok(Val { raw, ty: t })
            },
            Widening::SignExtend(w) => {
                let t = LType::Int(w);
                let bt = self.basic_type(&t)?;
                let raw = lerr(ll::build_int_s_extend(&self.builder, v.raw, bt, "printf_int"))?;
                Ok(Val { raw, ty: t })
            },
            Widening::FloatToDouble => {
                let bt = self.basic_type(&LType::F64)?;
                let raw = lerr(ll::build_float_cast(&self.builder, v.raw, bt, "printf_float"))?;
                Ok(Val { raw, ty: LType::F64 })
            },
        }
    }

    /// Generates a call: `io.println`, a method on a struct variable (with
    /// the variable's address first when the method takes one more
    /// argument), or a function of this module or of an imported package.
    #[verifier::loop_isolation(false)]
    fn gen_call(&mut self, e: &HirExpr, depth: usize) -> (r: CodegenResult<Val<'ctx>>)
        ensures
            final(self).loop_end_blocks@ == old(self).loop_end_blocks@,
            final(self).loop_continue_blocks@ == old(self).loop_continue_blocks@,
            emitted_grows(*old(self), *final(self)),
            !(*e is Call) ==> (r matches Err(m) && m@ == "Call expected"@),
        decreases depth, e, 2nat,
    {
        let (name, namespace, args, return_ty) = match e {
            HirExpr::Call { name, namespace, args, return_ty, .. } => (name, namespace, args, return_ty),
            _ => {
                return Err(owned("Call expected"));
            },
        };
        if namespace.is_none() {
            match self.lookup_variable(name.as_str()) {
                Some(k) => {
                    let sig = match &self.variables[k].ty {
                        Type::Function { params, return_type } => Some((crate::ast::clone_types(params), (**return_type).deep_clone())),
                        _ => None,
                    };
                    match sig {
                        Some((params, ret_t)) => {
                            let fp = lerr(ll::build_load(&mut self.builder, self.variables[k].ptr, name.as_str()))?;
                            let xs = self.gen_call_args(e, depth)?;
                            let fty = self.build_function_type(&ret_t, &params, false)?;
                            let p = lerr(ll::build_fn_pointer_cast(&self.builder, fp, fty, "cast_fn"))?;
                            let ret = match self.llvm_function_return_type(&ret_t, false) {
                                Some(t) => t,
                                None => LType::Int(64),
                            };
                            return match lerr(ll::build_pointer_call(&self.builder, p, &xs, "indirect_call"))? {
                                Some(v) => Ok(Val { raw: v, ty: ret }),
                                None => self.const_i64(0),
                            };
                        },
                        None => {},
                    }
                },
                None => {},
            }
        }
        let ns_var = match namespace {
            Some(ns) => self.lookup_variable(ns.as_str()),
            None => None,
        };
        let package = match namespace {
            Some(ns) => self.package_of(ns.as_str()),
            None => None,
        };
        let plan = match ns_var {
            Some(k) => plan_call(self.module_name.as_str(), namespace, name.as_str(), Some(&self.variables[k].ty), &package),
            None => plan_call(self.module_name.as_str(), namespace, name.as_str(), None, &package),
        };
        let (symbol, is_method) = match plan {
            CallPlan::Println => {
                return self.gen_println(e, depth);
            },
            CallPlan::Direct(s) => (s, false),
            CallPlan::MethodOrField(s) => (s, true),
        };
        let (function, needs_self) = match ll::get_function(&self.module, symbol.as_str()) {
            Some(f) => (f, is_method),
            None => {
                if is_method {
                    match ns_var {
                        Some(k) => {
                            let has_struct = match &self.variables[k].ty {
                                Type::Custom { name: tname, .. } => ll::get_struct_type(self.context, tname.as_str()).is_some(),
                                _ => false,
                            };
                            if has_struct {
                                return self.gen_field_pointer_call(e, k, depth);
                            }
                        },
                        None => {},
                    }
                }
                match ll::get_function(&self.module, name.as_str()) {
                    Some(f) => (f, false),
                    None => {
                        let mut m = owned("Fn not found: ");
                        if is_method {
                            push_string(&mut m, name);
                            push_str(&mut m, "__fn_ptr_field");
                        } else {
                            push_string(&mut m, &symbol);
                        }
                        push_str(&mut m, " (original: ");
                        push_string(&mut m, name);
                        push_str(&mut m, ")");
                        return Err(m);
                    },
                }
            },
        };
        let ret = match self.find_function(symbol.as_str()) {
            Some(k) => match &self.functions[k].ret {
                Some(t) => ltype_clone(t),
                None => LType::Int(64),
            },
            None => self.llvm_type(return_ty),
        };
        let mut xs: Vec<BasicValueEnum<'ctx>> = Vec::new();
        if needs_self && (args.len() as u64) < (u32::MAX as u64) && ll::count_params(function) as u64 == args.len() as u64 + 1 {
            match ns_var {
                Some(v) => xs.push(ll::pointer_value(self.variables[v].ptr)),
                None => {},
            }
        }
        let rest = self.gen_call_args(e, depth)?;
        let mut i: usize = 0;
        while i < rest.len()
            invariant
                self.loop_end_blocks@ == old(self).loop_end_blocks@,
                self.loop_continue_blocks@ == old(self).loop_continue_blocks@,
                emitted_grows(*old(self), *self),
                i <= rest.len(),
            decreases rest.len() - i,
        {
            xs.push(rest[i]);
            i = i + 1;
        }
        match lerr(ll::build_call(&self.builder, function, &xs, "call"))? {
            Some(v) => Ok(Val { raw: v, ty: ret }),
            None => self.const_i64(0),
        }
    }

    /// The values of a call's arguments, generated in order.
    #[verifier::loop_isolation(false)]
    fn gen_call_args(&mut self, e: &HirExpr, depth: usize) -> (r: CodegenResult<Vec<BasicValueEnum<'ctx>>>)
        ensures
            final(self).loop_end_blocks@ == old(self).loop_end_blocks@,
            final(self).loop_continue_blocks@ == old(self).loop_continue_blocks@,
            emitted_grows(*old(self), *final(self)),
            !(*e is Call) ==> (r matches Ok(v) && v@.len() == 0),
            *e matches HirExpr::Call { args, .. } ==> (r matches Ok(v) ==> v@.len() == args@.len()),
        decreases depth, e, 0nat,
    {
        let args = match e {
            HirExpr::Call { args, .. } => args,
            _ => {
                return Ok(Vec::new());
            },
        };
        let mut xs: Vec<BasicValueEnum<'ctx>> = Vec::new();
        let mut i: usize = 0;
        while i < args.len()
            invariant
                self.loop_end_blocks@ == old(self).loop_end_blocks@,
                self.loop_continue_blocks@ == old(self).loop_continue_blocks@,
                emitted_grows(*old(self), *self),
                i <= args.len(),
                xs@.len() == i,
            decreases args.len() - i,
        {
            proof {
                assert(decreases_to!(*e => *args));
                assert(decreases_to!(*args => args@));
                assert(decreases_to!(args@ => args@[i as int]));
            }
            let v = self.gen_expr(&args[i], depth)?;
            xs.push(v.raw);
            i = i + 1;
        }
        Ok(xs)
    }

    /// A call `v.f(..)` on a struct variable whose type has no method `f`:
    /// a call through the function pointer held in the struct's first
    /// field, typed as taking nothing and returning `i64`.
    fn gen_field_pointer_call(&mut self, e: &HirExpr, var: usize, depth: usize) -> (r: CodegenResult<Val<'ctx>>)
        requires
            var < old(self).variables@.len(),
        ensures
            final(self).loop_end_blocks@ == old(self).loop_end_blocks@,
            final(self).loop_continue_blocks@ == old(self).loop_continue_blocks@,
            emitted_grows(*old(self), *final(self)),
            r matches Ok(v) ==> v.ty@ == LTypeV::Int(64),
        decreases depth, e, 1nat,
    {
        let base = ll::pointer_value(self.variables[var].ptr);
        let fp = lerr(ll::build_struct_gep(&self.builder, base, 0, "field_ptr"))?;
        let loaded = lerr(ll::build_load(&mut self.builder, fp, "fn_ptr"))?;
        let i64t = self.basic_type(&LType::Int(64))?;
        let fty = ll::fn_type(i64t, &Vec::new());
        let xs = self.gen_call_args(e, depth)?;
        let p = lerr(ll::build_fn_pointer_cast(&self.builder, loaded, fty, "cast_fn"))?;
        match lerr(ll::build_pointer_call(&self.builder, p, &xs, "indirect_call"))? {
            Some(v) => Ok(Val { raw: v, ty: LType::Int(64) }),
            None => self.const_i64(0),
        }
    }

    /// Generates `try expr`: in a function returning a result, an error
    /// runs the `defer!` statements and leaves the function (printing the
    /// error and returning 1 from `main`, handing the result on elsewhere),
    /// and a success gives the payload; elsewhere the value itself.
    fn gen_try(&mut self, e: &HirExpr, depth: usize) -> (r: CodegenResult<Val<'ctx>>)
        ensures
            final(self).loop_end_blocks@ == old(self).loop_end_blocks@,
            final(self).loop_continue_blocks@ == old(self).loop_continue_blocks@,
            emitted_grows(*old(self), *final(self)),
            !(*e is Try) ==> (r matches Err(m) && m@ == "Try expected"@),
        decreases depth, e, 2nat,
    {
        let inner = match e {
            HirExpr::Try { expr, .. } => expr,
            _ => {
                return Err(owned("Try expected"));
            },
        };
        let v = self.gen_expr(inner, depth)?;
        let is_result = match &self.return_type {
            Some(t) => t.is_result(),
            None => false,
        };
        if !is_result {
            return Ok(v);
        }
        let fields = match self.struct_fields_of(&v.ty) {
            Some(fs) => fs,
            None => {
                return Err(owned("Try expression requires a result value"));
            },
        };
        let is_error = lerr(ll::build_extract_value(&self.builder, v.raw, 1, "is_error"))?;
        let error_block = self.new_block("try_error")?;
        let continue_block = self.new_block("try_continue")?;
        lerr(ll::build_cond_branch(&mut self.builder, is_error, error_block, continue_block))?;
        ll::position_at_end(&mut self.builder, error_block);
        self.execute_defer_bang_on_error(e, depth)?;
        if self.current_function_is_main() {
            self.emit_main_error_exit()?;
        } else {
            lerr(ll::build_return_value(&mut self.builder, v.raw))?;
        }
        ll::position_at_end(&mut self.builder, continue_block);
        let raw = lerr(ll::build_extract_value(&self.builder, v.raw, 0, "try_value"))?;
        let ty = if fields.len() > 0 { ltype_clone(&fields[0]) } else { LType::Int(64) };
        Ok(Val { raw, ty })
    }

    /// Generates `expr catch body`: on an error the value of `body`, else
    /// the payload, merged by a phi.
    fn gen_catch(&mut self, e: &HirExpr, depth: usize) -> (r: CodegenResult<Val<'ctx>>)
        ensures
            final(self).loop_end_blocks@ == old(self).loop_end_blocks@,
            final(self).loop_continue_blocks@ == old(self).loop_continue_blocks@,
            emitted_grows(*old(self), *final(self)),
            !(*e is Catch) ==> (r matches Err(m) && m@ == "Catch expected"@),
        decreases depth, e, 2nat,
    {
        let (inner, body) = match e {
            HirExpr::Catch { expr, body, .. } => (expr, body),
            _ => {
                return Err(owned("Catch expected"));
            },
        };
        let v = self.gen_expr(inner, depth)?;
        let fields = match self.struct_fields_of(&v.ty) {
            Some(fs) => fs,
            None => {
                return Err(owned("Catch expression requires a result value"));
            },
        };
        let is_error = lerr(ll::build_extract_value(&self.builder, v.raw, 1, "is_error"))?;
        let inner_value = lerr(ll::build_extract_value(&self.builder, v.raw, 0, "inner_value"))?;
        let inner_ty = if fields.len() > 0 { ltype_clone(&fields[0]) } else { LType::Int(64) };
        let branch_block = match ll::insert_block(&self.builder) {
            Some(b) => b,
            None => {
                return Err(owned("No insertion block"));
            },
        };
        let catch_block = self.new_block("catch_body")?;
        let continue_block = self.new_block("catch_continue")?;
        lerr(ll::build_cond_branch(&mut self.builder, is_error, catch_block, continue_block))?;
        ll::position_at_end(&mut self.builder, catch_block);
        let body_value = self.gen_expr(body, depth)?;
        lerr(ll::build_branch(&mut self.builder, continue_block))?;
        ll::position_at_end(&mut self.builder, continue_block);
        let bt = self.basic_type(&inner_ty)?;
        let phi = lerr(ll::build_phi(&self.builder, bt, "catch_result"))?;
        ll::phi_add_two(phi, body_value.raw, catch_block, inner_value, branch_block);
        Ok(Val { raw: ll::phi_value(phi), ty: inner_ty })
    }

    /// Runs the `defer!` statements of the innermost scope, last deferred
    /// first, leaving them in place; `site` is the expression that failed.
    fn execute_defer_bang_on_error(&mut self, site: &HirExpr, depth: usize) -> (r: CodegenResult<()>)
        ensures
            final(self).loop_end_blocks@ == old(self).loop_end_blocks@,
            final(self).loop_continue_blocks@ == old(self).loop_continue_blocks@,
            emitted_grows(*old(self), *final(self)),
            old(self).defer_bang_stack@.len() == 0 ==> r is Ok && *final(self) == *old(self),
            old(self).defer_bang_stack@.len() > 0 && depth == 0 ==> (r matches Err(m) && m@
                == "Deferred statements nest too deeply"@),
            old(self).defer_bang_stack@.len() > 0 && depth > 0 && old(self).defer_bang_stack@.last().len() == 0 ==> r is Ok,
        decreases depth, site, 0nat,
    {
        let n = self.defer_bang_stack.scopes.len();
        if n == 0 {
            return Ok(());
        }
        if depth == 0 {
            return Err(owned("Deferred statements nest too deeply"));
        }
        let mut copies: Vec<HirStmt> = Vec::new();
        let scope = &self.defer_bang_stack.scopes[n - 1];
        assert(scope@.len() == old(self).defer_bang_stack@.last().len());
        let mut k = scope.len();
        while k > 0
            invariant
                self.loop_end_blocks@ == old(self).loop_end_blocks@,
                self.loop_continue_blocks@ == old(self).loop_continue_blocks@,
                emitted_grows(*old(self), *self),
                k <= scope.len(),
                copies@.len() == scope@.len() - k,
            decreases k,
        {
            copies.push(copy_stmt(&scope[k - 1]));
            k = k - 1;
        }
        let mut i: usize = 0;
        while i < copies.len()
            invariant
                self.loop_end_blocks@ == old(self).loop_end_blocks@,
                self.loop_continue_blocks@ == old(self).loop_continue_blocks@,
                emitted_grows(*old(self), *self),
                i <= copies.len(),
                depth > 0,
                copies@.len() == old(self).defer_bang_stack@.last().len(),
                old(self).defer_bang_stack@.len() > 0,
            decreases copies.len() - i,
        {
            self.gen_stmt(&copies[i], depth - 1)?;
            i = i + 1;
        }
        Ok(())
    }

    /// The package imported under a namespace.
    pub fn package_of(&self, ns: &str) -> (r: Option<String>)
        ensures
            match package_lookup(package_pairs(self.imported_packages@), ns@) {
                Some(p) => r matches Some(s) && s@ == p,
                None => r is None,
            },
    {
        let ghost pairs = package_pairs(self.imported_packages@);
        let ghost names = pair_firsts(pairs);
        let mut i: usize = self.imported_packages.len();
        while i > 0
            invariant
                i <= self.imported_packages.len(),
                pairs == package_pairs(self.imported_packages@),
                names == pair_firsts(pairs),
                last_position(names, ns@) == last_position_before(names, ns@, i as int),
            decreases i,
        {
            if str_eq(self.imported_packages[i - 1].0.as_str(), ns) {
                assert(last_position(names, ns@) == i - 1);
                return Some(owned(self.imported_packages[i - 1].1.as_str()));
            }
            i = i - 1;
        }
        None
    }

    /// Generates an `if` expression: both branches, and a merge that picks
    /// the value of the branch taken, each brought to the expression's type.
    fn gen_if_expr(&mut self, e: &HirExpr, depth: usize) -> (r: CodegenResult<Val<'ctx>>)
        ensures
            final(self).loop_end_blocks@ == old(self).loop_end_blocks@,
            final(self).loop_continue_blocks@ == old(self).loop_continue_blocks@,
            emitted_grows(*old(self), *final(self)),
            !(*e is If) ==> (r matches Err(m) && m@ == "If expected"@),
        decreases depth, e, 2nat,
    {
        let (condition, capture, then_branch, else_branch, ty) = match e {
            HirExpr::If { condition, capture, then_branch, else_branch, ty, .. } => (condition, capture, then_branch, else_branch, ty),
            _ => {
                return Err(owned("If expected"));
            },
        };
        let cond = self.gen_expr(condition, depth)?;
        let then_block = self.new_block("then")?;
        let else_block = self.new_block("else")?;
        let merge = self.new_block("cont")?;
        let captured_from = match &cond.ty {
            LType::Struct(fs) => if fs.len() > 0 { Some(ltype_clone(&fs[0])) } else { None },
            _ => None,
        };
        let cond_raw = cond.raw;
        let is_true = self.condition_to_i1(cond)?;
        lerr(ll::build_cond_branch(&mut self.builder, is_true.raw, then_block, else_block))?;
        ll::position_at_end(&mut self.builder, then_block);
        let bound = self.bind_capture(capture, cond_raw, captured_from)?;
        let result_type = self.llvm_type(ty);
        let result_bt = self.basic_type(&result_type)?;
        let then_val = self.gen_expr(then_branch, depth)?;
        let then_val = self.coerce_to_llvm_type(then_val, &result_type)?;
        let then_end = match ll::insert_block(&self.builder) {
            Some(b) => b,
            None => then_block,
        };
        lerr(ll::build_branch(&mut self.builder, merge))?;
        if bound {
            match capture {
                Some(n) => self.remove_variable(n.as_str()),
                None => {},
            }
        }
        ll::position_at_end(&mut self.builder, else_block);
        let else_val = self.gen_expr(else_branch, depth)?;
        let else_val = self.coerce_to_llvm_type(else_val, &result_type)?;
        let else_end = match ll::insert_block(&self.builder) {
            Some(b) => b,
            None => else_block,
        };
        lerr(ll::build_branch(&mut self.builder, merge))?;
        ll::position_at_end(&mut self.builder, merge);
        let phi = lerr(ll::build_phi(&self.builder, result_bt, "if_result"))?;
        ll::phi_add_two(phi, then_val.raw, then_end, else_val.raw, else_end);
        Ok(Val { raw: ll::phi_value(phi), ty: result_type })
    }

    /// Binds a capture (`|x|`) to the payload of an option-like condition;
    /// says whether it bound one.
    fn bind_capture(&mut self, capture: &Option<String>, cond: BasicValueEnum<'ctx>, payload: Option<LType>) -> (r: CodegenResult<bool>)
        ensures
            final(self).loop_end_blocks@ == old(self).loop_end_blocks@,
            final(self).loop_continue_blocks@ == old(self).loop_continue_blocks@,
            emitted_grows(*old(self), *final(self)),
            final(self).loop_end_blocks == old(self).loop_end_blocks,
            final(self).loop_continue_blocks == old(self).loop_continue_blocks,
            capture is None || payload is None ==> r == Ok::<bool, String>(false) && *final(self) == *old(self),
            r matches Ok(b) ==> b == (capture is Some && payload is Some),
            capture matches Some(name) ==> (r == Ok::<bool, String>(true) ==> vars_view(final(self).variables@).len()
                == vars_view(old(self).variables@).len() + 1 && vars_view(final(self).variables@).last().0 == name@),
    {
        match (capture, payload) {
            (Some(name), Some(pt)) => {
                let val = lerr(ll::build_extract_value(&self.builder, cond, 0, "captured"))?;
                let bt = self.basic_type(&pt)?;
                let slot = lerr(ll::build_alloca(&mut self.builder, bt, name.as_str()))?;
                lerr(ll::build_store(&mut self.builder, slot, val))?;
                let lang = crate::codegen::types::llvm_type_to_lang(&pt, &self.struct_bodies());
                self.add_variable(name, slot, &lang, false);
                Ok(true)
            },
            _ => Ok(false),
        }
    }

    /// The record of the declared struct bodies.
    pub fn struct_bodies(&self) -> (r: Vec<(String, Vec<LType>)>)
        ensures
            r@.len() == self.structs@.len(),
            forall|j: int| 0 <= j < r@.len() ==> (#[trigger] r@[j]).0@ == self.structs@[j].name@,
            forall|j: int| 0 <= j < r@.len() ==> ltypes_view((#[trigger] r@[j]).1@) == ltypes_view(self.structs@[j].types@),
    {
        let mut r: Vec<(String, Vec<LType>)> = Vec::new();
        let mut i: usize = 0;
        while i < self.structs.len()
            invariant
                i <= self.structs.len(),
                r@.len() == i,
                forall|j: int| 0 <= j < i ==> (#[trigger] r@[j]).0@ == self.structs@[j].name@,
                forall|j: int| 0 <= j < i ==> ltypes_view((#[trigger] r@[j]).1@) == ltypes_view(self.structs@[j].types@),
            decreases self.structs.len() - i,
        {
            let name = owned(self.structs[i].name.as_str());
            let types = crate::codegen::types::ltypes_clone(&self.structs[i].types);
            r.push((name, types));
            i = i + 1;
        }
        r
    }
}


/// A copy of an expression.
fn copy_expr(e: &HirExpr) -> (r: HirExpr)
    ensures
        same_expr(*e, r),
    decreases e,
{
    match e {
        HirExpr::Int(v, t, sp) => HirExpr::Int(*v, t.deep_clone(), *sp),
        HirExpr::Float(v, t, sp) => HirExpr::Float(crate::ast::FloatLit { bits: v.bits, text: v.text.clone() }, t.deep_clone(), *sp),
        HirExpr::Bool(v, t, sp) => HirExpr::Bool(*v, t.deep_clone(), *sp),
        HirExpr::String(v, t, sp) => HirExpr::String(v.clone(), t.deep_clone(), *sp),
        HirExpr::Char(v, t, sp) => HirExpr::Char(*v, t.deep_clone(), *sp),
        HirExpr::Null(t, sp) => HirExpr::Null(t.deep_clone(), *sp),
        HirExpr::Ident(v, t, sp) => HirExpr::Ident(v.clone(), t.deep_clone(), *sp),
        HirExpr::Tuple { vals, ty, span } => HirExpr::Tuple { vals: copy_exprs(vals), ty: ty.deep_clone(), span: *span },
        HirExpr::TupleIndex { tuple, index, ty, span } => HirExpr::TupleIndex {
            tuple: Box::new(copy_expr(tuple)),
            index: *index,
            ty: ty.deep_clone(),
            span: *span,
        },
        HirExpr::Index { object, index, ty, span } => HirExpr::Index {
            object: Box::new(copy_expr(object)),
            index: Box::new(copy_expr(index)),
            ty: ty.deep_clone(),
            span: *span,
        },
        HirExpr::Array { vals, ty, span } => HirExpr::Array { vals: copy_exprs(vals), ty: ty.deep_clone(), span: *span },
        HirExpr::Binary { op, left, right, ty, span } => HirExpr::Binary {
            op: *op,
            left: Box::new(copy_expr(left)),
            right: Box::new(copy_expr(right)),
            ty: ty.deep_clone(),
            span: *span,
        },
        HirExpr::Unary { op, expr, ty, span } => HirExpr::Unary { op: *op, expr: Box::new(copy_expr(expr)), ty: ty.deep_clone(), span: *span },
        HirExpr::Call { name, namespace, args, return_ty, target_ty, span } => HirExpr::Call {
            name: name.clone(),
            namespace: namespace.clone(),
            args: copy_exprs(args),
            return_ty: return_ty.deep_clone(),
            target_ty: match target_ty {
                Some(t) => Some(t.deep_clone()),
                None => None,
            },
            span: *span,
        },
        HirExpr::If { condition, capture, then_branch, else_branch, ty, span } => HirExpr::If {
            condition: Box::new(copy_expr(condition)),
            capture: capture.clone(),
            then_branch: Box::new(copy_expr(then_branch)),
            else_branch: Box::new(copy_expr(else_branch)),
            ty: ty.deep_clone(),
            span: *span,
        },
        HirExpr::Block { stmts, expr, ty, span } => HirExpr::Block {
            stmts: copy_stmts(stmts),
            expr: match expr {
                Some(x) => Some(Box::new(copy_expr(x))),
                None => None,
            },
            ty: ty.deep_clone(),
            span: *span,
        },
        HirExpr::MemberAccess { object, member, ty, span } => HirExpr::MemberAccess {
            object: Box::new(copy_expr(object)),
            member: member.clone(),
            ty: ty.deep_clone(),
            span: *span,
        },
        HirExpr::Struct { name, fields, ty, span } => HirExpr::Struct { name: name.clone(), fields: copy_fields(fields), ty: ty.deep_clone(), span: *span },
        HirExpr::Try { expr, ty, span } => HirExpr::Try { expr: Box::new(copy_expr(expr)), ty: ty.deep_clone(), span: *span },
        HirExpr::Catch { expr, error_var, body, ty, span } => HirExpr::Catch {
            expr: Box::new(copy_expr(expr)),
            error_var: error_var.clone(),
            body: Box::new(copy_expr(body)),
            ty: ty.deep_clone(),
            span: *span,
        },
        HirExpr::Cast { target_type, expr, ty, span } => HirExpr::Cast {
            target_type: target_type.deep_clone(),
            expr: Box::new(copy_expr(expr)),
            ty: ty.deep_clone(),
            span: *span,
        },
        HirExpr::Dereference { expr, ty, span } => HirExpr::Dereference { expr: Box::new(copy_expr(expr)), ty: ty.deep_clone(), span: *span },
        HirExpr::Intrinsic { name, args, ty, span } => HirExpr::Intrinsic { name: name.clone(), args: copy_exprs(args), ty: ty.deep_clone(), span: *span },
    }
}

fn copy_exprs(es: &Vec<HirExpr>) -> (r: Vec<HirExpr>)
    ensures
        r@.len() == es@.len(),
        forall|i: int| 0 <= i < es@.len() ==> same_expr(#[trigger] es@[i], r@[i]),
    decreases es,
{
    let mut r: Vec<HirExpr> = Vec::new();
    let mut i: usize = 0;
    while i < es.len()
        invariant
            i <= es.len(),
            r@.len() == i,
            forall|j: int| 0 <= j < i ==> same_expr(#[trigger] es@[j], r@[j]),
        decreases es.len() - i,
    {
        r.push(copy_expr(&es[i]));
        i = i + 1;
    }
    r
}

fn copy_fields(fs: &Vec<(String, HirExpr)>) -> (r: Vec<(String, HirExpr)>)
    ensures
        r@.len() == fs@.len(),
        forall|i: int| 0 <= i < fs@.len() ==> (#[trigger] fs@[i]).0 == r@[i].0 && same_expr(fs@[i].1, r@[i].1),
    decreases fs,
{
    let mut r: Vec<(String, HirExpr)> = Vec::new();
    let mut i: usize = 0;
    while i < fs.len()
        invariant
            i <= fs.len(),
            r@.len() == i,
            forall|j: int| 0 <= j < i ==> (#[trigger] fs@[j]).0 == r@[j].0 && same_expr(fs@[j].1, r@[j].1),
        decreases fs.len() - i,
    {
        r.push((fs[i].0.clone(), copy_expr(&fs[i].1)));
        i = i + 1;
    }
    r
}

fn copy_stmts(ss: &Vec<HirStmt>) -> (r: Vec<HirStmt>)
    ensures
        r@.len() == ss@.len(),
        forall|i: int| 0 <= i < ss@.len() ==> same_stmt(#[trigger] ss@[i], r@[i]),
    decreases ss,
{
    let mut r: Vec<HirStmt> = Vec::new();
    let mut i: usize = 0;
    while i < ss.len()
        invariant
            i <= ss.len(),
            r@.len() == i,
            forall|j: int| 0 <= j < i ==> same_stmt(#[trigger] ss@[j], r@[j]),
        decreases ss.len() - i,
    {
        r.push(copy_stmt(&ss[i]));
        i = i + 1;
    }
    r
}

fn copy_cases(cs: &Vec<HirCase>) -> (r: Vec<HirCase>)
    ensures
        r@.len() == cs@.len(),
        forall|i: int| 0 <= i < cs@.len() ==> same_case(#[trigger] cs@[i], r@[i]),
    decreases cs,
{
    let mut r: Vec<HirCase> = Vec::new();
    let mut i: usize = 0;
    while i < cs.len()
        invariant
            i <= cs.len(),
            r@.len() == i,
            forall|j: int| 0 <= j < i ==> same_case(#[trigger] cs@[j], r@[j]),
        decreases cs.len() - i,
    {
        let c = &cs[i];
        r.push(HirCase { patterns: copy_exprs(&c.patterns), body: copy_stmt(&c.body), span: c.span });
        i = i + 1;
    }
    r
}

/// A copy of a statement (what `defer` keeps until its scope ends).
fn copy_stmt(s: &HirStmt) -> (r: HirStmt)
    ensures
        same_stmt(*s, r),
    decreases s,
{
    match s {
        HirStmt::Expr(e) => HirStmt::Expr(copy_expr(e)),
        HirStmt::Let { name, ty, value, mutability, span } => HirStmt::Let {
            name: name.clone(),
            ty: ty.deep_clone(),
            value: match value {
                Some(v) => Some(copy_expr(v)),
                None => None,
            },
            mutability: *mutability,
            span: *span,
        },
        HirStmt::Assign { target, op, value, span } => HirStmt::Assign { target: target.clone(), op: *op, value: copy_expr(value), span: *span },
        HirStmt::Return(v, sp) => HirStmt::Return(
            match v {
                Some(x) => Some(copy_expr(x)),
                None => None,
            },
            *sp,
        ),
        HirStmt::If { condition, capture, then_branch, else_branch, span } => HirStmt::If {
            condition: copy_expr(condition),
            capture: capture.clone(),
            then_branch: Box::new(copy_stmt(then_branch)),
            else_branch: match else_branch {
                Some(b) => Some(Box::new(copy_stmt(b))),
                None => None,
            },
            span: *span,
        },
        HirStmt::Switch { condition, cases, span } => HirStmt::Switch { condition: copy_expr(condition), cases: copy_cases(cases), span: *span },
        HirStmt::For { label, var_name, index_var, iterable, body, span } => HirStmt::For {
            label: label.clone(),
            var_name: var_name.clone(),
            index_var: index_var.clone(),
            iterable: copy_expr(iterable),
            body: Box::new(copy_stmt(body)),
            span: *span,
        },
        HirStmt::Defer { stmt, span } => HirStmt::Defer { stmt: Box::new(copy_stmt(stmt)), span: *span },
        HirStmt::DeferBang { stmt, span } => HirStmt::DeferBang { stmt: Box::new(copy_stmt(stmt)), span: *span },
        HirStmt::Break { label, span } => HirStmt::Break { label: label.clone(), span: *span },
        HirStmt::Continue { label, span } => HirStmt::Continue { label: label.clone(), span: *span },
    }
}

impl<'ctx> CodeGenerator<'ctx> {
    /// Generates a statement; `depth` bounds how deeply deferred statements
    /// may run inside one another.
    fn gen_stmt(&mut self, stmt: &HirStmt, depth: usize) -> (r: CodegenResult<()>)
        ensures
            final(self).loop_end_blocks@ == old(self).loop_end_blocks@,
            final(self).loop_continue_blocks@ == old(self).loop_continue_blocks@,
            emitted_grows(*old(self), *final(self)),
            *stmt matches HirStmt::For { var_name: Some(x), .. } ==> (r is Ok ==> var_index(vars_view(final(self).variables@), x@) == -1),
            *stmt matches HirStmt::For { index_var: Some(x), .. } ==> (r is Ok ==> var_index(vars_view(final(self).variables@), x@) == -1),
            *stmt matches HirStmt::Break { label, span } ==> (find_target(old(self).loop_end_blocks@, label_view(label)) is None
                ==> (r matches Err(m) && m@ == jump_error("break"@, label_view(label), span))),
            *stmt matches HirStmt::Continue { label, span } ==> (find_target(old(self).loop_continue_blocks@, label_view(label))
                is None ==> (r matches Err(m) && m@ == jump_error("continue"@, label_view(label), span))),
            *stmt matches HirStmt::Assign { op, .. } ==> (op != AssignOp::Assign ==> (r matches Err(m) && m@
                == "Compound assignment "@ + assign_debug(op) + " should have been lowered"@)),
            *stmt matches HirStmt::Let { name, ty, .. } ==> (r is Ok ==> vars_view(final(self).variables@).len() > 0
                && vars_view(final(self).variables@).last() == (name@, ty@)),
            *stmt matches HirStmt::Let { name, value, .. } ==> (r is Ok ==> emitted_since(*old(self), *final(self)).len() > 0
                && emitted_since(*old(self), *final(self))[0] == ll::IrInstr::Alloca(name@) && (value is Some ==> ends_with(
                *final(self),
                seq![ll::IrInstr::Store],
            ))),
            *stmt matches HirStmt::Assign { target, op, .. } ==> (op == AssignOp::Assign && target@ != "_"@ && r is Ok
                ==> ends_with(*final(self), seq![ll::IrInstr::Store])),
            *stmt matches HirStmt::Return(Some(_), _) ==> (r is Ok ==> ends_with(*final(self), seq![ll::IrInstr::Return])),
            *stmt matches HirStmt::Break { label, .. } ==> (find_target(old(self).loop_end_blocks@, label_view(label)) is None
                ==> *final(self) == *old(self)),
            *stmt matches HirStmt::Continue { label, .. } ==> (find_target(old(self).loop_continue_blocks@, label_view(label))
                is None ==> *final(self) == *old(self)),
            *stmt matches HirStmt::Break { label, .. } ==> (r is Ok ==> ends_with(*final(self), seq![ll::IrInstr::Branch])),
            *stmt matches HirStmt::Continue { label, .. } ==> (r is Ok ==> ends_with(*final(self), seq![ll::IrInstr::Branch])),
            *stmt is If && r is Ok ==> built_since(*old(self), *final(self), ll::IrInstr::CondBranch),
            *stmt matches HirStmt::For { iterable, .. } ==> (for_kind(iterable, struct_names(old(self).structs@)) == Some(
                LoopKind::Range,
            ) && r is Ok ==> built_since(
                *old(self),
                *final(self),
                ll::IrInstr::IntCompare(true, Comparison::Lt, "range_cmp"@),
            )),
            *stmt matches HirStmt::For { iterable, .. } ==> (for_kind(iterable, struct_names(old(self).structs@)) == Some(
                LoopKind::Array,
            ) && r is Ok ==> built_since(
                *old(self),
                *final(self),
                ll::IrInstr::IntCompare(true, Comparison::Lt, "array_cmp"@),
            )),
            *stmt matches HirStmt::Let { ty, value: Some(HirExpr::Int(_, lt, _)), .. } ==> (old(self).builder.positioned@
                && ltype_of(ty@, struct_names(old(self).structs@)) is Int && literal_ltype(lt@, struct_names(old(self).structs@)) == ltype_of(
                ty@,
                struct_names(old(self).structs@),
            ) ==> r is Ok),
            *stmt matches HirStmt::Assign { target, op, value: HirExpr::Int(_, lt, _), .. } ==> ({
                let parts = crate::codegen::names::target_parts(target@, Seq::empty());
                let k = var_index(vars_view(old(self).variables@), parts[0]);
                old(self).builder.positioned@ && op == AssignOp::Assign && target@ != "_"@ && parts.len() == 1 && k >= 0 && literal_ltype(
                    lt@,
                    struct_names(old(self).structs@),
                ) == ltype_of(vars_view(old(self).variables@)[k].1, struct_names(old(self).structs@)) ==> r is Ok
            }),
            *stmt matches HirStmt::Return(Some(HirExpr::Int(_, lt, _)), _) ==> (old(self).builder.positioned@
                && old(self).defer_stack@.len() == 0 && old(self).return_type is Some && !(old(self).return_type->0@ is Result)
                && literal_ltype(lt@, struct_names(old(self).structs@)) == LTypeV::Int(64) && ltype_of(old(self).return_type->0@, struct_names(old(self).structs@)) == LTypeV::Int(64) ==> r is Ok),
        decreases depth, stmt, 3nat,
    {
        match stmt {
            HirStmt::Expr(e) => {
                self.gen_expr(e, depth)?;
                Ok(())
            },
            HirStmt::Let { name, ty, value, mutability, .. } => {
                let lt = self.llvm_type(ty);
                let bt = self.basic_type(&lt)?;
                let ghost before = self.builder.emitted@;
                let slot = lerr(ll::build_alloca(&mut self.builder, bt, name.as_str()))?;
                let ghost after_slot = *self;
                assert(after_slot.builder.emitted@[before.len() as int] == ll::IrInstr::Alloca(name@));
                match value {
                    Some(v) => {
                        let fn_value = match v {
                            HirExpr::Ident(ident, _, _) => {
                                let is_main = str_eq(ident.as_str(), "main");
                                let fname = self.mangle_name(ident.as_str(), is_main);
                                match ll::get_function(&self.module, fname.as_str()) {
                                    Some(f) => Some(self.function_address(f)?),
                                    None => None,
                                }
                            },
                            _ => None,
                        };
                        let val = match fn_value {
                            Some(x) => x,
                            None => self.gen_expr(v, depth)?,
                        };
                        let val = self.coerce_type(val, ty)?;
                        let ghost mid = self.builder.emitted@;
                        lerr(ll::build_store(&mut self.builder, slot, val.raw))?;
                        proof {
                            crate::codegen::emit::lemma_since_push(mid, ll::IrInstr::Store);
                        }
                    },
                    None => {},
                }
                assert(self.builder.emitted@[before.len() as int] == ll::IrInstr::Alloca(name@));
                self.add_variable(name, slot, ty, *mutability == Mutability::Const);
                Ok(())
            },
            HirStmt::Assign { target, op, value, .. } => {
                if *op != AssignOp::Assign {
                    let mut m = owned("Compound assignment ");
                    push_str(&mut m, crate::ast_dump::assign_op_name_str(*op));
                    push_str(&mut m, " should have been lowered");
                    return Err(m);
                }
                self.gen_assign(stmt, depth)
            },
            HirStmt::Return(..) => self.gen_return(stmt, depth),
            HirStmt::If { .. } => self.gen_if_stmt(stmt, depth),
            HirStmt::For { .. } => self.gen_for(stmt, depth),
            HirStmt::Switch { .. } => self.gen_switch(stmt, depth),
            HirStmt::Defer { stmt: inner, .. } => {
                self.defer_stack.add(copy_stmt(inner));
                Ok(())
            },
            HirStmt::DeferBang { stmt: inner, .. } => {
                self.defer_bang_stack.add(copy_stmt(inner));
                Ok(())
            },
            HirStmt::Break { label, span } => match self.loop_end_blocks.find(label) {
                Some(target) => {
                    let ghost mid = self.builder.emitted@;
                    let r = lerr(ll::build_branch(&mut self.builder, target));
                    proof {
                        crate::codegen::emit::lemma_since_push(mid, ll::IrInstr::Branch);
                    }
                    r
                },
                None => Err(jump_error_string("break", label, *span)),
            },
            HirStmt::Continue { label, span } => match self.loop_continue_blocks.find(label) {
                Some(target) => {
                    let ghost mid = self.builder.emitted@;
                    let r = lerr(ll::build_branch(&mut self.builder, target));
                    proof {
                        crate::codegen::emit::lemma_since_push(mid, ll::IrInstr::Branch);
                    }
                    r
                },
                None => Err(jump_error_string("continue", label, *span)),
            },
        }
    }

    /// Stores into an assignment target: a variable, a field path through
    /// struct variables (`a.b.c`), or through a pointer (`p.*`).
    #[verifier::loop_isolation(false)]
    fn gen_assign(&mut self, stmt: &HirStmt, depth: usize) -> (r: CodegenResult<()>)
        ensures
            final(self).loop_end_blocks@ == old(self).loop_end_blocks@,
            final(self).loop_continue_blocks@ == old(self).loop_continue_blocks@,
            emitted_grows(*old(self), *final(self)),
            !(*stmt is Assign) ==> (r matches Err(m) && m@ == "Assignment expected"@),
            *stmt matches HirStmt::Assign { target, .. } ==> (target@ != "_"@ && r is Ok ==> ends_with(
                *final(self),
                seq![ll::IrInstr::Store],
            )),
            *stmt matches HirStmt::Assign { target, .. } ==> ({
                let parts = crate::codegen::names::target_parts(target@, Seq::empty());
                target@ != "_"@ && parts.len() > 0 && var_index(vars_view(old(self).variables@), parts[0]) == -1 ==> (r matches Err(
                    m,
                ) && m@ == "Variable not found: "@ + parts[0])
            }),
            *stmt matches HirStmt::Assign { target, value: HirExpr::Int(_, lt, _), .. } ==> ({
                let parts = crate::codegen::names::target_parts(target@, Seq::empty());
                let k = var_index(vars_view(old(self).variables@), parts[0]);
                old(self).builder.positioned@ && target@ != "_"@ && parts.len() == 1 && k >= 0 && literal_ltype(
                    lt@,
                    struct_names(old(self).structs@),
                ) == ltype_of(vars_view(old(self).variables@)[k].1, struct_names(old(self).structs@)) ==> r is Ok
            }),
        decreases depth, stmt, 2nat,
    {
        let (target, value) = match stmt {
            HirStmt::Assign { target, value, .. } => (target, value),
            _ => {
                return Err(owned("Assignment expected"));
            },
        };
        if str_eq(target.as_str(), "_") {
            self.gen_expr(value, depth)?;
            return Ok(());
        }
        let parts = split_target(target.as_str());
        proof {
            if parts@.len() > 0 {
                assert(crate::codegen::names::parts_view(parts@)[0] == parts@[0]@);
            }
        }
        if parts.len() == 0 {
            return Err(owned("Variable not found: "));
        }
        let k = match self.lookup_variable(parts[0].as_str()) {
            Some(k) => k,
            None => {
                let mut m = owned("Variable not found: ");
                push_string(&mut m, &parts[0]);
                return Err(m);
            },
        };
        let mut ptr = self.variables[k].ptr;
        let mut ty = self.variables[k].ty.deep_clone();
        let mut i: usize = 1;
        while i < parts.len()
            invariant
                self.loop_end_blocks@ == old(self).loop_end_blocks@,
                self.loop_continue_blocks@ == old(self).loop_continue_blocks@,
                emitted_grows(*old(self), *self),
                1 <= i <= parts.len(),
                parts@.len() == 1 ==> *self == *old(self) && ty@ == vars_view(old(self).variables@)[k as int].1,
            decreases parts.len() - i,
        {
            let part = &parts[i];
            if str_eq(part.as_str(), "*") {
                let loaded = lerr(ll::build_load(&mut self.builder, ptr, "deref_ptr"))?;
                ptr = lerr(ll::as_pointer(loaded))?;
                ty = match ty {
                    Type::Pointer(inner) => *inner,
                    _ => {
                        return Err(owned("Dereference on non-pointer type"));
                    },
                };
            } else if crate::text::starts_with_char(part.as_str(), '[') {
                let cs = crate::text::chars_of(part.as_str());
                if cs.len() < 2 {
                    return Err(owned("Invalid index in assignment target"));
                }
                let n = match crate::text::parse_u64_range(&cs, 1, cs.len() - 1) {
                    Some(n) => n,
                    None => {
                        return Err(owned("Invalid index in assignment target"));
                    },
                };
                let index = self.const_i64(n)?;
                match ty {
                    Type::Array { size, element_type } => {
                        let elem = self.llvm_type(&element_type);
                        let base = match size {
                            Some(_) => ll::pointer_value(ptr),
                            None => {
                                let slice = lerr(ll::build_load(&mut self.builder, ptr, "slice_val"))?;
                                lerr(ll::build_extract_value(&self.builder, slice, 0, "slice_ptr"))?
                            },
                        };
                        let addr = self.element_address(base, &index, &elem)?;
                        let et = self.basic_type(&elem)?;
                        let raw = lerr(ll::build_int_to_ptr_of(&self.builder, addr, et, "index_ptr"))?;
                        ptr = lerr(ll::as_pointer(raw))?;
                        ty = *element_type;
                    },
                    _ => {
                        let mut m = owned("Indexing on non-array type: ");
                        push_string(&mut m, &crate::ast_dump::type_debug_string(&ty));
                        return Err(m);
                    },
                }
            } else {
                let sname = match &ty {
                    Type::Pointer(inner) => match &**inner {
                        Type::Custom { name, .. } => {
                            let loaded = lerr(ll::build_load(&mut self.builder, ptr, "struct_ptr"))?;
                            ptr = lerr(ll::as_pointer(loaded))?;
                            name.clone()
                        },
                        _ => {
                            return Err(owned("Member access on non-custom pointer type"));
                        },
                    },
                    Type::Custom { name, .. } => name.clone(),
                    _ => {
                        let mut m = owned("Member access on non-struct type: ");
                        push_string(&mut m, &crate::ast_dump::type_debug_string(&ty));
                        return Err(m);
                    },
                };
                let (idx, _fty) = match self.field_of(sname.as_str(), part.as_str()) {
                    Some(x) => x,
                    None => {
                        let mut m = owned("Field '");
                        push_string(&mut m, part);
                        push_str(&mut m, "' not found in struct '");
                        push_string(&mut m, &sname);
                        push_str(&mut m, "'");
                        return Err(m);
                    },
                };
                ptr = lerr(ll::build_struct_gep(&self.builder, ll::pointer_value(ptr), idx, "field_ptr"))?;
                ty = match self.field_type_of(sname.as_str(), idx) {
                    Some(t) => t,
                    None => Type::I64,
                };
            }
            i = i + 1;
        }
        let v = self.gen_expr(value, depth)?;
        let v = self.coerce_type(v, &ty)?;
        let ghost mid = self.builder.emitted@;
        let r = lerr(ll::build_store(&mut self.builder, ptr, v.raw));
        proof {
            crate::codegen::emit::lemma_since_push(mid, ll::IrInstr::Store);
        }
        r
    }

    /// The language type of a field, read back from its LLVM type.
    fn field_type_of(&self, struct_name: &str, idx: u32) -> (r: Option<Type>)
        ensures
            (forall|i: int| 0 <= i < self.structs@.len() ==> #[trigger] self.structs@[i].name@ != struct_name@) ==> r is None,
            r is Some ==> exists|i: int| 0 <= i < self.structs@.len() && #[trigger] self.structs@[i].name@ == struct_name@
                && idx < self.structs@[i].types@.len(),
    {
        let mut i: usize = 0;
        while i < self.structs.len()
            invariant
                i <= self.structs.len(),
                forall|j: int| 0 <= j < i ==> #[trigger] self.structs@[j].name@ != struct_name@,
            decreases self.structs.len() - i,
        {
            if str_eq(self.structs[i].name.as_str(), struct_name) {
                if (idx as usize) < self.structs[i].types.len() {
                    let lt = ltype_clone(&self.structs[i].types[idx as usize]);
                    return Some(crate::codegen::types::llvm_type_to_lang(&lt, &self.struct_bodies()));
                }
                return None;
            }
            i = i + 1;
        }
        None
    }

    /// Runs the deferred statements of the innermost scope (last deferred
    /// first) and closes the scope; `site` is the statement that leaves the
    /// scope.
    fn run_defers(&mut self, site: &HirStmt, depth: usize) -> (r: CodegenResult<()>)
        ensures
            final(self).loop_end_blocks@ == old(self).loop_end_blocks@,
            final(self).loop_continue_blocks@ == old(self).loop_continue_blocks@,
            emitted_grows(*old(self), *final(self)),
            old(self).defer_stack@.len() == 0 ==> r is Ok && final(self).defer_stack@ == old(self).defer_stack@
                && final(self).return_type == old(self).return_type && final(self).structs == old(self).structs
                && final(self).builder == old(self).builder,
            old(self).defer_stack@.len() > 0 && depth == 0 ==> (r matches Err(m) && m@
                == "Deferred statements nest too deeply"@),
            old(self).defer_stack@.len() > 0 && depth > 0 && old(self).defer_stack@.last().len() == 0 ==> r is Ok
                && final(self).defer_stack@ == old(self).defer_stack@.drop_last(),
        decreases depth, site, 1nat,
    {
        match self.defer_stack.pop_scope() {
            Some(defers) => {
                if depth == 0 {
                    return Err(owned("Deferred statements nest too deeply"));
                }
                let ghost after_pop = self.defer_stack@;
                let mut i: usize = 0;
                while i < defers.len()
                    invariant
                        self.loop_end_blocks@ == old(self).loop_end_blocks@,
                        self.loop_continue_blocks@ == old(self).loop_continue_blocks@,
                        emitted_grows(*old(self), *self),
                        i <= defers.len(),
                        depth > 0,
                        defers@.len() == old(self).defer_stack@.last().len(),
                        old(self).defer_stack@.len() > 0,
                        i == 0 ==> self.defer_stack@ == after_pop,
                        after_pop == old(self).defer_stack@.drop_last(),
                    decreases defers.len() - i,
                {
                    self.gen_stmt(&defers[i], depth - 1)?;
                    i = i + 1;
                }
                Ok(())
            },
            None => Ok(()),
        }
    }

    /// Runs the deferred statements of the innermost scope (last deferred
    /// first) and closes the scope.
    pub fn pop_defer_scope(&mut self) -> (r: CodegenResult<()>)
        ensures
            final(self).loop_end_blocks@ == old(self).loop_end_blocks@,
            final(self).loop_continue_blocks@ == old(self).loop_continue_blocks@,
            emitted_grows(*old(self), *final(self)),
            old(self).defer_stack@.len() == 0 ==> r is Ok && final(self).defer_stack@ == old(self).defer_stack@,
            old(self).defer_stack@.len() > 0 && old(self).defer_stack@.last().len() == 0 ==> r is Ok
                && final(self).defer_stack@ == old(self).defer_stack@.drop_last(),
    {
        match self.defer_stack.pop_scope() {
            Some(defers) => {
                let ghost after_pop = self.defer_stack@;
                let mut i: usize = 0;
                while i < defers.len()
                    invariant
                        self.loop_end_blocks@ == old(self).loop_end_blocks@,
                        self.loop_continue_blocks@ == old(self).loop_continue_blocks@,
                        emitted_grows(*old(self), *self),
                        i <= defers.len(),
                        defers@.len() == old(self).defer_stack@.last().len(),
                        old(self).defer_stack@.len() > 0,
                        i == 0 ==> self.defer_stack@ == after_pop,
                        after_pop == old(self).defer_stack@.drop_last(),
                    decreases defers.len() - i,
                {
                    self.gen_stmt(&defers[i], DEFER_DEPTH)?;
                    i = i + 1;
                }
                Ok(())
            },
            None => Ok(()),
        }
    }

    /// Generates a `return`: the deferred statements first, then the value
    /// (brought to `i64` in `main`, to the return type elsewhere).
    fn gen_return(&mut self, stmt: &HirStmt, depth: usize) -> (r: CodegenResult<()>)
        ensures
            final(self).loop_end_blocks@ == old(self).loop_end_blocks@,
            final(self).loop_continue_blocks@ == old(self).loop_continue_blocks@,
            emitted_grows(*old(self), *final(self)),
            !(*stmt is Return) ==> (r matches Err(m) && m@ == "Return expected"@),
            *stmt is Return && old(self).defer_stack@.len() == 0 && old(self).return_type is None ==> (r matches Err(m) && m@
                == "Return encountered without current function return type"@),
            *stmt matches HirStmt::Return(Some(_), _) ==> (r is Ok ==> ends_with(*final(self), seq![ll::IrInstr::Return])),
            r is Ok ==> ends_with(*final(self), seq![ll::IrInstr::Return]) || ends_with(
                *final(self),
                seq![ll::IrInstr::ReturnVoid],
            ),
            *stmt matches HirStmt::Return(Some(HirExpr::Int(_, lt, _)), _) ==> (old(self).builder.positioned@
                && old(self).defer_stack@.len() == 0 && old(self).return_type is Some && !(old(self).return_type->0@ is Result)
                && literal_ltype(lt@, struct_names(old(self).structs@)) == LTypeV::Int(64) && ltype_of(old(self).return_type->0@, struct_names(old(self).structs@)) == LTypeV::Int(64) ==> r is Ok),
        decreases depth, stmt, 2nat,
    {
        let value = match stmt {
            HirStmt::Return(value, _) => value,
            _ => {
                return Err(owned("Return expected"));
            },
        };
        self.run_defers(stmt, depth)?;
        let is_main = self.current_function_is_main();
        let ret_ty = match &self.return_type {
            Some(t) => t.deep_clone(),
            None => {
                return Err(owned("Return encountered without current function return type"));
            },
        };
        match value {
            Some(v) => {
                let val = self.gen_expr(v, depth)?;
                let is_error_expr = matches!(v, HirExpr::MemberAccess { ty: Type::Error, .. });
                if is_main && ret_ty.is_result() && is_error_expr {
                    return self.emit_main_error_exit();
                }
                let val = if ret_ty.is_result() && !is_main {
                    if is_error_expr {
                        let lt = self.llvm_type(&ret_ty);
                        let bt = self.basic_type(&lt)?;
                        let flag = self.const_int_of(&LType::Int(1), 1, false)?;
                        let raw = lerr(ll::build_insert_value(&self.builder, ll::const_zero(bt), flag.raw, 1, "ret_error"))?;
                        let ghost mid = self.builder.emitted@;
                        let r = lerr(ll::build_return_value(&mut self.builder, raw));
                        proof {
                            crate::codegen::emit::lemma_since_push(mid, ll::IrInstr::Return);
                        }
                        return r;
                    }
                    if !crate::ast::types_equal(v.ty(), &ret_ty) {
                        self.coerce_type(val, &ret_ty)?
                    } else {
                        val
                    }
                } else if !is_error_expr {
                    if is_main {
                        match val.ty {
                            LType::Int(w) => if w != 64 {
                                let bt = self.basic_type(&LType::Int(64))?;
                                let raw = lerr(ll::build_int_cast(&self.builder, val.raw, bt, "ret_i64"))?;
                                Val { raw, ty: LType::Int(64) }
                            } else {
                                val
                            },
                            _ => val,
                        }
                    } else if !crate::ast::types_equal(v.ty(), &ret_ty) {
                        self.coerce_type(val, &ret_ty)?
                    } else {
                        val
                    }
                } else {
                    val
                };
                let ghost mid = self.builder.emitted@;
                let r = lerr(ll::build_return_value(&mut self.builder, val.raw));
                proof {
                    crate::codegen::emit::lemma_since_push(mid, ll::IrInstr::Return);
                }
                r
            },
            None => {
                self.build_default_return(&ret_ty, is_main)
            },
        }
    }

    /// Returns the default value of a function's return type: `0` in `main`,
    /// nothing for a void function, zero otherwise.
    fn build_default_return(&mut self, ret_ty: &Type, is_main: bool) -> (r: CodegenResult<()>)
        ensures
            final(self).loop_end_blocks@ == old(self).loop_end_blocks@,
            final(self).loop_continue_blocks@ == old(self).loop_continue_blocks@,
            emitted_grows(*old(self), *final(self)),
            only_emitted(*old(self), *final(self)),
            r is Ok ==> ends_with(*final(self), seq![ll::IrInstr::Return]) || ends_with(
                *final(self),
                seq![ll::IrInstr::ReturnVoid],
            ),
    {
        match self.llvm_function_return_type(ret_ty, is_main) {
            Some(t) => {
                let v = if is_main {
                    self.const_i64(0)?.raw
                } else {
                    let bt = self.basic_type(&t)?;
                    ll::const_zero(bt)
                };
                let ghost before = self.builder.emitted@;
                let r = lerr(ll::build_return_value(&mut self.builder, v));
                proof {
                    crate::codegen::emit::lemma_since_push(before, ll::IrInstr::Return);
                }
                r
            },
            None => {
                let ghost before = self.builder.emitted@;
                let r = lerr(ll::build_return_void(&mut self.builder));
                proof {
                    crate::codegen::emit::lemma_since_push(before, ll::IrInstr::ReturnVoid);
                }
                r
            },
        }
    }

    /// Generates an `if` statement: `then`, `else` and `cont` blocks, a
    /// capture bound in the `then` branch.
    fn gen_if_stmt(&mut self, stmt: &HirStmt, depth: usize) -> (r: CodegenResult<()>)
        ensures
            final(self).loop_end_blocks@ == old(self).loop_end_blocks@,
            final(self).loop_continue_blocks@ == old(self).loop_continue_blocks@,
            emitted_grows(*old(self), *final(self)),
            !(*stmt is If) ==> (r matches Err(m) && m@ == "If expected"@),
            *stmt is If && r is Ok ==> built_since(*old(self), *final(self), ll::IrInstr::CondBranch),
        decreases depth, stmt, 2nat,
    {
        let (condition, capture, then_branch, else_branch) = match stmt {
            HirStmt::If { condition, capture, then_branch, else_branch, .. } => (condition, capture, then_branch, else_branch),
            _ => {
                return Err(owned("If expected"));
            },
        };
        let cond = self.gen_expr(condition, depth)?;
        let then_block = self.new_block("then")?;
        let else_block = self.new_block("else")?;
        let merge = self.new_block("cont")?;
        let payload = match &cond.ty {
            LType::Struct(fs) => if fs.len() > 0 { Some(ltype_clone(&fs[0])) } else { None },
            _ => None,
        };
        let cond_raw = cond.raw;
        let is_true = self.condition_to_i1(cond)?;
        let ghost at = self.builder.emitted@.len() as int;
        lerr(ll::build_cond_branch(&mut self.builder, is_true.raw, then_block, else_block))?;
        ll::position_at_end(&mut self.builder, then_block);
        let bound = self.bind_capture(capture, cond_raw, payload)?;
        self.gen_stmt(then_branch, depth)?;
        if !self.current_block_has_terminator() {
            lerr(ll::build_branch(&mut self.builder, merge))?;
        }
        if bound {
            match capture {
                Some(n) => self.remove_variable(n.as_str()),
                None => {},
            }
        }
        ll::position_at_end(&mut self.builder, else_block);
        match else_branch {
            Some(b) => {
                self.gen_stmt(b, depth)?;
            },
            None => {},
        }
        if !self.current_block_has_terminator() {
            lerr(ll::build_branch(&mut self.builder, merge))?;
        }
        ll::position_at_end(&mut self.builder, merge);
        assert(self.builder.emitted@[at] == ll::IrInstr::CondBranch);
        Ok(())
    }

    /// Generates a `switch`: each case compares the value with its patterns
    /// (`_` matches anything) and runs its body, else goes on to the next
    /// case; all end in `switch_end`.
    #[verifier::loop_isolation(false)]
    fn gen_switch(&mut self, stmt: &HirStmt, depth: usize) -> (r: CodegenResult<()>)
        ensures
            final(self).loop_end_blocks@ == old(self).loop_end_blocks@,
            final(self).loop_continue_blocks@ == old(self).loop_continue_blocks@,
            emitted_grows(*old(self), *final(self)),
            !(*stmt is Switch) ==> (r matches Err(m) && m@ == "Switch expected"@),
            *stmt is Switch && old(self).current_function is None ==> (r matches Err(m) && m@ == "No current function"@),
        decreases depth, stmt, 2nat,
    {
        let (condition, cases) = match stmt {
            HirStmt::Switch { condition, cases, .. } => (condition, cases),
            _ => {
                return Err(owned("Switch expected"));
            },
        };
        let end_block = self.new_block("switch_end")?;
        let cond = self.gen_expr(condition, depth)?;
        let mut i: usize = 0;
        while i < cases.len()
            invariant
                self.loop_end_blocks@ == old(self).loop_end_blocks@,
                self.loop_continue_blocks@ == old(self).loop_continue_blocks@,
                emitted_grows(*old(self), *self),
                i <= cases.len(),
            decreases cases.len() - i,
        {
            let case = &cases[i];
            let body_block = self.new_block("case_body")?;
            let next_block = self.new_block("next_case")?;
            let mut matched: Option<Val<'ctx>> = None;
            let mut wildcard = false;
            let mut k: usize = 0;
            while k < case.patterns.len()
                invariant
                    self.loop_end_blocks@ == old(self).loop_end_blocks@,
                    self.loop_continue_blocks@ == old(self).loop_continue_blocks@,
                    emitted_grows(*old(self), *self),
                    k <= case.patterns.len(),
                decreases case.patterns.len() - k,
            {
                let p = &case.patterns[k];
                let is_wild = match p {
                    HirExpr::Ident(n, _, _) => str_eq(n.as_str(), "_"),
                    _ => false,
                };
                if is_wild {
                    wildcard = true;
                } else {
                    proof {
                        assert(decreases_to!(*stmt => *cases));
                        assert(decreases_to!(*cases => cases@));
                        assert(decreases_to!(cases@ => cases@[i as int]));
                        assert(decreases_to!(cases@[i as int] => cases@[i as int].patterns));
                        assert(decreases_to!(cases@[i as int].patterns => cases@[i as int].patterns@));
                        assert(decreases_to!(cases@[i as int].patterns@ => cases@[i as int].patterns@[k as int]));
                    }
                    let pv = self.gen_expr(p, depth)?;
                    let is_float = matches!(cond.ty, LType::F32 | LType::F64);
                    let range = match p {
                        HirExpr::Binary { op: BinaryOp::Range, left, right, .. } => Some((left, right)),
                        _ => None,
                    };
                    let c = if let Some((left, right)) = range {
                        let start = self.gen_expr(left, depth)?;
                        let end = self.gen_expr(right, depth)?;
                        let ct = self.basic_type(&cond.ty)?;
                        let lo = lerr(ll::build_int_cast(&self.builder, start.raw, ct, "range_start_cast"))?;
                        let hi = lerr(ll::build_int_cast(&self.builder, end.raw, ct, "range_end_cast"))?;
                        let ge = lerr(ll::build_int_compare(&mut self.builder, Comparison::Ge, cond.raw, lo, "range_ge"))?;
                        let lt = lerr(ll::build_int_compare(&mut self.builder, Comparison::Lt, cond.raw, hi, "range_lt"))?;
                        lerr(ll::build_and(&mut self.builder, ge, lt, "range_check"))?
                    } else if is_float {
                        lerr(ll::build_float_compare(&mut self.builder, Comparison::Eq, cond.raw, pv.raw, "case_cmp"))?
                    } else {
                        lerr(ll::build_int_compare(&mut self.builder, Comparison::Eq, cond.raw, pv.raw, "case_cmp"))?
                    };
                    matched = match matched {
                        Some(m) => Some(Val { raw: lerr(ll::build_or(&mut self.builder, m.raw, c, "or"))?, ty: LType::Int(1) }),
                        None => Some(Val { raw: c, ty: LType::Int(1) }),
                    };
                }
                k = k + 1;
            }
            if wildcard {
                lerr(ll::build_branch(&mut self.builder, body_block))?;
            } else {
                match matched {
                    Some(m) => lerr(ll::build_cond_branch(&mut self.builder, m.raw, body_block, next_block))?,
                    None => lerr(ll::build_branch(&mut self.builder, next_block))?,
                }
            }
            ll::position_at_end(&mut self.builder, body_block);
            proof {
                assert(decreases_to!(*stmt => *cases));
                assert(decreases_to!(*cases => cases@));
                assert(decreases_to!(cases@ => cases@[i as int]));
                assert(decreases_to!(cases@[i as int] => cases@[i as int].body));
            }
            self.gen_stmt(&case.body, depth)?;
            if !self.current_block_has_terminator() {
                lerr(ll::build_branch(&mut self.builder, end_block))?;
            }
            ll::position_at_end(&mut self.builder, next_block);
            i = i + 1;
        }
        if !self.current_block_has_terminator() {
            lerr(ll::build_branch(&mut self.builder, end_block))?;
        }
        ll::position_at_end(&mut self.builder, end_block);
        Ok(())
    }
}


/// How a `for` loop walks its iterable.
#[derive(Debug, Clone, Copy, PartialEq, Eq, Structural)]
pub enum LoopKind {
    /// An optional value, evaluated again before each round; the loop stops
    /// at null.
    Optional,
    /// A boolean, evaluated again before each round; the loop stops at false.
    Condition,
    /// A range `{ start, end }`: the loop runs while `start < end` (signed),
    /// counting `start` up.
    Range,
    /// Any other value: the loop runs until a `break`.
    Endless,
    /// An array: the loop walks its elements by an index counted up from
    /// zero while it is below the array's length.
    Array,
}

/// How a `for` loop walks an iterable: by its language type where that
/// decides, else by the LLVM type of its value.
pub open spec fn for_kind(iterable: HirExpr, names: Seq<Seq<char>>) -> Option<LoopKind> {
    match loop_kind_of_type(hir_expr_type(iterable)@) {
        Some(k) => Some(k),
        None => match expr_value_type(iterable, names) {
            Some(t) => Some(loop_kind_of_ltype(t)),
            None => None,
        },
    }
}

/// How a `for` loop walks an iterable of a language type, when the type
/// decides it.
pub open spec fn loop_kind_of_type(t: TypeV) -> Option<LoopKind> {
    match t {
        TypeV::Option(_) => Some(LoopKind::Optional),
        TypeV::Bool => Some(LoopKind::Condition),
        TypeV::Array { .. } => Some(LoopKind::Array),
        _ => None,
    }
}

/// How a `for` loop walks an iterable of an LLVM type, when its language
/// type does not decide: an option-like pair is optional, other pairs are
/// ranges, `i1` is a condition, arrays are walked by index, pointers loop.
pub open spec fn loop_kind_of_ltype(t: crate::codegen::types::LTypeV) -> LoopKind {
    match t {
        crate::codegen::types::LTypeV::Struct(fs) => if fs.len() == 2 && fs[1] == crate::codegen::types::LTypeV::Int(1) {
            LoopKind::Optional
        } else {
            LoopKind::Range
        },
        crate::codegen::types::LTypeV::Int(w) => if w == 1 { LoopKind::Condition } else { LoopKind::Endless },
        crate::codegen::types::LTypeV::Array(_, _) => LoopKind::Array,
        _ => LoopKind::Endless,
    }
}

/// How a loop walks an iterable of a language type.
pub fn loop_kind_for_type(t: &Type) -> (r: Option<LoopKind>)
    ensures
        r == loop_kind_of_type(t@),
{
    match t {
        Type::Option(_) => Some(LoopKind::Optional),
        Type::Bool => Some(LoopKind::Condition),
        Type::Array { .. } => Some(LoopKind::Array),
        _ => None,
    }
}

/// How a loop walks an iterable of an LLVM type.
pub fn loop_kind_for_ltype(t: &LType) -> (r: LoopKind)
    ensures
        r == loop_kind_of_ltype(t@),
{
    match t {
        LType::Struct(fs) => {
            proof {
                crate::codegen::types::lemma_ltypes_len(fs@);
            }
            if fs.len() == 2 && crate::codegen::types::ltype_equal(&fs[1], &LType::Int(1)) {
                proof {
                    crate::codegen::types::lemma_ltypes_at(fs@, 1);
                }
                LoopKind::Optional
            } else {
                proof {
                    if fs.len() == 2 {
                        crate::codegen::types::lemma_ltypes_at(fs@, 1);
                    }
                }
                LoopKind::Range
            }
        },
        LType::Int(w) => if *w == 1 { LoopKind::Condition } else { LoopKind::Endless },
        LType::Array(_, _) => LoopKind::Array,
        _ => LoopKind::Endless,
    }
}

/// The language type a loop variable gets for an array element of an LLVM
/// type: integers by their width (other widths as `i64`), floats as `f64`,
/// anything else as `i64`.
pub open spec fn element_lang_type_of(t: crate::codegen::types::LTypeV) -> TypeV {
    match t {
        crate::codegen::types::LTypeV::Int(w) => if w == 8 {
            TypeV::I8
        } else if w == 16 {
            TypeV::I16
        } else if w == 32 {
            TypeV::I32
        } else {
            TypeV::I64
        },
        crate::codegen::types::LTypeV::F32 | crate::codegen::types::LTypeV::F64 => TypeV::F64,
        _ => TypeV::I64,
    }
}

/// The language type a loop variable gets for an array element.
pub fn element_lang_type(t: &LType) -> (r: Type)
    ensures
        r@ == element_lang_type_of(t@),
{
    match t {
        LType::Int(w) => if *w == 8 {
            Type::I8
        } else if *w == 16 {
            Type::I16
        } else if *w == 32 {
            Type::I32
        } else {
            Type::I64
        },
        LType::F32 | LType::F64 => Type::F64,
        _ => Type::I64,
    }
}

impl<'ctx> CodeGenerator<'ctx> {
    /// Generates a `for` loop: blocks `for_eval` (where optional and
    /// boolean iterables are evaluated again), `for_cond`, `for_body`,
    /// `for_continue` and `for_end`; `break` goes to `for_end` and
    /// `continue` to `for_continue`.
    #[verifier::rlimit(100)]
    fn gen_for(&mut self, stmt: &HirStmt, depth: usize) -> (r: CodegenResult<()>)
        ensures
            final(self).loop_end_blocks@ == old(self).loop_end_blocks@,
            final(self).loop_continue_blocks@ == old(self).loop_continue_blocks@,
            emitted_grows(*old(self), *final(self)),
            *stmt matches HirStmt::For { var_name: Some(x), .. } ==> (r is Ok ==> var_index(vars_view(final(self).variables@), x@) == -1),
            *stmt matches HirStmt::For { index_var: Some(x), .. } ==> (r is Ok ==> var_index(vars_view(final(self).variables@), x@) == -1),
            !(*stmt is For) ==> (r matches Err(m) && m@ == "For expected"@),
            *stmt is For && old(self).current_function is None ==> (r matches Err(m) && m@ == "No current function"@),
            *stmt matches HirStmt::For { iterable, .. } ==> (for_kind(iterable, struct_names(old(self).structs@)) == Some(
                LoopKind::Range,
            ) && r is Ok ==> built_since(
                *old(self),
                *final(self),
                ll::IrInstr::IntCompare(true, Comparison::Lt, "range_cmp"@),
            )),
            *stmt matches HirStmt::For { iterable, .. } ==> (for_kind(iterable, struct_names(old(self).structs@)) == Some(
                LoopKind::Array,
            ) && r is Ok ==> built_since(
                *old(self),
                *final(self),
                ll::IrInstr::IntCompare(true, Comparison::Lt, "array_cmp"@),
            )),
        decreases depth, stmt, 2nat,
    {
        let (label, var_name, index_var, iterable, body) = match stmt {
            HirStmt::For { label, var_name, index_var, iterable, body, .. } => (label, var_name, index_var, iterable, body),
            _ => {
                return Err(owned("For expected"));
            },
        };
        let eval_block = self.new_block("for_eval")?;
        let cond_block = self.new_block("for_cond")?;
        let body_block = self.new_block("for_body")?;
        let continue_block = self.new_block("for_continue")?;
        let end_block = self.new_block("for_end")?;
        let by_type = loop_kind_for_type(iterable.ty());
        let reevaluate = matches!(by_type, Some(LoopKind::Optional) | Some(LoopKind::Condition));
        let iter_ty = if reevaluate {
            self.llvm_type(iterable.ty())
        } else {
            LType::Int(64)
        };
        let (slot, iter_ty, kind) = if reevaluate {
            let bt = self.basic_type(&iter_ty)?;
            let slot = lerr(ll::build_alloca(&mut self.builder, bt, "iter_var"))?;
            lerr(ll::build_branch(&mut self.builder, eval_block))?;
            ll::position_at_end(&mut self.builder, eval_block);
            let v = self.gen_expr(iterable, depth)?;
            lerr(ll::build_store(&mut self.builder, slot, v.raw))?;
            let k = match by_type {
                Some(k) => k,
                None => LoopKind::Endless,
            };
            (slot, iter_ty, k)
        } else {
            let v = self.gen_expr(iterable, depth)?;
            let bt = self.basic_type(&v.ty)?;
            let slot = lerr(ll::build_alloca(&mut self.builder, bt, "iter_var"))?;
            lerr(ll::build_store(&mut self.builder, slot, v.raw))?;
            lerr(ll::build_branch(&mut self.builder, eval_block))?;
            ll::position_at_end(&mut self.builder, eval_block);
            let k = match by_type {
                Some(k) => k,
                None => loop_kind_for_ltype(&v.ty),
            };
            (slot, v.ty, k)
        };
        let array_index = if kind == LoopKind::Array {
            let (elem, n) = match &iter_ty {
                LType::Array(elem, n) => (ltype_clone(elem), *n),
                _ => {
                    return Err(owned("Iterating over a slice is not supported"));
                },
            };
            let i64t = self.basic_type(&LType::Int(64))?;
            let idx_slot = lerr(ll::build_alloca(&mut self.builder, i64t, "array_index"))?;
            let zero = self.const_i64(0)?;
            lerr(ll::build_store(&mut self.builder, idx_slot, zero.raw))?;
            Some((idx_slot, elem, n))
        } else {
            None
        };
        lerr(ll::build_branch(&mut self.builder, cond_block))?;
        ll::position_at_end(&mut self.builder, cond_block);
        let current = lerr(ll::build_load(&mut self.builder, slot, "iter_load"))?;
        let ghost mut check_at: int = 0;
        match kind {
            LoopKind::Optional => {
                let valid = lerr(ll::build_extract_value(&self.builder, current, 1, "is_valid"))?;
                let zero = self.const_int_of(&LType::Int(1), 0, false)?;
                let is_null = lerr(ll::build_int_compare(&mut self.builder, Comparison::Eq, valid, zero.raw, "is_null"))?;
                lerr(ll::build_cond_branch(&mut self.builder, is_null, end_block, body_block))?;
            },
            LoopKind::Condition => {
                lerr(ll::build_cond_branch(&mut self.builder, current, body_block, end_block))?;
            },
            LoopKind::Range => {
                let start = lerr(ll::build_extract_value(&self.builder, current, 0, "range_start"))?;
                let end = lerr(ll::build_extract_value(&self.builder, current, 1, "range_end"))?;
                proof {
                    check_at = self.builder.emitted@.len() as int;
                }
                let more = lerr(ll::build_signed_int_compare(&mut self.builder, Comparison::Lt, start, end, "range_cmp"))?;
                assert(self.builder.emitted@[check_at] == ll::IrInstr::IntCompare(true, Comparison::Lt, "range_cmp"@));
                lerr(ll::build_cond_branch(&mut self.builder, more, body_block, end_block))?;
            },
            _ => match &array_index {
                Some((idx_slot, _, n)) => {
                    let idx = lerr(ll::build_load(&mut self.builder, *idx_slot, "array_idx_load"))?;
                    let len = self.const_i64(*n as u64)?;
                    proof {
                        check_at = self.builder.emitted@.len() as int;
                    }
                    let more = lerr(ll::build_signed_int_compare(&mut self.builder, Comparison::Lt, idx, len.raw, "array_cmp"))?;
                    assert(self.builder.emitted@[check_at] == ll::IrInstr::IntCompare(true, Comparison::Lt, "array_cmp"@));
                    lerr(ll::build_cond_branch(&mut self.builder, more, body_block, end_block))?;
                },
                None => {
                    lerr(ll::build_branch(&mut self.builder, body_block))?;
                },
            },
        }
        ll::position_at_end(&mut self.builder, body_block);
        match (var_name, &array_index) {
            (Some(name), Some((idx_slot, elem, _))) => {
                let idx = lerr(ll::build_load(&mut self.builder, *idx_slot, "array_idx_load_var"))?;
                let at = Val { raw: idx, ty: LType::Int(64) };
                let addr = self.element_address(ll::pointer_value(slot), &at, elem)?;
                let et = self.basic_type(elem)?;
                let p = lerr(ll::build_int_to_ptr_of(&self.builder, addr, et, "array_elem_ptr"))?;
                let ptr = lerr(ll::as_pointer(p))?;
                let val = lerr(ll::build_load(&mut self.builder, ptr, "array_elem"))?;
                let vslot = lerr(ll::build_alloca(&mut self.builder, et, name.as_str()))?;
                lerr(ll::build_store(&mut self.builder, vslot, val))?;
                let lang = element_lang_type(elem);
                self.add_variable(name, vslot, &lang, false);
            },
            (Some(name), None) => {
                let (val, vt) = match (&kind, &iter_ty) {
                    (LoopKind::Optional, LType::Struct(fs)) | (LoopKind::Range, LType::Struct(fs)) => {
                        if fs.len() > 0 {
                            (lerr(ll::build_extract_value(&self.builder, current, 0, "captured"))?, ltype_clone(&fs[0]))
                        } else {
                            (self.const_i64(0)?.raw, LType::Int(64))
                        }
                    },
                    _ => (self.const_i64(0)?.raw, LType::Int(64)),
                };
                let bt = self.basic_type(&vt)?;
                let vslot = lerr(ll::build_alloca(&mut self.builder, bt, name.as_str()))?;
                lerr(ll::build_store(&mut self.builder, vslot, val))?;
                self.add_variable(name, vslot, &Type::I64, false);
            },
            (None, _) => {},
        }
        match index_var {
            Some(name) => {
                let val = match (&iter_ty, &array_index) {
                    (_, Some((idx_slot, _, _))) => lerr(ll::build_load(&mut self.builder, *idx_slot, "array_idx_for_var"))?,
                    (LType::Struct(fs), None) => if fs.len() > 1 {
                        lerr(ll::build_extract_value(&self.builder, current, 1, "index_captured"))?
                    } else {
                        self.const_i64(0)?.raw
                    },
                    _ => self.const_i64(0)?.raw,
                };
                let it = match &iter_ty {
                    LType::Struct(fs) => if fs.len() > 1 { ltype_clone(&fs[1]) } else { LType::Int(64) },
                    _ => LType::Int(64),
                };
                let bt = self.basic_type(&it)?;
                let islot = lerr(ll::build_alloca(&mut self.builder, bt, name.as_str()))?;
                lerr(ll::build_store(&mut self.builder, islot, val))?;
                self.add_variable(name, islot, &Type::I64, false);
            },
            None => {},
        }
        let ghost ends = self.loop_end_blocks@;
        let ghost continues = self.loop_continue_blocks@;
        self.loop_end_blocks.push_loop(end_block, label.clone());
        self.loop_continue_blocks.push_loop(continue_block, label.clone());
        let body_result = self.gen_stmt(body, depth);
        self.loop_end_blocks.pop_loop();
        self.loop_continue_blocks.pop_loop();
        assert(self.loop_end_blocks@ =~= ends);
        assert(self.loop_continue_blocks@ =~= continues);
        body_result?;
        if !self.current_block_has_terminator() {
            lerr(ll::build_branch(&mut self.builder, continue_block))?;
        }
        ll::position_at_end(&mut self.builder, continue_block);
        match kind {
            LoopKind::Optional | LoopKind::Condition => {
                lerr(ll::build_branch(&mut self.builder, eval_block))?;
            },
            LoopKind::Range => {
                let cur = lerr(ll::build_load(&mut self.builder, slot, "iter_next"))?;
                let start = lerr(ll::build_extract_value(&self.builder, cur, 0, "next_start"))?;
                let end = lerr(ll::build_extract_value(&self.builder, cur, 1, "next_end"))?;
                let one = self.const_i64(1)?;
                let inc = lerr(ll::build_int_add(&mut self.builder, start, one.raw, "start_inc"))?;
                let bt = self.basic_type(&iter_ty)?;
                let fresh = ll::const_zero(bt);
                let with_start = lerr(ll::build_insert_value(&self.builder, fresh, inc, 0, "new_iter"))?;
                let next = lerr(ll::build_insert_value(&self.builder, with_start, end, 1, "new_iter_final"))?;
                lerr(ll::build_store(&mut self.builder, slot, next))?;
                lerr(ll::build_branch(&mut self.builder, cond_block))?;
            },
            _ => {
                match &array_index {
                    Some((idx_slot, _, _)) => {
                        let idx = lerr(ll::build_load(&mut self.builder, *idx_slot, "array_idx_inc"))?;
                        let one = self.const_i64(1)?;
                        let next = lerr(ll::build_int_add(&mut self.builder, idx, one.raw, "array_idx_next"))?;
                        lerr(ll::build_store(&mut self.builder, *idx_slot, next))?;
                    },
                    None => {},
                }
                lerr(ll::build_branch(&mut self.builder, cond_block))?;
            },
        }
        ll::position_at_end(&mut self.builder, end_block);
        let ghost before_removal = self.variables@;
        match var_name {
            Some(n) => {
                self.remove_variable(n.as_str());
                proof {
                    crate::codegen::emit::law_out_of_scope(vars_view(before_removal), n@, n@);
                }
            },
            None => {},
        }
        let ghost mid = self.variables@;
        match index_var {
            Some(n) => {
                self.remove_variable(n.as_str());
                proof {
                    match var_name {
                        Some(x) => crate::codegen::emit::law_out_of_scope(vars_view(mid), n@, x@),
                        None => {},
                    }
                    crate::codegen::emit::law_out_of_scope(vars_view(mid), n@, n@);
                }
            },
            None => {},
        }
        proof {
            if kind == LoopKind::Range {
                assert(self.builder.emitted@[check_at] == ll::IrInstr::IntCompare(true, Comparison::Lt, "range_cmp"@));
            }
            if kind == LoopKind::Array {
                assert(self.builder.emitted@[check_at] == ll::IrInstr::IntCompare(true, Comparison::Lt, "array_cmp"@));
            }
        }
        Ok(())
    }

    /// Generates a function that was declared: its parameters in stack
    /// slots, its body, the deferred statements at its end, and a default
    /// return when the body does not end in one. The function is looked up
    /// in the module under its mangled symbol.
    pub fn generate_hir_function(&mut self, f: &HirFn) -> (r: CodegenResult<()>)
        ensures
            final(self).loop_end_blocks@ == old(self).loop_end_blocks@,
            final(self).loop_continue_blocks@ == old(self).loop_continue_blocks@,
            emitted_grows(*old(self), *final(self)),
            r is Ok ==> final(self).current_function is None,
    {
        let is_main = str_eq(f.name.as_str(), "main");
        let symbol = self.mangle_name(f.name.as_str(), is_main);
        let found = ll::get_function(&self.module, symbol.as_str());
        self.generate_found_function(f, found)
    }

    /// Generates a function given what the module holds under its mangled
    /// symbol: nothing gives the not-declared error and changes nothing;
    /// a function gets an `entry` block that the builder is placed in, its
    /// parameters in slots, its body, and a default return when the body
    /// does not end in one.
    pub fn generate_found_function(&mut self, f: &HirFn, found: Option<inkwell::values::FunctionValue<'ctx>>) -> (r: CodegenResult<()>)
        ensures
            final(self).loop_end_blocks@ == old(self).loop_end_blocks@,
            final(self).loop_continue_blocks@ == old(self).loop_continue_blocks@,
            emitted_grows(*old(self), *final(self)),
            r is Ok ==> final(self).current_function is None,
            found is None ==> (r matches Err(m) && m@ == "Function not declared: "@ + mangled(
                old(self).module_name@,
                f.name@,
                f.name@ == "main"@,
            ) + " (original: "@ + f.name@ + ")"@) && *final(self) == *old(self),
            found is Some ==> final(self).builder.positioned@,
    {
        let is_main = str_eq(f.name.as_str(), "main");
        let symbol = self.mangle_name(f.name.as_str(), is_main);
        let function = match found {
            Some(x) => x,
            None => {
                let mut m = owned("Function not declared: ");
                push_string(&mut m, &symbol);
                push_str(&mut m, " (original: ");
                push_string(&mut m, &f.name);
                push_str(&mut m, ")");
                return Err(m);
            },
        };
        self.current_function = Some(function);
        self.return_type = Some(f.return_ty.deep_clone());
        self.variables = Vec::new();
        self.const_names = Vec::new();
        self.defer_stack.clear();
        self.defer_bang_stack.clear();
        let entry = ll::append_block(self.context, function, "entry");
        ll::position_at_end(&mut self.builder, entry);
        self.defer_stack.push_scope();
        self.defer_bang_stack.push_scope();
        if is_main {
            self.clear_last_error_message()?;
        }
        let mut i: usize = 0;
        while i < f.params.len()
            invariant
                self.loop_end_blocks@ == old(self).loop_end_blocks@,
                self.loop_continue_blocks@ == old(self).loop_continue_blocks@,
                emitted_grows(*old(self), *self),
                found is Some,
                self.builder.positioned@,
                i <= f.params.len(),
            decreases f.params.len() - i,
        {
            if i > u32::MAX as usize {
                return Err(owned("Failed to get param"));
            }
            let pv = match ll::nth_param(function, i as u32) {
                Some(v) => v,
                None => {
                    return Err(owned("Failed to get param"));
                },
            };
            let lt = self.llvm_type(&f.params[i].1);
            let bt = self.basic_type(&lt)?;
            let slot = lerr(ll::build_alloca(&mut self.builder, bt, f.params[i].0.as_str()))?;
            lerr(ll::build_store(&mut self.builder, slot, pv))?;
            self.add_variable(&f.params[i].0, slot, &f.params[i].1, false);
            i = i + 1;
        }
        let returns_void = !is_main && matches!(f.return_ty, Type::Void);
        let mut returned = false;
        let n = f.body.len();
        let mut k: usize = 0;
        while k < n
            invariant
                self.loop_end_blocks@ == old(self).loop_end_blocks@,
                self.loop_continue_blocks@ == old(self).loop_continue_blocks@,
                emitted_grows(*old(self), *self),
                found is Some,
                self.builder.positioned@,
                k <= n,
                n == f.body.len(),
            decreases n - k,
        {
            if self.current_block_has_terminator() {
                break;
            }
            let stmt = &f.body[k];
            let is_last = k + 1 == n;
            if matches!(stmt, HirStmt::Return(_, _)) {
                self.gen_stmt(stmt, DEFER_DEPTH)?;
                returned = true;
                break;
            } else if is_last && returns_void {
                match stmt {
                    HirStmt::Expr(e) => {
                        let _ = self.gen_expr(e, DEFER_DEPTH);
                    },
                    _ => {
                        self.gen_stmt(stmt, DEFER_DEPTH)?;
                    },
                }
                self.pop_defer_scope()?;
                lerr(ll::build_return_void(&mut self.builder))?;
                returned = true;
                break;
            } else if is_last {
                self.gen_stmt(stmt, DEFER_DEPTH)?;
                self.pop_defer_scope()?;
                self.build_default_return(&f.return_ty, is_main)?;
                returned = true;
                break;
            } else {
                self.gen_stmt(stmt, DEFER_DEPTH)?;
            }
            k = k + 1;
        }
        if !returned && !self.current_block_has_terminator() {
            self.pop_defer_scope()?;
            self.build_default_return(&f.return_ty, is_main)?;
        }
        self.current_function = None;
        Ok(())
    }

    /// Generates every function of a program.
    pub fn generate_hir(&mut self, program: &HirProgram) -> (r: CodegenResult<()>)
        ensures
            final(self).loop_end_blocks@ == old(self).loop_end_blocks@,
            final(self).loop_continue_blocks@ == old(self).loop_continue_blocks@,
            emitted_grows(*old(self), *final(self)),
            program.functions.len() == 0 ==> r is Ok && *final(self) == *old(self),
            r is Ok && program.functions.len() > 0 ==> final(self).current_function is None,
    {
        let mut i: usize = 0;
        while i < program.functions.len()
            invariant
                self.loop_end_blocks@ == old(self).loop_end_blocks@,
                self.loop_continue_blocks@ == old(self).loop_continue_blocks@,
                emitted_grows(*old(self), *self),
                i <= program.functions.len(),
                i == 0 ==> *self == *old(self),
                i > 0 ==> self.current_function is None,
            decreases program.functions.len() - i,
        {
            self.generate_hir_function(&program.functions[i])?;
            i = i + 1;
        }
        Ok(())
    }
}

} // verus!
