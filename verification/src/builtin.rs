//! The compiler's intrinsic functions (`@is_null`, `@type_of`, ...): their
//! names, the registry code generation looks them up in, and what each one
//! emits once its arguments are at hand.

use vstd::prelude::*;
use crate::codegen::emit::{CodeGenerator, CodegenResult, Val, only_emitted, emitted_grows};
use crate::codegen::gen::lerr;
use crate::codegen::llvm as ll;
use crate::codegen::ops::Comparison;
use crate::codegen::types::{LType, LTypeV, lemma_ltypes_at, lemma_ltypes_len, ltypes_view};
use crate::hir::HirExpr;
use crate::text::owned;

verus! {

/// `@is_null(p)`: whether a pointer is null.
pub struct IsNullIntrinsic;

/// `@is_not_null(p)`: whether a pointer is not null.
pub struct IsNotNullIntrinsic;

/// `@type_of(x)`: the text of the type of an expression, as a slice.
pub struct TypeOfIntrinsic;

/// `@size_of(T)`: the size of a type.
pub struct SizeOfIntrinsic;

/// `@align_of(T)`: the alignment of a type.
pub struct AlignOfIntrinsic;

/// `@bit_cast(value, T)`: a value reinterpreted as another type.
pub struct BitCastIntrinsic;

/// The intrinsics code generation looks up by name.
#[derive(Debug, Clone, Copy, PartialEq, Eq, Structural)]
pub enum IntrinsicKind {
    IsNull,
    IsNotNull,
    TypeOf,
    SizeOf,
    AlignOf,
}

/// The name a program calls an intrinsic by.
pub open spec fn intrinsic_name(k: IntrinsicKind) -> Seq<char> {
    match k {
        IntrinsicKind::IsNull => "@is_null"@,
        IntrinsicKind::IsNotNull => "@is_not_null"@,
        IntrinsicKind::TypeOf => "@type_of"@,
        IntrinsicKind::SizeOf => "@size_of"@,
        IntrinsicKind::AlignOf => "@align_of"@,
    }
}

/// The registered intrinsics, in registration order.
pub open spec fn registered_intrinsics() -> Seq<IntrinsicKind> {
    seq![IntrinsicKind::IsNull, IntrinsicKind::IsNotNull, IntrinsicKind::TypeOf, IntrinsicKind::SizeOf, IntrinsicKind::AlignOf]
}

/// The registered intrinsic of a name, if there is one.
pub open spec fn intrinsic_named(name: Seq<char>) -> Option<IntrinsicKind> {
    if name == "@is_null"@ {
        Some(IntrinsicKind::IsNull)
    } else if name == "@is_not_null"@ {
        Some(IntrinsicKind::IsNotNull)
    } else if name == "@type_of"@ {
        Some(IntrinsicKind::TypeOf)
    } else if name == "@size_of"@ {
        Some(IntrinsicKind::SizeOf)
    } else if name == "@align_of"@ {
        Some(IntrinsicKind::AlignOf)
    } else {
        None
    }
}

/// The registered intrinsics.
pub fn get_intrinsics() -> (r: Vec<IntrinsicKind>)
    ensures
        r@ == registered_intrinsics(),
{
    let mut r: Vec<IntrinsicKind> = Vec::new();
    r.push(IntrinsicKind::IsNull);
    r.push(IntrinsicKind::IsNotNull);
    r.push(IntrinsicKind::TypeOf);
    r.push(IntrinsicKind::SizeOf);
    r.push(IntrinsicKind::AlignOf);
    assert(r@ =~= registered_intrinsics());
    r
}

impl IntrinsicKind {
    /// The name a program calls the intrinsic by.
    pub fn name(&self) -> (r: &'static str)
        ensures
            r@ == intrinsic_name(*self),
    {
        match self {
            IntrinsicKind::IsNull => IsNullIntrinsic.name(),
            IntrinsicKind::IsNotNull => IsNotNullIntrinsic.name(),
            IntrinsicKind::TypeOf => TypeOfIntrinsic.name(),
            IntrinsicKind::SizeOf => SizeOfIntrinsic.name(),
            IntrinsicKind::AlignOf => AlignOfIntrinsic.name(),
        }
    }
}

/// Looks an intrinsic up by name among the registered ones.
pub fn lookup_intrinsic(name: &str) -> (r: Option<IntrinsicKind>)
    ensures
        r == intrinsic_named(name@),
        r matches Some(k) ==> registered_intrinsics().contains(k) && intrinsic_name(k) == name@,
{
    let all = get_intrinsics();
    let mut i: usize = 0;
    while i < all.len()
        invariant
            i <= all@.len(),
            all@ == registered_intrinsics(),
            forall|j: int| 0 <= j < i ==> intrinsic_name(#[trigger] all@[j]) != name@,
        decreases all@.len() - i,
    {
        if crate::text::str_eq(all[i].name(), name) {
            assert(all@[i as int] == registered_intrinsics()[i as int]);
            return Some(all[i]);
        }
        i = i + 1;
    }
    assert(intrinsic_name(all@[0]) != name@);
    assert(intrinsic_name(all@[1]) != name@);
    assert(intrinsic_name(all@[2]) != name@);
    assert(intrinsic_name(all@[3]) != name@);
    assert(intrinsic_name(all@[4]) != name@);
    None
}

/// Turns a pointer, or an integer taken as an address, into a pointer
/// value; other values are refused.
fn pointer_operand<'ctx>(codegen: &CodeGenerator<'ctx>, arg: Val<'ctx>) -> (r: CodegenResult<Val<'ctx>>)
    ensures
        !(arg.ty is Ptr || arg.ty is Int) ==> (r matches Err(m) && m@ == "Invalid argument type for null check"@),
        r matches Ok(v) ==> v.ty@ == LTypeV::Ptr,
{
    match arg.ty {
        LType::Ptr => Ok(arg),
        LType::Int(_) => {
            let raw = lerr(ll::build_int_to_ptr(&codegen.builder, codegen.context, arg.raw, "int_to_ptr"))?;
            Ok(Val { raw, ty: LType::Ptr })
        },
        _ => Err(owned("Invalid argument type for null check")),
    }
}

impl IsNullIntrinsic {
    /// `@is_null`.
    pub fn name(&self) -> (r: &'static str)
        ensures
            r@ == "@is_null"@,
    {
        "@is_null"
    }

    /// Compares the (generated) argument with the null pointer.
    pub fn generate<'ctx>(&self, codegen: &mut CodeGenerator<'ctx>, arg: Val<'ctx>) -> (r: CodegenResult<Val<'ctx>>)
        ensures
            only_emitted(*old(codegen), *final(codegen)),
            emitted_grows(*old(codegen), *final(codegen)),
            !(arg.ty is Ptr || arg.ty is Int) ==> (r matches Err(m) && m@ == "Invalid argument type for null check"@),
            r matches Ok(v) ==> v.ty@ == LTypeV::Int(1),
    {
        let p = pointer_operand(&*codegen, arg)?;
        let null = ll::const_null_ptr(codegen.context);
        let raw = lerr(ll::build_int_compare(&mut codegen.builder, Comparison::Eq, p.raw, null, "ptr_is_null"))?;
        Ok(Val { raw, ty: LType::Int(1) })
    }
}

impl IsNotNullIntrinsic {
    /// `@is_not_null`.
    pub fn name(&self) -> (r: &'static str)
        ensures
            r@ == "@is_not_null"@,
    {
        "@is_not_null"
    }

    /// Compares the address of the (generated) argument with zero.
    pub fn generate<'ctx>(&self, codegen: &mut CodeGenerator<'ctx>, arg: Val<'ctx>) -> (r: CodegenResult<Val<'ctx>>)
        ensures
            only_emitted(*old(codegen), *final(codegen)),
            emitted_grows(*old(codegen), *final(codegen)),
            !(arg.ty is Ptr || arg.ty is Int) ==> (r matches Err(m) && m@ == "Invalid argument type for null check"@),
            r matches Ok(v) ==> v.ty@ == LTypeV::Int(1),
    {
        let p = pointer_operand(&*codegen, arg)?;
        let addr = lerr(ll::build_ptr_to_int(&codegen.builder, codegen.context, p.raw, "ptr_to_int"))?;
        let zero = codegen.const_i64(0)?;
        let raw = lerr(ll::build_int_compare(&mut codegen.builder, Comparison::Ne, addr, zero.raw, "ptr_is_not_null"))?;
        Ok(Val { raw, ty: LType::Int(1) })
    }
}

impl TypeOfIntrinsic {
    /// `@type_of`.
    pub fn name(&self) -> (r: &'static str)
        ensures
            r@ == "@type_of"@,
    {
        "@type_of"
    }

    /// The slice `{ text, length }` of the text of the argument's type; the
    /// argument itself is not generated.
    pub fn generate<'ctx>(&self, codegen: &mut CodeGenerator<'ctx>, arg: &HirExpr) -> (r: CodegenResult<Val<'ctx>>)
        ensures
            only_emitted(*old(codegen), *final(codegen)),
            emitted_grows(*old(codegen), *final(codegen)),
            r matches Ok(v) ==> v.ty@ == LTypeV::Struct(seq![LTypeV::Ptr, LTypeV::Int(64)]),
    {
        let text = arg.ty().text();
        let ptr = lerr(ll::build_global_string_ptr(&codegen.builder, text.as_str(), "type_of_str"))?;
        let len = codegen.const_i64(crate::text::byte_len(text.as_str()))?;
        let mut fs: Vec<LType> = Vec::new();
        fs.push(LType::Ptr);
        fs.push(LType::Int(64));
        proof {
            lemma_ltypes_len(fs@);
            lemma_ltypes_at(fs@, 0);
            lemma_ltypes_at(fs@, 1);
            assert(ltypes_view(fs@) =~= seq![LTypeV::Ptr, LTypeV::Int(64)]);
        }
        let lt = LType::Struct(fs);
        let bt = codegen.basic_type(&lt)?;
        let undef = lerr(ll::undef_struct(bt))?;
        let with_ptr = lerr(ll::build_insert_value(&codegen.builder, undef, ptr, 0, "slice_ptr"))?;
        let raw = lerr(ll::build_insert_value(&codegen.builder, with_ptr, len.raw, 1, "slice_len"))?;
        Ok(Val { raw, ty: lt })
    }
}

impl SizeOfIntrinsic {
    /// `@size_of`.
    pub fn name(&self) -> (r: &'static str)
        ensures
            r@ == "@size_of"@,
    {
        "@size_of"
    }

    /// The argument must be a type literal, which the high-level
    /// representation has no form for: every argument is refused.
    pub fn generate<'ctx>(&self, arg: &HirExpr) -> (r: CodegenResult<Val<'ctx>>)
        ensures
            r matches Err(m) && m@ == "Argument to @size_of must be a type literal"@,
    {
        Err(owned("Argument to @size_of must be a type literal"))
    }
}

impl AlignOfIntrinsic {
    /// `@align_of`.
    pub fn name(&self) -> (r: &'static str)
        ensures
            r@ == "@align_of"@,
    {
        "@align_of"
    }

    /// The argument must be a type literal, which the high-level
    /// representation has no form for: every argument is refused.
    pub fn generate<'ctx>(&self, arg: &HirExpr) -> (r: CodegenResult<Val<'ctx>>)
        ensures
            r matches Err(m) && m@ == "Argument to @align_of must be a type literal"@,
    {
        Err(owned("Argument to @align_of must be a type literal"))
    }
}

impl BitCastIntrinsic {
    /// `@bit_cast`.
    pub fn name(&self) -> (r: &'static str)
        ensures
            r@ == "@bit_cast"@,
    {
        "@bit_cast"
    }

    /// Needs two arguments, the second a type literal, which the high-level
    /// representation has no form for: the call is refused once the number
    /// of arguments is checked.
    pub fn generate<'ctx>(&self, arg_count: usize) -> (r: CodegenResult<Val<'ctx>>)
        ensures
            arg_count != 2 ==> (r matches Err(m) && m@ == "@bit_cast requires exactly two arguments: (value, Type)"@),
            arg_count == 2 ==> (r matches Err(m) && m@ == "Second argument to @bit_cast must be a type literal"@),
    {
        if arg_count != 2 {
            Err(owned("@bit_cast requires exactly two arguments: (value, Type)"))
        } else {
            Err(owned("Second argument to @bit_cast must be a type literal"))
        }
    }
}

} // verus!
