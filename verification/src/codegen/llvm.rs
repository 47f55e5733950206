//! The inkwell calls code generation makes. Each function here makes one
//! call into inkwell; values and types are LLVM handles the library does not
//! look into. Where a call wants an integer, float, pointer or struct value
//! (or type) and is handed another kind, the function answers
//! `LlvmError::Kind` in place of the call (`build_load` also refuses a
//! pointer whose target is not a sized first-class type). The builder
//! carries, as ghost state, a record of some of the requests made of it
//! and whether it has a block to build in; see [`IrBuilder`].

use vstd::prelude::*;
use inkwell::basic_block::BasicBlock;
use inkwell::builder::{Builder, BuilderError};
use inkwell::context::Context;
use inkwell::module::{Linkage, Module};
use inkwell::types::{BasicMetadataTypeEnum, BasicType, BasicTypeEnum, FunctionType, IntType, StructType};
use inkwell::values::{BasicMetadataValueEnum, BasicValue, BasicValueEnum, CallableValue, FloatValue, FunctionValue, IntValue, GlobalValue, PhiValue, PointerValue, ValueKind};
use inkwell::{AddressSpace, FloatPredicate, IntPredicate};
use crate::codegen::ops::{Comparison, FloatOp, IntOp};

verus! {

#[verifier::external_type_specification]
#[verifier::external_body]
pub struct ExContext(Context);

#[verifier::external_type_specification]
#[verifier::external_body]
pub struct ExModule<'ctx>(Module<'ctx>);

#[verifier::external_type_specification]
#[verifier::external_body]
pub struct ExBuilder<'ctx>(Builder<'ctx>);

#[verifier::external_type_specification]
#[verifier::external_body]
pub struct ExBuilderError(BuilderError);

#[verifier::external_type_specification]
#[verifier::external_body]
pub struct ExBasicTypeEnum<'ctx>(BasicTypeEnum<'ctx>);

#[verifier::external_type_specification]
#[verifier::external_body]
pub struct ExBasicValueEnum<'ctx>(BasicValueEnum<'ctx>);

#[verifier::external_type_specification]
#[verifier::external_body]
pub struct ExPointerValue<'ctx>(PointerValue<'ctx>);

#[verifier::external_type_specification]
#[verifier::external_body]
pub struct ExFunctionValue<'ctx>(FunctionValue<'ctx>);

#[verifier::external_type_specification]
#[verifier::external_body]
pub struct ExFunctionType<'ctx>(FunctionType<'ctx>);

#[verifier::external_type_specification]
#[verifier::external_body]
pub struct ExStructType<'ctx>(StructType<'ctx>);

#[verifier::external_type_specification]
#[verifier::external_body]
pub struct ExBasicBlock<'ctx>(BasicBlock<'ctx>);

#[verifier::external_type_specification]
#[verifier::external_body]
pub struct ExPhiValue<'ctx>(PhiValue<'ctx>);

#[verifier::external_type_specification]
#[verifier::external_body]
pub struct ExGlobalValue<'ctx>(GlobalValue<'ctx>);

#[verifier::external_type_specification]
#[verifier::external_body]
pub struct ExIntValue<'ctx>(IntValue<'ctx>);

#[verifier::external_type_specification]
#[verifier::external_body]
pub struct ExIntType<'ctx>(IntType<'ctx>);

#[verifier::external_type_specification]
#[verifier::external_body]
pub struct ExFloatValue<'ctx>(FloatValue<'ctx>);

/// An instruction the builder was asked to build, as far as the library
/// chooses it: the operation, its predicate, and the name given to its
/// result. Operands are LLVM handles and are not modelled.
pub enum IrInstr {
    /// An integer arithmetic or bit instruction.
    IntBinary(IntOp, Seq<char>),
    /// A float arithmetic instruction.
    FloatBinary(FloatOp),
    /// `icmp`: signed (`true`) or unsigned predicate of a comparison.
    IntCompare(bool, Comparison, Seq<char>),
    /// `fcmp` with the ordered predicate of a comparison.
    FloatCompare(Comparison, Seq<char>),
    /// `sub 0, x`.
    IntNeg,
    /// A stack slot.
    Alloca(Seq<char>),
    Store,
    Load(Seq<char>),
    /// `ret` with a value.
    Return,
    /// `ret void`.
    ReturnVoid,
    /// An unconditional branch.
    Branch,
    /// A conditional branch.
    CondBranch,
    /// An integer constant (created through its type, not by the builder),
    /// with whether its value is sign-extended.
    IntConst(u64, bool),
}

/// The inkwell builder, with a record of what the library asked of it.
/// `emitted` holds, in order, the requests made through the wrappers that
/// take the builder mutably: the instructions of [`IrInstr`] and the integer
/// constants. Instructions built through the other wrappers (casts, element
/// addresses, aggregate values, calls, phis, selects, global strings) are
/// not in it. LLVM's builder folds an instruction whose operands are all
/// constants into a constant; the record still holds the request.
/// `positioned` says whether the builder has been given a block to build
/// in; inkwell refuses every instruction until it has.
pub struct IrBuilder<'ctx> {
    pub raw: Builder<'ctx>,
    pub emitted: Ghost<Seq<IrInstr>>,
    pub positioned: Ghost<bool>,
}

/// What an inkwell call can fail with.
pub enum LlvmError {
    /// The builder refused the instruction.
    Builder(BuilderError),
    /// A value or type of another kind than the call takes was handed in.
    Kind,
}

/// `Context::create_module`.
#[verifier::external_body]
pub(crate) fn create_module<'ctx>(context: &'ctx Context, name: &str) -> Module<'ctx> {
    context.create_module(name)
}

/// `Context::create_builder`.
#[verifier::external_body]
pub(crate) fn create_builder<'ctx>(context: &'ctx Context) -> Builder<'ctx> {
    context.create_builder()
}

/// `Module::print_to_string`: the textual IR of the module.
#[verifier::external_body]
pub(crate) fn module_text<'ctx>(module: &Module<'ctx>) -> String {
    module.print_to_string().to_string()
}

/// `BuilderError`'s text (`Display`).
#[verifier::external_body]
pub(crate) fn builder_error_text(e: &BuilderError) -> String {
    e.to_string()
}

/// `Context::custom_width_int_type`: the integer type of a width; inkwell
/// gives one for every width from 1 to 2^23 bits and refuses the others.
#[verifier::external_body]
pub(crate) fn int_type<'ctx>(context: &'ctx Context, bits: u32) -> (r: Option<IntType<'ctx>>)
    ensures
        r is Some <==> 1 <= bits <= 8388608,
{
    match std::num::NonZeroU32::new(bits) {
        Some(b) => context.custom_width_int_type(b).ok(),
        None => None,
    }
}

/// An integer type as a first-class type (the `From` of inkwell).
#[verifier::external_body]
pub(crate) fn int_basic_type<'ctx>(t: IntType<'ctx>) -> BasicTypeEnum<'ctx> {
    t.into()
}

/// `Context::f32_type`.
#[verifier::external_body]
pub(crate) fn f32_type<'ctx>(context: &'ctx Context) -> BasicTypeEnum<'ctx> {
    context.f32_type().into()
}

/// `Context::f64_type`.
#[verifier::external_body]
pub(crate) fn f64_type<'ctx>(context: &'ctx Context) -> BasicTypeEnum<'ctx> {
    context.f64_type().into()
}

/// `IntType::ptr_type` on `i8`: the byte pointer type, which stands for
/// every pointer.
#[verifier::external_body]
pub(crate) fn ptr_type<'ctx>(context: &'ctx Context) -> BasicTypeEnum<'ctx> {
    context.i8_type().ptr_type(AddressSpace::default()).into()
}

/// `Context::struct_type` (not packed).
#[verifier::external_body]
pub(crate) fn struct_type<'ctx>(context: &'ctx Context, fields: &Vec<BasicTypeEnum<'ctx>>) -> BasicTypeEnum<'ctx> {
    context.struct_type(fields.as_slice(), false).into()
}

/// `Context::get_struct_type`: the named struct type, if the context has
/// one.
#[verifier::external_body]
pub(crate) fn get_struct_type<'ctx>(context: &'ctx Context, name: &str) -> Option<BasicTypeEnum<'ctx>> {
    context.get_struct_type(name).map(|t| t.into())
}

/// `Context::opaque_struct_type`: a new named struct without a body.
#[verifier::external_body]
pub(crate) fn opaque_struct_type<'ctx>(context: &'ctx Context, name: &str) -> StructType<'ctx> {
    context.opaque_struct_type(name)
}

/// `StructType::set_body` (not packed).
#[verifier::external_body]
pub(crate) fn set_struct_body<'ctx>(t: StructType<'ctx>, fields: &Vec<BasicTypeEnum<'ctx>>) {
    t.set_body(fields.as_slice(), false);
}

/// `BasicType::array_type`.
#[verifier::external_body]
pub(crate) fn array_type<'ctx>(elem: BasicTypeEnum<'ctx>, size: u32) -> BasicTypeEnum<'ctx> {
    elem.array_type(size).into()
}

/// `BasicType::fn_type` (not variadic).
#[verifier::external_body]
pub(crate) fn fn_type<'ctx>(ret: BasicTypeEnum<'ctx>, params: &Vec<BasicTypeEnum<'ctx>>) -> FunctionType<'ctx> {
    let ps: Vec<BasicMetadataTypeEnum<'ctx>> = params.iter().map(|p| (*p).into()).collect();
    ret.fn_type(&ps, false)
}

/// `VoidType::fn_type` (not variadic).
#[verifier::external_body]
pub(crate) fn void_fn_type<'ctx>(context: &'ctx Context, params: &Vec<BasicTypeEnum<'ctx>>) -> FunctionType<'ctx> {
    let ps: Vec<BasicMetadataTypeEnum<'ctx>> = params.iter().map(|p| (*p).into()).collect();
    context.void_type().fn_type(&ps, false)
}

/// `Module::add_function` with default linkage.
#[verifier::external_body]
pub(crate) fn add_function<'ctx>(module: &Module<'ctx>, name: &str, ty: FunctionType<'ctx>) -> FunctionValue<'ctx> {
    module.add_function(name, ty, None)
}

/// `Module::add_function` with external linkage.
#[verifier::external_body]
pub(crate) fn add_external_function<'ctx>(module: &Module<'ctx>, name: &str, ty: FunctionType<'ctx>) -> FunctionValue<'ctx> {
    module.add_function(name, ty, Some(Linkage::External))
}

/// `Module::get_function`.
#[verifier::external_body]
pub(crate) fn get_function<'ctx>(module: &Module<'ctx>, name: &str) -> Option<FunctionValue<'ctx>> {
    module.get_function(name)
}

/// `FunctionValue::get_nth_param`.
#[verifier::external_body]
pub(crate) fn nth_param<'ctx>(f: FunctionValue<'ctx>, n: u32) -> Option<BasicValueEnum<'ctx>> {
    f.get_nth_param(n)
}

/// `GlobalValue::as_pointer_value` of the function's global: the function
/// as a pointer value.
#[verifier::external_body]
pub(crate) fn function_pointer<'ctx>(f: FunctionValue<'ctx>) -> BasicValueEnum<'ctx> {
    f.as_global_value().as_pointer_value().into()
}

/// A pointer as a value (the `From` of inkwell).
#[verifier::external_body]
pub(crate) fn pointer_value<'ctx>(p: PointerValue<'ctx>) -> BasicValueEnum<'ctx> {
    p.into()
}

/// `Context::append_basic_block`.
#[verifier::external_body]
pub(crate) fn append_block<'ctx>(context: &'ctx Context, f: FunctionValue<'ctx>, name: &str) -> BasicBlock<'ctx> {
    context.append_basic_block(f, name)
}

/// `Builder::position_at_end`: the builder builds at the end of the block
/// from now on.
#[verifier::external_body]
pub(crate) fn position_at_end<'ctx>(builder: &mut IrBuilder<'ctx>, block: BasicBlock<'ctx>)
    ensures
        final(builder).raw == old(builder).raw,
        final(builder).emitted == old(builder).emitted,
        final(builder).positioned@,
{
    builder.raw.position_at_end(block)
}

/// `Builder::get_insert_block`.
#[verifier::external_body]
pub(crate) fn insert_block<'ctx>(builder: &IrBuilder<'ctx>) -> Option<BasicBlock<'ctx>> {
    builder.raw.get_insert_block()
}

/// `BasicBlock::get_terminator`, as whether the block has one.
#[verifier::external_body]
pub(crate) fn has_terminator<'ctx>(block: BasicBlock<'ctx>) -> bool {
    block.get_terminator().is_some()
}

/// `BasicTypeEnum::const_zero`.
#[verifier::external_body]
pub(crate) fn const_zero<'ctx>(t: BasicTypeEnum<'ctx>) -> BasicValueEnum<'ctx> {
    t.const_zero()
}

/// `IntType::const_int`: the constant of an integer type, recorded in the
/// builder's record.
#[verifier::external_body]
pub(crate) fn const_int<'ctx>(b: &mut IrBuilder<'ctx>, t: IntType<'ctx>, value: u64, sign_extend: bool) -> (res: BasicValueEnum<'ctx>)
    ensures
        final(b).raw == old(b).raw,
        final(b).positioned == old(b).positioned,
        final(b).emitted@ == old(b).emitted@.push(IrInstr::IntConst(value, sign_extend)),
{
    t.const_int(value, sign_extend).into()
}

/// `StructType::get_undef` on a struct type.
#[verifier::external_body]
pub(crate) fn undef_struct<'ctx>(t: BasicTypeEnum<'ctx>) -> Result<BasicValueEnum<'ctx>, LlvmError> {
    match t {
        BasicTypeEnum::StructType(st) => Ok(st.get_undef().into()),
        _ => Err(LlvmError::Kind),
    }
}

/// `Builder::build_alloca`.
#[verifier::external_body]
pub(crate) fn build_alloca<'ctx>(builder: &mut IrBuilder<'ctx>, t: BasicTypeEnum<'ctx>, name: &str) -> (res: Result<PointerValue<'ctx>, LlvmError>)
    ensures
        old(builder).positioned@ ==> res is Ok,
        final(builder).raw == old(builder).raw,
        final(builder).positioned == old(builder).positioned,
        res is Ok ==> final(builder).emitted@ == old(builder).emitted@.push(IrInstr::Alloca(name@)),
        res is Err ==> final(builder).emitted@ == old(builder).emitted@,
{
    builder.raw.build_alloca(t, name).map_err(LlvmError::Builder)
}

/// `Builder::build_store`.
#[verifier::external_body]
pub(crate) fn build_store<'ctx>(builder: &mut IrBuilder<'ctx>, ptr: PointerValue<'ctx>, v: BasicValueEnum<'ctx>) -> (res: Result<(), LlvmError>)
    ensures
        old(builder).positioned@ ==> res is Ok,
        final(builder).raw == old(builder).raw,
        final(builder).positioned == old(builder).positioned,
        res is Ok ==> final(builder).emitted@ == old(builder).emitted@.push(IrInstr::Store),
        res is Err ==> final(builder).emitted@ == old(builder).emitted@,
{
    builder.raw.build_store(ptr, v).map(|_| ()).map_err(LlvmError::Builder)
}

/// `Builder::build_load`, on a pointer to a sized first-class type; a
/// pointer to a function or to an unsized type is refused with
/// `LlvmError::Kind` before the call.
#[verifier::external_body]
pub(crate) fn build_load<'ctx>(builder: &mut IrBuilder<'ctx>, ptr: PointerValue<'ctx>, name: &str) -> (res: Result<BasicValueEnum<'ctx>, LlvmError>)
    ensures
        final(builder).raw == old(builder).raw,
        final(builder).positioned == old(builder).positioned,
        res is Ok ==> final(builder).emitted@ == old(builder).emitted@.push(IrInstr::Load(name@)),
        res is Err ==> final(builder).emitted@ == old(builder).emitted@,
{
    match BasicTypeEnum::try_from(ptr.get_type().get_element_type()) {
        Ok(t) if t.is_sized() => builder.raw.build_load(ptr, name).map_err(LlvmError::Builder),
        _ => Err(LlvmError::Kind),
    }
}

/// `Builder::build_struct_gep` on a pointer value.
#[verifier::external_body]
pub(crate) fn build_struct_gep<'ctx>(builder: &IrBuilder<'ctx>, ptr: BasicValueEnum<'ctx>, index: u32, name: &str) -> Result<PointerValue<'ctx>, LlvmError> {
    match ptr {
        BasicValueEnum::PointerValue(p) => builder.raw.build_struct_gep(p, index, name).map_err(LlvmError::Builder),
        _ => Err(LlvmError::Kind),
    }
}

/// A value as a pointer, when it is one.
#[verifier::external_body]
pub(crate) fn as_pointer<'ctx>(v: BasicValueEnum<'ctx>) -> Result<PointerValue<'ctx>, LlvmError> {
    match v {
        BasicValueEnum::PointerValue(p) => Ok(p),
        _ => Err(LlvmError::Kind),
    }
}

/// `Builder::build_int_add`.
#[verifier::external_body]
pub(crate) fn build_int_add<'ctx>(b: &mut IrBuilder<'ctx>, l: BasicValueEnum<'ctx>, r: BasicValueEnum<'ctx>, name: &str) -> (res: Result<BasicValueEnum<'ctx>, LlvmError>)
    ensures
        final(b).raw == old(b).raw,
        final(b).positioned == old(b).positioned,
        res is Ok ==> final(b).emitted@ == old(b).emitted@.push(IrInstr::IntBinary(IntOp::Add, name@)),
        res is Err ==> final(b).emitted@ == old(b).emitted@,
{
    match (l, r) {
        (BasicValueEnum::IntValue(x), BasicValueEnum::IntValue(y)) => b.raw.build_int_add(x, y, name).map(|v| v.into()).map_err(LlvmError::Builder),
        _ => Err(LlvmError::Kind),
    }
}

/// `Builder::build_int_sub`.
#[verifier::external_body]
pub(crate) fn build_int_sub<'ctx>(b: &mut IrBuilder<'ctx>, l: BasicValueEnum<'ctx>, r: BasicValueEnum<'ctx>, name: &str) -> (res: Result<BasicValueEnum<'ctx>, LlvmError>)
    ensures
        final(b).raw == old(b).raw,
        final(b).positioned == old(b).positioned,
        res is Ok ==> final(b).emitted@ == old(b).emitted@.push(IrInstr::IntBinary(IntOp::Sub, name@)),
        res is Err ==> final(b).emitted@ == old(b).emitted@,
{
    match (l, r) {
        (BasicValueEnum::IntValue(x), BasicValueEnum::IntValue(y)) => b.raw.build_int_sub(x, y, name).map(|v| v.into()).map_err(LlvmError::Builder),
        _ => Err(LlvmError::Kind),
    }
}

/// `Builder::build_int_mul`.
#[verifier::external_body]
pub(crate) fn build_int_mul<'ctx>(b: &mut IrBuilder<'ctx>, l: BasicValueEnum<'ctx>, r: BasicValueEnum<'ctx>, name: &str) -> (res: Result<BasicValueEnum<'ctx>, LlvmError>)
    ensures
        final(b).raw == old(b).raw,
        final(b).positioned == old(b).positioned,
        res is Ok ==> final(b).emitted@ == old(b).emitted@.push(IrInstr::IntBinary(IntOp::Mul, name@)),
        res is Err ==> final(b).emitted@ == old(b).emitted@,
{
    match (l, r) {
        (BasicValueEnum::IntValue(x), BasicValueEnum::IntValue(y)) => b.raw.build_int_mul(x, y, name).map(|v| v.into()).map_err(LlvmError::Builder),
        _ => Err(LlvmError::Kind),
    }
}

/// `Builder::build_int_unsigned_div`.
#[verifier::external_body]
pub(crate) fn build_int_unsigned_div<'ctx>(b: &mut IrBuilder<'ctx>, l: BasicValueEnum<'ctx>, r: BasicValueEnum<'ctx>, name: &str) -> (res: Result<BasicValueEnum<'ctx>, LlvmError>)
    ensures
        final(b).raw == old(b).raw,
        final(b).positioned == old(b).positioned,
        res is Ok ==> final(b).emitted@ == old(b).emitted@.push(IrInstr::IntBinary(IntOp::UnsignedDiv, name@)),
        res is Err ==> final(b).emitted@ == old(b).emitted@,
{
    match (l, r) {
        (BasicValueEnum::IntValue(x), BasicValueEnum::IntValue(y)) => b.raw.build_int_unsigned_div(x, y, name).map(|v| v.into()).map_err(LlvmError::Builder),
        _ => Err(LlvmError::Kind),
    }
}

/// `Builder::build_int_unsigned_rem`.
#[verifier::external_body]
pub(crate) fn build_int_unsigned_rem<'ctx>(b: &mut IrBuilder<'ctx>, l: BasicValueEnum<'ctx>, r: BasicValueEnum<'ctx>, name: &str) -> (res: Result<BasicValueEnum<'ctx>, LlvmError>)
    ensures
        final(b).raw == old(b).raw,
        final(b).positioned == old(b).positioned,
        res is Ok ==> final(b).emitted@ == old(b).emitted@.push(IrInstr::IntBinary(IntOp::UnsignedRem, name@)),
        res is Err ==> final(b).emitted@ == old(b).emitted@,
{
    match (l, r) {
        (BasicValueEnum::IntValue(x), BasicValueEnum::IntValue(y)) => b.raw.build_int_unsigned_rem(x, y, name).map(|v| v.into()).map_err(LlvmError::Builder),
        _ => Err(LlvmError::Kind),
    }
}

/// `Builder::build_and`.
#[verifier::external_body]
pub(crate) fn build_and<'ctx>(b: &mut IrBuilder<'ctx>, l: BasicValueEnum<'ctx>, r: BasicValueEnum<'ctx>, name: &str) -> (res: Result<BasicValueEnum<'ctx>, LlvmError>)
    ensures
        final(b).raw == old(b).raw,
        final(b).positioned == old(b).positioned,
        res is Ok ==> final(b).emitted@ == old(b).emitted@.push(IrInstr::IntBinary(IntOp::And, name@)),
        res is Err ==> final(b).emitted@ == old(b).emitted@,
{
    match (l, r) {
        (BasicValueEnum::IntValue(x), BasicValueEnum::IntValue(y)) => b.raw.build_and(x, y, name).map(|v| v.into()).map_err(LlvmError::Builder),
        _ => Err(LlvmError::Kind),
    }
}

/// `Builder::build_or`.
#[verifier::external_body]
pub(crate) fn build_or<'ctx>(b: &mut IrBuilder<'ctx>, l: BasicValueEnum<'ctx>, r: BasicValueEnum<'ctx>, name: &str) -> (res: Result<BasicValueEnum<'ctx>, LlvmError>)
    ensures
        final(b).raw == old(b).raw,
        final(b).positioned == old(b).positioned,
        res is Ok ==> final(b).emitted@ == old(b).emitted@.push(IrInstr::IntBinary(IntOp::Or, name@)),
        res is Err ==> final(b).emitted@ == old(b).emitted@,
{
    match (l, r) {
        (BasicValueEnum::IntValue(x), BasicValueEnum::IntValue(y)) => b.raw.build_or(x, y, name).map(|v| v.into()).map_err(LlvmError::Builder),
        _ => Err(LlvmError::Kind),
    }
}

/// `Builder::build_xor`.
#[verifier::external_body]
pub(crate) fn build_xor<'ctx>(b: &mut IrBuilder<'ctx>, l: BasicValueEnum<'ctx>, r: BasicValueEnum<'ctx>, name: &str) -> (res: Result<BasicValueEnum<'ctx>, LlvmError>)
    ensures
        final(b).raw == old(b).raw,
        final(b).positioned == old(b).positioned,
        res is Ok ==> final(b).emitted@ == old(b).emitted@.push(IrInstr::IntBinary(IntOp::Xor, name@)),
        res is Err ==> final(b).emitted@ == old(b).emitted@,
{
    match (l, r) {
        (BasicValueEnum::IntValue(x), BasicValueEnum::IntValue(y)) => b.raw.build_xor(x, y, name).map(|v| v.into()).map_err(LlvmError::Builder),
        _ => Err(LlvmError::Kind),
    }
}

/// `Builder::build_left_shift`.
#[verifier::external_body]
pub(crate) fn build_left_shift<'ctx>(b: &mut IrBuilder<'ctx>, l: BasicValueEnum<'ctx>, r: BasicValueEnum<'ctx>, name: &str) -> (res: Result<BasicValueEnum<'ctx>, LlvmError>)
    ensures
        final(b).raw == old(b).raw,
        final(b).positioned == old(b).positioned,
        res is Ok ==> final(b).emitted@ == old(b).emitted@.push(IrInstr::IntBinary(IntOp::Shl, name@)),
        res is Err ==> final(b).emitted@ == old(b).emitted@,
{
    match (l, r) {
        (BasicValueEnum::IntValue(x), BasicValueEnum::IntValue(y)) => b.raw.build_left_shift(x, y, name).map(|v| v.into()).map_err(LlvmError::Builder),
        _ => Err(LlvmError::Kind),
    }
}

/// `Builder::build_right_shift`, logical (not sign-extending).
#[verifier::external_body]
pub(crate) fn build_logical_right_shift<'ctx>(b: &mut IrBuilder<'ctx>, l: BasicValueEnum<'ctx>, r: BasicValueEnum<'ctx>, name: &str) -> (res: Result<BasicValueEnum<'ctx>, LlvmError>)
    ensures
        final(b).raw == old(b).raw,
        final(b).positioned == old(b).positioned,
        res is Ok ==> final(b).emitted@ == old(b).emitted@.push(IrInstr::IntBinary(IntOp::LogicalShr, name@)),
        res is Err ==> final(b).emitted@ == old(b).emitted@,
{
    match (l, r) {
        (BasicValueEnum::IntValue(x), BasicValueEnum::IntValue(y)) => b.raw.build_right_shift(x, y, false, name).map(|v| v.into()).map_err(LlvmError::Builder),
        _ => Err(LlvmError::Kind),
    }
}

/// `Builder::build_float_add`.
#[verifier::external_body]
pub(crate) fn build_float_add<'ctx>(b: &mut IrBuilder<'ctx>, l: BasicValueEnum<'ctx>, r: BasicValueEnum<'ctx>) -> (res: Result<BasicValueEnum<'ctx>, LlvmError>)
    ensures
        final(b).raw == old(b).raw,
        final(b).positioned == old(b).positioned,
        res is Ok ==> final(b).emitted@ == old(b).emitted@.push(IrInstr::FloatBinary(FloatOp::Add)),
        res is Err ==> final(b).emitted@ == old(b).emitted@,
{
    match (l, r) {
        (BasicValueEnum::FloatValue(x), BasicValueEnum::FloatValue(y)) => b.raw.build_float_add(x, y, "fadd").map(|v| v.into()).map_err(LlvmError::Builder),
        _ => Err(LlvmError::Kind),
    }
}

/// `Builder::build_float_sub`.
#[verifier::external_body]
pub(crate) fn build_float_sub<'ctx>(b: &mut IrBuilder<'ctx>, l: BasicValueEnum<'ctx>, r: BasicValueEnum<'ctx>) -> (res: Result<BasicValueEnum<'ctx>, LlvmError>)
    ensures
        final(b).raw == old(b).raw,
        final(b).positioned == old(b).positioned,
        res is Ok ==> final(b).emitted@ == old(b).emitted@.push(IrInstr::FloatBinary(FloatOp::Sub)),
        res is Err ==> final(b).emitted@ == old(b).emitted@,
{
    match (l, r) {
        (BasicValueEnum::FloatValue(x), BasicValueEnum::FloatValue(y)) => b.raw.build_float_sub(x, y, "fsub").map(|v| v.into()).map_err(LlvmError::Builder),
        _ => Err(LlvmError::Kind),
    }
}

/// `Builder::build_float_mul`.
#[verifier::external_body]
pub(crate) fn build_float_mul<'ctx>(b: &mut IrBuilder<'ctx>, l: BasicValueEnum<'ctx>, r: BasicValueEnum<'ctx>) -> (res: Result<BasicValueEnum<'ctx>, LlvmError>)
    ensures
        final(b).raw == old(b).raw,
        final(b).positioned == old(b).positioned,
        res is Ok ==> final(b).emitted@ == old(b).emitted@.push(IrInstr::FloatBinary(FloatOp::Mul)),
        res is Err ==> final(b).emitted@ == old(b).emitted@,
{
    match (l, r) {
        (BasicValueEnum::FloatValue(x), BasicValueEnum::FloatValue(y)) => b.raw.build_float_mul(x, y, "fmul").map(|v| v.into()).map_err(LlvmError::Builder),
        _ => Err(LlvmError::Kind),
    }
}

/// `Builder::build_float_div`.
#[verifier::external_body]
pub(crate) fn build_float_div<'ctx>(b: &mut IrBuilder<'ctx>, l: BasicValueEnum<'ctx>, r: BasicValueEnum<'ctx>) -> (res: Result<BasicValueEnum<'ctx>, LlvmError>)
    ensures
        final(b).raw == old(b).raw,
        final(b).positioned == old(b).positioned,
        res is Ok ==> final(b).emitted@ == old(b).emitted@.push(IrInstr::FloatBinary(FloatOp::Div)),
        res is Err ==> final(b).emitted@ == old(b).emitted@,
{
    match (l, r) {
        (BasicValueEnum::FloatValue(x), BasicValueEnum::FloatValue(y)) => b.raw.build_float_div(x, y, "fdiv").map(|v| v.into()).map_err(LlvmError::Builder),
        _ => Err(LlvmError::Kind),
    }
}

/// `Builder::build_float_rem`.
#[verifier::external_body]
pub(crate) fn build_float_rem<'ctx>(b: &mut IrBuilder<'ctx>, l: BasicValueEnum<'ctx>, r: BasicValueEnum<'ctx>) -> (res: Result<BasicValueEnum<'ctx>, LlvmError>)
    ensures
        final(b).raw == old(b).raw,
        final(b).positioned == old(b).positioned,
        res is Ok ==> final(b).emitted@ == old(b).emitted@.push(IrInstr::FloatBinary(FloatOp::Rem)),
        res is Err ==> final(b).emitted@ == old(b).emitted@,
{
    match (l, r) {
        (BasicValueEnum::FloatValue(x), BasicValueEnum::FloatValue(y)) => b.raw.build_float_rem(x, y, "frem").map(|v| v.into()).map_err(LlvmError::Builder),
        _ => Err(LlvmError::Kind),
    }
}

/// `Builder::build_int_compare` with the unsigned predicate of a
/// comparison (`EQ`, `NE`, `ULT`, `UGT`, `ULE`, `UGE`).
#[verifier::external_body]
pub(crate) fn build_int_compare<'ctx>(b: &mut IrBuilder<'ctx>, c: Comparison, l: BasicValueEnum<'ctx>, r: BasicValueEnum<'ctx>, name: &str) -> (res: Result<BasicValueEnum<'ctx>, LlvmError>)
    ensures
        final(b).raw == old(b).raw,
        final(b).positioned == old(b).positioned,
        res is Ok ==> final(b).emitted@ == old(b).emitted@.push(IrInstr::IntCompare(false, c, name@)),
        res is Err ==> final(b).emitted@ == old(b).emitted@,
{
    let p = match c {
        Comparison::Eq => IntPredicate::EQ,
        Comparison::Ne => IntPredicate::NE,
        Comparison::Lt => IntPredicate::ULT,
        Comparison::Gt => IntPredicate::UGT,
        Comparison::Le => IntPredicate::ULE,
        Comparison::Ge => IntPredicate::UGE,
    };
    match (l, r) {
        (BasicValueEnum::IntValue(x), BasicValueEnum::IntValue(y)) => b.raw.build_int_compare(p, x, y, name).map(|v| v.into()).map_err(LlvmError::Builder),
        (BasicValueEnum::PointerValue(x), BasicValueEnum::PointerValue(y)) => b.raw.build_int_compare(p, x, y, name).map(|v| v.into()).map_err(LlvmError::Builder),
        _ => Err(LlvmError::Kind),
    }
}

/// `Builder::build_float_compare` with the ordered predicate of a
/// comparison (`OEQ`, `ONE`, `OLT`, `OGT`, `OLE`, `OGE`).
#[verifier::external_body]
pub(crate) fn build_float_compare<'ctx>(b: &mut IrBuilder<'ctx>, c: Comparison, l: BasicValueEnum<'ctx>, r: BasicValueEnum<'ctx>, name: &str) -> (res: Result<BasicValueEnum<'ctx>, LlvmError>)
    ensures
        final(b).raw == old(b).raw,
        final(b).positioned == old(b).positioned,
        res is Ok ==> final(b).emitted@ == old(b).emitted@.push(IrInstr::FloatCompare(c, name@)),
        res is Err ==> final(b).emitted@ == old(b).emitted@,
{
    let p = match c {
        Comparison::Eq => FloatPredicate::OEQ,
        Comparison::Ne => FloatPredicate::ONE,
        Comparison::Lt => FloatPredicate::OLT,
        Comparison::Gt => FloatPredicate::OGT,
        Comparison::Le => FloatPredicate::OLE,
        Comparison::Ge => FloatPredicate::OGE,
    };
    match (l, r) {
        (BasicValueEnum::FloatValue(x), BasicValueEnum::FloatValue(y)) => b.raw.build_float_compare(p, x, y, name).map(|v| v.into()).map_err(LlvmError::Builder),
        _ => Err(LlvmError::Kind),
    }
}

/// `Builder::build_int_neg`.
#[verifier::external_body]
pub(crate) fn build_int_neg<'ctx>(b: &mut IrBuilder<'ctx>, v: BasicValueEnum<'ctx>) -> (res: Result<BasicValueEnum<'ctx>, LlvmError>)
    ensures
        final(b).raw == old(b).raw,
        final(b).positioned == old(b).positioned,
        res is Ok ==> final(b).emitted@ == old(b).emitted@.push(IrInstr::IntNeg),
        res is Err ==> final(b).emitted@ == old(b).emitted@,
{
    match v {
        BasicValueEnum::IntValue(x) => b.raw.build_int_neg(x, "neg").map(|v| v.into()).map_err(LlvmError::Builder),
        _ => Err(LlvmError::Kind),
    }
}

/// `Builder::build_int_cast` to an integer type.
#[verifier::external_body]
pub(crate) fn build_int_cast<'ctx>(b: &IrBuilder<'ctx>, v: BasicValueEnum<'ctx>, t: BasicTypeEnum<'ctx>, name: &str) -> Result<BasicValueEnum<'ctx>, LlvmError> {
    match (v, t) {
        (BasicValueEnum::IntValue(x), BasicTypeEnum::IntType(it)) => b.raw.build_int_cast(x, it, name).map(|v| v.into()).map_err(LlvmError::Builder),
        _ => Err(LlvmError::Kind),
    }
}

/// `Builder::build_int_s_extend` to an integer type.
#[verifier::external_body]
pub(crate) fn build_int_s_extend<'ctx>(b: &IrBuilder<'ctx>, v: BasicValueEnum<'ctx>, t: BasicTypeEnum<'ctx>, name: &str) -> Result<BasicValueEnum<'ctx>, LlvmError> {
    match (v, t) {
        (BasicValueEnum::IntValue(x), BasicTypeEnum::IntType(it)) => b.raw.build_int_s_extend(x, it, name).map(|v| v.into()).map_err(LlvmError::Builder),
        _ => Err(LlvmError::Kind),
    }
}

/// `Builder::build_int_z_extend` to an integer type.
#[verifier::external_body]
pub(crate) fn build_int_z_extend<'ctx>(b: &IrBuilder<'ctx>, v: BasicValueEnum<'ctx>, t: BasicTypeEnum<'ctx>, name: &str) -> Result<BasicValueEnum<'ctx>, LlvmError> {
    match (v, t) {
        (BasicValueEnum::IntValue(x), BasicTypeEnum::IntType(it)) => b.raw.build_int_z_extend(x, it, name).map(|v| v.into()).map_err(LlvmError::Builder),
        _ => Err(LlvmError::Kind),
    }
}

/// `Builder::build_float_cast` to a float type.
#[verifier::external_body]
pub(crate) fn build_float_cast<'ctx>(b: &IrBuilder<'ctx>, v: BasicValueEnum<'ctx>, t: BasicTypeEnum<'ctx>, name: &str) -> Result<BasicValueEnum<'ctx>, LlvmError> {
    match (v, t) {
        (BasicValueEnum::FloatValue(x), BasicTypeEnum::FloatType(ft)) => b.raw.build_float_cast(x, ft, name).map(|v| v.into()).map_err(LlvmError::Builder),
        _ => Err(LlvmError::Kind),
    }
}

/// `Builder::build_unsigned_int_to_float` to a float type.
#[verifier::external_body]
pub(crate) fn build_unsigned_int_to_float<'ctx>(b: &IrBuilder<'ctx>, v: BasicValueEnum<'ctx>, t: BasicTypeEnum<'ctx>, name: &str) -> Result<BasicValueEnum<'ctx>, LlvmError> {
    match (v, t) {
        (BasicValueEnum::IntValue(x), BasicTypeEnum::FloatType(ft)) => b.raw.build_unsigned_int_to_float(x, ft, name).map(|v| v.into()).map_err(LlvmError::Builder),
        _ => Err(LlvmError::Kind),
    }
}

/// `Builder::build_float_to_unsigned_int` to an integer type.
#[verifier::external_body]
pub(crate) fn build_float_to_unsigned_int<'ctx>(b: &IrBuilder<'ctx>, v: BasicValueEnum<'ctx>, t: BasicTypeEnum<'ctx>, name: &str) -> Result<BasicValueEnum<'ctx>, LlvmError> {
    match (v, t) {
        (BasicValueEnum::FloatValue(x), BasicTypeEnum::IntType(it)) => b.raw.build_float_to_unsigned_int(x, it, name).map(|v| v.into()).map_err(LlvmError::Builder),
        _ => Err(LlvmError::Kind),
    }
}

/// `Builder::build_bit_cast`.
#[verifier::external_body]
pub(crate) fn build_bit_cast<'ctx>(b: &IrBuilder<'ctx>, v: BasicValueEnum<'ctx>, t: BasicTypeEnum<'ctx>, name: &str) -> Result<BasicValueEnum<'ctx>, LlvmError> {
    b.raw.build_bit_cast(v, t, name).map_err(LlvmError::Builder)
}

/// `Builder::build_extract_value` on a struct value.
#[verifier::external_body]
pub(crate) fn build_extract_value<'ctx>(b: &IrBuilder<'ctx>, agg: BasicValueEnum<'ctx>, index: u32, name: &str) -> Result<BasicValueEnum<'ctx>, LlvmError> {
    match agg {
        BasicValueEnum::StructValue(s) => b.raw.build_extract_value(s, index, name).map_err(LlvmError::Builder),
        _ => Err(LlvmError::Kind),
    }
}

/// `Builder::build_insert_value` into a struct value.
#[verifier::external_body]
pub(crate) fn build_insert_value<'ctx>(b: &IrBuilder<'ctx>, agg: BasicValueEnum<'ctx>, v: BasicValueEnum<'ctx>, index: u32, name: &str) -> Result<BasicValueEnum<'ctx>, LlvmError> {
    match agg {
        BasicValueEnum::StructValue(s) => b.raw.build_insert_value(s, v, index, name).map(|a| a.as_basic_value_enum()).map_err(LlvmError::Builder),
        _ => Err(LlvmError::Kind),
    }
}

/// `Builder::build_global_string_ptr`: a global holding the text (with a
/// terminating zero byte) and a pointer to its first byte.
#[verifier::external_body]
pub(crate) fn build_global_string_ptr<'ctx>(b: &IrBuilder<'ctx>, text: &str, name: &str) -> Result<BasicValueEnum<'ctx>, LlvmError> {
    b.raw.build_global_string_ptr(text, name).map(|g| g.as_pointer_value().into()).map_err(LlvmError::Builder)
}

/// `Builder::build_call`: the call's value, or none for a call of a void
/// function.
#[verifier::external_body]
pub(crate) fn build_call<'ctx>(b: &IrBuilder<'ctx>, f: FunctionValue<'ctx>, args: &Vec<BasicValueEnum<'ctx>>, name: &str) -> Result<Option<BasicValueEnum<'ctx>>, LlvmError> {
    let xs: Vec<BasicMetadataValueEnum<'ctx>> = args.iter().map(|a| (*a).into()).collect();
    match b.raw.build_call(f, &xs, name) {
        Ok(c) => match c.try_as_basic_value() {
            ValueKind::Basic(v) => Ok(Some(v)),
            ValueKind::Instruction(_) => Ok(None),
        },
        Err(e) => Err(LlvmError::Builder(e)),
    }
}

/// `Builder::build_return` with a value.
#[verifier::external_body]
pub(crate) fn build_return_value<'ctx>(b: &mut IrBuilder<'ctx>, v: BasicValueEnum<'ctx>) -> (res: Result<(), LlvmError>)
    ensures
        old(b).positioned@ ==> res is Ok,
        final(b).raw == old(b).raw,
        final(b).positioned == old(b).positioned,
        res is Ok ==> final(b).emitted@ == old(b).emitted@.push(IrInstr::Return),
        res is Err ==> final(b).emitted@ == old(b).emitted@,
{
    b.raw.build_return(Some(&v)).map(|_| ()).map_err(LlvmError::Builder)
}

/// `Builder::build_return` without a value.
#[verifier::external_body]
pub(crate) fn build_return_void<'ctx>(b: &mut IrBuilder<'ctx>) -> (res: Result<(), LlvmError>)
    ensures
        old(b).positioned@ ==> res is Ok,
        final(b).raw == old(b).raw,
        final(b).positioned == old(b).positioned,
        res is Ok ==> final(b).emitted@ == old(b).emitted@.push(IrInstr::ReturnVoid),
        res is Err ==> final(b).emitted@ == old(b).emitted@,
{
    b.raw.build_return(None).map(|_| ()).map_err(LlvmError::Builder)
}

/// `Builder::build_unconditional_branch`.
#[verifier::external_body]
pub(crate) fn build_branch<'ctx>(b: &mut IrBuilder<'ctx>, target: BasicBlock<'ctx>) -> (res: Result<(), LlvmError>)
    ensures
        old(b).positioned@ ==> res is Ok,
        final(b).raw == old(b).raw,
        final(b).positioned == old(b).positioned,
        res is Ok ==> final(b).emitted@ == old(b).emitted@.push(IrInstr::Branch),
        res is Err ==> final(b).emitted@ == old(b).emitted@,
{
    b.raw.build_unconditional_branch(target).map(|_| ()).map_err(LlvmError::Builder)
}

/// `Builder::build_conditional_branch` on an integer condition.
#[verifier::external_body]
pub(crate) fn build_cond_branch<'ctx>(b: &mut IrBuilder<'ctx>, cond: BasicValueEnum<'ctx>, then_block: BasicBlock<'ctx>, else_block: BasicBlock<'ctx>) -> (res: Result<(), LlvmError>)
    ensures
        final(b).raw == old(b).raw,
        final(b).positioned == old(b).positioned,
        res is Ok ==> final(b).emitted@ == old(b).emitted@.push(IrInstr::CondBranch),
        res is Err ==> final(b).emitted@ == old(b).emitted@,
{
    match cond {
        BasicValueEnum::IntValue(c) => b.raw.build_conditional_branch(c, then_block, else_block).map(|_| ()).map_err(LlvmError::Builder),
        _ => Err(LlvmError::Kind),
    }
}

/// `BasicType::fn_type`, variadic.
#[verifier::external_body]
pub(crate) fn variadic_fn_type<'ctx>(ret: BasicTypeEnum<'ctx>, params: &Vec<BasicTypeEnum<'ctx>>) -> FunctionType<'ctx> {
    let ps: Vec<BasicMetadataTypeEnum<'ctx>> = params.iter().map(|p| (*p).into()).collect();
    ret.fn_type(&ps, true)
}

/// `FunctionValue::count_params`.
#[verifier::external_body]
pub(crate) fn count_params<'ctx>(f: FunctionValue<'ctx>) -> u32 {
    f.count_params()
}

/// `Builder::build_phi`.
#[verifier::external_body]
pub(crate) fn build_phi<'ctx>(b: &IrBuilder<'ctx>, t: BasicTypeEnum<'ctx>, name: &str) -> Result<PhiValue<'ctx>, LlvmError> {
    b.raw.build_phi(t, name).map_err(LlvmError::Builder)
}

/// `PhiValue::add_incoming` with two incoming values.
#[verifier::external_body]
pub(crate) fn phi_add_two<'ctx>(phi: PhiValue<'ctx>, a: BasicValueEnum<'ctx>, block_a: BasicBlock<'ctx>, b: BasicValueEnum<'ctx>, block_b: BasicBlock<'ctx>) {
    phi.add_incoming(&[(&a, block_a), (&b, block_b)])
}

/// `PhiValue::as_basic_value`.
#[verifier::external_body]
pub(crate) fn phi_value<'ctx>(phi: PhiValue<'ctx>) -> BasicValueEnum<'ctx> {
    phi.as_basic_value()
}

/// `Builder::build_int_compare` with the signed predicate of a comparison
/// (`EQ`, `NE`, `SLT`, `SGT`, `SLE`, `SGE`).
#[verifier::external_body]
pub(crate) fn build_signed_int_compare<'ctx>(b: &mut IrBuilder<'ctx>, c: Comparison, l: BasicValueEnum<'ctx>, r: BasicValueEnum<'ctx>, name: &str) -> (res: Result<BasicValueEnum<'ctx>, LlvmError>)
    ensures
        final(b).raw == old(b).raw,
        final(b).positioned == old(b).positioned,
        res is Ok ==> final(b).emitted@ == old(b).emitted@.push(IrInstr::IntCompare(true, c, name@)),
        res is Err ==> final(b).emitted@ == old(b).emitted@,
{
    let p = match c {
        Comparison::Eq => IntPredicate::EQ,
        Comparison::Ne => IntPredicate::NE,
        Comparison::Lt => IntPredicate::SLT,
        Comparison::Gt => IntPredicate::SGT,
        Comparison::Le => IntPredicate::SLE,
        Comparison::Ge => IntPredicate::SGE,
    };
    match (l, r) {
        (BasicValueEnum::IntValue(x), BasicValueEnum::IntValue(y)) => b.raw.build_int_compare(p, x, y, name).map(|v| v.into()).map_err(LlvmError::Builder),
        _ => Err(LlvmError::Kind),
    }
}

/// `Builder::build_int_signed_div`.
#[verifier::external_body]
pub(crate) fn build_int_signed_div<'ctx>(b: &mut IrBuilder<'ctx>, l: BasicValueEnum<'ctx>, r: BasicValueEnum<'ctx>, name: &str) -> (res: Result<BasicValueEnum<'ctx>, LlvmError>)
    ensures
        final(b).raw == old(b).raw,
        final(b).positioned == old(b).positioned,
        res is Ok ==> final(b).emitted@ == old(b).emitted@.push(IrInstr::IntBinary(IntOp::SignedDiv, name@)),
        res is Err ==> final(b).emitted@ == old(b).emitted@,
{
    match (l, r) {
        (BasicValueEnum::IntValue(x), BasicValueEnum::IntValue(y)) => b.raw.build_int_signed_div(x, y, name).map(|v| v.into()).map_err(LlvmError::Builder),
        _ => Err(LlvmError::Kind),
    }
}

/// `Builder::build_int_signed_rem`.
#[verifier::external_body]
pub(crate) fn build_int_signed_rem<'ctx>(b: &mut IrBuilder<'ctx>, l: BasicValueEnum<'ctx>, r: BasicValueEnum<'ctx>, name: &str) -> (res: Result<BasicValueEnum<'ctx>, LlvmError>)
    ensures
        final(b).raw == old(b).raw,
        final(b).positioned == old(b).positioned,
        res is Ok ==> final(b).emitted@ == old(b).emitted@.push(IrInstr::IntBinary(IntOp::SignedRem, name@)),
        res is Err ==> final(b).emitted@ == old(b).emitted@,
{
    match (l, r) {
        (BasicValueEnum::IntValue(x), BasicValueEnum::IntValue(y)) => b.raw.build_int_signed_rem(x, y, name).map(|v| v.into()).map_err(LlvmError::Builder),
        _ => Err(LlvmError::Kind),
    }
}

/// `Builder::build_select` on an integer condition.
#[verifier::external_body]
pub(crate) fn build_select<'ctx>(b: &IrBuilder<'ctx>, cond: BasicValueEnum<'ctx>, then_v: BasicValueEnum<'ctx>, else_v: BasicValueEnum<'ctx>, name: &str) -> Result<BasicValueEnum<'ctx>, LlvmError> {
    match cond {
        BasicValueEnum::IntValue(c) => b.raw.build_select(c, then_v, else_v, name).map_err(LlvmError::Builder),
        _ => Err(LlvmError::Kind),
    }
}

/// `Builder::build_int_to_ptr` to the byte pointer type.
#[verifier::external_body]
pub(crate) fn build_int_to_ptr<'ctx>(b: &IrBuilder<'ctx>, context: &'ctx Context, v: BasicValueEnum<'ctx>, name: &str) -> Result<BasicValueEnum<'ctx>, LlvmError> {
    match v {
        BasicValueEnum::IntValue(x) => b.raw.build_int_to_ptr(x, context.i8_type().ptr_type(AddressSpace::default()), name).map(|p| p.into()).map_err(LlvmError::Builder),
        _ => Err(LlvmError::Kind),
    }
}

/// `Builder::build_ptr_to_int` to `i64`.
#[verifier::external_body]
pub(crate) fn build_ptr_to_int<'ctx>(b: &IrBuilder<'ctx>, context: &'ctx Context, v: BasicValueEnum<'ctx>, name: &str) -> Result<BasicValueEnum<'ctx>, LlvmError> {
    match v {
        BasicValueEnum::PointerValue(x) => b.raw.build_ptr_to_int(x, context.i64_type(), name).map(|i| i.into()).map_err(LlvmError::Builder),
        _ => Err(LlvmError::Kind),
    }
}

/// `PointerType::const_null` of the byte pointer type.
#[verifier::external_body]
pub(crate) fn const_null_ptr<'ctx>(context: &'ctx Context) -> BasicValueEnum<'ctx> {
    context.i8_type().ptr_type(AddressSpace::default()).const_null().into()
}

/// `Module::get_global`: the address of the named global, if the module
/// has one.
#[verifier::external_body]
pub(crate) fn get_global<'ctx>(module: &Module<'ctx>, name: &str) -> Option<PointerValue<'ctx>> {
    module.get_global(name).map(|g| g.as_pointer_value())
}

/// `Module::add_global` in the default address space.
#[verifier::external_body]
pub(crate) fn add_global<'ctx>(module: &Module<'ctx>, t: BasicTypeEnum<'ctx>, name: &str) -> GlobalValue<'ctx> {
    module.add_global(t, None, name)
}

/// `GlobalValue::set_initializer`.
#[verifier::external_body]
pub(crate) fn set_initializer<'ctx>(g: GlobalValue<'ctx>, v: BasicValueEnum<'ctx>) {
    g.set_initializer(&v)
}

/// `GlobalValue::as_pointer_value`.
#[verifier::external_body]
pub(crate) fn global_pointer<'ctx>(g: GlobalValue<'ctx>) -> PointerValue<'ctx> {
    g.as_pointer_value()
}

/// `Builder::build_is_not_null` on a pointer value.
#[verifier::external_body]
pub(crate) fn build_is_not_null<'ctx>(b: &IrBuilder<'ctx>, v: BasicValueEnum<'ctx>, name: &str) -> Result<BasicValueEnum<'ctx>, LlvmError> {
    match v {
        BasicValueEnum::PointerValue(p) => b.raw.build_is_not_null(p, name).map(|c| c.into()).map_err(LlvmError::Builder),
        _ => Err(LlvmError::Kind),
    }
}

/// `BasicType::size_of`: the size of a type as an `i64` constant, when
/// the type has one.
#[verifier::external_body]
pub(crate) fn size_of<'ctx>(t: BasicTypeEnum<'ctx>) -> Option<BasicValueEnum<'ctx>> {
    t.size_of().map(|v| v.into())
}

/// `Builder::build_int_to_ptr` to a pointer to the given type.
#[verifier::external_body]
pub(crate) fn build_int_to_ptr_of<'ctx>(b: &IrBuilder<'ctx>, v: BasicValueEnum<'ctx>, pointee: BasicTypeEnum<'ctx>, name: &str) -> Result<BasicValueEnum<'ctx>, LlvmError> {
    match v {
        BasicValueEnum::IntValue(x) => b.raw.build_int_to_ptr(x, pointee.ptr_type(AddressSpace::default()), name).map(|p| p.into()).map_err(LlvmError::Builder),
        _ => Err(LlvmError::Kind),
    }
}

/// A value as an integer value, when it is one.
#[verifier::external_body]
pub(crate) fn as_int_value<'ctx>(v: BasicValueEnum<'ctx>) -> Result<IntValue<'ctx>, LlvmError> {
    match v {
        BasicValueEnum::IntValue(x) => Ok(x),
        _ => Err(LlvmError::Kind),
    }
}

/// A value as a floating-point value, when it is one.
#[verifier::external_body]
pub(crate) fn as_float_value<'ctx>(v: BasicValueEnum<'ctx>) -> Result<FloatValue<'ctx>, LlvmError> {
    match v {
        BasicValueEnum::FloatValue(x) => Ok(x),
        _ => Err(LlvmError::Kind),
    }
}

/// `IntType::const_array` of an integer element type.
#[verifier::external_body]
pub(crate) fn const_int_array<'ctx>(elem: BasicTypeEnum<'ctx>, vals: &Vec<IntValue<'ctx>>) -> Result<BasicValueEnum<'ctx>, LlvmError> {
    match elem {
        BasicTypeEnum::IntType(t) => Ok(t.const_array(vals.as_slice()).into()),
        _ => Err(LlvmError::Kind),
    }
}

/// `FloatType::const_array` of a floating-point element type.
#[verifier::external_body]
pub(crate) fn const_float_array<'ctx>(elem: BasicTypeEnum<'ctx>, vals: &Vec<FloatValue<'ctx>>) -> Result<BasicValueEnum<'ctx>, LlvmError> {
    match elem {
        BasicTypeEnum::FloatType(t) => Ok(t.const_array(vals.as_slice()).into()),
        _ => Err(LlvmError::Kind),
    }
}

/// `Builder::build_bit_cast` of a pointer value to a pointer to the given
/// function type.
#[verifier::external_body]
pub(crate) fn build_fn_pointer_cast<'ctx>(b: &IrBuilder<'ctx>, v: BasicValueEnum<'ctx>, t: FunctionType<'ctx>, name: &str) -> Result<PointerValue<'ctx>, LlvmError> {
    match b.raw.build_bit_cast(v, t.ptr_type(AddressSpace::default()), name) {
        Ok(BasicValueEnum::PointerValue(p)) => Ok(p),
        Ok(_) => Err(LlvmError::Kind),
        Err(e) => Err(LlvmError::Builder(e)),
    }
}

/// `Builder::build_call` through a function pointer, when the pointer
/// points to a function; the call's value, when it has one.
#[verifier::external_body]
pub(crate) fn build_pointer_call<'ctx>(b: &IrBuilder<'ctx>, p: PointerValue<'ctx>, args: &Vec<BasicValueEnum<'ctx>>, name: &str) -> Result<Option<BasicValueEnum<'ctx>>, LlvmError> {
    let f = CallableValue::try_from(p).map_err(|_| LlvmError::Kind)?;
    let xs: Vec<BasicMetadataValueEnum<'ctx>> = args.iter().map(|a| (*a).into()).collect();
    match b.raw.build_call(f, &xs, name) {
        Ok(c) => match c.try_as_basic_value() {
            ValueKind::Basic(v) => Ok(Some(v)),
            ValueKind::Instruction(_) => Ok(None),
        },
        Err(e) => Err(LlvmError::Builder(e)),
    }
}

} // verus!
