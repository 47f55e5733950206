//! Instruction selection: which LLVM instruction a language operator
//! becomes, and how arguments are widened for C calls and `printf`.

use vstd::prelude::*;
use crate::ast::{BinaryOp, Type, UnaryOp};
use crate::codegen::format::PrintfArgKind;
use crate::codegen::types::{LType, LTypeV};

verus! {

/// Integer arithmetic and bit instructions.
#[derive(Debug, Clone, Copy, PartialEq, Eq, Structural)]
pub enum IntOp {
    Add,
    Sub,
    Mul,
    UnsignedDiv,
    UnsignedRem,
    SignedDiv,
    SignedRem,
    And,
    Or,
    Xor,
    Shl,
    LogicalShr,
}

/// Float arithmetic instructions.
#[derive(Debug, Clone, Copy, PartialEq, Eq, Structural)]
pub enum FloatOp {
    Add,
    Sub,
    Mul,
    Div,
    Rem,
}

/// Comparisons: unsigned for integers, ordered for floats.
#[derive(Debug, Clone, Copy, PartialEq, Eq, Structural)]
pub enum Comparison {
    Eq,
    Ne,
    Lt,
    Gt,
    Le,
    Ge,
}

/// The instruction a binary operator becomes.
#[derive(Debug, Clone, Copy, PartialEq, Eq, Structural)]
pub enum BinaryInstr {
    Int(IntOp),
    Float(FloatOp),
    IntCompare(Comparison),
    FloatCompare(Comparison),
    /// A range builds the pair `{ start, end }` of two `i64`.
    RangePair,
}

/// The comparison a comparison operator makes, if it is one.
pub open spec fn comparison_of(op: BinaryOp) -> Option<Comparison> {
    match op {
        BinaryOp::Eq => Some(Comparison::Eq),
        BinaryOp::Ne => Some(Comparison::Ne),
        BinaryOp::Lt => Some(Comparison::Lt),
        BinaryOp::Gt => Some(Comparison::Gt),
        BinaryOp::Le => Some(Comparison::Le),
        BinaryOp::Ge => Some(Comparison::Ge),
        _ => None,
    }
}

/// The instruction for a binary operator, by whether its left operand is a
/// float: arithmetic and comparisons have a float form, division and
/// remainder are unsigned, right shift is logical, the logical operators
/// work bitwise.
pub open spec fn binary_instr(op: BinaryOp, float_operands: bool) -> BinaryInstr {
    match op {
        BinaryOp::Add => if float_operands { BinaryInstr::Float(FloatOp::Add) } else { BinaryInstr::Int(IntOp::Add) },
        BinaryOp::Sub => if float_operands { BinaryInstr::Float(FloatOp::Sub) } else { BinaryInstr::Int(IntOp::Sub) },
        BinaryOp::Mul => if float_operands { BinaryInstr::Float(FloatOp::Mul) } else { BinaryInstr::Int(IntOp::Mul) },
        BinaryOp::Div => if float_operands {
            BinaryInstr::Float(FloatOp::Div)
        } else {
            BinaryInstr::Int(IntOp::UnsignedDiv)
        },
        BinaryOp::Mod => if float_operands {
            BinaryInstr::Float(FloatOp::Rem)
        } else {
            BinaryInstr::Int(IntOp::UnsignedRem)
        },
        BinaryOp::Eq | BinaryOp::Ne | BinaryOp::Lt | BinaryOp::Gt | BinaryOp::Le | BinaryOp::Ge => {
            if float_operands {
                BinaryInstr::FloatCompare(comparison_of(op)->0)
            } else {
                BinaryInstr::IntCompare(comparison_of(op)->0)
            }
        },
        BinaryOp::And | BinaryOp::BitAnd => BinaryInstr::Int(IntOp::And),
        BinaryOp::Or | BinaryOp::BitOr => BinaryInstr::Int(IntOp::Or),
        BinaryOp::BitXor => BinaryInstr::Int(IntOp::Xor),
        BinaryOp::Shl => BinaryInstr::Int(IntOp::Shl),
        BinaryOp::Shr => BinaryInstr::Int(IntOp::LogicalShr),
        BinaryOp::Range => BinaryInstr::RangePair,
    }
}

/// Selects the instruction for a binary operator.
pub fn select_binary(op: BinaryOp, float_operands: bool) -> (r: BinaryInstr)
    ensures
        r == binary_instr(op, float_operands),
{
    match op {
        BinaryOp::Add => if float_operands { BinaryInstr::Float(FloatOp::Add) } else { BinaryInstr::Int(IntOp::Add) },
        BinaryOp::Sub => if float_operands { BinaryInstr::Float(FloatOp::Sub) } else { BinaryInstr::Int(IntOp::Sub) },
        BinaryOp::Mul => if float_operands { BinaryInstr::Float(FloatOp::Mul) } else { BinaryInstr::Int(IntOp::Mul) },
        BinaryOp::Div => if float_operands {
            BinaryInstr::Float(FloatOp::Div)
        } else {
            BinaryInstr::Int(IntOp::UnsignedDiv)
        },
        BinaryOp::Mod => if float_operands {
            BinaryInstr::Float(FloatOp::Rem)
        } else {
            BinaryInstr::Int(IntOp::UnsignedRem)
        },
        BinaryOp::Eq => if float_operands {
            BinaryInstr::FloatCompare(Comparison::Eq)
        } else {
            BinaryInstr::IntCompare(Comparison::Eq)
        },
        BinaryOp::Ne => if float_operands {
            BinaryInstr::FloatCompare(Comparison::Ne)
        } else {
            BinaryInstr::IntCompare(Comparison::Ne)
        },
        BinaryOp::Lt => if float_operands {
            BinaryInstr::FloatCompare(Comparison::Lt)
        } else {
            BinaryInstr::IntCompare(Comparison::Lt)
        },
        BinaryOp::Gt => if float_operands {
            BinaryInstr::FloatCompare(Comparison::Gt)
        } else {
            BinaryInstr::IntCompare(Comparison::Gt)
        },
        BinaryOp::Le => if float_operands {
            BinaryInstr::FloatCompare(Comparison::Le)
        } else {
            BinaryInstr::IntCompare(Comparison::Le)
        },
        BinaryOp::Ge => if float_operands {
            BinaryInstr::FloatCompare(Comparison::Ge)
        } else {
            BinaryInstr::IntCompare(Comparison::Ge)
        },
        BinaryOp::And | BinaryOp::BitAnd => BinaryInstr::Int(IntOp::And),
        BinaryOp::Or | BinaryOp::BitOr => BinaryInstr::Int(IntOp::Or),
        BinaryOp::BitXor => BinaryInstr::Int(IntOp::Xor),
        BinaryOp::Shl => BinaryInstr::Int(IntOp::Shl),
        BinaryOp::Shr => BinaryInstr::Int(IntOp::LogicalShr),
        BinaryOp::Range => BinaryInstr::RangePair,
    }
}

/// The instruction a binary operator becomes in the syntax-tree generator,
/// which takes every operand as an integer.
#[derive(Debug, Clone, Copy, PartialEq, Eq, Structural)]
pub enum TreeInstr {
    Int(IntOp),
    /// A signed comparison.
    SignedCompare(Comparison),
    /// Both sides compared with zero, then a select.
    LogicalAnd,
    /// Both sides compared with zero, then a select.
    LogicalOr,
}

/// The instruction for a binary operator in the syntax-tree generator:
/// division and remainder are signed, comparisons are signed, right shift
/// is logical; a range has none.
pub open spec fn tree_binary_instr(op: BinaryOp) -> Option<TreeInstr> {
    match op {
        BinaryOp::Add => Some(TreeInstr::Int(IntOp::Add)),
        BinaryOp::Sub => Some(TreeInstr::Int(IntOp::Sub)),
        BinaryOp::Mul => Some(TreeInstr::Int(IntOp::Mul)),
        BinaryOp::Div => Some(TreeInstr::Int(IntOp::SignedDiv)),
        BinaryOp::Mod => Some(TreeInstr::Int(IntOp::SignedRem)),
        BinaryOp::Eq | BinaryOp::Ne | BinaryOp::Lt | BinaryOp::Gt | BinaryOp::Le | BinaryOp::Ge => {
            Some(TreeInstr::SignedCompare(comparison_of(op)->0))
        },
        BinaryOp::And => Some(TreeInstr::LogicalAnd),
        BinaryOp::Or => Some(TreeInstr::LogicalOr),
        BinaryOp::BitAnd => Some(TreeInstr::Int(IntOp::And)),
        BinaryOp::BitOr => Some(TreeInstr::Int(IntOp::Or)),
        BinaryOp::BitXor => Some(TreeInstr::Int(IntOp::Xor)),
        BinaryOp::Shl => Some(TreeInstr::Int(IntOp::Shl)),
        BinaryOp::Shr => Some(TreeInstr::Int(IntOp::LogicalShr)),
        BinaryOp::Range => None,
    }
}

/// Selects the instruction for a binary operator in the syntax-tree
/// generator.
pub fn select_tree_binary(op: BinaryOp) -> (r: Option<TreeInstr>)
    ensures
        r == tree_binary_instr(op),
{
    match op {
        BinaryOp::Add => Some(TreeInstr::Int(IntOp::Add)),
        BinaryOp::Sub => Some(TreeInstr::Int(IntOp::Sub)),
        BinaryOp::Mul => Some(TreeInstr::Int(IntOp::Mul)),
        BinaryOp::Div => Some(TreeInstr::Int(IntOp::SignedDiv)),
        BinaryOp::Mod => Some(TreeInstr::Int(IntOp::SignedRem)),
        BinaryOp::Eq => Some(TreeInstr::SignedCompare(Comparison::Eq)),
        BinaryOp::Ne => Some(TreeInstr::SignedCompare(Comparison::Ne)),
        BinaryOp::Lt => Some(TreeInstr::SignedCompare(Comparison::Lt)),
        BinaryOp::Gt => Some(TreeInstr::SignedCompare(Comparison::Gt)),
        BinaryOp::Le => Some(TreeInstr::SignedCompare(Comparison::Le)),
        BinaryOp::Ge => Some(TreeInstr::SignedCompare(Comparison::Ge)),
        BinaryOp::And => Some(TreeInstr::LogicalAnd),
        BinaryOp::Or => Some(TreeInstr::LogicalOr),
        BinaryOp::BitAnd => Some(TreeInstr::Int(IntOp::And)),
        BinaryOp::BitOr => Some(TreeInstr::Int(IntOp::Or)),
        BinaryOp::BitXor => Some(TreeInstr::Int(IntOp::Xor)),
        BinaryOp::Shl => Some(TreeInstr::Int(IntOp::Shl)),
        BinaryOp::Shr => Some(TreeInstr::Int(IntOp::LogicalShr)),
        BinaryOp::Range => None,
    }
}

/// What an integer instruction computes on two operands taken as integers,
/// before LLVM wraps the result to the operands' width: addition,
/// subtraction and multiplication always; division and remainder of a
/// non-negative dividend by a positive divisor, where the signed and the
/// unsigned forms agree; nothing is said of the bit instructions.
pub open spec fn int_op_result(op: IntOp, a: int, b: int) -> Option<int> {
    match op {
        IntOp::Add => Some(a + b),
        IntOp::Sub => Some(a - b),
        IntOp::Mul => Some(a * b),
        IntOp::UnsignedDiv | IntOp::SignedDiv => if a >= 0 && b > 0 { Some(a / b) } else { None },
        IntOp::UnsignedRem | IntOp::SignedRem => if a >= 0 && b > 0 { Some(a % b) } else { None },
        _ => None,
    }
}

/// What an arithmetic operator of the language means on two integers:
/// `+`, `-` and `*`, and `/` and `%` of a non-negative dividend by a
/// positive divisor.
pub open spec fn arith_result(op: BinaryOp, a: int, b: int) -> Option<int> {
    match op {
        BinaryOp::Add => Some(a + b),
        BinaryOp::Sub => Some(a - b),
        BinaryOp::Mul => Some(a * b),
        BinaryOp::Div => if a >= 0 && b > 0 { Some(a / b) } else { None },
        BinaryOp::Mod => if a >= 0 && b > 0 { Some(a % b) } else { None },
        _ => None,
    }
}

/// Whether a comparison holds between two numbers.
pub open spec fn comparison_holds(c: Comparison, a: int, b: int) -> bool {
    match c {
        Comparison::Eq => a == b,
        Comparison::Ne => a != b,
        Comparison::Lt => a < b,
        Comparison::Gt => a > b,
        Comparison::Le => a <= b,
        Comparison::Ge => a >= b,
    }
}

/// What a comparison operator of the language means on two numbers.
pub open spec fn compare_result(op: BinaryOp, a: int, b: int) -> Option<bool> {
    match op {
        BinaryOp::Eq => Some(a == b),
        BinaryOp::Ne => Some(a != b),
        BinaryOp::Lt => Some(a < b),
        BinaryOp::Gt => Some(a > b),
        BinaryOp::Le => Some(a <= b),
        BinaryOp::Ge => Some(a >= b),
        _ => None,
    }
}

/// The float instruction of the same arithmetic as an integer instruction.
pub open spec fn float_form(op: IntOp) -> Option<FloatOp> {
    match op {
        IntOp::Add => Some(FloatOp::Add),
        IntOp::Sub => Some(FloatOp::Sub),
        IntOp::Mul => Some(FloatOp::Mul),
        IntOp::UnsignedDiv | IntOp::SignedDiv => Some(FloatOp::Div),
        IntOp::UnsignedRem | IntOp::SignedRem => Some(FloatOp::Rem),
        _ => None,
    }
}

/// The instruction chosen for an arithmetic operator on integer operands
/// computes what the operator means; on float operands it is the float
/// instruction of that same arithmetic.
pub proof fn law_binary_instr_computes_operator(op: BinaryOp, a: int, b: int)
    requires
        arith_result(op, a, b) is Some,
    ensures
        binary_instr(op, false) is Int,
        int_op_result(binary_instr(op, false)->Int_0, a, b) == arith_result(op, a, b),
        binary_instr(op, true) == BinaryInstr::Float(float_form(binary_instr(op, false)->Int_0)->0),
        float_form(binary_instr(op, false)->Int_0) is Some,
{
}

/// The comparison chosen for a comparison operator, on integer or on float
/// operands, holds exactly when the operator's relation does.
pub proof fn law_binary_instr_compares_operator(op: BinaryOp, a: int, b: int)
    requires
        compare_result(op, a, b) is Some,
    ensures
        binary_instr(op, false) is IntCompare,
        comparison_holds(binary_instr(op, false)->IntCompare_0, a, b) == compare_result(op, a, b)->0,
        binary_instr(op, true) is FloatCompare,
        comparison_holds(binary_instr(op, true)->FloatCompare_0, a, b) == compare_result(op, a, b)->0,
{
}

/// The syntax-tree generator's instruction for an arithmetic operator
/// computes what the operator means, and its comparison for a comparison
/// operator holds exactly when the operator's relation does.
pub proof fn law_tree_instr_computes_operator(op: BinaryOp, a: int, b: int)
    ensures
        arith_result(op, a, b) is Some ==> (tree_binary_instr(op) matches Some(TreeInstr::Int(i)) && int_op_result(i, a, b)
            == arith_result(op, a, b)),
        compare_result(op, a, b) is Some ==> (tree_binary_instr(op) matches Some(TreeInstr::SignedCompare(c))
            && comparison_holds(c, a, b) == compare_result(op, a, b)->0),
{
}

/// What an integer bit instruction computes on two 64-bit operands: the
/// bitwise operations, and the shifts by fewer than 64 places (a right
/// shift filling with zeros).
pub open spec fn int_op_bits(op: IntOp, a: u64, b: u64) -> Option<u64> {
    match op {
        IntOp::And => Some(a & b),
        IntOp::Or => Some(a | b),
        IntOp::Xor => Some(a ^ b),
        IntOp::Shl => if b < 64 { Some(a << b) } else { None },
        IntOp::LogicalShr => if b < 64 { Some(a >> b) } else { None },
        _ => None,
    }
}

/// What a bit operator of the language means on two 64-bit values: `&`,
/// `|`, `^`, and `<<` and `>>` by fewer than 64 places; `and` and `or` on
/// truth values 0 and 1.
pub open spec fn bit_result(op: BinaryOp, a: u64, b: u64) -> Option<u64> {
    match op {
        BinaryOp::BitAnd => Some(a & b),
        BinaryOp::BitOr => Some(a | b),
        BinaryOp::BitXor => Some(a ^ b),
        BinaryOp::Shl => if b < 64 { Some(a << b) } else { None },
        BinaryOp::Shr => if b < 64 { Some(a >> b) } else { None },
        BinaryOp::And => if a <= 1 && b <= 1 { Some(if a == 1 && b == 1 { 1u64 } else { 0u64 }) } else { None },
        BinaryOp::Or => if a <= 1 && b <= 1 { Some(if a == 1 || b == 1 { 1u64 } else { 0u64 }) } else { None },
        _ => None,
    }
}

/// The instruction chosen for a bit operator on integer operands computes
/// what the operator means; the syntax-tree generator chooses the same
/// instruction for the bitwise operators and shifts.
pub proof fn law_bit_instr_computes_operator(op: BinaryOp, a: u64, b: u64)
    requires
        bit_result(op, a, b) is Some,
    ensures
        binary_instr(op, false) is Int,
        int_op_bits(binary_instr(op, false)->Int_0, a, b) == bit_result(op, a, b),
        op != BinaryOp::And && op != BinaryOp::Or ==> tree_binary_instr(op) == Some(TreeInstr::Int(binary_instr(op, false)->Int_0)),
{
    if op == BinaryOp::And {
        assert(a & b == (if a == 1 && b == 1 { 1u64 } else { 0u64 })) by (bit_vector)
            requires
                a <= 1 && b <= 1,
        ;
    }
    if op == BinaryOp::Or {
        assert(a | b == (if a == 1 || b == 1 { 1u64 } else { 0u64 })) by (bit_vector)
            requires
                a <= 1 && b <= 1,
        ;
    }
}

/// The LLVM type of the result of a binary instruction whose left operand
/// has type `left`.
pub open spec fn binary_result(instr: BinaryInstr, left: LTypeV) -> LTypeV {
    match instr {
        BinaryInstr::Int(_) | BinaryInstr::Float(_) => left,
        BinaryInstr::IntCompare(_) | BinaryInstr::FloatCompare(_) => LTypeV::Int(1),
        BinaryInstr::RangePair => LTypeV::Struct(seq![LTypeV::Int(64), LTypeV::Int(64)]),
    }
}

/// What a unary operator does to its operand.
#[derive(Debug, Clone, Copy, PartialEq, Eq, Structural)]
pub enum UnaryInstr {
    /// Integer negation.
    Negate,
    /// The operand itself.
    Keep,
    /// Comparison of the operand with zero (`!x` is `x == 0`).
    IsZero,
    /// The address of the operand.
    AddressOf,
}

/// The instruction for a unary operator.
pub open spec fn unary_instr(op: UnaryOp) -> UnaryInstr {
    match op {
        UnaryOp::Neg => UnaryInstr::Negate,
        UnaryOp::Pos => UnaryInstr::Keep,
        UnaryOp::Not => UnaryInstr::IsZero,
        UnaryOp::Ref => UnaryInstr::AddressOf,
    }
}

/// Selects the instruction for a unary operator.
pub fn select_unary(op: UnaryOp) -> (r: UnaryInstr)
    ensures
        r == unary_instr(op),
{
    match op {
        UnaryOp::Neg => UnaryInstr::Negate,
        UnaryOp::Pos => UnaryInstr::Keep,
        UnaryOp::Not => UnaryInstr::IsZero,
        UnaryOp::Ref => UnaryInstr::AddressOf,
    }
}

/// What a unary instruction computes on an integer operand; an address is
/// not a number.
pub open spec fn unary_instr_value(i: UnaryInstr, a: int) -> Option<int> {
    match i {
        UnaryInstr::Negate => Some(-a),
        UnaryInstr::Keep => Some(a),
        UnaryInstr::IsZero => Some(if a == 0 { 1 } else { 0 }),
        UnaryInstr::AddressOf => None,
    }
}

/// What a unary operator of the language means on a number: `-x`, `+x`,
/// and `!x` on a truth value 0 or 1.
pub open spec fn unary_result(op: UnaryOp, a: int) -> Option<int> {
    match op {
        UnaryOp::Neg => Some(-a),
        UnaryOp::Pos => Some(a),
        UnaryOp::Not => if 0 <= a <= 1 { Some(1 - a) } else { None },
        UnaryOp::Ref => None,
    }
}

/// The instruction chosen for a numeric unary operator computes what the
/// operator means; `&x` takes the operand's address.
pub proof fn law_unary_instr_computes_operator(op: UnaryOp, a: int)
    ensures
        unary_result(op, a) is Some ==> unary_instr_value(unary_instr(op), a) == unary_result(op, a),
        op == UnaryOp::Ref ==> unary_instr(op) == UnaryInstr::AddressOf,
{
}

/// How an argument is widened before it is passed.
#[derive(Debug, Clone, Copy, PartialEq, Eq, Structural)]
pub enum Widening {
    Keep,
    SignExtend(u32),
    ZeroExtend(u32),
    FloatToDouble,
}

/// The LLVM type a value of type `t` has after a widening.
pub open spec fn widened_type(w: Widening, t: LTypeV) -> LTypeV {
    match w {
        Widening::Keep => t,
        Widening::SignExtend(bits) => LTypeV::Int(bits),
        Widening::ZeroExtend(bits) => LTypeV::Int(bits),
        Widening::FloatToDouble => LTypeV::F64,
    }
}

/// The C rules for variadic arguments: signed integers narrower than `int`
/// are sign-extended to 32 bits, unsigned ones and booleans zero-extended,
/// `f32` promoted to double.
pub open spec fn ffi_widening(t: Type) -> Widening {
    match t {
        Type::I8 | Type::I16 => Widening::SignExtend(32),
        Type::U8 | Type::U16 | Type::Bool => Widening::ZeroExtend(32),
        Type::F32 => Widening::FloatToDouble,
        _ => Widening::Keep,
    }
}

/// The widening of a variadic argument of a C function.
pub fn promote_ffi_arg(ty: &Type) -> (r: Widening)
    ensures
        r == ffi_widening(*ty),
{
    match ty {
        Type::I8 | Type::I16 => Widening::SignExtend(32),
        Type::U8 | Type::U16 | Type::Bool => Widening::ZeroExtend(32),
        Type::F32 => Widening::FloatToDouble,
        _ => Widening::Keep,
    }
}

/// The widening of a `printf` argument: integers to 64 bits (booleans
/// zero-extended, others sign-extended), floats to double; strings and
/// values of another kind as they are.
pub open spec fn printf_widening(kind: PrintfArgKind, t: LTypeV) -> Widening {
    match kind {
        PrintfArgKind::Integer => match t {
            LTypeV::Int(w) => if w == 64 {
                Widening::Keep
            } else if w == 1 {
                Widening::ZeroExtend(64)
            } else {
                Widening::SignExtend(64)
            },
            _ => Widening::Keep,
        },
        PrintfArgKind::Float => match t {
            LTypeV::F32 => Widening::FloatToDouble,
            _ => Widening::Keep,
        },
        _ => Widening::Keep,
    }
}

/// The widening of a `printf` argument of an LLVM type.
pub fn promote_printf_arg(kind: PrintfArgKind, t: &LType) -> (r: Widening)
    ensures
        r == printf_widening(kind, t@),
{
    match kind {
        PrintfArgKind::Integer => match t {
            LType::Int(w) => if *w == 64 {
                Widening::Keep
            } else if *w == 1 {
                Widening::ZeroExtend(64)
            } else {
                Widening::SignExtend(64)
            },
            _ => Widening::Keep,
        },
        PrintfArgKind::Float => match t {
            LType::F32 => Widening::FloatToDouble,
            _ => Widening::Keep,
        },
        _ => Widening::Keep,
    }
}

} // verus!
