//! High-level intermediate representation: typed, desugared expressions and
//! statements that code generation consumes.

use vstd::prelude::*;
use crate::ast::{
    AssignOp, BinaryOp, FloatLit, Mutability, Span, Type, UnaryOp, Visibility, binary_symbol, push_type_text, type_text,
    unary_symbol,
};
use crate::text::{int_text, nat_text, push_char, push_i64, push_str, push_string, push_u64};

verus! {

/// Typed expression.
#[derive(Debug)]
pub enum HirExpr {
    Int(i64, Type, Span),
    Float(FloatLit, Type, Span),
    Bool(bool, Type, Span),
    String(String, Type, Span),
    Char(char, Type, Span),
    Null(Type, Span),
    Ident(String, Type, Span),
    Tuple {
        vals: Vec<HirExpr>,
        ty: Type,
        span: Span,
    },
    TupleIndex {
        tuple: Box<HirExpr>,
        index: usize,
        ty: Type,
        span: Span,
    },
    Index {
        object: Box<HirExpr>,
        index: Box<HirExpr>,
        ty: Type,
        span: Span,
    },
    Array {
        vals: Vec<HirExpr>,
        ty: Type,
        span: Span,
    },
    Binary {
        op: BinaryOp,
        left: Box<HirExpr>,
        right: Box<HirExpr>,
        ty: Type,
        span: Span,
    },
    Unary {
        op: UnaryOp,
        expr: Box<HirExpr>,
        ty: Type,
        span: Span,
    },
    Call {
        name: String,
        namespace: Option<String>,
        args: Vec<HirExpr>,
        return_ty: Type,
        /// Target type for method calls, used to find the monomorphized method
        target_ty: Option<Type>,
        span: Span,
    },
    If {
        condition: Box<HirExpr>,
        capture: Option<String>,
        then_branch: Box<HirExpr>,
        else_branch: Box<HirExpr>,
        ty: Type,
        span: Span,
    },
    Block {
        stmts: Vec<HirStmt>,
        expr: Option<Box<HirExpr>>,
        ty: Type,
        span: Span,
    },
    MemberAccess {
        object: Box<HirExpr>,
        member: String,
        ty: Type,
        span: Span,
    },
    Struct {
        name: String,
        fields: Vec<(String, HirExpr)>,
        ty: Type,
        span: Span,
    },
    Try {
        expr: Box<HirExpr>,
        ty: Type,
        span: Span,
    },
    /// Catch expression
    Catch {
        expr: Box<HirExpr>,
        error_var: Option<String>,
        body: Box<HirExpr>,
        ty: Type,
        span: Span,
    },
    /// Type cast
    Cast {
        target_type: Type,
        expr: Box<HirExpr>,
        ty: Type,
        span: Span,
    },
    /// Pointer dereference
    Dereference {
        expr: Box<HirExpr>,
        ty: Type,
        span: Span,
    },
    /// Intrinsic operator (e.g. `@is_null`)
    Intrinsic {
        name: String,
        args: Vec<HirExpr>,
        ty: Type,
        span: Span,
    },
}

/// The type an expression carries (a call carries its return type).
pub open spec fn hir_expr_type(e: HirExpr) -> Type {
    match e {
        HirExpr::Int(_, ty, _) => ty,
        HirExpr::Float(_, ty, _) => ty,
        HirExpr::Bool(_, ty, _) => ty,
        HirExpr::String(_, ty, _) => ty,
        HirExpr::Char(_, ty, _) => ty,
        HirExpr::Null(ty, _) => ty,
        HirExpr::Ident(_, ty, _) => ty,
        HirExpr::Tuple { ty, .. } => ty,
        HirExpr::TupleIndex { ty, .. } => ty,
        HirExpr::Index { ty, .. } => ty,
        HirExpr::Array { ty, .. } => ty,
        HirExpr::Binary { ty, .. } => ty,
        HirExpr::Unary { ty, .. } => ty,
        HirExpr::Call { return_ty, .. } => return_ty,
        HirExpr::Intrinsic { ty, .. } => ty,
        HirExpr::If { ty, .. } => ty,
        HirExpr::Block { ty, .. } => ty,
        HirExpr::MemberAccess { ty, .. } => ty,
        HirExpr::Struct { ty, .. } => ty,
        HirExpr::Try { ty, .. } => ty,
        HirExpr::Catch { ty, .. } => ty,
        HirExpr::Cast { ty, .. } => ty,
        HirExpr::Dereference { ty, .. } => ty,
    }
}

impl HirExpr {
    /// The type of the expression.
    pub fn ty(&self) -> (r: &Type)
        ensures
            *r == hir_expr_type(*self),
    {
        match self {
            HirExpr::Int(_, ty, _) => ty,
            HirExpr::Float(_, ty, _) => ty,
            HirExpr::Bool(_, ty, _) => ty,
            HirExpr::String(_, ty, _) => ty,
            HirExpr::Char(_, ty, _) => ty,
            HirExpr::Null(ty, _) => ty,
            HirExpr::Ident(_, ty, _) => ty,
            HirExpr::Tuple { ty, .. } => ty,
            HirExpr::TupleIndex { ty, .. } => ty,
            HirExpr::Index { ty, .. } => ty,
            HirExpr::Array { ty, .. } => ty,
            HirExpr::Binary { ty, .. } => ty,
            HirExpr::Unary { ty, .. } => ty,
            HirExpr::Call { return_ty, .. } => return_ty,
            HirExpr::Intrinsic { ty, .. } => ty,
            HirExpr::If { ty, .. } => ty,
            HirExpr::Block { ty, .. } => ty,
            HirExpr::MemberAccess { ty, .. } => ty,
            HirExpr::Struct { ty, .. } => ty,
            HirExpr::Try { ty, .. } => ty,
            HirExpr::Catch { ty, .. } => ty,
            HirExpr::Cast { ty, .. } => ty,
            HirExpr::Dereference { ty, .. } => ty,
        }
    }
}

/// Statement.
#[derive(Debug)]
pub enum HirStmt {
    Expr(HirExpr),
    Let {
        name: String,
        ty: Type,
        value: Option<HirExpr>,
        mutability: Mutability,
        span: Span,
    },
    Assign {
        target: String,
        op: AssignOp,
        value: HirExpr,
        span: Span,
    },
    Return(Option<HirExpr>, Span),
    If {
        condition: HirExpr,
        capture: Option<String>,
        then_branch: Box<HirStmt>,
        else_branch: Option<Box<HirStmt>>,
        span: Span,
    },
    Switch {
        condition: HirExpr,
        cases: Vec<HirCase>,
        span: Span,
    },
    /// For loop
    For {
        label: Option<String>,
        var_name: Option<String>,
        index_var: Option<String>,
        iterable: HirExpr,
        body: Box<HirStmt>,
        span: Span,
    },
    /// Defer statement (runs on scope exit)
    Defer {
        stmt: Box<HirStmt>,
        span: Span,
    },
    /// `defer!` statement (runs only on error in a try)
    DeferBang {
        stmt: Box<HirStmt>,
        span: Span,
    },
    /// Break statement
    Break {
        label: Option<String>,
        span: Span,
    },
    /// Continue statement
    Continue {
        label: Option<String>,
        span: Span,
    },
}

/// One arm of a switch.
#[derive(Debug)]
pub struct HirCase {
    pub patterns: Vec<HirExpr>,
    pub body: HirStmt,
    pub span: Span,
}

/// Whether `b` is a copy of the expression `a`: the same form, values,
/// names and spans, types with the same model, and sub-expressions and
/// statements that are copies in turn.
pub open spec fn same_expr(a: HirExpr, b: HirExpr) -> bool
    decreases a,
{
    match a {
        HirExpr::Int(v, t, sp) => b matches HirExpr::Int(v2, t2, sp2) && v == v2 && t@ == t2@ && sp == sp2,
        HirExpr::Float(v, t, sp) => b matches HirExpr::Float(v2, t2, sp2) && v.bits == v2.bits && v.text == v2.text && t@
            == t2@ && sp == sp2,
        HirExpr::Bool(v, t, sp) => b matches HirExpr::Bool(v2, t2, sp2) && v == v2 && t@ == t2@ && sp == sp2,
        HirExpr::String(v, t, sp) => b matches HirExpr::String(v2, t2, sp2) && v == v2 && t@ == t2@ && sp == sp2,
        HirExpr::Char(v, t, sp) => b matches HirExpr::Char(v2, t2, sp2) && v == v2 && t@ == t2@ && sp == sp2,
        HirExpr::Null(t, sp) => b matches HirExpr::Null(t2, sp2) && t@ == t2@ && sp == sp2,
        HirExpr::Ident(v, t, sp) => b matches HirExpr::Ident(v2, t2, sp2) && v == v2 && t@ == t2@ && sp == sp2,
        HirExpr::Tuple { vals, ty, span } => b matches HirExpr::Tuple { vals: vals2, ty: ty2, span: span2 } && ty@ == ty2@
            && span == span2 && vals@.len() == vals2@.len() && (forall|i: int|
            0 <= i < vals@.len() ==> #[trigger] same_expr(vals@[i], vals2@[i])),
        HirExpr::TupleIndex { tuple, index, ty, span } => b matches HirExpr::TupleIndex {
            tuple: tuple2,
            index: index2,
            ty: ty2,
            span: span2,
        } && same_expr(*tuple, *tuple2) && index == index2 && ty@ == ty2@ && span == span2,
        HirExpr::Index { object, index, ty, span } => b matches HirExpr::Index {
            object: object2,
            index: index2,
            ty: ty2,
            span: span2,
        } && same_expr(*object, *object2) && same_expr(*index, *index2) && ty@ == ty2@ && span == span2,
        HirExpr::Array { vals, ty, span } => b matches HirExpr::Array { vals: vals2, ty: ty2, span: span2 } && ty@ == ty2@
            && span == span2 && vals@.len() == vals2@.len() && (forall|i: int|
            0 <= i < vals@.len() ==> #[trigger] same_expr(vals@[i], vals2@[i])),
        HirExpr::Binary { op, left, right, ty, span } => b matches HirExpr::Binary {
            op: op2,
            left: left2,
            right: right2,
            ty: ty2,
            span: span2,
        } && op == op2 && same_expr(*left, *left2) && same_expr(*right, *right2) && ty@ == ty2@ && span == span2,
        HirExpr::Unary { op, expr, ty, span } => b matches HirExpr::Unary { op: op2, expr: expr2, ty: ty2, span: span2 }
            && op == op2 && same_expr(*expr, *expr2) && ty@ == ty2@ && span == span2,
        HirExpr::Call { name, namespace, args, return_ty, target_ty, span } => b matches HirExpr::Call {
            name: name2,
            namespace: namespace2,
            args: args2,
            return_ty: return_ty2,
            target_ty: target_ty2,
            span: span2,
        } && name == name2 && namespace == namespace2 && return_ty@ == return_ty2@ && span == span2 && (match target_ty {
            Some(t) => target_ty2 matches Some(t2) && t@ == t2@,
            None => target_ty2 is None,
        }) && args@.len() == args2@.len() && (forall|i: int|
            0 <= i < args@.len() ==> #[trigger] same_expr(args@[i], args2@[i])),
        HirExpr::If { condition, capture, then_branch, else_branch, ty, span } => b matches HirExpr::If {
            condition: condition2,
            capture: capture2,
            then_branch: then_branch2,
            else_branch: else_branch2,
            ty: ty2,
            span: span2,
        } && same_expr(*condition, *condition2) && capture == capture2 && same_expr(*then_branch, *then_branch2)
            && same_expr(*else_branch, *else_branch2) && ty@ == ty2@ && span == span2,
        HirExpr::Block { stmts, expr, ty, span } => b matches HirExpr::Block {
            stmts: stmts2,
            expr: expr2,
            ty: ty2,
            span: span2,
        } && ty@ == ty2@ && span == span2 && (match expr {
            Some(x) => expr2 matches Some(x2) && same_expr(*x, *x2),
            None => expr2 is None,
        }) && stmts@.len() == stmts2@.len() && (forall|i: int|
            0 <= i < stmts@.len() ==> #[trigger] same_stmt(stmts@[i], stmts2@[i])),
        HirExpr::MemberAccess { object, member, ty, span } => b matches HirExpr::MemberAccess {
            object: object2,
            member: member2,
            ty: ty2,
            span: span2,
        } && same_expr(*object, *object2) && member == member2 && ty@ == ty2@ && span == span2,
        HirExpr::Struct { name, fields, ty, span } => b matches HirExpr::Struct {
            name: name2,
            fields: fields2,
            ty: ty2,
            span: span2,
        } && name == name2 && ty@ == ty2@ && span == span2 && fields@.len() == fields2@.len() && (forall|i: int|
            0 <= i < fields@.len() ==> (#[trigger] fields@[i]).0 == fields2@[i].0 && same_expr(fields@[i].1, fields2@[i].1)),
        HirExpr::Try { expr, ty, span } => b matches HirExpr::Try { expr: expr2, ty: ty2, span: span2 } && same_expr(
            *expr,
            *expr2,
        ) && ty@ == ty2@ && span == span2,
        HirExpr::Catch { expr, error_var, body, ty, span } => b matches HirExpr::Catch {
            expr: expr2,
            error_var: error_var2,
            body: body2,
            ty: ty2,
            span: span2,
        } && same_expr(*expr, *expr2) && error_var == error_var2 && same_expr(*body, *body2) && ty@ == ty2@ && span
            == span2,
        HirExpr::Cast { target_type, expr, ty, span } => b matches HirExpr::Cast {
            target_type: target_type2,
            expr: expr2,
            ty: ty2,
            span: span2,
        } && target_type@ == target_type2@ && same_expr(*expr, *expr2) && ty@ == ty2@ && span == span2,
        HirExpr::Dereference { expr, ty, span } => b matches HirExpr::Dereference { expr: expr2, ty: ty2, span: span2 }
            && same_expr(*expr, *expr2) && ty@ == ty2@ && span == span2,
        HirExpr::Intrinsic { name, args, ty, span } => b matches HirExpr::Intrinsic {
            name: name2,
            args: args2,
            ty: ty2,
            span: span2,
        } && name == name2 && ty@ == ty2@ && span == span2 && args@.len() == args2@.len() && (forall|i: int|
            0 <= i < args@.len() ==> #[trigger] same_expr(args@[i], args2@[i])),
    }
}

/// Whether `b` is a copy of the statement `a`, in the sense of
/// [`same_expr`].
pub open spec fn same_stmt(a: HirStmt, b: HirStmt) -> bool
    decreases a,
{
    match a {
        HirStmt::Expr(e) => b matches HirStmt::Expr(e2) && same_expr(e, e2),
        HirStmt::Let { name, ty, value, mutability, span } => b matches HirStmt::Let {
            name: name2,
            ty: ty2,
            value: value2,
            mutability: mutability2,
            span: span2,
        } && name == name2 && ty@ == ty2@ && mutability == mutability2 && span == span2 && (match value {
            Some(v) => value2 matches Some(v2) && same_expr(v, v2),
            None => value2 is None,
        }),
        HirStmt::Assign { target, op, value, span } => b matches HirStmt::Assign {
            target: target2,
            op: op2,
            value: value2,
            span: span2,
        } && target == target2 && op == op2 && same_expr(value, value2) && span == span2,
        HirStmt::Return(v, sp) => b matches HirStmt::Return(v2, sp2) && sp == sp2 && (match v {
            Some(x) => v2 matches Some(x2) && same_expr(x, x2),
            None => v2 is None,
        }),
        HirStmt::If { condition, capture, then_branch, else_branch, span } => b matches HirStmt::If {
            condition: condition2,
            capture: capture2,
            then_branch: then_branch2,
            else_branch: else_branch2,
            span: span2,
        } && same_expr(condition, condition2) && capture == capture2 && same_stmt(*then_branch, *then_branch2) && span
            == span2 && (match else_branch {
            Some(x) => else_branch2 matches Some(x2) && same_stmt(*x, *x2),
            None => else_branch2 is None,
        }),
        HirStmt::Switch { condition, cases, span } => b matches HirStmt::Switch {
            condition: condition2,
            cases: cases2,
            span: span2,
        } && same_expr(condition, condition2) && span == span2 && cases@.len() == cases2@.len() && (forall|i: int|
            0 <= i < cases@.len() ==> #[trigger] same_case(cases@[i], cases2@[i])),
        HirStmt::For { label, var_name, index_var, iterable, body, span } => b matches HirStmt::For {
            label: label2,
            var_name: var_name2,
            index_var: index_var2,
            iterable: iterable2,
            body: body2,
            span: span2,
        } && label == label2 && var_name == var_name2 && index_var == index_var2 && same_expr(iterable, iterable2)
            && same_stmt(*body, *body2) && span == span2,
        HirStmt::Defer { stmt, span } => b matches HirStmt::Defer { stmt: stmt2, span: span2 } && same_stmt(*stmt, *stmt2)
            && span == span2,
        HirStmt::DeferBang { stmt, span } => b matches HirStmt::DeferBang { stmt: stmt2, span: span2 } && same_stmt(
            *stmt,
            *stmt2,
        ) && span == span2,
        HirStmt::Break { label, span } => b matches HirStmt::Break { label: label2, span: span2 } && label == label2 && span
            == span2,
        HirStmt::Continue { label, span } => b matches HirStmt::Continue { label: label2, span: span2 } && label == label2
            && span == span2,
    }
}

/// Whether `b` is a copy of the switch arm `a`, in the sense of
/// [`same_expr`].
pub open spec fn same_case(a: HirCase, b: HirCase) -> bool
    decreases a,
{
    &&& a.span == b.span
    &&& a.patterns@.len() == b.patterns@.len()
    &&& forall|j: int| 0 <= j < a.patterns@.len() ==> #[trigger] same_expr(a.patterns@[j], b.patterns@[j])
    &&& same_stmt(a.body, b.body)
}

/// Function.
#[derive(Debug)]
pub struct HirFn {
    pub name: String,
    pub params: Vec<(String, Type)>,
    pub return_ty: Type,
    pub body: Vec<HirStmt>,
    pub visibility: Visibility,
    pub span: Span,
}

/// Program.
#[derive(Debug)]
pub struct HirProgram {
    pub functions: Vec<HirFn>,
}


/// The symbol of an assignment operator.
pub open spec fn assign_symbol(op: AssignOp) -> Seq<char> {
    match op {
        AssignOp::Assign => "="@,
        AssignOp::AddAssign => "+="@,
        AssignOp::SubAssign => "-="@,
        AssignOp::MulAssign => "*="@,
        AssignOp::DivAssign => "/="@,
        AssignOp::ModAssign => "%="@,
        AssignOp::AndAssign => "&="@,
        AssignOp::OrAssign => "|="@,
        AssignOp::XorAssign => "^="@,
        AssignOp::ShlAssign => "<<="@,
        AssignOp::ShrAssign => ">>="@,
    }
}

/// The binary operator a compound assignment applies: `x op= v` stores
/// `x op v`.
pub open spec fn compound_base(op: AssignOp) -> Option<BinaryOp> {
    match op {
        AssignOp::Assign => None,
        AssignOp::AddAssign => Some(BinaryOp::Add),
        AssignOp::SubAssign => Some(BinaryOp::Sub),
        AssignOp::MulAssign => Some(BinaryOp::Mul),
        AssignOp::DivAssign => Some(BinaryOp::Div),
        AssignOp::ModAssign => Some(BinaryOp::Mod),
        AssignOp::AndAssign => Some(BinaryOp::BitAnd),
        AssignOp::OrAssign => Some(BinaryOp::BitOr),
        AssignOp::XorAssign => Some(BinaryOp::BitXor),
        AssignOp::ShlAssign => Some(BinaryOp::Shl),
        AssignOp::ShrAssign => Some(BinaryOp::Shr),
    }
}

/// An assignment operator is written as the symbol of the binary operator
/// it applies followed by `=`; a plain assignment is `=` alone.
pub proof fn law_assign_symbol_is_operator_and_equals(op: AssignOp)
    ensures
        compound_base(op) matches Some(b) ==> assign_symbol(op) == binary_symbol(b) + "="@,
        compound_base(op) is None ==> assign_symbol(op) == "="@,
{
    reveal_strlit("=");
    reveal_strlit("+=");
    reveal_strlit("-=");
    reveal_strlit("*=");
    reveal_strlit("/=");
    reveal_strlit("%=");
    reveal_strlit("&=");
    reveal_strlit("|=");
    reveal_strlit("^=");
    reveal_strlit("<<=");
    reveal_strlit(">>=");
    match op {
        AssignOp::Assign => {},
        AssignOp::AddAssign => assert(binary_symbol(BinaryOp::Add) + "="@ =~= "+="@),
        AssignOp::SubAssign => assert(binary_symbol(BinaryOp::Sub) + "="@ =~= "-="@),
        AssignOp::MulAssign => assert(binary_symbol(BinaryOp::Mul) + "="@ =~= "*="@),
        AssignOp::DivAssign => assert(binary_symbol(BinaryOp::Div) + "="@ =~= "/="@),
        AssignOp::ModAssign => assert(binary_symbol(BinaryOp::Mod) + "="@ =~= "%="@),
        AssignOp::AndAssign => assert(binary_symbol(BinaryOp::BitAnd) + "="@ =~= "&="@),
        AssignOp::OrAssign => assert(binary_symbol(BinaryOp::BitOr) + "="@ =~= "|="@),
        AssignOp::XorAssign => assert(binary_symbol(BinaryOp::BitXor) + "="@ =~= "^="@),
        AssignOp::ShlAssign => assert(binary_symbol(BinaryOp::Shl) + "="@ =~= "<<="@),
        AssignOp::ShrAssign => assert(binary_symbol(BinaryOp::Shr) + "="@ =~= ">>="@),
    }
}

/// `true` or `false`.
pub open spec fn bool_text(b: bool) -> Seq<char> {
    if b { "true"@ } else { "false"@ }
}

/// The text of a type as `Display` prints it.
pub open spec fn ty_text(t: Type) -> Seq<char> {
    type_text(t@, false)
}

/// The text of a typed expression.
pub open spec fn hir_expr_text(e: HirExpr) -> Seq<char>
    decreases e,
{
    match e {
        HirExpr::Int(n, ty, _) => int_text(n as int) + ": "@ + ty_text(ty),
        HirExpr::Float(n, ty, _) => n.text@ + ": "@ + ty_text(ty),
        HirExpr::Bool(b, ty, _) => bool_text(b) + ": "@ + ty_text(ty),
        HirExpr::String(s, ty, _) => "\""@ + s@ + "\": "@ + ty_text(ty),
        HirExpr::Char(c, ty, _) => "'"@ + seq![c] + "': "@ + ty_text(ty),
        HirExpr::Null(ty, _) => "null: "@ + ty_text(ty),
        HirExpr::Ident(name, ty, _) => name@ + ": "@ + ty_text(ty),
        HirExpr::Tuple { vals, ty, .. } => "("@ + hir_exprs_text(vals@) + "): "@ + ty_text(ty),
        HirExpr::TupleIndex { tuple, index, ty, .. } => {
            hir_expr_text(*tuple) + "."@ + nat_text(index as nat) + ": "@ + ty_text(ty)
        },
        HirExpr::Index { object, index, ty, .. } => {
            hir_expr_text(*object) + "["@ + hir_expr_text(*index) + "]: "@ + ty_text(ty)
        },
        HirExpr::Array { vals, ty, .. } => "["@ + hir_exprs_text(vals@) + "]: "@ + ty_text(ty),
        HirExpr::Binary { op, left, right, ty, .. } => {
            "("@ + hir_expr_text(*left) + " "@ + binary_symbol(op) + " "@ + hir_expr_text(*right) + "): "@ + ty_text(ty)
        },
        HirExpr::Unary { op, expr, ty, .. } => "("@ + unary_symbol(op) + hir_expr_text(*expr) + "): "@ + ty_text(ty),
        HirExpr::Call { name, namespace, args, return_ty, target_ty, .. } => {
            (match namespace { Some(n) => n@ + "::"@, None => Seq::empty() }) + name@ + "("@ + hir_exprs_text(args@) + ")"@
                + (match target_ty { Some(t) => "["@ + ty_text(t) + "]"@, None => Seq::empty() }) + ": "@ + ty_text(return_ty)
        },
        HirExpr::If { condition, capture, then_branch, else_branch, .. } => {
            "if"@ + (match capture { Some(c) => " @"@ + c@, None => Seq::empty() }) + " "@ + hir_expr_text(*condition)
                + " then "@ + hir_expr_text(*then_branch) + " else "@ + hir_expr_text(*else_branch)
        },
        HirExpr::Block { stmts, expr, ty, .. } => {
            "{ "@ + hir_block_stmts_text(stmts@) + (match expr { Some(e) => hir_expr_text(*e), None => Seq::empty() })
                + " }: "@ + ty_text(ty)
        },
        HirExpr::MemberAccess { object, member, ty, .. } => hir_expr_text(*object) + "."@ + member@ + ": "@ + ty_text(ty),
        HirExpr::Struct { name, fields, ty, .. } => name@ + " { "@ + hir_fields_text(fields@) + " }: "@ + ty_text(ty),
        HirExpr::Try { expr, .. } => "try "@ + hir_expr_text(*expr),
        HirExpr::Catch { expr, error_var, body, .. } => {
            "catch"@ + (match error_var { Some(v) => " @"@ + v@, None => Seq::empty() }) + " "@ + hir_expr_text(*expr) + " "@
                + hir_expr_text(*body)
        },
        HirExpr::Cast { target_type, expr, ty, .. } => {
            "("@ + hir_expr_text(*expr) + " as "@ + ty_text(target_type) + "): "@ + ty_text(ty)
        },
        HirExpr::Dereference { expr, ty, .. } => "(*"@ + hir_expr_text(*expr) + "): "@ + ty_text(ty),
        HirExpr::Intrinsic { name, args, ty, .. } => name@ + "("@ + hir_exprs_text(args@) + "): "@ + ty_text(ty),
    }
}

/// The texts of expressions joined by `", "`.
pub open spec fn hir_exprs_text(es: Seq<HirExpr>) -> Seq<char>
    decreases es,
{
    if es.len() == 0 {
        Seq::empty()
    } else if es.len() == 1 {
        hir_expr_text(es[0])
    } else {
        hir_exprs_text(es.drop_last()) + ", "@ + hir_expr_text(es.last())
    }
}

/// The fields of a struct literal, each `name: value`, joined by `", "`.
pub open spec fn hir_fields_text(fs: Seq<(String, HirExpr)>) -> Seq<char>
    decreases fs,
{
    if fs.len() == 0 {
        Seq::empty()
    } else if fs.len() == 1 {
        fs[0].0@ + ": "@ + hir_expr_text(fs[0].1)
    } else {
        hir_fields_text(fs.drop_last()) + ", "@ + fs.last().0@ + ": "@ + hir_expr_text(fs.last().1)
    }
}

/// The statements of a block expression, each followed by `"; "`.
pub open spec fn hir_block_stmts_text(ss: Seq<HirStmt>) -> Seq<char>
    decreases ss,
{
    if ss.len() == 0 {
        Seq::empty()
    } else {
        hir_block_stmts_text(ss.drop_last()) + hir_stmt_text(ss.last(), Seq::empty()) + "; "@
    }
}

/// The text of a statement whose lines start with `pre`; nested statements
/// are indented four more spaces.
pub open spec fn hir_stmt_text(s: HirStmt, pre: Seq<char>) -> Seq<char>
    decreases s,
{
    let inner = pre + "    "@;
    match s {
        HirStmt::Expr(e) => pre + hir_expr_text(e) + ";\n"@,
        HirStmt::Let { name, ty, value, mutability, .. } => {
            let m = match mutability { Mutability::Var => "var "@, Mutability::Const => Seq::empty() };
            match value {
                Some(v) => pre + m + "let "@ + name@ + " "@ + ty_text(ty) + " = "@ + hir_expr_text(v) + ";\n"@,
                None => pre + m + "let "@ + name@ + ": "@ + ty_text(ty) + ";\n"@,
            }
        },
        HirStmt::Assign { target, op, value, .. } => {
            pre + target@ + " "@ + assign_symbol(op) + " "@ + hir_expr_text(value) + ";\n"@
        },
        HirStmt::Return(value, _) => match value {
            Some(e) => pre + "return "@ + hir_expr_text(e) + ";\n"@,
            None => pre + "return;\n"@,
        },
        HirStmt::If { condition, capture, then_branch, else_branch, .. } => {
            pre + hir_expr_text(condition) + "if"@ + (match capture { Some(c) => " @"@ + c@, None => Seq::empty() }) + " {"@
                + hir_stmt_text(*then_branch, inner) + pre + "}"@ + (match else_branch {
                Some(b) => " else {"@ + hir_stmt_text(*b, inner) + pre + "}"@,
                None => Seq::empty(),
            }) + "\n"@
        },
        HirStmt::Switch { condition, cases, .. } => {
            pre + "switch "@ + hir_expr_text(condition) + " {\n"@ + hir_cases_text(cases@, inner) + pre + "}\n"@
        },
        HirStmt::For { label, var_name, index_var, iterable, body, .. } => {
            pre + "for"@ + (match label { Some(l) => "'"@ + l@, None => Seq::empty() }) + (match var_name {
                Some(v) => ", "@ + v@,
                None => Seq::empty(),
            }) + (match index_var { Some(i) => ", "@ + i@, None => Seq::empty() }) + " in "@ + hir_expr_text(iterable)
                + " {\n"@ + hir_stmt_text(*body, inner) + pre + "}\n"@
        },
        HirStmt::Defer { stmt, .. } => pre + "defer {"@ + hir_stmt_text(*stmt, inner) + pre + "}\n"@,
        HirStmt::DeferBang { stmt, .. } => pre + "defer! {"@ + hir_stmt_text(*stmt, inner) + pre + "}\n"@,
        HirStmt::Break { label, .. } => match label {
            Some(l) => pre + "break '"@ + l@ + ";\n"@,
            None => pre + "break;\n"@,
        },
        HirStmt::Continue { label, .. } => match label {
            Some(l) => pre + "continue '"@ + l@ + ";\n"@,
            None => pre + "continue;\n"@,
        },
    }
}

/// The text of switch arms, one after the other.
pub open spec fn hir_cases_text(cs: Seq<HirCase>, pre: Seq<char>) -> Seq<char>
    decreases cs,
{
    if cs.len() == 0 {
        Seq::empty()
    } else {
        hir_cases_text(cs.drop_last(), pre) + hir_case_text(cs.last(), pre)
    }
}

/// The text of a switch arm: its patterns joined by `" | "`, then its body.
pub open spec fn hir_case_text(c: HirCase, pre: Seq<char>) -> Seq<char>
    decreases c,
{
    pre + hir_patterns_text(c.patterns@) + " => {"@ + hir_stmt_text(c.body, pre + "    "@) + pre + "}"@ + "\n"@
}

/// Switch patterns joined by `" | "`.
pub open spec fn hir_patterns_text(ps: Seq<HirExpr>) -> Seq<char>
    decreases ps,
{
    if ps.len() == 0 {
        Seq::empty()
    } else if ps.len() == 1 {
        hir_expr_text(ps[0])
    } else {
        hir_patterns_text(ps.drop_last()) + " | "@ + hir_expr_text(ps.last())
    }
}

/// Four spaces per level.
pub open spec fn indent_text(levels: nat) -> Seq<char>
    decreases levels,
{
    if levels == 0 { Seq::empty() } else { indent_text((levels - 1) as nat) + "    "@ }
}

/// A fresh string holding one text.
fn text_of(t: &str) -> (r: String)
    ensures
        r@ == t@,
{
    crate::text::owned(t)
}

fn bool_string(b: bool) -> (r: &'static str)
    ensures
        r@ == bool_text(b),
{
    if b { "true" } else { "false" }
}

fn type_string(t: &Type) -> (r: String)
    ensures
        r@ == ty_text(*t),
{
    let mut r = String::new();
    push_type_text(&mut r, t, false);
    assert(r@ =~= ty_text(*t));
    r
}

/// `" @name"` for a capture, else nothing.
fn capture_string(c: &Option<String>) -> (r: String)
    ensures
        r@ == match c { Some(v) => " @"@ + v@, None => Seq::<char>::empty() },
{
    match c {
        Some(v) => {
            let mut r = text_of(" @");
            push_string(&mut r, v);
            r
        },
        None => String::new(),
    }
}

/// The text of a typed expression.
#[verifier::spinoff_prover]
#[verifier::rlimit(40)]
pub fn hir_expr_string(e: &HirExpr) -> (r: String)
    ensures
        r@ == hir_expr_text(*e),
    decreases e,
{
    match e {
        HirExpr::Int(n, ty, _) => {
            let mut r = String::new();
            push_i64(&mut r, *n);
            assert(r@ =~= int_text(*n as int));
            push_str(&mut r, ": ");
            push_string(&mut r, &type_string(ty));
            r
        },
        HirExpr::Float(n, ty, _) => {
            let mut r = n.text.clone();
            push_str(&mut r, ": ");
            push_string(&mut r, &type_string(ty));
            r
        },
        HirExpr::Bool(b, ty, _) => {
            let mut r = text_of(bool_string(*b));
            push_str(&mut r, ": ");
            push_string(&mut r, &type_string(ty));
            r
        },
        HirExpr::String(v, ty, _) => {
            let mut r = text_of("\"");
            push_string(&mut r, v);
            push_str(&mut r, "\": ");
            push_string(&mut r, &type_string(ty));
            r
        },
        HirExpr::Char(c, ty, _) => {
            let mut r = text_of("'");
            push_char(&mut r, *c);
            assert(r@ =~= "'"@ + seq![*c]);
            push_str(&mut r, "': ");
            push_string(&mut r, &type_string(ty));
            r
        },
        HirExpr::Null(ty, _) => {
            let mut r = text_of("null: ");
            push_string(&mut r, &type_string(ty));
            r
        },
        HirExpr::Ident(name, ty, _) => {
            let mut r = name.clone();
            push_str(&mut r, ": ");
            push_string(&mut r, &type_string(ty));
            r
        },
        HirExpr::Tuple { vals, ty, .. } => {
            let mut r = text_of("(");
            push_string(&mut r, &hir_exprs_string(vals, ", "));
            push_str(&mut r, "): ");
            push_string(&mut r, &type_string(ty));
            r
        },
        HirExpr::TupleIndex { tuple, index, ty, .. } => {
            let mut r = hir_expr_string(tuple);
            push_str(&mut r, ".");
            let ghost before = r@;
            push_u64(&mut r, *index as u64);
            push_str(&mut r, ": ");
            push_string(&mut r, &type_string(ty));
            r
        },
        HirExpr::Index { object, index, ty, .. } => {
            let mut r = hir_expr_string(object);
            push_str(&mut r, "[");
            push_string(&mut r, &hir_expr_string(index));
            push_str(&mut r, "]: ");
            push_string(&mut r, &type_string(ty));
            r
        },
        HirExpr::Array { vals, ty, .. } => {
            let mut r = text_of("[");
            push_string(&mut r, &hir_exprs_string(vals, ", "));
            push_str(&mut r, "]: ");
            push_string(&mut r, &type_string(ty));
            r
        },
        HirExpr::Binary { op, left, right, ty, .. } => {
            let mut r = text_of("(");
            push_string(&mut r, &hir_expr_string(left));
            push_str(&mut r, " ");
            push_str(&mut r, op.symbol());
            push_str(&mut r, " ");
            push_string(&mut r, &hir_expr_string(right));
            push_str(&mut r, "): ");
            push_string(&mut r, &type_string(ty));
            r
        },
        HirExpr::Unary { op, expr, ty, .. } => {
            let mut r = text_of("(");
            push_str(&mut r, op.symbol());
            push_string(&mut r, &hir_expr_string(expr));
            push_str(&mut r, "): ");
            push_string(&mut r, &type_string(ty));
            r
        },
        HirExpr::Call { name, namespace, args, return_ty, target_ty, .. } => {
            let mut r = match namespace {
                Some(n) => {
                    let mut t = n.clone();
                    push_str(&mut t, "::");
                    t
                },
                None => String::new(),
            };
            push_string(&mut r, name);
            push_str(&mut r, "(");
            push_string(&mut r, &hir_exprs_string(args, ", "));
            push_str(&mut r, ")");
            let target = match target_ty {
                Some(t) => {
                    let mut x = text_of("[");
                    push_string(&mut x, &type_string(t));
                    push_str(&mut x, "]");
                    x
                },
                None => String::new(),
            };
            push_string(&mut r, &target);
            push_str(&mut r, ": ");
            push_string(&mut r, &type_string(return_ty));
            r
        },
        HirExpr::If { condition, capture, then_branch, else_branch, .. } => {
            let mut r = text_of("if");
            push_string(&mut r, &capture_string(capture));
            push_str(&mut r, " ");
            push_string(&mut r, &hir_expr_string(condition));
            push_str(&mut r, " then ");
            push_string(&mut r, &hir_expr_string(then_branch));
            push_str(&mut r, " else ");
            push_string(&mut r, &hir_expr_string(else_branch));
            r
        },
        HirExpr::Block { stmts, expr, ty, .. } => {
            let mut r = text_of("{ ");
            push_string(&mut r, &hir_block_stmts_string(stmts));
            let tail = match expr {
                Some(x) => hir_expr_string(x),
                None => String::new(),
            };
            push_string(&mut r, &tail);
            push_str(&mut r, " }: ");
            push_string(&mut r, &type_string(ty));
            r
        },
        HirExpr::MemberAccess { object, member, ty, .. } => {
            let mut r = hir_expr_string(object);
            push_str(&mut r, ".");
            push_string(&mut r, member);
            push_str(&mut r, ": ");
            push_string(&mut r, &type_string(ty));
            r
        },
        HirExpr::Struct { name, fields, ty, .. } => {
            let mut r = name.clone();
            push_str(&mut r, " { ");
            push_string(&mut r, &hir_fields_string(fields));
            push_str(&mut r, " }: ");
            push_string(&mut r, &type_string(ty));
            r
        },
        HirExpr::Try { expr, .. } => {
            let mut r = text_of("try ");
            push_string(&mut r, &hir_expr_string(expr));
            r
        },
        HirExpr::Catch { expr, error_var, body, .. } => {
            let mut r = text_of("catch");
            push_string(&mut r, &capture_string(error_var));
            push_str(&mut r, " ");
            push_string(&mut r, &hir_expr_string(expr));
            push_str(&mut r, " ");
            push_string(&mut r, &hir_expr_string(body));
            r
        },
        HirExpr::Cast { target_type, expr, ty, .. } => {
            let mut r = text_of("(");
            push_string(&mut r, &hir_expr_string(expr));
            push_str(&mut r, " as ");
            push_string(&mut r, &type_string(target_type));
            push_str(&mut r, "): ");
            push_string(&mut r, &type_string(ty));
            r
        },
        HirExpr::Dereference { expr, ty, .. } => {
            let mut r = text_of("(*");
            push_string(&mut r, &hir_expr_string(expr));
            push_str(&mut r, "): ");
            push_string(&mut r, &type_string(ty));
            r
        },
        HirExpr::Intrinsic { name, args, ty, .. } => {
            let mut r = name.clone();
            push_str(&mut r, "(");
            push_string(&mut r, &hir_exprs_string(args, ", "));
            push_str(&mut r, "): ");
            push_string(&mut r, &type_string(ty));
            r
        },
    }
}

/// Expressions joined by a separator: `", "` for argument and element
/// lists, `" | "` for switch patterns.
fn hir_exprs_string(es: &Vec<HirExpr>, sep: &str) -> (r: String)
    requires
        sep@ == ", "@ || sep@ == " | "@,
    ensures
        sep@ == ", "@ ==> r@ == hir_exprs_text(es@),
        sep@ == " | "@ ==> r@ == hir_patterns_text(es@),
    decreases es,
{
    let ghost sv = es@;
    let mut r = String::new();
    let mut i: usize = 0;
    assert(sv.subrange(0, 0) =~= Seq::<HirExpr>::empty());
    while i < es.len()
        invariant
            i <= es.len(),
            sv == es@,
            sep@ == ", "@ || sep@ == " | "@,
            sep@ == ", "@ ==> r@ == hir_exprs_text(sv.subrange(0, i as int)),
            sep@ == " | "@ ==> r@ == hir_patterns_text(sv.subrange(0, i as int)),
        decreases es.len() - i,
    {
        let ghost next = sv.subrange(0, i + 1);
        assert(next.drop_last() =~= sv.subrange(0, i as int));
        assert(next.last() == sv[i as int]);
        let item = hir_expr_string(&es[i]);
        if i > 0 {
            push_str(&mut r, sep);
            push_string(&mut r, &item);
        } else {
            assert(next[0] == sv[0]);
            r = item;
        }
        i = i + 1;
    }
    assert(sv.subrange(0, i as int) =~= sv);
    r
}

fn hir_fields_string(fs: &Vec<(String, HirExpr)>) -> (r: String)
    ensures
        r@ == hir_fields_text(fs@),
    decreases fs,
{
    let ghost sv = fs@;
    let mut r = String::new();
    let mut i: usize = 0;
    assert(sv.subrange(0, 0) =~= Seq::<(String, HirExpr)>::empty());
    while i < fs.len()
        invariant
            i <= fs.len(),
            sv == fs@,
            r@ == hir_fields_text(sv.subrange(0, i as int)),
        decreases fs.len() - i,
    {
        let ghost next = sv.subrange(0, i + 1);
        assert(next.drop_last() =~= sv.subrange(0, i as int));
        assert(next.last() == sv[i as int]);
        let value = hir_expr_string(&fs[i].1);
        if i > 0 {
            push_str(&mut r, ", ");
            push_string(&mut r, &fs[i].0);
        } else {
            assert(next[0] == sv[0]);
            r = fs[i].0.clone();
        }
        push_str(&mut r, ": ");
        push_string(&mut r, &value);
        i = i + 1;
    }
    assert(sv.subrange(0, i as int) =~= sv);
    r
}

fn hir_block_stmts_string(ss: &Vec<HirStmt>) -> (r: String)
    ensures
        r@ == hir_block_stmts_text(ss@),
    decreases ss,
{
    let ghost sv = ss@;
    let empty = String::new();
    let mut r = String::new();
    let mut i: usize = 0;
    assert(sv.subrange(0, 0) =~= Seq::<HirStmt>::empty());
    while i < ss.len()
        invariant
            i <= ss.len(),
            sv == ss@,
            empty@ == Seq::<char>::empty(),
            r@ == hir_block_stmts_text(sv.subrange(0, i as int)),
        decreases ss.len() - i,
    {
        let ghost next = sv.subrange(0, i + 1);
        assert(next.drop_last() =~= sv.subrange(0, i as int));
        assert(next.last() == sv[i as int]);
        push_string(&mut r, &hir_stmt_string(&ss[i], &empty));
        push_str(&mut r, "; ");
        i = i + 1;
    }
    assert(sv.subrange(0, i as int) =~= sv);
    r
}

fn hir_cases_string(cs: &Vec<HirCase>, pre: &String) -> (r: String)
    ensures
        r@ == hir_cases_text(cs@, pre@),
    decreases cs,
{
    let ghost sv = cs@;
    let mut r = String::new();
    let mut i: usize = 0;
    assert(sv.subrange(0, 0) =~= Seq::<HirCase>::empty());
    while i < cs.len()
        invariant
            i <= cs.len(),
            sv == cs@,
            r@ == hir_cases_text(sv.subrange(0, i as int), pre@),
        decreases cs.len() - i,
    {
        let ghost next = sv.subrange(0, i + 1);
        assert(next.drop_last() =~= sv.subrange(0, i as int));
        assert(next.last() == sv[i as int]);
        push_string(&mut r, &hir_case_string(&cs[i], pre));
        i = i + 1;
    }
    assert(sv.subrange(0, i as int) =~= sv);
    r
}

fn hir_case_string(c: &HirCase, pre: &String) -> (r: String)
    ensures
        r@ == hir_case_text(*c, pre@),
    decreases c,
{
    let mut inner = pre.clone();
    push_str(&mut inner, "    ");
    let mut r = pre.clone();
    push_string(&mut r, &hir_exprs_string(&c.patterns, " | "));
    push_str(&mut r, " => {");
    push_string(&mut r, &hir_stmt_string(&c.body, &inner));
    push_string(&mut r, pre);
    push_str(&mut r, "}");
    push_str(&mut r, "\n");
    r
}

/// `"'label"` for a loop label, else nothing.
fn label_string(l: &Option<String>, lead: &str) -> (r: String)
    ensures
        r@ == match l { Some(v) => lead@ + v@, None => Seq::<char>::empty() },
{
    match l {
        Some(v) => {
            let mut r = text_of(lead);
            push_string(&mut r, v);
            r
        },
        None => String::new(),
    }
}

/// The text of a statement whose lines start with `pre`.
#[verifier::spinoff_prover]
#[verifier::rlimit(40)]
fn hir_stmt_string(s: &HirStmt, pre: &String) -> (r: String)
    ensures
        r@ == hir_stmt_text(*s, pre@),
    decreases s,
{
    let mut inner = pre.clone();
    push_str(&mut inner, "    ");
    let mut r = pre.clone();
    match s {
        HirStmt::Expr(e) => {
            push_string(&mut r, &hir_expr_string(e));
            push_str(&mut r, ";\n");
        },
        HirStmt::Let { name, ty, value, mutability, .. } => {
            let m = match mutability {
                Mutability::Var => text_of("var "),
                Mutability::Const => String::new(),
            };
            push_string(&mut r, &m);
            push_str(&mut r, "let ");
            push_string(&mut r, name);
            match value {
                Some(v) => {
                    push_str(&mut r, " ");
                    push_string(&mut r, &type_string(ty));
                    push_str(&mut r, " = ");
                    push_string(&mut r, &hir_expr_string(v));
                    push_str(&mut r, ";\n");
                },
                None => {
                    push_str(&mut r, ": ");
                    push_string(&mut r, &type_string(ty));
                    push_str(&mut r, ";\n");
                },
            }
        },
        HirStmt::Assign { target, op, value, .. } => {
            push_string(&mut r, target);
            push_str(&mut r, " ");
            push_str(&mut r, assign_op_symbol(*op));
            push_str(&mut r, " ");
            push_string(&mut r, &hir_expr_string(value));
            push_str(&mut r, ";\n");
        },
        HirStmt::Return(value, _) => {
            match value {
                Some(e) => {
                    push_str(&mut r, "return ");
                    push_string(&mut r, &hir_expr_string(e));
                    push_str(&mut r, ";\n");
                },
                None => push_str(&mut r, "return;\n"),
            }
        },
        HirStmt::If { condition, capture, then_branch, else_branch, .. } => {
            push_string(&mut r, &hir_expr_string(condition));
            push_str(&mut r, "if");
            push_string(&mut r, &capture_string(capture));
            push_str(&mut r, " {");
            push_string(&mut r, &hir_stmt_string(then_branch, &inner));
            push_string(&mut r, pre);
            push_str(&mut r, "}");
            let tail = match else_branch {
                Some(b) => {
                    let mut t = text_of(" else {");
                    push_string(&mut t, &hir_stmt_string(b, &inner));
                    push_string(&mut t, pre);
                    push_str(&mut t, "}");
                    t
                },
                None => String::new(),
            };
            push_string(&mut r, &tail);
            push_str(&mut r, "\n");
        },
        HirStmt::Switch { condition, cases, .. } => {
            push_str(&mut r, "switch ");
            push_string(&mut r, &hir_expr_string(condition));
            push_str(&mut r, " {\n");
            push_string(&mut r, &hir_cases_string(cases, &inner));
            push_string(&mut r, pre);
            push_str(&mut r, "}\n");
        },
        HirStmt::For { label, var_name, index_var, iterable, body, .. } => {
            push_str(&mut r, "for");
            push_string(&mut r, &label_string(label, "'"));
            push_string(&mut r, &label_string(var_name, ", "));
            push_string(&mut r, &label_string(index_var, ", "));
            push_str(&mut r, " in ");
            push_string(&mut r, &hir_expr_string(iterable));
            push_str(&mut r, " {\n");
            push_string(&mut r, &hir_stmt_string(body, &inner));
            push_string(&mut r, pre);
            push_str(&mut r, "}\n");
        },
        HirStmt::Defer { stmt, .. } => {
            push_str(&mut r, "defer {");
            push_string(&mut r, &hir_stmt_string(stmt, &inner));
            push_string(&mut r, pre);
            push_str(&mut r, "}\n");
        },
        HirStmt::DeferBang { stmt, .. } => {
            push_str(&mut r, "defer! {");
            push_string(&mut r, &hir_stmt_string(stmt, &inner));
            push_string(&mut r, pre);
            push_str(&mut r, "}\n");
        },
        HirStmt::Break { label, .. } => {
            match label {
                Some(l) => {
                    push_str(&mut r, "break '");
                    push_string(&mut r, l);
                    push_str(&mut r, ";\n");
                },
                None => push_str(&mut r, "break;\n"),
            }
        },
        HirStmt::Continue { label, .. } => {
            match label {
                Some(l) => {
                    push_str(&mut r, "continue '");
                    push_string(&mut r, l);
                    push_str(&mut r, ";\n");
                },
                None => push_str(&mut r, "continue;\n"),
            }
        },
    }
    r
}

/// The symbol of an assignment operator.
pub fn assign_op_symbol(op: AssignOp) -> (r: &'static str)
    ensures
        r@ == assign_symbol(op),
{
    match op {
        AssignOp::Assign => "=",
        AssignOp::AddAssign => "+=",
        AssignOp::SubAssign => "-=",
        AssignOp::MulAssign => "*=",
        AssignOp::DivAssign => "/=",
        AssignOp::ModAssign => "%=",
        AssignOp::AndAssign => "&=",
        AssignOp::OrAssign => "|=",
        AssignOp::XorAssign => "^=",
        AssignOp::ShlAssign => "<<=",
        AssignOp::ShrAssign => ">>=",
    }
}

fn indent_string(levels: usize) -> (r: String)
    ensures
        r@ == indent_text(levels as nat),
{
    let mut r = String::new();
    let mut k: usize = 0;
    while k < levels
        invariant
            k <= levels,
            r@ == indent_text(k as nat),
        decreases levels - k,
    {
        push_str(&mut r, "    ");
        k = k + 1;
    }
    r
}

impl HirExpr {
    /// The expression as text (what `Display` prints).
    pub fn text(&self) -> (r: String)
        ensures
            r@ == hir_expr_text(*self),
    {
        hir_expr_string(self)
    }
}

impl HirStmt {
    /// The statement as text, indented four spaces per level.
    pub fn with_indent(&self, indent: usize) -> (r: String)
        ensures
            r@ == hir_stmt_text(*self, indent_text(indent as nat)),
    {
        hir_stmt_string(self, &indent_string(indent))
    }

    /// The statement as text at level zero (what `Display` prints).
    pub fn text(&self) -> (r: String)
        ensures
            r@ == hir_stmt_text(*self, Seq::empty()),
    {
        hir_stmt_string(self, &String::new())
    }
}

impl HirCase {
    /// The arm as text, indented four spaces per level.
    pub fn with_indent(&self, indent: usize) -> (r: String)
        ensures
            r@ == hir_case_text(*self, indent_text(indent as nat)),
    {
        hir_case_string(self, &indent_string(indent))
    }

    /// The arm as text at level zero (what `Display` prints).
    pub fn text(&self) -> (r: String)
        ensures
            r@ == hir_case_text(*self, Seq::empty()),
    {
        hir_case_string(self, &String::new())
    }
}

/// The parameters of a function, each `name: type`, joined by `", "`.
pub open spec fn hir_params_text(ps: Seq<(String, Type)>) -> Seq<char>
    decreases ps.len(),
{
    if ps.len() == 0 {
        Seq::empty()
    } else if ps.len() == 1 {
        ps[0].0@ + ": "@ + ty_text(ps[0].1)
    } else {
        hir_params_text(ps.drop_last()) + ", "@ + ps.last().0@ + ": "@ + ty_text(ps.last().1)
    }
}

/// The statements of a function body, each at level one.
pub open spec fn hir_body_text(ss: Seq<HirStmt>) -> Seq<char>
    decreases ss.len(),
{
    if ss.len() == 0 {
        Seq::empty()
    } else {
        hir_body_text(ss.drop_last()) + hir_stmt_text(ss.last(), "    "@)
    }
}

/// The text of a function.
pub open spec fn hir_fn_text(f: HirFn) -> Seq<char> {
    (if f.visibility == Visibility::Public { "pub "@ } else { Seq::empty() }) + "fn "@ + f.name@ + "("@
        + hir_params_text(f.params@) + ") -> "@ + ty_text(f.return_ty) + " {\n"@ + hir_body_text(f.body@) + "}"@
}

/// The text of a program: its functions separated by newlines.
pub open spec fn hir_program_text(fs: Seq<HirFn>) -> Seq<char>
    decreases fs.len(),
{
    if fs.len() == 0 {
        Seq::empty()
    } else if fs.len() == 1 {
        hir_fn_text(fs[0])
    } else {
        hir_program_text(fs.drop_last()) + "\n"@ + hir_fn_text(fs.last())
    }
}

fn hir_params_string(ps: &Vec<(String, Type)>) -> (r: String)
    ensures
        r@ == hir_params_text(ps@),
{
    let ghost sv = ps@;
    let mut r = String::new();
    let mut i: usize = 0;
    assert(sv.subrange(0, 0) =~= Seq::<(String, Type)>::empty());
    while i < ps.len()
        invariant
            i <= ps.len(),
            sv == ps@,
            r@ == hir_params_text(sv.subrange(0, i as int)),
        decreases ps.len() - i,
    {
        let ghost next = sv.subrange(0, i + 1);
        assert(next.drop_last() =~= sv.subrange(0, i as int));
        assert(next.last() == sv[i as int]);
        if i > 0 {
            push_str(&mut r, ", ");
            push_string(&mut r, &ps[i].0);
        } else {
            assert(next[0] == sv[0]);
            r = ps[i].0.clone();
        }
        push_str(&mut r, ": ");
        push_string(&mut r, &type_string(&ps[i].1));
        i = i + 1;
    }
    assert(sv.subrange(0, i as int) =~= sv);
    r
}

fn hir_body_string(ss: &Vec<HirStmt>) -> (r: String)
    ensures
        r@ == hir_body_text(ss@),
{
    let ghost sv = ss@;
    let one = text_of("    ");
    let mut r = String::new();
    let mut i: usize = 0;
    assert(sv.subrange(0, 0) =~= Seq::<HirStmt>::empty());
    while i < ss.len()
        invariant
            i <= ss.len(),
            sv == ss@,
            one@ == "    "@,
            r@ == hir_body_text(sv.subrange(0, i as int)),
        decreases ss.len() - i,
    {
        let ghost next = sv.subrange(0, i + 1);
        assert(next.drop_last() =~= sv.subrange(0, i as int));
        assert(next.last() == sv[i as int]);
        push_string(&mut r, &hir_stmt_string(&ss[i], &one));
        i = i + 1;
    }
    assert(sv.subrange(0, i as int) =~= sv);
    r
}

impl HirFn {
    /// The function as text (what `Display` prints).
    pub fn text(&self) -> (r: String)
        ensures
            r@ == hir_fn_text(*self),
    {
        let mut r = if self.visibility == Visibility::Public { text_of("pub ") } else { String::new() };
        push_str(&mut r, "fn ");
        push_string(&mut r, &self.name);
        push_str(&mut r, "(");
        push_string(&mut r, &hir_params_string(&self.params));
        push_str(&mut r, ") -> ");
        push_string(&mut r, &type_string(&self.return_ty));
        push_str(&mut r, " {\n");
        push_string(&mut r, &hir_body_string(&self.body));
        push_str(&mut r, "}");
        r
    }
}

impl HirProgram {
    /// The program as text (what `Display` prints).
    pub fn text(&self) -> (r: String)
        ensures
            r@ == hir_program_text(self.functions@),
    {
        let ghost fs = self.functions@;
        let mut r = String::new();
        let mut i: usize = 0;
        assert(fs.subrange(0, 0) =~= Seq::<HirFn>::empty());
        while i < self.functions.len()
            invariant
                i <= self.functions.len(),
                fs == self.functions@,
                r@ == hir_program_text(fs.subrange(0, i as int)),
            decreases self.functions.len() - i,
        {
            let ghost next = fs.subrange(0, i + 1);
            assert(next.drop_last() =~= fs.subrange(0, i as int));
            assert(next.last() == fs[i as int]);
            let t = self.functions[i].text();
            if i > 0 {
                push_str(&mut r, "\n");
                push_string(&mut r, &t);
            } else {
                assert(next[0] == fs[0]);
                r = t;
            }
            i = i + 1;
        }
        assert(fs.subrange(0, i as int) =~= fs);
        r
    }
}

} // verus!
