//! Tree dumps of the syntax tree: the lines `lang ast` prints, indented two
//! spaces per level.

use vstd::prelude::*;
use crate::ast::{
    AssignOp, BinaryOp, EnumDef, EnumVariant, ErrorDef, ErrorVariant, Expr, ExternalFnDef, FnDef, FnParam,
    InterfaceDef, InterfaceImpl, MemberAccessKind, Mutability, Program, Stmt, StructDef, StructField, SwitchCase,
    Type, UnaryOp, Visibility, push_type_list_text, push_type_text, type_list_text, type_text, types_view,
};
use crate::cmd::symbol::{join_text, lines_view, strings_view};
use crate::hir::bool_text;
use crate::text::{debug_str, int_text, nat_text, owned, push_char, push_i64, push_str, push_string, push_u64, str_debug};

verus! {

/// Two more spaces of indentation.
pub open spec fn deeper(pre: Seq<char>) -> Seq<char> {
    pre + "  "@
}

fn deeper_string(pre: &String) -> (r: String)
    ensures
        r@ == deeper(pre@),
{
    let mut r = pre.clone();
    push_str(&mut r, "  ");
    r
}

fn one_line(l: String) -> (r: Vec<String>)
    ensures
        lines_view(r@) == seq![l@],
{
    let ghost v = l@;
    let mut r: Vec<String> = Vec::new();
    r.push(l);
    assert(lines_view(r@) =~= seq![v]);
    r
}

fn add_lines(out: &mut Vec<String>, more: Vec<String>)
    ensures
        lines_view(final(out)@) == lines_view(old(out)@) + lines_view(more@),
{
    let ghost before = out@;
    let mut m = more;
    out.append(&mut m);
    assert(lines_view(out@) =~= lines_view(before) + lines_view(more@));
}

fn add_line(out: &mut Vec<String>, l: String)
    ensures
        lines_view(final(out)@) == lines_view(old(out)@) + seq![l@],
{
    add_lines(out, one_line(l));
}

/// `pre` followed by a fixed text.
fn prefixed(pre: &String, head: &str, rest: &String) -> (r: String)
    ensures
        r@ == pre@ + head@ + rest@,
{
    let mut r = pre.clone();
    push_str(&mut r, head);
    push_string(&mut r, rest);
    r
}

fn with_text(pre: &String, head: &str) -> (r: String)
    ensures
        r@ == pre@ + head@,
{
    let mut r = pre.clone();
    push_str(&mut r, head);
    r
}

/// `"pub "` for public items, else nothing.
pub open spec fn pub_prefix(v: Visibility) -> Seq<char> {
    if v == Visibility::Public { "pub "@ } else { Seq::empty() }
}

fn pub_prefix_str(v: Visibility) -> (r: &'static str)
    ensures
        r@ == pub_prefix(v),
{
    match v {
        Visibility::Public => "pub ",
        Visibility::Private => {
            proof {
                reveal_strlit("");
            }
            ""
        },
    }
}

/// The name `{:?}` gives a binary operator.
pub open spec fn binary_op_name(op: BinaryOp) -> Seq<char> {
    match op {
        BinaryOp::Add => "Add"@,
        BinaryOp::Sub => "Sub"@,
        BinaryOp::Mul => "Mul"@,
        BinaryOp::Div => "Div"@,
        BinaryOp::Mod => "Mod"@,
        BinaryOp::Eq => "Eq"@,
        BinaryOp::Ne => "Ne"@,
        BinaryOp::Lt => "Lt"@,
        BinaryOp::Gt => "Gt"@,
        BinaryOp::Le => "Le"@,
        BinaryOp::Ge => "Ge"@,
        BinaryOp::And => "And"@,
        BinaryOp::Or => "Or"@,
        BinaryOp::Range => "Range"@,
        BinaryOp::BitAnd => "BitAnd"@,
        BinaryOp::BitOr => "BitOr"@,
        BinaryOp::BitXor => "BitXor"@,
        BinaryOp::Shl => "Shl"@,
        BinaryOp::Shr => "Shr"@,
    }
}

fn binary_op_name_str(op: BinaryOp) -> (r: &'static str)
    ensures
        r@ == binary_op_name(op),
{
    match op {
        BinaryOp::Add => "Add",
        BinaryOp::Sub => "Sub",
        BinaryOp::Mul => "Mul",
        BinaryOp::Div => "Div",
        BinaryOp::Mod => "Mod",
        BinaryOp::Eq => "Eq",
        BinaryOp::Ne => "Ne",
        BinaryOp::Lt => "Lt",
        BinaryOp::Gt => "Gt",
        BinaryOp::Le => "Le",
        BinaryOp::Ge => "Ge",
        BinaryOp::And => "And",
        BinaryOp::Or => "Or",
        BinaryOp::Range => "Range",
        BinaryOp::BitAnd => "BitAnd",
        BinaryOp::BitOr => "BitOr",
        BinaryOp::BitXor => "BitXor",
        BinaryOp::Shl => "Shl",
        BinaryOp::Shr => "Shr",
    }
}

/// The name `{:?}` gives a unary operator.
pub open spec fn unary_op_name(op: UnaryOp) -> Seq<char> {
    match op {
        UnaryOp::Neg => "Neg"@,
        UnaryOp::Pos => "Pos"@,
        UnaryOp::Not => "Not"@,
        UnaryOp::Ref => "Ref"@,
    }
}

fn unary_op_name_str(op: UnaryOp) -> (r: &'static str)
    ensures
        r@ == unary_op_name(op),
{
    match op {
        UnaryOp::Neg => "Neg",
        UnaryOp::Pos => "Pos",
        UnaryOp::Not => "Not",
        UnaryOp::Ref => "Ref",
    }
}

/// The name `{:?}` gives an assignment operator.
pub open spec fn assign_op_name(op: AssignOp) -> Seq<char> {
    match op {
        AssignOp::Assign => "Assign"@,
        AssignOp::AddAssign => "AddAssign"@,
        AssignOp::SubAssign => "SubAssign"@,
        AssignOp::MulAssign => "MulAssign"@,
        AssignOp::DivAssign => "DivAssign"@,
        AssignOp::ModAssign => "ModAssign"@,
        AssignOp::AndAssign => "AndAssign"@,
        AssignOp::OrAssign => "OrAssign"@,
        AssignOp::XorAssign => "XorAssign"@,
        AssignOp::ShlAssign => "ShlAssign"@,
        AssignOp::ShrAssign => "ShrAssign"@,
    }
}

pub(crate) fn assign_op_name_str(op: AssignOp) -> (r: &'static str)
    ensures
        r@ == assign_op_name(op),
{
    match op {
        AssignOp::Assign => "Assign",
        AssignOp::AddAssign => "AddAssign",
        AssignOp::SubAssign => "SubAssign",
        AssignOp::MulAssign => "MulAssign",
        AssignOp::DivAssign => "DivAssign",
        AssignOp::ModAssign => "ModAssign",
        AssignOp::AndAssign => "AndAssign",
        AssignOp::OrAssign => "OrAssign",
        AssignOp::XorAssign => "XorAssign",
        AssignOp::ShlAssign => "ShlAssign",
        AssignOp::ShrAssign => "ShrAssign",
    }
}

/// The text `{:?}` gives a type (the form `derive(Debug)` writes).
pub open spec fn type_debug(t: Type) -> Seq<char>
    decreases t,
{
    match t {
        Type::I8 => "I8"@,
        Type::I16 => "I16"@,
        Type::I32 => "I32"@,
        Type::I64 => "I64"@,
        Type::U8 => "U8"@,
        Type::U16 => "U16"@,
        Type::U32 => "U32"@,
        Type::U64 => "U64"@,
        Type::F32 => "F32"@,
        Type::F64 => "F64"@,
        Type::ImmInt => "ImmInt"@,
        Type::ImmFloat => "ImmFloat"@,
        Type::Bool => "Bool"@,
        Type::Void => "Void"@,
        Type::RawPtr => "RawPtr"@,
        Type::SelfType => "SelfType"@,
        Type::Pointer(inner) => "Pointer("@ + type_debug(*inner) + ")"@,
        Type::Option(inner) => "Option("@ + type_debug(*inner) + ")"@,
        Type::Tuple(ts) => "Tuple(["@ + types_debug_items(ts@) + "])"@,
        Type::Custom { name, generic_args, is_exported } => {
            "Custom { name: "@ + str_debug(name@) + ", generic_args: ["@ + types_debug_items(generic_args@)
                + "], is_exported: "@ + bool_text(is_exported) + " }"@
        },
        Type::GenericParam(name) => "GenericParam("@ + str_debug(name@) + ")"@,
        Type::Array { size, element_type } => {
            "Array { size: "@ + (match size {
                Some(n) => "Some("@ + nat_text(n as nat) + ")"@,
                None => "None"@,
            }) + ", element_type: "@ + type_debug(*element_type) + " }"@
        },
        Type::Error => "Error"@,
        Type::Result(inner) => "Result("@ + type_debug(*inner) + ")"@,
        Type::Function { params, return_type } => {
            "Function { params: ["@ + types_debug_items(params@) + "], return_type: "@ + type_debug(*return_type)
                + " }"@
        },
    }
}

fn text_of(t: &str) -> (r: String)
    ensures
        r@ == t@,
{
    owned(t)
}

/// The debug form of a type.
#[verifier::spinoff_prover]
pub(crate) fn type_debug_string(t: &Type) -> (r: String)
    ensures
        r@ == type_debug(*t),
    decreases t,
{
    match t {
        Type::I8 => text_of("I8"),
        Type::I16 => text_of("I16"),
        Type::I32 => text_of("I32"),
        Type::I64 => text_of("I64"),
        Type::U8 => text_of("U8"),
        Type::U16 => text_of("U16"),
        Type::U32 => text_of("U32"),
        Type::U64 => text_of("U64"),
        Type::F32 => text_of("F32"),
        Type::F64 => text_of("F64"),
        Type::ImmInt => text_of("ImmInt"),
        Type::ImmFloat => text_of("ImmFloat"),
        Type::Bool => text_of("Bool"),
        Type::Void => text_of("Void"),
        Type::RawPtr => text_of("RawPtr"),
        Type::SelfType => text_of("SelfType"),
        Type::Pointer(inner) => {
            let mut r = text_of("Pointer(");
            push_string(&mut r, &type_debug_string(inner));
            push_str(&mut r, ")");
            r
        },
        Type::Option(inner) => {
            let mut r = text_of("Option(");
            push_string(&mut r, &type_debug_string(inner));
            push_str(&mut r, ")");
            r
        },
        Type::Tuple(ts) => {
            let mut r = text_of("Tuple([");
            push_string(&mut r, &types_debug_items_string(ts));
            push_str(&mut r, "])");
            r
        },
        Type::Custom { name, generic_args, is_exported } => {
            let mut r = text_of("Custom { name: ");
            push_string(&mut r, &debug_str(name.as_str()));
            push_str(&mut r, ", generic_args: [");
            push_string(&mut r, &types_debug_items_string(generic_args));
            push_str(&mut r, "], is_exported: ");
            push_str(&mut r, if *is_exported { "true" } else { "false" });
            push_str(&mut r, " }");
            r
        },
        Type::GenericParam(name) => {
            let mut r = text_of("GenericParam(");
            push_string(&mut r, &debug_str(name.as_str()));
            push_str(&mut r, ")");
            r
        },
        Type::Array { size, element_type } => {
            let mut r = text_of("Array { size: ");
            let sz = match size {
                Some(n) => {
                    let mut x = text_of("Some(");
                    push_u64(&mut x, *n as u64);
                    push_str(&mut x, ")");
                    x
                },
                None => text_of("None"),
            };
            push_string(&mut r, &sz);
            push_str(&mut r, ", element_type: ");
            push_string(&mut r, &type_debug_string(element_type));
            push_str(&mut r, " }");
            r
        },
        Type::Error => text_of("Error"),
        Type::Result(inner) => {
            let mut r = text_of("Result(");
            push_string(&mut r, &type_debug_string(inner));
            push_str(&mut r, ")");
            r
        },
        Type::Function { params, return_type } => {
            let mut r = text_of("Function { params: [");
            push_string(&mut r, &types_debug_items_string(params));
            push_str(&mut r, "], return_type: ");
            push_string(&mut r, &type_debug_string(return_type));
            push_str(&mut r, " }");
            r
        },
    }
}

/// The debug form of an optional string: `Some("..")` or `None`.
pub open spec fn opt_str_debug(o: Option<String>) -> Seq<char> {
    match o {
        Some(s) => "Some("@ + str_debug(s@) + ")"@,
        None => "None"@,
    }
}

fn opt_str_debug_string(o: &Option<String>) -> (r: String)
    ensures
        r@ == opt_str_debug(*o),
{
    match o {
        Some(s) => {
            let mut r = text_of("Some(");
            push_string(&mut r, &debug_str(s.as_str()));
            push_str(&mut r, ")");
            r
        },
        None => text_of("None"),
    }
}

/// The debug form of an import: `(alias, "package")`.
pub open spec fn package_debug(p: (Option<String>, String)) -> Seq<char> {
    "("@ + opt_str_debug(p.0) + ", "@ + str_debug(p.1@) + ")"@
}

fn package_debug_string(p: &(Option<String>, String)) -> (r: String)
    ensures
        r@ == package_debug(*p),
{
    let mut r = text_of("(");
    push_string(&mut r, &opt_str_debug_string(&p.0));
    push_str(&mut r, ", ");
    push_string(&mut r, &debug_str(p.1.as_str()));
    push_str(&mut r, ")");
    r
}

fn constraint_string(c: &(String, String)) -> (r: String)
    ensures
        r@ == c.0@ + ": "@ + c.1@,
{
    let mut r = c.0.clone();
    push_str(&mut r, ": ");
    push_string(&mut r, &c.1);
    r
}

/// The debug forms of types joined by `", "`.
pub open spec fn types_debug_items(xs: Seq<Type>) -> Seq<char>
    decreases xs,
{
    if xs.len() == 0 {
        Seq::empty()
    } else if xs.len() == 1 {
        type_debug(xs[0])
    } else {
        types_debug_items(xs.drop_last()) + ", "@ + type_debug(xs.last())
    }
}

fn types_debug_items_string(xs: &Vec<Type>) -> (r: String)
    ensures
        r@ == types_debug_items(xs@),
    decreases xs,
{
    let ghost sv = xs@;
    let mut r = String::new();
    let mut i: usize = 0;
    assert(sv.subrange(0, 0) =~= Seq::<Type>::empty());
    while i < xs.len()
        invariant
            i <= xs.len(),
            sv == xs@,
            r@ == types_debug_items(sv.subrange(0, i as int)),
        decreases xs.len() - i,
    {
        let ghost next = sv.subrange(0, i + 1);
        assert(next.drop_last() =~= sv.subrange(0, i as int));
        assert(next.last() == sv[i as int]);
        let item = type_debug_string(&xs[i]);
        if i > 0 {
            push_str(&mut r, ", ");
            push_string(&mut r, &item);
        } else {
            assert(next[0] == sv[0]);
            r = item;
        }
        i = i + 1;
    }
    assert(sv.subrange(0, i as int) =~= sv);
    r
}

/// The debug forms of optional names joined by `", "`.
pub open spec fn names_debug_items(xs: Seq<Option<String>>) -> Seq<char>
    decreases xs.len(),
{
    if xs.len() == 0 {
        Seq::empty()
    } else if xs.len() == 1 {
        opt_str_debug(xs[0])
    } else {
        names_debug_items(xs.drop_last()) + ", "@ + opt_str_debug(xs.last())
    }
}

fn names_debug_items_string(xs: &Vec<Option<String>>) -> (r: String)
    ensures
        r@ == names_debug_items(xs@),
{
    let ghost sv = xs@;
    let mut r = String::new();
    let mut i: usize = 0;
    assert(sv.subrange(0, 0) =~= Seq::<Option<String>>::empty());
    while i < xs.len()
        invariant
            i <= xs.len(),
            sv == xs@,
            r@ == names_debug_items(sv.subrange(0, i as int)),
        decreases xs.len() - i,
    {
        let ghost next = sv.subrange(0, i + 1);
        assert(next.drop_last() =~= sv.subrange(0, i as int));
        assert(next.last() == sv[i as int]);
        let item = opt_str_debug_string(&xs[i]);
        if i > 0 {
            push_str(&mut r, ", ");
            push_string(&mut r, &item);
        } else {
            assert(next[0] == sv[0]);
            r = item;
        }
        i = i + 1;
    }
    assert(sv.subrange(0, i as int) =~= sv);
    r
}

/// The debug forms of imported packages joined by `", "`.
pub open spec fn packages_debug_items(xs: Seq<(Option<String>, String)>) -> Seq<char>
    decreases xs.len(),
{
    if xs.len() == 0 {
        Seq::empty()
    } else if xs.len() == 1 {
        package_debug(xs[0])
    } else {
        packages_debug_items(xs.drop_last()) + ", "@ + package_debug(xs.last())
    }
}

fn packages_debug_items_string(xs: &Vec<(Option<String>, String)>) -> (r: String)
    ensures
        r@ == packages_debug_items(xs@),
{
    let ghost sv = xs@;
    let mut r = String::new();
    let mut i: usize = 0;
    assert(sv.subrange(0, 0) =~= Seq::<(Option<String>, String)>::empty());
    while i < xs.len()
        invariant
            i <= xs.len(),
            sv == xs@,
            r@ == packages_debug_items(sv.subrange(0, i as int)),
        decreases xs.len() - i,
    {
        let ghost next = sv.subrange(0, i + 1);
        assert(next.drop_last() =~= sv.subrange(0, i as int));
        assert(next.last() == sv[i as int]);
        let item = package_debug_string(&xs[i]);
        if i > 0 {
            push_str(&mut r, ", ");
            push_string(&mut r, &item);
        } else {
            assert(next[0] == sv[0]);
            r = item;
        }
        i = i + 1;
    }
    assert(sv.subrange(0, i as int) =~= sv);
    r
}

/// Generic constraints, each `param: interface`, joined by `", "`.
pub open spec fn constraint_items(xs: Seq<(String, String)>) -> Seq<char>
    decreases xs.len(),
{
    if xs.len() == 0 {
        Seq::empty()
    } else if xs.len() == 1 {
        xs[0].0@ + ": "@ + xs[0].1@
    } else {
        constraint_items(xs.drop_last()) + ", "@ + xs.last().0@ + ": "@ + xs.last().1@
    }
}

fn constraint_items_string(xs: &Vec<(String, String)>) -> (r: String)
    ensures
        r@ == constraint_items(xs@),
{
    let ghost sv = xs@;
    let mut r = String::new();
    let mut i: usize = 0;
    assert(sv.subrange(0, 0) =~= Seq::<(String, String)>::empty());
    while i < xs.len()
        invariant
            i <= xs.len(),
            sv == xs@,
            r@ == constraint_items(sv.subrange(0, i as int)),
        decreases xs.len() - i,
    {
        let ghost next = sv.subrange(0, i + 1);
        assert(next.drop_last() =~= sv.subrange(0, i as int));
        assert(next.last() == sv[i as int]);
        let item = constraint_string(&xs[i]);
        if i > 0 {
            push_str(&mut r, ", ");
            push_string(&mut r, &item);
        } else {
            assert(next[0] == sv[0]);
            r = item;
        }
        i = i + 1;
    }
    assert(sv.subrange(0, i as int) =~= sv);
    r
}

/// A line `pre + head + value` when the value is there, else no line.
pub open spec fn opt_line(o: Option<String>, pre: Seq<char>, head: Seq<char>) -> Seq<Seq<char>> {
    match o {
        Some(v) => seq![pre + head + v@],
        None => Seq::empty(),
    }
}

fn opt_line_lines(o: &Option<String>, pre: &String, head: &str) -> (r: Vec<String>)
    ensures
        lines_view(r@) == opt_line(*o, pre@, head@),
{
    match o {
        Some(v) => one_line(prefixed(pre, head, v)),
        None => {
            let r: Vec<String> = Vec::new();
            assert(lines_view(r@) =~= Seq::<Seq<char>>::empty());
            r
        },
    }
}

/// The suffix naming what a member access reaches.
pub open spec fn member_kind_text(k: MemberAccessKind) -> Seq<char> {
    match k {
        MemberAccessKind::Unknown => Seq::empty(),
        MemberAccessKind::Package => " (package)"@,
        MemberAccessKind::StructField => " (field)"@,
        MemberAccessKind::StructMethod => " (method)"@,
        MemberAccessKind::EnumMember => " (enum)"@,
        MemberAccessKind::ErrorMember => " (error)"@,
    }
}

fn member_kind_str(k: MemberAccessKind) -> (r: &'static str)
    ensures
        r@ == member_kind_text(k),
{
    match k {
        MemberAccessKind::Unknown => {
            proof {
                reveal_strlit("");
            }
            ""
        },
        MemberAccessKind::Package => " (package)",
        MemberAccessKind::StructField => " (field)",
        MemberAccessKind::StructMethod => " (method)",
        MemberAccessKind::EnumMember => " (enum)",
        MemberAccessKind::ErrorMember => " (error)",
    }
}

/// Generic arguments as written after a name: `<T, U>`, or nothing.
pub open spec fn generic_args_text(ts: Seq<Type>) -> Seq<char> {
    if ts.len() == 0 { Seq::empty() } else { "<"@ + type_list_text(types_view(ts), false) + ">"@ }
}

fn generic_args_string(ts: &Vec<Type>) -> (r: String)
    ensures
        r@ == generic_args_text(ts@),
{
    if ts.len() == 0 {
        String::new()
    } else {
        let mut r = text_of("<");
        push_type_list_text(&mut r, ts, false);
        push_str(&mut r, ">");
        r
    }
}

/// The dump of an expression whose first line starts with `pre`.
pub open spec fn expr_dump(e: Expr, pre: Seq<char>) -> Seq<Seq<char>>
    decreases e,
{
    let i1 = deeper(pre);
    let i2 = deeper(i1);
    match e {
        Expr::Int(v, _) => seq![pre + "Expr::Int("@ + int_text(v as int) + ")"@],
        Expr::Float(v, _) => seq![pre + "Expr::Float("@ + v.text@ + ")"@],
        Expr::Bool(b, _) => seq![pre + "Expr::Bool("@ + bool_text(b) + ")"@],
        Expr::String(s, _) => seq![pre + "Expr::String(\""@ + s@ + "\")"@],
        Expr::Char(c, _) => seq![pre + "Expr::Char('"@ + seq![c] + "')"@],
        Expr::Null(_) => seq![pre + "Expr::Null"@],
        Expr::Tuple(es, _) => seq![pre + "Expr::Tuple"@] + exprs_dump(es@, i1),
        Expr::TupleIndex { tuple, index, .. } => {
            seq![pre + "Expr::TupleIndex: ."@ + nat_text(index as nat)] + expr_dump(*tuple, i1)
        },
        Expr::Index { object, index, .. } => {
            seq![pre + "Expr::Index: []"@] + expr_dump(*object, i1) + expr_dump(*index, i1)
        },
        Expr::Ident(name, _) => seq![pre + "Expr::Ident("@ + name@ + ")"@],
        Expr::Array(es, _, _) => seq![pre + "Expr::Array"@] + exprs_dump(es@, i1),
        Expr::Binary { op, left, right, .. } => {
            seq![pre + "Expr::Binary: "@ + binary_op_name(op)] + expr_dump(*left, i1) + expr_dump(*right, i1)
        },
        Expr::Unary { op, expr, .. } => seq![pre + "Expr::Unary: "@ + unary_op_name(op)] + expr_dump(*expr, i1),
        Expr::Call { name, namespace, args, generic_args, .. } => {
            seq![pre + "Expr::Call: "@ + (match namespace { Some(n) => n@ + "::"@, None => Seq::empty() }) + name@
                + generic_args_text(generic_args@)] + exprs_dump(args@, i1)
        },
        Expr::If { condition, capture, then_branch, else_branch, .. } => {
            seq![pre + "Expr::If"@] + opt_line(capture, i1, "Capture: "@) + seq![i1 + "Condition:"@] + expr_dump(
                *condition,
                i2,
            ) + seq![i1 + "Then:"@] + expr_dump(*then_branch, i2) + seq![i1 + "Else:"@] + expr_dump(*else_branch, i2)
        },
        Expr::Block { stmts, .. } => seq![pre + "Expr::Block"@] + stmts_dump(stmts@, i1),
        Expr::MemberAccess { object, member, kind, .. } => {
            seq![pre + "Expr::MemberAccess: ."@ + member@ + member_kind_text(kind)] + expr_dump(*object, i1)
        },
        Expr::Struct { name, fields, generic_args, .. } => {
            seq![pre + "Expr::Struct: "@ + name@ + generic_args_text(generic_args@)] + fields_dump(fields@, i1)
        },
        Expr::Try { expr, .. } => seq![pre + "Expr::Try"@] + expr_dump(*expr, i1),
        Expr::Catch { expr, error_var, body, .. } => {
            seq![pre + "Expr::Catch"@] + opt_line(error_var, i1, "Capture: "@) + seq![i1 + "Value:"@] + expr_dump(
                *expr,
                i2,
            ) + seq![i1 + "Body:"@] + expr_dump(*body, i2)
        },
        Expr::Cast { target_type, expr, .. } => {
            seq![pre + "Expr::Cast to "@ + type_text(target_type@, false)] + expr_dump(*expr, i1)
        },
        Expr::Dereference { expr, .. } => seq![pre + "Expr::Dereference"@] + expr_dump(*expr, i1),
    }
}

/// The dump of a struct literal field: `Field: name:`, then its value.
pub open spec fn field_value_dump(f: (String, Expr), pre: Seq<char>) -> Seq<Seq<char>>
    decreases f,
{
    seq![pre + "Field: "@ + f.0@ + ":"@] + expr_dump(f.1, deeper(pre))
}

fn field_value_lines(f: &(String, Expr), pre: &String) -> (r: Vec<String>)
    ensures
        lines_view(r@) == field_value_dump(*f, pre@),
    decreases f,
{
    let mut l = prefixed(pre, "Field: ", &f.0);
    push_str(&mut l, ":");
    let mut r = one_line(l);
    add_lines(&mut r, expr_lines(&f.1, &deeper_string(pre)));
    r
}

/// The lines after `Stmt::Let` or `Stmt::Return` for an optional value.
pub open spec fn value_dump(v: Option<Expr>, pre: Seq<char>) -> Seq<Seq<char>>
    decreases v,
{
    match v {
        Some(e) => seq![deeper(pre) + "Value:"@] + expr_dump(e, deeper(deeper(pre))),
        None => Seq::empty(),
    }
}

fn value_lines(v: &Option<Expr>, pre: &String) -> (r: Vec<String>)
    ensures
        lines_view(r@) == value_dump(*v, pre@),
    decreases v,
{
    match v {
        Some(e) => {
            let i1 = deeper_string(pre);
            let i2 = deeper_string(&i1);
            let mut r = one_line(with_text(&i1, "Value:"));
            add_lines(&mut r, expr_lines(e, &i2));
            r
        },
        None => {
            let r: Vec<String> = Vec::new();
            assert(lines_view(r@) =~= Seq::<Seq<char>>::empty());
            r
        },
    }
}

/// The lines of an expression's dump.
#[verifier::spinoff_prover]
#[verifier::rlimit(30)]
fn expr_lines(e: &Expr, pre: &String) -> (r: Vec<String>)
    ensures
        lines_view(r@) == expr_dump(*e, pre@),
    decreases e,
{
    let i1 = deeper_string(pre);
    let i2 = deeper_string(&i1);
    match e {
        Expr::Int(v, _) => {
            let mut l = with_text(pre, "Expr::Int(");
            push_i64(&mut l, *v);
            push_str(&mut l, ")");
            one_line(l)
        },
        Expr::Float(v, _) => {
            let mut l = prefixed(pre, "Expr::Float(", &v.text);
            push_str(&mut l, ")");
            one_line(l)
        },
        Expr::Bool(b, _) => {
            let mut l = with_text(pre, "Expr::Bool(");
            push_str(&mut l, if *b { "true" } else { "false" });
            push_str(&mut l, ")");
            one_line(l)
        },
        Expr::String(s, _) => {
            let mut l = prefixed(pre, "Expr::String(\"", s);
            push_str(&mut l, "\")");
            one_line(l)
        },
        Expr::Char(c, _) => {
            let mut l = with_text(pre, "Expr::Char('");
            push_char(&mut l, *c);
            assert(l@ =~= pre@ + "Expr::Char('"@ + seq![*c]);
            push_str(&mut l, "')");
            one_line(l)
        },
        Expr::Null(_) => one_line(with_text(pre, "Expr::Null")),
        Expr::Tuple(es, _) => {
            let mut r = one_line(with_text(pre, "Expr::Tuple"));
            add_lines(&mut r, exprs_dump_lines(es, &i1));
            r
        },
        Expr::TupleIndex { tuple, index, .. } => {
            let mut l = with_text(pre, "Expr::TupleIndex: .");
            push_u64(&mut l, *index as u64);
            let mut r = one_line(l);
            add_lines(&mut r, expr_lines(tuple, &i1));
            r
        },
        Expr::Index { object, index, .. } => {
            let mut r = one_line(with_text(pre, "Expr::Index: []"));
            add_lines(&mut r, expr_lines(object, &i1));
            add_lines(&mut r, expr_lines(index, &i1));
            r
        },
        Expr::Ident(name, _) => {
            let mut l = prefixed(pre, "Expr::Ident(", name);
            push_str(&mut l, ")");
            one_line(l)
        },
        Expr::Array(es, _, _) => {
            let mut r = one_line(with_text(pre, "Expr::Array"));
            add_lines(&mut r, exprs_dump_lines(es, &i1));
            r
        },
        Expr::Binary { op, left, right, .. } => {
            let mut l = with_text(pre, "Expr::Binary: ");
            push_str(&mut l, binary_op_name_str(*op));
            let mut r = one_line(l);
            add_lines(&mut r, expr_lines(left, &i1));
            add_lines(&mut r, expr_lines(right, &i1));
            r
        },
        Expr::Unary { op, expr, .. } => {
            let mut l = with_text(pre, "Expr::Unary: ");
            push_str(&mut l, unary_op_name_str(*op));
            let mut r = one_line(l);
            add_lines(&mut r, expr_lines(expr, &i1));
            r
        },
        Expr::Call { name, namespace, args, generic_args, .. } => {
            let mut l = with_text(pre, "Expr::Call: ");
            let ns = match namespace {
                Some(n) => {
                    let mut x = n.clone();
                    push_str(&mut x, "::");
                    x
                },
                None => String::new(),
            };
            push_string(&mut l, &ns);
            push_string(&mut l, name);
            push_string(&mut l, &generic_args_string(generic_args));
            let mut r = one_line(l);
            add_lines(&mut r, exprs_dump_lines(args, &i1));
            r
        },
        Expr::If { condition, capture, then_branch, else_branch, .. } => {
            let mut r = one_line(with_text(pre, "Expr::If"));
            add_lines(&mut r, opt_line_lines(capture, &i1, "Capture: "));
            add_line(&mut r, with_text(&i1, "Condition:"));
            add_lines(&mut r, expr_lines(condition, &i2));
            add_line(&mut r, with_text(&i1, "Then:"));
            add_lines(&mut r, expr_lines(then_branch, &i2));
            add_line(&mut r, with_text(&i1, "Else:"));
            add_lines(&mut r, expr_lines(else_branch, &i2));
            r
        },
        Expr::Block { stmts, .. } => {
            let mut r = one_line(with_text(pre, "Expr::Block"));
            add_lines(&mut r, stmts_dump_lines(stmts, &i1));
            r
        },
        Expr::MemberAccess { object, member, kind, .. } => {
            let mut l = prefixed(pre, "Expr::MemberAccess: .", member);
            push_str(&mut l, member_kind_str(*kind));
            let mut r = one_line(l);
            add_lines(&mut r, expr_lines(object, &i1));
            r
        },
        Expr::Struct { name, fields, generic_args, .. } => {
            let mut l = prefixed(pre, "Expr::Struct: ", name);
            push_string(&mut l, &generic_args_string(generic_args));
            let mut r = one_line(l);
            add_lines(&mut r, fields_dump_lines(fields, &i1));
            r
        },
        Expr::Try { expr, .. } => {
            let mut r = one_line(with_text(pre, "Expr::Try"));
            add_lines(&mut r, expr_lines(expr, &i1));
            r
        },
        Expr::Catch { expr, error_var, body, .. } => {
            let mut r = one_line(with_text(pre, "Expr::Catch"));
            add_lines(&mut r, opt_line_lines(error_var, &i1, "Capture: "));
            add_line(&mut r, with_text(&i1, "Value:"));
            add_lines(&mut r, expr_lines(expr, &i2));
            add_line(&mut r, with_text(&i1, "Body:"));
            add_lines(&mut r, expr_lines(body, &i2));
            r
        },
        Expr::Cast { target_type, expr, .. } => {
            let mut l = with_text(pre, "Expr::Cast to ");
            push_type_text(&mut l, target_type, false);
            let mut r = one_line(l);
            add_lines(&mut r, expr_lines(expr, &i1));
            r
        },
        Expr::Dereference { expr, .. } => {
            let mut r = one_line(with_text(pre, "Expr::Dereference"));
            add_lines(&mut r, expr_lines(expr, &i1));
            r
        },
    }
}

/// The text naming the variables a `let` binds: the name, or the
/// destructuring list in debug form.
pub open spec fn let_names_text(name: String, names: Option<Vec<Option<String>>>) -> Seq<char> {
    match names {
        Some(ns) => "["@ + names_debug_items(ns@) + "]"@,
        None => name@,
    }
}

/// The suffix after `break` or `continue`: a space and the label, or
/// nothing.
pub open spec fn label_suffix(l: Option<String>) -> Seq<char> {
    match l {
        Some(v) => " "@ + v@,
        None => Seq::empty(),
    }
}

fn label_suffix_string(l: &Option<String>) -> (r: String)
    ensures
        r@ == label_suffix(*l),
{
    match l {
        Some(v) => {
            let mut r = text_of(" ");
            push_string(&mut r, v);
            r
        },
        None => String::new(),
    }
}

/// The lines for an optional else branch.
pub open spec fn else_dump(b: Option<Box<Stmt>>, pre: Seq<char>) -> Seq<Seq<char>>
    decreases b,
{
    match b {
        Some(s) => seq![deeper(pre) + "Else:"@] + stmt_dump(*s, deeper(deeper(pre))),
        None => Seq::empty(),
    }
}

fn else_lines(b: &Option<Box<Stmt>>, pre: &String) -> (r: Vec<String>)
    ensures
        lines_view(r@) == else_dump(*b, pre@),
    decreases b,
{
    match b {
        Some(s) => {
            let i1 = deeper_string(pre);
            let i2 = deeper_string(&i1);
            let mut r = one_line(with_text(&i1, "Else:"));
            add_lines(&mut r, stmt_lines(s, &i2));
            r
        },
        None => {
            let r: Vec<String> = Vec::new();
            assert(lines_view(r@) =~= Seq::<Seq<char>>::empty());
            r
        },
    }
}

/// The dump of a switch case numbered `index`.
pub open spec fn case_dump(c: SwitchCase, pre: Seq<char>, index: nat) -> Seq<Seq<char>>
    decreases c,
{
    let i1 = deeper(pre);
    let i2 = deeper(i1);
    seq![pre + "Case "@ + nat_text(index) + ":"@] + opt_line(c.capture, i1, "Capture: "@) + seq![i1 + "Patterns:"@]
        + exprs_dump(c.patterns@, i2) + seq![i1 + "Body:"@] + stmt_dump(c.body, i2)
}

fn case_lines(c: &SwitchCase, pre: &String, index: usize) -> (r: Vec<String>)
    ensures
        lines_view(r@) == case_dump(*c, pre@, index as nat),
    decreases c,
{
    let i1 = deeper_string(pre);
    let i2 = deeper_string(&i1);
    let mut l = with_text(pre, "Case ");
    push_u64(&mut l, index as u64);
    push_str(&mut l, ":");
    let mut r = one_line(l);
    add_lines(&mut r, opt_line_lines(&c.capture, &i1, "Capture: "));
    add_line(&mut r, with_text(&i1, "Patterns:"));
    add_lines(&mut r, exprs_dump_lines(&c.patterns, &i2));
    add_line(&mut r, with_text(&i1, "Body:"));
    add_lines(&mut r, stmt_lines(&c.body, &i2));
    r
}

/// The dump of a statement whose first line starts with `pre`.
pub open spec fn stmt_dump(s: Stmt, pre: Seq<char>) -> Seq<Seq<char>>
    decreases s,
{
    let i1 = deeper(pre);
    let i2 = deeper(i1);
    match s {
        Stmt::Expr { expr, .. } => seq![pre + "Stmt::Expr"@] + expr_dump(expr, i1),
        Stmt::Import { packages, .. } => seq![pre + "Stmt::Import: ["@ + packages_debug_items(packages@) + "]"@],
        Stmt::Let { mutability, name, names, ty, value, visibility, .. } => {
            seq![pre + "Stmt::Let: "@ + pub_prefix(visibility) + (match mutability {
                Mutability::Var => "var"@,
                Mutability::Const => "const"@,
            }) + " "@ + let_names_text(name, names) + (match ty {
                Some(t) => ": "@ + type_text(t@, false),
                None => Seq::empty(),
            })] + value_dump(value, pre)
        },
        Stmt::Assign { target, op, value, .. } => {
            seq![pre + "Stmt::Assign"@] + seq![i1 + "Target: "@ + target@] + seq![i1 + "Op: "@ + assign_op_name(op)]
                + seq![i1 + "Value:"@] + expr_dump(value, i2)
        },
        Stmt::Return { value, .. } => seq![pre + "Stmt::Return"@] + value_dump(value, pre),
        Stmt::Block { stmts, .. } => seq![pre + "Stmt::Block"@] + stmts_dump(stmts@, i1),
        Stmt::If { condition, capture, then_branch, else_branch, .. } => {
            seq![pre + "Stmt::If"@] + opt_line(capture, i1, "Capture: "@) + seq![i1 + "Condition:"@] + expr_dump(
                condition,
                i2,
            ) + seq![i1 + "Then:"@] + stmt_dump(*then_branch, i2) + else_dump(else_branch, pre)
        },
        Stmt::For { label, var_name, iterable, capture, index_var, body, .. } => {
            seq![pre + "Stmt::For"@] + opt_line(label, i1, "Label: "@) + opt_line(var_name, i1, "Var: "@) + opt_line(
                index_var,
                i1,
                "Index: "@,
            ) + opt_line(capture, i1, "Capture: "@) + seq![i1 + "Iterable:"@] + expr_dump(iterable, i2) + seq![
                i1 + "Body:"@,
            ] + stmt_dump(*body, i2)
        },
        Stmt::Switch { condition, cases, .. } => {
            seq![pre + "Stmt::Switch"@] + seq![i1 + "Condition:"@] + expr_dump(condition, i2) + cases_dump(cases@, i1)
        },
        Stmt::Defer { stmt, .. } => seq![pre + "Stmt::Defer"@] + stmt_dump(*stmt, i1),
        Stmt::DeferBang { stmt, .. } => seq![pre + "Stmt::Defer!"@] + stmt_dump(*stmt, i1),
        Stmt::Break { label, .. } => seq![pre + "Stmt::Break"@ + label_suffix(label)],
        Stmt::Continue { label, .. } => seq![pre + "Stmt::Continue"@ + label_suffix(label)],
    }
}

/// The lines of a statement's dump.
#[verifier::spinoff_prover]
#[verifier::rlimit(30)]
fn stmt_lines(s: &Stmt, pre: &String) -> (r: Vec<String>)
    ensures
        lines_view(r@) == stmt_dump(*s, pre@),
    decreases s,
{
    let i1 = deeper_string(pre);
    let i2 = deeper_string(&i1);
    match s {
        Stmt::Expr { expr, .. } => {
            let mut r = one_line(with_text(pre, "Stmt::Expr"));
            add_lines(&mut r, expr_lines(expr, &i1));
            r
        },
        Stmt::Import { packages, .. } => {
            let mut l = with_text(pre, "Stmt::Import: [");
            push_string(&mut l, &packages_debug_items_string(packages));
            push_str(&mut l, "]");
            one_line(l)
        },
        Stmt::Let { mutability, name, names, ty, value, visibility, .. } => {
            let mut l = with_text(pre, "Stmt::Let: ");
            push_str(&mut l, pub_prefix_str(*visibility));
            push_str(&mut l, match mutability { Mutability::Var => "var", Mutability::Const => "const" });
            push_str(&mut l, " ");
            let n = match names {
                Some(ns) => {
                    let mut x = text_of("[");
                    push_string(&mut x, &names_debug_items_string(ns));
                    push_str(&mut x, "]");
                    x
                },
                None => name.clone(),
            };
            push_string(&mut l, &n);
            let t = match ty {
                Some(t) => {
                    let mut x = text_of(": ");
                    push_type_text(&mut x, t, false);
                    x
                },
                None => String::new(),
            };
            push_string(&mut l, &t);
            let mut r = one_line(l);
            add_lines(&mut r, value_lines(value, pre));
            r
        },
        Stmt::Assign { target, op, value, .. } => {
            let mut r = one_line(with_text(pre, "Stmt::Assign"));
            add_line(&mut r, prefixed(&i1, "Target: ", target));
            let mut l = with_text(&i1, "Op: ");
            push_str(&mut l, assign_op_name_str(*op));
            add_line(&mut r, l);
            add_line(&mut r, with_text(&i1, "Value:"));
            add_lines(&mut r, expr_lines(value, &i2));
            r
        },
        Stmt::Return { value, .. } => {
            let mut r = one_line(with_text(pre, "Stmt::Return"));
            add_lines(&mut r, value_lines(value, pre));
            r
        },
        Stmt::Block { stmts, .. } => {
            let mut r = one_line(with_text(pre, "Stmt::Block"));
            add_lines(&mut r, stmts_dump_lines(stmts, &i1));
            r
        },
        Stmt::If { condition, capture, then_branch, else_branch, .. } => {
            let mut r = one_line(with_text(pre, "Stmt::If"));
            add_lines(&mut r, opt_line_lines(capture, &i1, "Capture: "));
            add_line(&mut r, with_text(&i1, "Condition:"));
            add_lines(&mut r, expr_lines(condition, &i2));
            add_line(&mut r, with_text(&i1, "Then:"));
            add_lines(&mut r, stmt_lines(then_branch, &i2));
            add_lines(&mut r, else_lines(else_branch, pre));
            r
        },
        Stmt::For { label, var_name, iterable, capture, index_var, body, .. } => {
            let mut r = one_line(with_text(pre, "Stmt::For"));
            add_lines(&mut r, opt_line_lines(label, &i1, "Label: "));
            add_lines(&mut r, opt_line_lines(var_name, &i1, "Var: "));
            add_lines(&mut r, opt_line_lines(index_var, &i1, "Index: "));
            add_lines(&mut r, opt_line_lines(capture, &i1, "Capture: "));
            add_line(&mut r, with_text(&i1, "Iterable:"));
            add_lines(&mut r, expr_lines(iterable, &i2));
            add_line(&mut r, with_text(&i1, "Body:"));
            add_lines(&mut r, stmt_lines(body, &i2));
            r
        },
        Stmt::Switch { condition, cases, .. } => {
            let mut r = one_line(with_text(pre, "Stmt::Switch"));
            add_line(&mut r, with_text(&i1, "Condition:"));
            add_lines(&mut r, expr_lines(condition, &i2));
            add_lines(&mut r, cases_dump_lines(cases, &i1));
            r
        },
        Stmt::Defer { stmt, .. } => {
            let mut r = one_line(with_text(pre, "Stmt::Defer"));
            add_lines(&mut r, stmt_lines(stmt, &i1));
            r
        },
        Stmt::DeferBang { stmt, .. } => {
            let mut r = one_line(with_text(pre, "Stmt::Defer!"));
            add_lines(&mut r, stmt_lines(stmt, &i1));
            r
        },
        Stmt::Break { label, .. } => {
            let mut l = with_text(pre, "Stmt::Break");
            push_string(&mut l, &label_suffix_string(label));
            one_line(l)
        },
        Stmt::Continue { label, .. } => {
            let mut l = with_text(pre, "Stmt::Continue");
            push_string(&mut l, &label_suffix_string(label));
            one_line(l)
        },
    }
}

/// The dumps of expressions, one after the other.
pub open spec fn exprs_dump(xs: Seq<Expr>, pre: Seq<char>) -> Seq<Seq<char>>
    decreases xs,
{
    if xs.len() == 0 {
        Seq::empty()
    } else {
        exprs_dump(xs.drop_last(), pre) + expr_dump(xs.last(), pre)
    }
}

fn exprs_dump_lines(xs: &Vec<Expr>, pre: &String) -> (r: Vec<String>)
    ensures
        lines_view(r@) == exprs_dump(xs@, pre@),
    decreases xs,
{
    let ghost sv = xs@;
    let mut r: Vec<String> = Vec::new();
    let mut i: usize = 0;
    assert(sv.subrange(0, 0) =~= Seq::<Expr>::empty());
    assert(lines_view(r@) =~= Seq::<Seq<char>>::empty());
    while i < xs.len()
        invariant
            i <= xs.len(),
            sv == xs@,
            lines_view(r@) == exprs_dump(sv.subrange(0, i as int), pre@),
        decreases xs.len() - i,
    {
        let ghost next = sv.subrange(0, i + 1);
        assert(next.drop_last() =~= sv.subrange(0, i as int));
        assert(next.last() == sv[i as int]);
        let more = expr_lines(&xs[i], pre);
        add_lines(&mut r, more);
        i = i + 1;
    }
    assert(sv.subrange(0, i as int) =~= sv);
    r
}

/// The dumps of statements, one after the other.
pub open spec fn stmts_dump(xs: Seq<Stmt>, pre: Seq<char>) -> Seq<Seq<char>>
    decreases xs,
{
    if xs.len() == 0 {
        Seq::empty()
    } else {
        stmts_dump(xs.drop_last(), pre) + stmt_dump(xs.last(), pre)
    }
}

fn stmts_dump_lines(xs: &Vec<Stmt>, pre: &String) -> (r: Vec<String>)
    ensures
        lines_view(r@) == stmts_dump(xs@, pre@),
    decreases xs,
{
    let ghost sv = xs@;
    let mut r: Vec<String> = Vec::new();
    let mut i: usize = 0;
    assert(sv.subrange(0, 0) =~= Seq::<Stmt>::empty());
    assert(lines_view(r@) =~= Seq::<Seq<char>>::empty());
    while i < xs.len()
        invariant
            i <= xs.len(),
            sv == xs@,
            lines_view(r@) == stmts_dump(sv.subrange(0, i as int), pre@),
        decreases xs.len() - i,
    {
        let ghost next = sv.subrange(0, i + 1);
        assert(next.drop_last() =~= sv.subrange(0, i as int));
        assert(next.last() == sv[i as int]);
        let more = stmt_lines(&xs[i], pre);
        add_lines(&mut r, more);
        i = i + 1;
    }
    assert(sv.subrange(0, i as int) =~= sv);
    r
}

/// The dumps of struct literal fields.
pub open spec fn fields_dump(xs: Seq<(String, Expr)>, pre: Seq<char>) -> Seq<Seq<char>>
    decreases xs,
{
    if xs.len() == 0 {
        Seq::empty()
    } else {
        fields_dump(xs.drop_last(), pre) + field_value_dump(xs.last(), pre)
    }
}

fn fields_dump_lines(xs: &Vec<(String, Expr)>, pre: &String) -> (r: Vec<String>)
    ensures
        lines_view(r@) == fields_dump(xs@, pre@),
    decreases xs,
{
    let ghost sv = xs@;
    let mut r: Vec<String> = Vec::new();
    let mut i: usize = 0;
    assert(sv.subrange(0, 0) =~= Seq::<(String, Expr)>::empty());
    assert(lines_view(r@) =~= Seq::<Seq<char>>::empty());
    while i < xs.len()
        invariant
            i <= xs.len(),
            sv == xs@,
            lines_view(r@) == fields_dump(sv.subrange(0, i as int), pre@),
        decreases xs.len() - i,
    {
        let ghost next = sv.subrange(0, i + 1);
        assert(next.drop_last() =~= sv.subrange(0, i as int));
        assert(next.last() == sv[i as int]);
        let more = field_value_lines(&xs[i], pre);
        add_lines(&mut r, more);
        i = i + 1;
    }
    assert(sv.subrange(0, i as int) =~= sv);
    r
}

/// The dumps of switch cases, numbered from zero.
pub open spec fn cases_dump(xs: Seq<SwitchCase>, pre: Seq<char>) -> Seq<Seq<char>>
    decreases xs,
{
    if xs.len() == 0 {
        Seq::empty()
    } else {
        cases_dump(xs.drop_last(), pre) + case_dump(xs.last(), pre, (xs.len() - 1) as nat)
    }
}

fn cases_dump_lines(xs: &Vec<SwitchCase>, pre: &String) -> (r: Vec<String>)
    ensures
        lines_view(r@) == cases_dump(xs@, pre@),
    decreases xs,
{
    let ghost sv = xs@;
    let mut r: Vec<String> = Vec::new();
    let mut i: usize = 0;
    assert(sv.subrange(0, 0) =~= Seq::<SwitchCase>::empty());
    assert(lines_view(r@) =~= Seq::<Seq<char>>::empty());
    while i < xs.len()
        invariant
            i <= xs.len(),
            sv == xs@,
            lines_view(r@) == cases_dump(sv.subrange(0, i as int), pre@),
        decreases xs.len() - i,
    {
        let ghost next = sv.subrange(0, i + 1);
        assert(next.drop_last() =~= sv.subrange(0, i as int));
        assert(next.last() == sv[i as int]);
        let more = case_lines(&xs[i], pre, i);
        add_lines(&mut r, more);
        i = i + 1;
    }
    assert(sv.subrange(0, i as int) =~= sv);
    r
}

/// One line per parameter: `name: type`.
pub open spec fn param_lines(xs: Seq<FnParam>, pre: Seq<char>) -> Seq<Seq<char>>
    decreases xs.len(),
{
    if xs.len() == 0 {
        Seq::empty()
    } else {
        param_lines(xs.drop_last(), pre) + seq![pre + xs.last().name@ + ": "@ + type_text(xs.last().ty@, false)]
    }
}

fn param_lines_lines(xs: &Vec<FnParam>, pre: &String) -> (r: Vec<String>)
    ensures
        lines_view(r@) == param_lines(xs@, pre@),
{
    let ghost sv = xs@;
    let mut r: Vec<String> = Vec::new();
    let mut i: usize = 0;
    assert(sv.subrange(0, 0) =~= Seq::<FnParam>::empty());
    assert(lines_view(r@) =~= Seq::<Seq<char>>::empty());
    while i < xs.len()
        invariant
            i <= xs.len(),
            sv == xs@,
            lines_view(r@) == param_lines(sv.subrange(0, i as int), pre@),
        decreases xs.len() - i,
    {
        let ghost next = sv.subrange(0, i + 1);
        assert(next.drop_last() =~= sv.subrange(0, i as int));
        assert(next.last() == sv[i as int]);
        let more = one_line(param_line(&xs[i], pre));
        add_lines(&mut r, more);
        i = i + 1;
    }
    assert(sv.subrange(0, i as int) =~= sv);
    r
}

/// The dumps of functions.
pub open spec fn fns_dump(xs: Seq<FnDef>, pre: Seq<char>) -> Seq<Seq<char>>
    decreases xs.len(),
{
    if xs.len() == 0 {
        Seq::empty()
    } else {
        fns_dump(xs.drop_last(), pre) + fn_dump(xs.last(), pre)
    }
}

fn fns_dump_lines(xs: &Vec<FnDef>, pre: &String) -> (r: Vec<String>)
    ensures
        lines_view(r@) == fns_dump(xs@, pre@),
{
    let ghost sv = xs@;
    let mut r: Vec<String> = Vec::new();
    let mut i: usize = 0;
    assert(sv.subrange(0, 0) =~= Seq::<FnDef>::empty());
    assert(lines_view(r@) =~= Seq::<Seq<char>>::empty());
    while i < xs.len()
        invariant
            i <= xs.len(),
            sv == xs@,
            lines_view(r@) == fns_dump(sv.subrange(0, i as int), pre@),
        decreases xs.len() - i,
    {
        let ghost next = sv.subrange(0, i + 1);
        assert(next.drop_last() =~= sv.subrange(0, i as int));
        assert(next.last() == sv[i as int]);
        let more = fn_lines(&xs[i], pre);
        add_lines(&mut r, more);
        i = i + 1;
    }
    assert(sv.subrange(0, i as int) =~= sv);
    r
}

/// One line per struct field.
pub open spec fn field_lines(xs: Seq<StructField>, pre: Seq<char>) -> Seq<Seq<char>>
    decreases xs.len(),
{
    if xs.len() == 0 {
        Seq::empty()
    } else {
        field_lines(xs.drop_last(), pre) + seq![pre + "Field: "@ + pub_prefix(xs.last().visibility) + xs.last().name@ + ": "@ + type_text(xs.last().ty@, false)]
    }
}

fn field_lines_lines(xs: &Vec<StructField>, pre: &String) -> (r: Vec<String>)
    ensures
        lines_view(r@) == field_lines(xs@, pre@),
{
    let ghost sv = xs@;
    let mut r: Vec<String> = Vec::new();
    let mut i: usize = 0;
    assert(sv.subrange(0, 0) =~= Seq::<StructField>::empty());
    assert(lines_view(r@) =~= Seq::<Seq<char>>::empty());
    while i < xs.len()
        invariant
            i <= xs.len(),
            sv == xs@,
            lines_view(r@) == field_lines(sv.subrange(0, i as int), pre@),
        decreases xs.len() - i,
    {
        let ghost next = sv.subrange(0, i + 1);
        assert(next.drop_last() =~= sv.subrange(0, i as int));
        assert(next.last() == sv[i as int]);
        let more = one_line(field_line(&xs[i], pre));
        add_lines(&mut r, more);
        i = i + 1;
    }
    assert(sv.subrange(0, i as int) =~= sv);
    r
}

/// The dumps of interface implementations.
pub open spec fn impls_dump(xs: Seq<InterfaceImpl>, pre: Seq<char>) -> Seq<Seq<char>>
    decreases xs.len(),
{
    if xs.len() == 0 {
        Seq::empty()
    } else {
        impls_dump(xs.drop_last(), pre) + impl_dump(xs.last(), pre)
    }
}

fn impls_dump_lines(xs: &Vec<InterfaceImpl>, pre: &String) -> (r: Vec<String>)
    ensures
        lines_view(r@) == impls_dump(xs@, pre@),
{
    let ghost sv = xs@;
    let mut r: Vec<String> = Vec::new();
    let mut i: usize = 0;
    assert(sv.subrange(0, 0) =~= Seq::<InterfaceImpl>::empty());
    assert(lines_view(r@) =~= Seq::<Seq<char>>::empty());
    while i < xs.len()
        invariant
            i <= xs.len(),
            sv == xs@,
            lines_view(r@) == impls_dump(sv.subrange(0, i as int), pre@),
        decreases xs.len() - i,
    {
        let ghost next = sv.subrange(0, i + 1);
        assert(next.drop_last() =~= sv.subrange(0, i as int));
        assert(next.last() == sv[i as int]);
        let more = impl_lines(&xs[i], pre);
        add_lines(&mut r, more);
        i = i + 1;
    }
    assert(sv.subrange(0, i as int) =~= sv);
    r
}

/// One line per composed interface.
pub open spec fn compose_lines(xs: Seq<String>, pre: Seq<char>) -> Seq<Seq<char>>
    decreases xs.len(),
{
    if xs.len() == 0 {
        Seq::empty()
    } else {
        compose_lines(xs.drop_last(), pre) + seq![pre + "Compose: "@ + xs.last()@]
    }
}

fn compose_lines_lines(xs: &Vec<String>, pre: &String) -> (r: Vec<String>)
    ensures
        lines_view(r@) == compose_lines(xs@, pre@),
{
    let ghost sv = xs@;
    let mut r: Vec<String> = Vec::new();
    let mut i: usize = 0;
    assert(sv.subrange(0, 0) =~= Seq::<String>::empty());
    assert(lines_view(r@) =~= Seq::<Seq<char>>::empty());
    while i < xs.len()
        invariant
            i <= xs.len(),
            sv == xs@,
            lines_view(r@) == compose_lines(sv.subrange(0, i as int), pre@),
        decreases xs.len() - i,
    {
        let ghost next = sv.subrange(0, i + 1);
        assert(next.drop_last() =~= sv.subrange(0, i as int));
        assert(next.last() == sv[i as int]);
        let more = one_line(prefixed(pre, "Compose: ", &xs[i]));
        add_lines(&mut r, more);
        i = i + 1;
    }
    assert(sv.subrange(0, i as int) =~= sv);
    r
}

/// One line per enum variant.
pub open spec fn enum_variant_lines(xs: Seq<EnumVariant>, pre: Seq<char>) -> Seq<Seq<char>>
    decreases xs.len(),
{
    if xs.len() == 0 {
        Seq::empty()
    } else {
        enum_variant_lines(xs.drop_last(), pre) + seq![variant_line(xs.last().visibility, xs.last().name@, xs.last().associated_types@, pre)]
    }
}

fn enum_variant_lines_lines(xs: &Vec<EnumVariant>, pre: &String) -> (r: Vec<String>)
    ensures
        lines_view(r@) == enum_variant_lines(xs@, pre@),
{
    let ghost sv = xs@;
    let mut r: Vec<String> = Vec::new();
    let mut i: usize = 0;
    assert(sv.subrange(0, 0) =~= Seq::<EnumVariant>::empty());
    assert(lines_view(r@) =~= Seq::<Seq<char>>::empty());
    while i < xs.len()
        invariant
            i <= xs.len(),
            sv == xs@,
            lines_view(r@) == enum_variant_lines(sv.subrange(0, i as int), pre@),
        decreases xs.len() - i,
    {
        let ghost next = sv.subrange(0, i + 1);
        assert(next.drop_last() =~= sv.subrange(0, i as int));
        assert(next.last() == sv[i as int]);
        let more = one_line(variant_line_string(xs[i].visibility, &xs[i].name, &xs[i].associated_types, pre));
        add_lines(&mut r, more);
        i = i + 1;
    }
    assert(sv.subrange(0, i as int) =~= sv);
    r
}

/// One line per error variant.
pub open spec fn error_variant_lines(xs: Seq<ErrorVariant>, pre: Seq<char>) -> Seq<Seq<char>>
    decreases xs.len(),
{
    if xs.len() == 0 {
        Seq::empty()
    } else {
        error_variant_lines(xs.drop_last(), pre) + seq![variant_line(xs.last().visibility, xs.last().name@, xs.last().associated_types@, pre)]
    }
}

fn error_variant_lines_lines(xs: &Vec<ErrorVariant>, pre: &String) -> (r: Vec<String>)
    ensures
        lines_view(r@) == error_variant_lines(xs@, pre@),
{
    let ghost sv = xs@;
    let mut r: Vec<String> = Vec::new();
    let mut i: usize = 0;
    assert(sv.subrange(0, 0) =~= Seq::<ErrorVariant>::empty());
    assert(lines_view(r@) =~= Seq::<Seq<char>>::empty());
    while i < xs.len()
        invariant
            i <= xs.len(),
            sv == xs@,
            lines_view(r@) == error_variant_lines(sv.subrange(0, i as int), pre@),
        decreases xs.len() - i,
    {
        let ghost next = sv.subrange(0, i + 1);
        assert(next.drop_last() =~= sv.subrange(0, i as int));
        assert(next.last() == sv[i as int]);
        let more = one_line(variant_line_string(xs[i].visibility, &xs[i].name, &xs[i].associated_types, pre));
        add_lines(&mut r, more);
        i = i + 1;
    }
    assert(sv.subrange(0, i as int) =~= sv);
    r
}

/// One line per import.
pub open spec fn import_lines(xs: Seq<(Option<String>, String)>, pre: Seq<char>) -> Seq<Seq<char>>
    decreases xs.len(),
{
    if xs.len() == 0 {
        Seq::empty()
    } else {
        import_lines(xs.drop_last(), pre) + seq![pre + import_text(xs.last())]
    }
}

fn import_lines_lines(xs: &Vec<(Option<String>, String)>, pre: &String) -> (r: Vec<String>)
    ensures
        lines_view(r@) == import_lines(xs@, pre@),
{
    let ghost sv = xs@;
    let mut r: Vec<String> = Vec::new();
    let mut i: usize = 0;
    assert(sv.subrange(0, 0) =~= Seq::<(Option<String>, String)>::empty());
    assert(lines_view(r@) =~= Seq::<Seq<char>>::empty());
    while i < xs.len()
        invariant
            i <= xs.len(),
            sv == xs@,
            lines_view(r@) == import_lines(sv.subrange(0, i as int), pre@),
        decreases xs.len() - i,
    {
        let ghost next = sv.subrange(0, i + 1);
        assert(next.drop_last() =~= sv.subrange(0, i as int));
        assert(next.last() == sv[i as int]);
        let more = one_line(import_line(&xs[i], pre));
        add_lines(&mut r, more);
        i = i + 1;
    }
    assert(sv.subrange(0, i as int) =~= sv);
    r
}

/// The dumps of structs.
pub open spec fn structs_dump(xs: Seq<StructDef>, pre: Seq<char>) -> Seq<Seq<char>>
    decreases xs.len(),
{
    if xs.len() == 0 {
        Seq::empty()
    } else {
        structs_dump(xs.drop_last(), pre) + struct_dump(xs.last(), pre)
    }
}

fn structs_dump_lines(xs: &Vec<StructDef>, pre: &String) -> (r: Vec<String>)
    ensures
        lines_view(r@) == structs_dump(xs@, pre@),
{
    let ghost sv = xs@;
    let mut r: Vec<String> = Vec::new();
    let mut i: usize = 0;
    assert(sv.subrange(0, 0) =~= Seq::<StructDef>::empty());
    assert(lines_view(r@) =~= Seq::<Seq<char>>::empty());
    while i < xs.len()
        invariant
            i <= xs.len(),
            sv == xs@,
            lines_view(r@) == structs_dump(sv.subrange(0, i as int), pre@),
        decreases xs.len() - i,
    {
        let ghost next = sv.subrange(0, i + 1);
        assert(next.drop_last() =~= sv.subrange(0, i as int));
        assert(next.last() == sv[i as int]);
        let more = struct_lines(&xs[i], pre);
        add_lines(&mut r, more);
        i = i + 1;
    }
    assert(sv.subrange(0, i as int) =~= sv);
    r
}

/// The dumps of interfaces.
pub open spec fn interfaces_dump(xs: Seq<InterfaceDef>, pre: Seq<char>) -> Seq<Seq<char>>
    decreases xs.len(),
{
    if xs.len() == 0 {
        Seq::empty()
    } else {
        interfaces_dump(xs.drop_last(), pre) + interface_dump(xs.last(), pre)
    }
}

fn interfaces_dump_lines(xs: &Vec<InterfaceDef>, pre: &String) -> (r: Vec<String>)
    ensures
        lines_view(r@) == interfaces_dump(xs@, pre@),
{
    let ghost sv = xs@;
    let mut r: Vec<String> = Vec::new();
    let mut i: usize = 0;
    assert(sv.subrange(0, 0) =~= Seq::<InterfaceDef>::empty());
    assert(lines_view(r@) =~= Seq::<Seq<char>>::empty());
    while i < xs.len()
        invariant
            i <= xs.len(),
            sv == xs@,
            lines_view(r@) == interfaces_dump(sv.subrange(0, i as int), pre@),
        decreases xs.len() - i,
    {
        let ghost next = sv.subrange(0, i + 1);
        assert(next.drop_last() =~= sv.subrange(0, i as int));
        assert(next.last() == sv[i as int]);
        let more = interface_lines(&xs[i], pre);
        add_lines(&mut r, more);
        i = i + 1;
    }
    assert(sv.subrange(0, i as int) =~= sv);
    r
}

/// The dumps of enums.
pub open spec fn enums_dump(xs: Seq<EnumDef>, pre: Seq<char>) -> Seq<Seq<char>>
    decreases xs.len(),
{
    if xs.len() == 0 {
        Seq::empty()
    } else {
        enums_dump(xs.drop_last(), pre) + enum_dump(xs.last(), pre)
    }
}

fn enums_dump_lines(xs: &Vec<EnumDef>, pre: &String) -> (r: Vec<String>)
    ensures
        lines_view(r@) == enums_dump(xs@, pre@),
{
    let ghost sv = xs@;
    let mut r: Vec<String> = Vec::new();
    let mut i: usize = 0;
    assert(sv.subrange(0, 0) =~= Seq::<EnumDef>::empty());
    assert(lines_view(r@) =~= Seq::<Seq<char>>::empty());
    while i < xs.len()
        invariant
            i <= xs.len(),
            sv == xs@,
            lines_view(r@) == enums_dump(sv.subrange(0, i as int), pre@),
        decreases xs.len() - i,
    {
        let ghost next = sv.subrange(0, i + 1);
        assert(next.drop_last() =~= sv.subrange(0, i as int));
        assert(next.last() == sv[i as int]);
        let more = enum_lines(&xs[i], pre);
        add_lines(&mut r, more);
        i = i + 1;
    }
    assert(sv.subrange(0, i as int) =~= sv);
    r
}

/// The dumps of error types.
pub open spec fn errors_dump(xs: Seq<ErrorDef>, pre: Seq<char>) -> Seq<Seq<char>>
    decreases xs.len(),
{
    if xs.len() == 0 {
        Seq::empty()
    } else {
        errors_dump(xs.drop_last(), pre) + error_dump(xs.last(), pre)
    }
}

fn errors_dump_lines(xs: &Vec<ErrorDef>, pre: &String) -> (r: Vec<String>)
    ensures
        lines_view(r@) == errors_dump(xs@, pre@),
{
    let ghost sv = xs@;
    let mut r: Vec<String> = Vec::new();
    let mut i: usize = 0;
    assert(sv.subrange(0, 0) =~= Seq::<ErrorDef>::empty());
    assert(lines_view(r@) =~= Seq::<Seq<char>>::empty());
    while i < xs.len()
        invariant
            i <= xs.len(),
            sv == xs@,
            lines_view(r@) == errors_dump(sv.subrange(0, i as int), pre@),
        decreases xs.len() - i,
    {
        let ghost next = sv.subrange(0, i + 1);
        assert(next.drop_last() =~= sv.subrange(0, i as int));
        assert(next.last() == sv[i as int]);
        let more = error_lines(&xs[i], pre);
        add_lines(&mut r, more);
        i = i + 1;
    }
    assert(sv.subrange(0, i as int) =~= sv);
    r
}

/// The dumps of external functions.
pub open spec fn ext_fns_dump(xs: Seq<ExternalFnDef>, pre: Seq<char>) -> Seq<Seq<char>>
    decreases xs.len(),
{
    if xs.len() == 0 {
        Seq::empty()
    } else {
        ext_fns_dump(xs.drop_last(), pre) + ext_fn_dump(xs.last(), pre)
    }
}

fn ext_fns_dump_lines(xs: &Vec<ExternalFnDef>, pre: &String) -> (r: Vec<String>)
    ensures
        lines_view(r@) == ext_fns_dump(xs@, pre@),
{
    let ghost sv = xs@;
    let mut r: Vec<String> = Vec::new();
    let mut i: usize = 0;
    assert(sv.subrange(0, 0) =~= Seq::<ExternalFnDef>::empty());
    assert(lines_view(r@) =~= Seq::<Seq<char>>::empty());
    while i < xs.len()
        invariant
            i <= xs.len(),
            sv == xs@,
            lines_view(r@) == ext_fns_dump(sv.subrange(0, i as int), pre@),
        decreases xs.len() - i,
    {
        let ghost next = sv.subrange(0, i + 1);
        assert(next.drop_last() =~= sv.subrange(0, i as int));
        assert(next.last() == sv[i as int]);
        let more = ext_fn_lines(&xs[i], pre);
        add_lines(&mut r, more);
        i = i + 1;
    }
    assert(sv.subrange(0, i as int) =~= sv);
    r
}

/// Generic parameters as written after a name: `<T, U>`, or nothing.
pub open spec fn generic_params_text(ps: Seq<String>) -> Seq<char> {
    if ps.len() == 0 { Seq::empty() } else { "<"@ + join_text(strings_view(ps), ", "@) + ">"@ }
}

fn generic_params_string(ps: &Vec<String>) -> (r: String)
    ensures
        r@ == generic_params_text(ps@),
{
    if ps.len() == 0 {
        String::new()
    } else {
        let mut r = text_of("<");
        crate::cmd::symbol::push_joined(&mut r, ps, ", ");
        push_str(&mut r, ">");
        r
    }
}

/// A `where` clause: ` where T: Service, U: Other`, or nothing.
pub open spec fn constraints_text(cs: Seq<(String, String)>) -> Seq<char> {
    if cs.len() == 0 { Seq::empty() } else { " where "@ + constraint_items(cs) }
}

fn constraints_string(cs: &Vec<(String, String)>) -> (r: String)
    ensures
        r@ == constraints_text(cs@),
{
    if cs.len() == 0 {
        String::new()
    } else {
        let mut r = text_of(" where ");
        push_string(&mut r, &constraint_items_string(cs));
        r
    }
}

fn param_line(p: &FnParam, pre: &String) -> (r: String)
    ensures
        r@ == pre@ + p.name@ + ": "@ + type_text(p.ty@, false),
{
    let mut r = pre.clone();
    push_string(&mut r, &p.name);
    push_str(&mut r, ": ");
    push_type_text(&mut r, &p.ty, false);
    r
}

/// The parameter block of a function: `Params:` and one line per
/// parameter, or nothing when there are none.
pub open spec fn params_dump(ps: Seq<FnParam>, pre: Seq<char>) -> Seq<Seq<char>> {
    if ps.len() == 0 { Seq::empty() } else { seq![pre + "Params:"@] + param_lines(ps, deeper(pre)) }
}

fn params_lines(ps: &Vec<FnParam>, pre: &String) -> (r: Vec<String>)
    ensures
        lines_view(r@) == params_dump(ps@, pre@),
{
    if ps.len() == 0 {
        let r: Vec<String> = Vec::new();
        assert(lines_view(r@) =~= Seq::<Seq<char>>::empty());
        r
    } else {
        let mut r = one_line(with_text(pre, "Params:"));
        add_lines(&mut r, param_lines_lines(ps, &deeper_string(pre)));
        r
    }
}

/// The dump of a function.
pub open spec fn fn_dump(f: FnDef, pre: Seq<char>) -> Seq<Seq<char>> {
    seq![pre + "FnDef: "@ + pub_prefix(f.visibility) + f.name@ + generic_params_text(f.generic_params@)
        + constraints_text(f.generic_constraints@) + " -> "@ + type_text(f.return_ty@, false)] + params_dump(
        f.params@,
        deeper(pre),
    ) + seq![deeper(pre) + "Body:"@] + stmts_dump(f.body@, deeper(deeper(pre)))
}

fn fn_lines(f: &FnDef, pre: &String) -> (r: Vec<String>)
    ensures
        lines_view(r@) == fn_dump(*f, pre@),
{
    let i1 = deeper_string(pre);
    let i2 = deeper_string(&i1);
    let mut l = with_text(pre, "FnDef: ");
    push_str(&mut l, pub_prefix_str(f.visibility));
    push_string(&mut l, &f.name);
    push_string(&mut l, &generic_params_string(&f.generic_params));
    push_string(&mut l, &constraints_string(&f.generic_constraints));
    push_str(&mut l, " -> ");
    push_type_text(&mut l, &f.return_ty, false);
    let mut r = one_line(l);
    add_lines(&mut r, params_lines(&f.params, &i1));
    add_line(&mut r, with_text(&i1, "Body:"));
    add_lines(&mut r, stmts_dump_lines(&f.body, &i2));
    r
}

/// The dump of an external function declaration.
pub open spec fn ext_fn_dump(f: ExternalFnDef, pre: Seq<char>) -> Seq<Seq<char>> {
    seq![pre + "ExternalFnDef: "@ + pub_prefix(f.visibility) + f.name@ + " -> "@ + type_text(f.return_ty@, false)]
        + params_dump(f.params@, deeper(pre))
}

fn ext_fn_lines(f: &ExternalFnDef, pre: &String) -> (r: Vec<String>)
    ensures
        lines_view(r@) == ext_fn_dump(*f, pre@),
{
    let mut l = with_text(pre, "ExternalFnDef: ");
    push_str(&mut l, pub_prefix_str(f.visibility));
    push_string(&mut l, &f.name);
    push_str(&mut l, " -> ");
    push_type_text(&mut l, &f.return_ty, false);
    let mut r = one_line(l);
    add_lines(&mut r, params_lines(&f.params, &deeper_string(pre)));
    r
}

fn field_line(f: &StructField, pre: &String) -> (r: String)
    ensures
        r@ == pre@ + "Field: "@ + pub_prefix(f.visibility) + f.name@ + ": "@ + type_text(f.ty@, false),
{
    let mut r = with_text(pre, "Field: ");
    push_str(&mut r, pub_prefix_str(f.visibility));
    push_string(&mut r, &f.name);
    push_str(&mut r, ": ");
    push_type_text(&mut r, &f.ty, false);
    r
}

/// The dump of an interface implementation: `Impl Name`, then its methods.
pub open spec fn impl_dump(im: InterfaceImpl, pre: Seq<char>) -> Seq<Seq<char>> {
    seq![pre + "Impl "@ + im.interface_name@] + fns_dump(im.methods@, deeper(pre))
}

fn impl_lines(im: &InterfaceImpl, pre: &String) -> (r: Vec<String>)
    ensures
        lines_view(r@) == impl_dump(*im, pre@),
{
    let mut r = one_line(prefixed(pre, "Impl ", &im.interface_name));
    add_lines(&mut r, fns_dump_lines(&im.methods, &deeper_string(pre)));
    r
}

/// The dump of a struct.
pub open spec fn struct_dump(s: StructDef, pre: Seq<char>) -> Seq<Seq<char>> {
    seq![pre + "StructDef: "@ + pub_prefix(s.visibility) + s.name@ + generic_params_text(s.generic_params@)]
        + field_lines(s.fields@, deeper(pre)) + fns_dump(s.methods@, deeper(pre)) + impls_dump(
        s.interface_impls@,
        deeper(pre),
    )
}

fn struct_lines(s: &StructDef, pre: &String) -> (r: Vec<String>)
    ensures
        lines_view(r@) == struct_dump(*s, pre@),
{
    let i1 = deeper_string(pre);
    let mut l = with_text(pre, "StructDef: ");
    push_str(&mut l, pub_prefix_str(s.visibility));
    push_string(&mut l, &s.name);
    push_string(&mut l, &generic_params_string(&s.generic_params));
    let mut r = one_line(l);
    add_lines(&mut r, field_lines_lines(&s.fields, &i1));
    add_lines(&mut r, fns_dump_lines(&s.methods, &i1));
    add_lines(&mut r, impls_dump_lines(&s.interface_impls, &i1));
    r
}

/// The dump of an interface.
pub open spec fn interface_dump(d: InterfaceDef, pre: Seq<char>) -> Seq<Seq<char>> {
    seq![pre + "InterfaceDef: "@ + pub_prefix(d.visibility) + d.name@] + compose_lines(
        d.composed_interfaces@,
        deeper(pre),
    ) + fns_dump(d.methods@, deeper(pre))
}

fn interface_lines(d: &InterfaceDef, pre: &String) -> (r: Vec<String>)
    ensures
        lines_view(r@) == interface_dump(*d, pre@),
{
    let i1 = deeper_string(pre);
    let mut l = with_text(pre, "InterfaceDef: ");
    push_str(&mut l, pub_prefix_str(d.visibility));
    push_string(&mut l, &d.name);
    let mut r = one_line(l);
    add_lines(&mut r, compose_lines_lines(&d.composed_interfaces, &i1));
    add_lines(&mut r, fns_dump_lines(&d.methods, &i1));
    r
}

/// The line of an enum or error variant: `Variant: name`, followed by the
/// debug form of its associated types in parentheses when it has any.
pub open spec fn variant_line(vis: Visibility, name: Seq<char>, types: Seq<Type>, pre: Seq<char>) -> Seq<char> {
    pre + "Variant: "@ + pub_prefix(vis) + name + (if types.len() == 0 {
        Seq::empty()
    } else {
        "(["@ + types_debug_items(types) + "])"@
    })
}

fn variant_line_string(vis: Visibility, name: &String, types: &Vec<Type>, pre: &String) -> (r: String)
    ensures
        r@ == variant_line(vis, name@, types@, pre@),
{
    let mut r = with_text(pre, "Variant: ");
    push_str(&mut r, pub_prefix_str(vis));
    push_string(&mut r, name);
    let t = if types.len() == 0 {
        String::new()
    } else {
        let mut x = text_of("([");
        push_string(&mut x, &types_debug_items_string(types));
        push_str(&mut x, "])");
        x
    };
    push_string(&mut r, &t);
    r
}

/// The dump of an enum.
pub open spec fn enum_dump(d: EnumDef, pre: Seq<char>) -> Seq<Seq<char>> {
    seq![pre + "EnumDef: "@ + pub_prefix(d.visibility) + d.name@ + generic_params_text(d.generic_params@)]
        + enum_variant_lines(d.variants@, deeper(pre)) + fns_dump(d.methods@, deeper(pre))
}

fn enum_lines(d: &EnumDef, pre: &String) -> (r: Vec<String>)
    ensures
        lines_view(r@) == enum_dump(*d, pre@),
{
    let i1 = deeper_string(pre);
    let mut l = with_text(pre, "EnumDef: ");
    push_str(&mut l, pub_prefix_str(d.visibility));
    push_string(&mut l, &d.name);
    push_string(&mut l, &generic_params_string(&d.generic_params));
    let mut r = one_line(l);
    add_lines(&mut r, enum_variant_lines_lines(&d.variants, &i1));
    add_lines(&mut r, fns_dump_lines(&d.methods, &i1));
    r
}

/// The dump of an error type.
pub open spec fn error_dump(d: ErrorDef, pre: Seq<char>) -> Seq<Seq<char>> {
    seq![pre + "ErrorDef: "@ + pub_prefix(d.visibility) + d.name@] + error_variant_lines(d.variants@, deeper(pre))
}

fn error_lines(d: &ErrorDef, pre: &String) -> (r: Vec<String>)
    ensures
        lines_view(r@) == error_dump(*d, pre@),
{
    let mut l = with_text(pre, "ErrorDef: ");
    push_str(&mut l, pub_prefix_str(d.visibility));
    push_string(&mut l, &d.name);
    let mut r = one_line(l);
    add_lines(&mut r, error_variant_lines_lines(&d.variants, &deeper_string(pre)));
    r
}

/// An import as the dump shows it: `alias: "package"` or `"package"`.
pub open spec fn import_text(i: (Option<String>, String)) -> Seq<char> {
    match i.0 {
        Some(a) => a@ + ": \""@ + i.1@ + "\""@,
        None => "\""@ + i.1@ + "\""@,
    }
}

fn import_line(i: &(Option<String>, String), pre: &String) -> (r: String)
    ensures
        r@ == pre@ + import_text(*i),
{
    let mut r = pre.clone();
    let t = match &i.0 {
        Some(a) => {
            let mut x = a.clone();
            push_str(&mut x, ": \"");
            push_string(&mut x, &i.1);
            push_str(&mut x, "\"");
            x
        },
        None => {
            let mut x = text_of("\"");
            push_string(&mut x, &i.1);
            push_str(&mut x, "\"");
            x
        },
    };
    push_string(&mut r, &t);
    r
}

/// The import block of a program: `Imports:` and one line per import, or
/// nothing when there are none.
pub open spec fn imports_dump(is: Seq<(Option<String>, String)>, pre: Seq<char>) -> Seq<Seq<char>> {
    if is.len() == 0 { Seq::empty() } else { seq![pre + "Imports:"@] + import_lines(is, deeper(pre)) }
}

/// The dump of a program: its imports, then its structs, interfaces, enums,
/// error types, external functions and functions.
pub open spec fn program_dump(p: Program, pre: Seq<char>) -> Seq<Seq<char>> {
    let i1 = deeper(pre);
    seq![pre + "Program"@] + imports_dump(p.imports@, i1) + structs_dump(p.structs@, i1) + interfaces_dump(
        p.interfaces@,
        i1,
    ) + enums_dump(p.enums@, i1) + errors_dump(p.errors@, i1) + ext_fns_dump(p.external_functions@, i1) + fns_dump(
        p.functions@,
        i1,
    )
}

fn program_lines(p: &Program, pre: &String) -> (r: Vec<String>)
    ensures
        lines_view(r@) == program_dump(*p, pre@),
{
    let i1 = deeper_string(pre);
    let mut r = one_line(with_text(pre, "Program"));
    let imports = if p.imports.len() == 0 {
        let e: Vec<String> = Vec::new();
        assert(lines_view(e@) =~= Seq::<Seq<char>>::empty());
        e
    } else {
        let mut x = one_line(with_text(&i1, "Imports:"));
        add_lines(&mut x, import_lines_lines(&p.imports, &deeper_string(&i1)));
        x
    };
    add_lines(&mut r, imports);
    add_lines(&mut r, structs_dump_lines(&p.structs, &i1));
    add_lines(&mut r, interfaces_dump_lines(&p.interfaces, &i1));
    add_lines(&mut r, enums_dump_lines(&p.enums, &i1));
    add_lines(&mut r, errors_dump_lines(&p.errors, &i1));
    add_lines(&mut r, ext_fns_dump_lines(&p.external_functions, &i1));
    add_lines(&mut r, fns_dump_lines(&p.functions, &i1));
    r
}

/// Two spaces per level.
pub open spec fn indent_text(levels: nat) -> Seq<char>
    decreases levels,
{
    if levels == 0 { Seq::empty() } else { indent_text((levels - 1) as nat) + "  "@ }
}

/// The indentation the dump puts before a node at a nesting level: two
/// spaces per level.
pub fn print_indent(indent: usize) -> (r: String)
    ensures
        r@ == indent_text(indent as nat),
{
    let mut r = String::new();
    let mut k: usize = 0;
    while k < indent
        invariant
            k <= indent,
            r@ == indent_text(k as nat),
        decreases indent - k,
    {
        push_str(&mut r, "  ");
        k = k + 1;
    }
    r
}

/// Pretty-printing of syntax tree nodes as an indented tree, without span
/// information: the lines that `lang ast` prints.
pub trait AstDump {
    /// The lines of the dump of the node at the given nesting level.
    fn dump(&self, indent: usize) -> Vec<String>;
}

impl AstDump for Program {
    fn dump(&self, indent: usize) -> (r: Vec<String>)
        ensures
            lines_view(r@) == program_dump(*self, indent_text(indent as nat)),
    {
        program_lines(self, &print_indent(indent))
    }
}

impl AstDump for FnDef {
    fn dump(&self, indent: usize) -> (r: Vec<String>)
        ensures
            lines_view(r@) == fn_dump(*self, indent_text(indent as nat)),
    {
        fn_lines(self, &print_indent(indent))
    }
}

impl AstDump for ExternalFnDef {
    fn dump(&self, indent: usize) -> (r: Vec<String>)
        ensures
            lines_view(r@) == ext_fn_dump(*self, indent_text(indent as nat)),
    {
        ext_fn_lines(self, &print_indent(indent))
    }
}

impl AstDump for StructDef {
    fn dump(&self, indent: usize) -> (r: Vec<String>)
        ensures
            lines_view(r@) == struct_dump(*self, indent_text(indent as nat)),
    {
        struct_lines(self, &print_indent(indent))
    }
}

impl AstDump for InterfaceDef {
    fn dump(&self, indent: usize) -> (r: Vec<String>)
        ensures
            lines_view(r@) == interface_dump(*self, indent_text(indent as nat)),
    {
        interface_lines(self, &print_indent(indent))
    }
}

impl AstDump for EnumDef {
    fn dump(&self, indent: usize) -> (r: Vec<String>)
        ensures
            lines_view(r@) == enum_dump(*self, indent_text(indent as nat)),
    {
        enum_lines(self, &print_indent(indent))
    }
}

impl AstDump for ErrorDef {
    fn dump(&self, indent: usize) -> (r: Vec<String>)
        ensures
            lines_view(r@) == error_dump(*self, indent_text(indent as nat)),
    {
        error_lines(self, &print_indent(indent))
    }
}

impl AstDump for Stmt {
    fn dump(&self, indent: usize) -> (r: Vec<String>)
        ensures
            lines_view(r@) == stmt_dump(*self, indent_text(indent as nat)),
    {
        stmt_lines(self, &print_indent(indent))
    }
}

impl AstDump for Expr {
    fn dump(&self, indent: usize) -> (r: Vec<String>)
        ensures
            lines_view(r@) == expr_dump(*self, indent_text(indent as nat)),
    {
        expr_lines(self, &print_indent(indent))
    }
}

} // verus!
