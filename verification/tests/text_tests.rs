use langc::ast::{AssignOp, BinaryOp, Expr, FloatLit, Mutability, Span, Stmt, Type, Visibility};
use langc::ast_dump::{AstDump, print_indent};
use langc::hir::{HirCase, HirExpr, HirFn, HirProgram, HirStmt};
use langc::text::parse_u64;

fn hint(v: i64) -> HirExpr {
    HirExpr::Int(v, Type::I64, Span::default())
}

#[test]
fn hir_expression_texts() {
    assert_eq!(hint(5).text(), "5: i64");
    let add = HirExpr::Binary {
        op: BinaryOp::Add,
        left: Box::new(hint(1)),
        right: Box::new(hint(2)),
        ty: Type::I64,
        span: Span::default(),
    };
    assert_eq!(add.text(), "(1: i64 + 2: i64): i64");
    let call = HirExpr::Call {
        name: "println".to_string(),
        namespace: Some("io".to_string()),
        args: vec![HirExpr::String("hi".to_string(), Type::Array { size: None, element_type: Box::new(Type::U8) }, Span::default())],
        return_ty: Type::Void,
        target_ty: None,
        span: Span::default(),
    };
    assert_eq!(call.text(), "io::println(\"hi\": []u8): void");
    let imm = HirExpr::Int(3, Type::ImmInt, Span::default());
    assert_eq!(imm.text(), "3: imm_int");
    let null = HirExpr::Null(Type::Option(Box::new(Type::I32)), Span::default());
    assert_eq!(null.text(), "null: ?i32");
}

#[test]
fn hir_statement_texts() {
    let let_var = HirStmt::Let {
        name: "x".to_string(),
        ty: Type::I64,
        value: Some(hint(1)),
        mutability: Mutability::Var,
        span: Span::default(),
    };
    assert_eq!(let_var.with_indent(1), "    var let x i64 = 1: i64;\n");
    let let_const = HirStmt::Let {
        name: "b".to_string(),
        ty: Type::Bool,
        value: None,
        mutability: Mutability::Const,
        span: Span::default(),
    };
    assert_eq!(let_const.text(), "let b: bool;\n");
    let assign = HirStmt::Assign { target: "x".to_string(), op: AssignOp::ShlAssign, value: hint(2), span: Span::default() };
    assert_eq!(assign.text(), "x <<= 2: i64;\n");
    let brk = HirStmt::Break { label: Some("outer".to_string()), span: Span::default() };
    assert_eq!(brk.with_indent(2), "        break 'outer;\n");
    let ret = HirStmt::Return(None, Span::default());
    let cond = HirStmt::If {
        condition: HirExpr::Bool(true, Type::Bool, Span::default()),
        capture: Some("v".to_string()),
        then_branch: Box::new(ret),
        else_branch: None,
        span: Span::default(),
    };
    assert_eq!(cond.text(), "true: boolif @v {    return;\n}\n");
}

#[test]
fn hir_switch_case_text() {
    let case = HirCase {
        patterns: vec![hint(1), hint(2)],
        body: HirStmt::Expr(hint(0)),
        span: Span::default(),
    };
    assert_eq!(case.with_indent(1), "    1: i64 | 2: i64 => {        0: i64;\n    }\n");
}

#[test]
fn hir_function_and_program_texts() {
    let f = HirFn {
        name: "f".to_string(),
        params: vec![("a".to_string(), Type::I64)],
        return_ty: Type::Void,
        body: vec![HirStmt::Return(None, Span::default())],
        visibility: Visibility::Public,
        span: Span::default(),
    };
    assert_eq!(f.text(), "pub fn f(a: i64) -> void {\n    return;\n}");
    let g = HirFn {
        name: "g".to_string(),
        params: vec![],
        return_ty: Type::Bool,
        body: vec![],
        visibility: Visibility::Private,
        span: Span::default(),
    };
    let p = HirProgram { functions: vec![f, g] };
    assert_eq!(p.text(), "pub fn f(a: i64) -> void {\n    return;\n}\nfn g() -> bool {\n}");
}

#[test]
fn type_display_texts() {
    assert_eq!(Type::Result(Box::new(Type::Void)).text(), "void!");
    assert_eq!(Type::ImmFloat.text(), "imm_float");
    assert_eq!(
        Type::Function { params: vec![Type::I64, Type::Bool], return_type: Box::new(Type::Void) }.text(),
        "fn(i64, bool) void"
    );
}

#[test]
fn ast_dump_indents_two_spaces_per_level() {
    assert_eq!(print_indent(0), "");
    assert_eq!(print_indent(2), "    ");
    let add = Expr::Binary {
        op: BinaryOp::Add,
        left: Box::new(Expr::Int(1, Span::default())),
        right: Box::new(Expr::Float(FloatLit { bits: 2.5f64.to_bits(), text: "2.5".to_string() }, Span::default())),
        span: Span::default(),
    };
    assert_eq!(add.dump(0), vec!["Expr::Binary: Add", "  Expr::Int(1)", "  Expr::Float(2.5)"]);
}

#[test]
fn ast_dump_of_statements() {
    let let_stmt = Stmt::Let {
        mutability: Mutability::Const,
        name: "x".to_string(),
        names: None,
        ty: Some(Type::I64),
        value: Some(Expr::Int(5, Span::default())),
        visibility: Visibility::Public,
        span: Span::default(),
    };
    assert_eq!(let_stmt.dump(0), vec!["Stmt::Let: pub const x: i64", "  Value:", "    Expr::Int(5)"]);
    let import = Stmt::Import {
        packages: vec![(None, "io".to_string()), (Some("m".to_string()), "we\"ird".to_string())],
        span: Span::default(),
    };
    assert_eq!(import.dump(1), vec!["  Stmt::Import: [(None, \"io\"), (Some(\"m\"), \"we\\\"ird\")]"]);
}

#[test]
fn parse_u64_follows_from_str() {
    assert_eq!(parse_u64("42"), Some(42));
    assert_eq!(parse_u64("+7"), Some(7));
    assert_eq!(parse_u64("007"), Some(7));
    assert_eq!(parse_u64("18446744073709551615"), Some(u64::MAX));
    assert_eq!(parse_u64("18446744073709551616"), None);
    assert_eq!(parse_u64(""), None);
    assert_eq!(parse_u64("+"), None);
    assert_eq!(parse_u64("-1"), None);
    assert_eq!(parse_u64("1a"), None);
}

#[test]
fn parse_reads_back_what_push_u64_writes() {
    for n in [0u64, 7, 10, 12345, u64::MAX] {
        let mut s = String::new();
        langc::text::push_u64(&mut s, n);
        assert_eq!(parse_u64(&s), Some(n));
    }
}

#[test]
fn replacing_self_twice_is_replacing_once() {
    let mut t = Type::Function {
        params: vec![Type::Pointer(Box::new(Type::SelfType))],
        return_type: Box::new(Type::Option(Box::new(Type::SelfType))),
    };
    t.replace_self_with_args("Point", &[Type::I64]);
    let once = t.clone();
    t.replace_self_with_args("Point", &[Type::I64]);
    assert_eq!(t, once);
    let point = Type::Custom { name: "Point".to_string(), generic_args: vec![Type::I64], is_exported: false };
    assert_eq!(
        once,
        Type::Function {
            params: vec![Type::Pointer(Box::new(point.clone()))],
            return_type: Box::new(Type::Option(Box::new(point))),
        }
    );
}
