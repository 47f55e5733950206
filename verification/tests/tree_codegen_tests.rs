use inkwell::context::Context;
use langc::ast::{AssignOp, BinaryOp, Expr, FnDef, FnParam, FloatLit, Mutability, Program, Span, Stmt, Type, UnaryOp, Visibility};
use langc::codegen::emit::CodeGenerator;

fn sp() -> Span {
    Span::default()
}

fn lit(v: i64) -> Expr {
    Expr::Int(v, sp())
}

fn ident(n: &str) -> Expr {
    Expr::Ident(n.to_string(), sp())
}

fn let_stmt(name: &str, mutability: Mutability, ty: Option<Type>, value: Option<Expr>) -> Stmt {
    Stmt::Let { mutability, name: name.to_string(), names: None, ty, value, visibility: Visibility::Private, span: sp() }
}

fn fn_def(name: &str, params: Vec<FnParam>, return_ty: Type, body: Vec<Stmt>) -> FnDef {
    FnDef {
        name: name.to_string(),
        visibility: Visibility::Private,
        params,
        return_ty,
        body,
        generic_params: vec![],
        generic_constraints: vec![],
        span: sp(),
    }
}

/// A generator writing into the entry block of a function `test_fn`
/// returning `i64`.
fn generator_in_fn<'ctx>(context: &'ctx Context) -> CodeGenerator<'ctx> {
    let mut codegen = CodeGenerator::new(context, "test_module");
    let function = codegen.module.add_function("test_fn", context.i64_type().fn_type(&[], false), None);
    let entry = context.append_basic_block(function, "entry");
    codegen.builder.raw.position_at_end(entry);
    codegen.current_function = Some(function);
    codegen
}

#[test]
fn tree_function_returns_its_value() {
    let context = Context::create();
    let mut codegen = CodeGenerator::new(&context, "test_module");
    codegen.module.add_function("main", context.i64_type().fn_type(&[], false), None);
    let f = fn_def("main", vec![], Type::I64, vec![Stmt::Return { value: Some(lit(42)), span: sp() }]);
    assert_eq!(codegen.generate_function(&f), Ok(()));
    assert!(codegen.current_function.is_none());
    let ir = codegen.print_ir();
    assert!(ir.contains("define i64 @main()"));
    assert!(ir.contains("ret i64 42"));
    assert!(ir.contains("ret i64 0"));
}

#[test]
fn tree_function_must_be_declared() {
    let context = Context::create();
    let mut codegen = CodeGenerator::new(&context, "test_module");
    let f = fn_def("missing", vec![], Type::Void, vec![]);
    assert_eq!(codegen.generate_function(&f), Err("Function not declared: missing".to_string()));
}

#[test]
fn tree_function_parameters_live_in_slots() {
    let context = Context::create();
    let mut codegen = CodeGenerator::new(&context, "test_module");
    let i64_type = context.i64_type();
    codegen.module.add_function("twice", i64_type.fn_type(&[i64_type.into()], false), None);
    let f = fn_def(
        "twice",
        vec![FnParam { name: "n".to_string(), ty: Type::I64 }],
        Type::I64,
        vec![Stmt::Return {
            value: Some(Expr::Binary { op: BinaryOp::Add, left: Box::new(ident("n")), right: Box::new(ident("n")), span: sp() }),
            span: sp(),
        }],
    );
    assert_eq!(codegen.generate_function(&f), Ok(()));
    let ir = codegen.print_ir();
    assert!(ir.contains("%n = alloca i64"));
    assert!(ir.contains("add i64"));
}

#[test]
fn tree_let_records_declared_or_inferred_type() {
    let context = Context::create();
    let mut codegen = generator_in_fn(&context);
    assert_eq!(codegen.generate_stmt(&let_stmt("a", Mutability::Var, Some(Type::I32), Some(lit(7)))), Ok(()));
    assert_eq!(codegen.generate_stmt(&let_stmt("b", Mutability::Var, None, Some(Expr::Bool(true, sp())))), Ok(()));
    assert_eq!(codegen.generate_stmt(&let_stmt("c", Mutability::Var, None, None)), Ok(()));
    let a = codegen.lookup_variable("a").unwrap();
    let b = codegen.lookup_variable("b").unwrap();
    let c = codegen.lookup_variable("c").unwrap();
    assert_eq!(codegen.variables[a].ty, Type::I32);
    assert_eq!(codegen.variables[b].ty, Type::I64);
    assert_eq!(codegen.variables[c].ty, Type::I64);
    let ir = codegen.print_ir();
    assert!(ir.contains("%a = alloca i32"));
    assert!(ir.contains("%b = alloca i64"));
}

#[test]
fn tree_constant_cannot_be_reassigned() {
    let context = Context::create();
    let mut codegen = generator_in_fn(&context);
    assert_eq!(codegen.generate_stmt(&let_stmt("x", Mutability::Const, Some(Type::I64), Some(lit(1)))), Ok(()));
    assert_eq!(codegen.const_names, vec!["x".to_string()]);
    let assign = Stmt::Assign { target: "x".to_string(), op: AssignOp::Assign, value: lit(2), span: sp() };
    assert_eq!(codegen.generate_stmt(&assign), Err("Cannot reassign constant variable 'x'".to_string()));
}

#[test]
fn tree_assignment_to_unknown_variable_fails() {
    let context = Context::create();
    let mut codegen = generator_in_fn(&context);
    let assign = Stmt::Assign { target: "y".to_string(), op: AssignOp::AddAssign, value: lit(2), span: sp() };
    assert_eq!(codegen.generate_stmt(&assign), Err("Variable not found: y".to_string()));
    let member = Stmt::Assign { target: "p.x".to_string(), op: AssignOp::Assign, value: lit(2), span: sp() };
    assert_eq!(codegen.generate_stmt(&member), Err("Var not found".to_string()));
}

#[test]
fn tree_compound_assignment_updates_in_place() {
    let context = Context::create();
    let mut codegen = generator_in_fn(&context);
    assert_eq!(codegen.generate_stmt(&let_stmt("x", Mutability::Var, Some(Type::I64), Some(lit(10)))), Ok(()));
    let assign = Stmt::Assign { target: "x".to_string(), op: AssignOp::DivAssign, value: lit(2), span: sp() };
    assert_eq!(codegen.generate_stmt(&assign), Ok(()));
    let ir = codegen.print_ir();
    assert!(ir.contains("%tmp = load i64, i64* %x"));
    assert!(ir.contains("%divtmp = sdiv i64 %tmp, 2"));
    assert!(ir.contains("store i64 %divtmp, i64* %x"));
}

#[test]
fn tree_unknown_variable_is_an_error() {
    let context = Context::create();
    let mut codegen = generator_in_fn(&context);
    assert_eq!(codegen.generate_expr(&ident("nope")).err(), Some("Variable not found: nope".to_string()));
}

#[test]
fn tree_binary_operators_are_signed() {
    let context = Context::create();
    let mut codegen = generator_in_fn(&context);
    assert_eq!(codegen.generate_stmt(&let_stmt("a", Mutability::Var, Some(Type::I64), Some(lit(9)))), Ok(()));
    let div = Expr::Binary { op: BinaryOp::Div, left: Box::new(ident("a")), right: Box::new(lit(2)), span: sp() };
    let lt = Expr::Binary { op: BinaryOp::Lt, left: Box::new(ident("a")), right: Box::new(lit(3)), span: sp() };
    let rem = Expr::Binary { op: BinaryOp::Mod, left: Box::new(ident("a")), right: Box::new(lit(4)), span: sp() };
    assert!(codegen.generate_expr(&div).is_ok());
    assert!(codegen.generate_expr(&lt).is_ok());
    assert!(codegen.generate_expr(&rem).is_ok());
    let ir = codegen.print_ir();
    assert!(ir.contains("%div = sdiv i64 %a"));
    assert!(ir.contains("%lt = icmp slt i64 %a"));
    assert!(ir.contains("%rem = srem i64 %a"));
}

#[test]
fn tree_unary_negation_subtracts_from_zero() {
    let context = Context::create();
    let mut codegen = generator_in_fn(&context);
    assert_eq!(codegen.generate_stmt(&let_stmt("a", Mutability::Var, Some(Type::I64), Some(lit(9)))), Ok(()));
    let neg = Expr::Unary { op: UnaryOp::Neg, expr: Box::new(ident("a")), span: sp() };
    let not = Expr::Unary { op: UnaryOp::Not, expr: Box::new(ident("a")), span: sp() };
    assert!(codegen.generate_expr(&neg).is_ok());
    assert!(codegen.generate_expr(&not).is_ok());
    let ir = codegen.print_ir();
    assert!(ir.contains("%neg = sub i64 0, %a"));
    assert!(ir.contains("%not = icmp eq i64 %a"));
}

#[test]
fn tree_float_literal_keeps_its_value() {
    let context = Context::create();
    let mut codegen = generator_in_fn(&context);
    let value = Expr::Float(FloatLit { bits: 2.5f64.to_bits(), text: "2.5".to_string() }, sp());
    assert_eq!(codegen.generate_stmt(&let_stmt("f", Mutability::Var, None, Some(value))), Ok(()));
    let k = codegen.lookup_variable("f").unwrap();
    assert_eq!(codegen.variables[k].ty, Type::F64);
    let ir = codegen.print_ir();
    assert!(ir.contains("store double 2.500000e+00, double* %f"));
}

#[test]
fn tree_duplicate_import_is_refused() {
    let context = Context::create();
    let mut codegen = generator_in_fn(&context);
    let first = Stmt::Import { packages: vec![(None, "io".to_string())], span: sp() };
    assert_eq!(codegen.generate_stmt(&first), Ok(()));
    assert_eq!(codegen.imported_packages, vec![("io".to_string(), "io".to_string())]);
    assert_eq!(codegen.generate_stmt(&first), Err("Duplicate import: 'io' is already imported".to_string()));
    let aliased = Stmt::Import { packages: vec![(Some("out".to_string()), "io".to_string())], span: sp() };
    assert_eq!(codegen.generate_stmt(&aliased), Err("Package 'io' is already imported as 'io'".to_string()));
    assert_eq!(codegen.imported_packages.len(), 1);
}

#[test]
fn tree_import_declares_loaded_package_functions() {
    let context = Context::create();
    let mut codegen = generator_in_fn(&context);
    let package = Program {
        functions: vec![fn_def("sqrt", vec![FnParam { name: "x".to_string(), ty: Type::I64 }], Type::I64, vec![])],
        external_functions: vec![],
        structs: vec![],
        interfaces: vec![],
        enums: vec![],
        errors: vec![],
        imports: vec![],
    };
    codegen.packages.push(("math".to_string(), package));
    let import = Stmt::Import { packages: vec![(Some("m".to_string()), "math".to_string())], span: sp() };
    assert_eq!(codegen.generate_stmt(&import), Ok(()));
    assert_eq!(codegen.imported_packages, vec![("m".to_string(), "math".to_string())]);
    assert!(codegen.print_ir().contains("declare i64 @test_module_sqrt(i64)"));
}

#[test]
fn tree_break_outside_loop_is_an_error() {
    let context = Context::create();
    let mut codegen = generator_in_fn(&context);
    let stmt = Stmt::Break { label: None, span: Span { start: 3, end: 8 } };
    assert_eq!(
        codegen.generate_stmt(&stmt),
        Err("break statement outside of loop at span Span { start: 3, end: 8 }".to_string())
    );
    let stmt = Stmt::Continue { label: Some("outer".to_string()), span: sp() };
    assert_eq!(
        codegen.generate_stmt(&stmt),
        Err("continue statement outside of loop at span Span { start: 0, end: 0 }".to_string())
    );
}

#[test]
fn tree_if_statement_branches_and_merges() {
    let context = Context::create();
    let mut codegen = generator_in_fn(&context);
    let stmt = Stmt::If {
        condition: Expr::Bool(true, sp()),
        capture: None,
        then_branch: Box::new(Stmt::Return { value: Some(lit(1)), span: sp() }),
        else_branch: Some(Box::new(Stmt::Return { value: Some(lit(0)), span: sp() })),
        span: sp(),
    };
    assert_eq!(codegen.generate_stmt(&stmt), Ok(()));
    let ir = codegen.print_ir();
    assert!(ir.contains("then:"));
    assert!(ir.contains("else:"));
    assert!(ir.contains("ifcont:"));
    assert!(ir.contains("ret i64 1"));
    assert!(ir.contains("ret i64 0"));
}

#[test]
fn tree_if_expression_merges_with_a_phi() {
    let context = Context::create();
    let mut codegen = generator_in_fn(&context);
    let e = Expr::If {
        condition: Box::new(lit(1)),
        capture: None,
        then_branch: Box::new(lit(10)),
        else_branch: Box::new(lit(20)),
        span: sp(),
    };
    assert!(codegen.generate_expr(&e).is_ok());
    let ir = codegen.print_ir();
    assert!(ir.contains("%ifphi = phi i64 [ 10, %then ], [ 20, %else ]"));
}

#[test]
fn tree_println_with_format_string() {
    let context = Context::create();
    let mut codegen = generator_in_fn(&context);
    let call = Expr::Call {
        name: "println".to_string(),
        namespace: Some("io".to_string()),
        args: vec![Expr::String("n = {d}".to_string(), sp()), lit(5)],
        generic_args: vec![],
        span: sp(),
    };
    assert!(codegen.generate_expr(&call).is_ok());
    let ir = codegen.print_ir();
    assert!(ir.contains("declare i64 @printf(i8*, ...)"));
    assert!(ir.contains("c\"n = %lld\\0A\\00\""));
    assert!(ir.contains("i64 5)"));
}

#[test]
fn tree_call_of_unknown_function_fails() {
    let context = Context::create();
    let mut codegen = generator_in_fn(&context);
    let call = Expr::Call { name: "nowhere".to_string(), namespace: None, args: vec![], generic_args: vec![], span: sp() };
    assert_eq!(
        codegen.generate_expr(&call).err(),
        Some("Function not found: test_module_nowhere (original: nowhere)".to_string())
    );
}

#[test]
fn tree_block_gives_its_last_expression() {
    let context = Context::create();
    let mut codegen = generator_in_fn(&context);
    let block = Expr::Block {
        stmts: vec![let_stmt("t", Mutability::Var, Some(Type::I64), Some(lit(3))), Stmt::Expr { expr: ident("t"), span: sp() }],
        span: sp(),
    };
    let v = codegen.generate_expr(&block).unwrap();
    assert!(matches!(v.ty, langc::codegen::types::LType::Int(64)));
}

#[test]
fn tree_labelled_break_searches_the_innermost_loop_only() {
    let context = Context::create();
    let mut codegen = generator_in_fn(&context);
    let function = codegen.current_function.unwrap();
    let outer_end = context.append_basic_block(function, "outer_end");
    let inner_end = context.append_basic_block(function, "inner_end");
    codegen.loop_end_blocks.push_loop(outer_end, Some("outer".to_string()));
    codegen.loop_end_blocks.push_loop(inner_end, None);
    let stmt = Stmt::Break { label: Some("outer".to_string()), span: sp() };
    assert_eq!(
        codegen.generate_stmt(&stmt),
        Err("break statement with label 'outer' not found in scope at span Span { start: 0, end: 0 }".to_string())
    );
    let stmt = Stmt::Break { label: None, span: sp() };
    assert_eq!(codegen.generate_stmt(&stmt), Ok(()));
    assert!(codegen.print_ir().contains("br label %inner_end"));
}
