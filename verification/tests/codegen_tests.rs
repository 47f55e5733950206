use inkwell::context::Context;
use inkwell::values::FunctionValue;
use langc::ast::{AssignOp, BinaryOp, Mutability, Span, Type};
use langc::codegen::emit::{CodeGenerator, StructLayout};
use langc::codegen::types::LType;
use langc::hir::{HirCase, HirExpr, HirStmt};

/// A generator with a function `test_fn` of the given result type whose
/// entry block the builder writes to.
fn generator_in_fn<'ctx>(context: &'ctx Context, returns_i64: bool) -> (CodeGenerator<'ctx>, FunctionValue<'ctx>) {
    let mut codegen = CodeGenerator::new(context, "test_module");
    let fn_type = if returns_i64 {
        context.i64_type().fn_type(&[], false)
    } else {
        context.void_type().fn_type(&[], false)
    };
    let function = codegen.module.add_function("test_fn", fn_type, None);
    let entry_block = context.append_basic_block(function, "entry");
    codegen.builder.raw.position_at_end(entry_block);
    codegen.current_function = Some(function);
    (codegen, function)
}

fn i64_lit(v: i64) -> HirExpr {
    HirExpr::Int(v, Type::I64, Span::default())
}

#[test]
fn test_generate_let_stmt() -> Result<(), Box<dyn std::error::Error>> {
    let context = Context::create();
    let (mut codegen, _) = generator_in_fn(&context, true);

    let let_stmt = HirStmt::Let {
        name: "x".to_string(),
        ty: Type::I64,
        value: Some(i64_lit(42)),
        mutability: Mutability::Var,
        span: Span::default(),
    };
    codegen.generate_hir_stmt(&let_stmt)?;

    let k = codegen.lookup_variable("x").expect("x is in scope");
    assert_eq!(codegen.variables[k].ty, Type::I64);

    let ir = codegen.print_ir();
    assert!(ir.contains("%x = alloca i64"));
    // LLVM 14 prints typed pointers (`i64*` where newer releases print `ptr`).
    assert!(ir.contains("store i64 42, i64* %x"));
    Ok(())
}

#[test]
fn test_generate_assign_stmt() -> Result<(), Box<dyn std::error::Error>> {
    let context = Context::create();
    let (mut codegen, _) = generator_in_fn(&context, true);

    let let_stmt = HirStmt::Let {
        name: "x".to_string(),
        ty: Type::I64,
        value: Some(i64_lit(10)),
        mutability: Mutability::Var,
        span: Span::default(),
    };
    codegen.generate_hir_stmt(&let_stmt)?;

    let assign_stmt = HirStmt::Assign {
        target: "x".to_string(),
        op: AssignOp::Assign,
        value: i64_lit(20),
        span: Span::default(),
    };
    codegen.generate_hir_stmt(&assign_stmt)?;

    let ir = codegen.print_ir();
    assert!(ir.contains("store i64 10, i64* %x"));
    assert!(ir.contains("store i64 20, i64* %x"));
    Ok(())
}

#[test]
fn test_generate_if_stmt() -> Result<(), Box<dyn std::error::Error>> {
    let context = Context::create();
    let (mut codegen, _) = generator_in_fn(&context, true);
    codegen.return_type = Some(Type::I64);

    let if_stmt = HirStmt::If {
        condition: HirExpr::Bool(true, Type::Bool, Span::default()),
        capture: None,
        then_branch: Box::new(HirStmt::Return(Some(i64_lit(1)), Span::default())),
        else_branch: Some(Box::new(HirStmt::Return(Some(i64_lit(0)), Span::default()))),
        span: Span::default(),
    };
    codegen.generate_hir_stmt(&if_stmt)?;

    let ir = codegen.print_ir();
    assert!(ir.contains("br i1 true, label %then, label %else"));
    assert!(ir.contains("then:"));
    assert!(ir.contains("ret i64 1"));
    assert!(ir.contains("else:"));
    assert!(ir.contains("ret i64 0"));
    Ok(())
}

#[test]
fn test_generate_return_stmt() -> Result<(), Box<dyn std::error::Error>> {
    let context = Context::create();
    let (mut codegen, _) = generator_in_fn(&context, true);
    codegen.return_type = Some(Type::I64);

    let ret_stmt = HirStmt::Return(Some(i64_lit(123)), Span::default());
    codegen.generate_hir_stmt(&ret_stmt)?;

    let ir = codegen.print_ir();
    assert!(ir.contains("ret i64 123"));
    Ok(())
}

#[test]
fn test_generate_member_assign_stmt() -> Result<(), Box<dyn std::error::Error>> {
    let context = Context::create();
    let (mut codegen, _) = generator_in_fn(&context, false);
    codegen.structs.push(StructLayout {
        name: "Point".to_string(),
        fields: vec!["x".to_string()],
        types: vec![LType::Int(64)],
    });

    let i64_type = context.i64_type();
    let point_type = context.opaque_struct_type("Point");
    point_type.set_body(&[i64_type.into()], false);

    let p_alloca = codegen.builder.raw.build_alloca(point_type, "p")?;
    codegen.add_variable(
        &"p".to_string(),
        p_alloca,
        &Type::Custom { name: "Point".to_string(), generic_args: vec![], is_exported: false },
        false,
    );

    let assign_stmt = HirStmt::Assign {
        target: "p.x".to_string(),
        op: AssignOp::Assign,
        value: i64_lit(42),
        span: Span::default(),
    };
    codegen.generate_hir_stmt(&assign_stmt)?;

    let ir = codegen.print_ir();
    assert!(ir.contains("getelementptr"));
    assert!(ir.contains("store i64 42"));
    Ok(())
}

fn range(start: i64, end: i64) -> HirExpr {
    HirExpr::Binary {
        op: BinaryOp::Range,
        left: Box::new(i64_lit(start)),
        right: Box::new(i64_lit(end)),
        ty: Type::Tuple(vec![Type::I64, Type::I64]),
        span: Span::default(),
    }
}

#[test]
fn test_generate_for_range_stmt() -> Result<(), Box<dyn std::error::Error>> {
    let context = Context::create();
    let (mut codegen, _) = generator_in_fn(&context, false);
    codegen.return_type = Some(Type::Void);

    let for_stmt = HirStmt::For {
        label: None,
        var_name: Some("i".to_string()),
        index_var: None,
        iterable: range(0, 10),
        body: Box::new(HirStmt::Expr(i64_lit(0))),
        span: Span::default(),
    };
    codegen.generate_hir_stmt(&for_stmt)?;

    let ir = codegen.print_ir();
    assert!(ir.contains("for_eval:"));
    assert!(ir.contains("for_cond:"));
    assert!(ir.contains("icmp slt i64 %range_start, %range_end"));
    Ok(())
}

#[test]
fn test_generate_continue_uses_loop_latch() -> Result<(), Box<dyn std::error::Error>> {
    let context = Context::create();
    let (mut codegen, _) = generator_in_fn(&context, false);
    codegen.return_type = Some(Type::Void);

    let for_stmt = HirStmt::For {
        label: None,
        var_name: Some("i".to_string()),
        index_var: None,
        iterable: range(1, 5),
        body: Box::new(HirStmt::If {
            condition: HirExpr::Binary {
                op: BinaryOp::Gt,
                left: Box::new(HirExpr::Ident("i".to_string(), Type::I64, Span::default())),
                right: Box::new(i64_lit(3)),
                ty: Type::Bool,
                span: Span::default(),
            },
            capture: None,
            then_branch: Box::new(HirStmt::Continue { label: None, span: Span::default() }),
            else_branch: None,
            span: Span::default(),
        }),
        span: Span::default(),
    };
    codegen.generate_hir_stmt(&for_stmt)?;

    let ir = codegen.print_ir();
    assert!(ir.contains("for_continue:"));
    assert!(ir.contains("then:"));
    assert!(ir.contains("br label %for_continue"));
    assert!(ir.contains("start_inc = add i64"));
    Ok(())
}

#[test]
fn test_generate_option_for_re_evaluates_iterable_and_stops_on_null() -> Result<(), Box<dyn std::error::Error>> {
    let context = Context::create();
    let (mut codegen, _) = generator_in_fn(&context, false);
    codegen.return_type = Some(Type::Void);

    let option_i64_type = context.struct_type(&[context.i64_type().into(), context.bool_type().into()], false);
    let next_fn_type = option_i64_type.fn_type(&[], false);
    codegen.module.add_function("test_module_next", next_fn_type, None);

    let for_stmt = HirStmt::For {
        label: None,
        var_name: Some("item".to_string()),
        index_var: None,
        iterable: HirExpr::Call {
            name: "next".to_string(),
            namespace: None,
            args: vec![],
            return_ty: Type::Option(Box::new(Type::I64)),
            target_ty: None,
            span: Span::default(),
        },
        body: Box::new(HirStmt::Expr(i64_lit(0))),
        span: Span::default(),
    };
    codegen.generate_hir_stmt(&for_stmt)?;

    let ir = codegen.print_ir();
    let for_eval_pos = ir.find("for_eval:").ok_or("missing for_eval block")?;
    let call_pos = ir.find("call { i64, i1 } @test_module_next()").ok_or("missing next() call in IR")?;
    assert!(call_pos > for_eval_pos);
    assert_eq!(ir.matches("call { i64, i1 } @test_module_next()").count(), 1);
    assert!(ir.contains("br i1 %is_null, label %for_end, label %for_body"));
    Ok(())
}

#[test]
fn test_generate_switch_stmt() -> Result<(), Box<dyn std::error::Error>> {
    let context = Context::create();
    let (mut codegen, _) = generator_in_fn(&context, true);
    codegen.return_type = Some(Type::I64);

    let let_stmt = HirStmt::Let {
        name: "x".to_string(),
        ty: Type::I64,
        value: Some(i64_lit(1)),
        mutability: Mutability::Var,
        span: Span::default(),
    };
    codegen.generate_hir_stmt(&let_stmt)?;

    let switch_stmt = HirStmt::Switch {
        condition: HirExpr::Ident("x".to_string(), Type::I64, Span::default()),
        cases: vec![
            HirCase {
                patterns: vec![i64_lit(1)],
                body: HirStmt::Return(Some(i64_lit(10)), Span::default()),
                span: Span::default(),
            },
            HirCase {
                patterns: vec![HirExpr::Ident("_".to_string(), Type::I64, Span::default())],
                body: HirStmt::Return(Some(i64_lit(20)), Span::default()),
                span: Span::default(),
            },
        ],
        span: Span::default(),
    };
    codegen.generate_hir_stmt(&switch_stmt)?;

    let ir = codegen.print_ir();
    assert!(ir.contains("case_body:"));
    assert!(ir.contains("next_case:"));
    assert!(ir.contains("switch_end:"));
    assert!(ir.contains("icmp eq i64 %x1, 1"));
    Ok(())
}

#[test]
fn test_generate_break_stmt() -> Result<(), Box<dyn std::error::Error>> {
    let context = Context::create();
    let (mut codegen, function) = generator_in_fn(&context, false);
    codegen.return_type = Some(Type::Void);

    let end_block = context.append_basic_block(function, "loop_end");
    codegen.loop_end_blocks.push_loop(end_block, None);

    let break_stmt = HirStmt::Break { label: None, span: Span::default() };
    codegen.generate_hir_stmt(&break_stmt)?;

    let ir = codegen.print_ir();
    assert!(ir.contains("br label %loop_end"));
    Ok(())
}

fn result_i64() -> Type {
    Type::Result(Box::new(Type::I64))
}

/// A generator in a function `test_fn` returning `{ i64, i1 }` (an `i64!`)
/// with a module function `test_module_fetch` of that type to call.
fn generator_returning_result<'ctx>(context: &'ctx Context) -> CodeGenerator<'ctx> {
    let mut codegen = CodeGenerator::new(context, "test_module");
    let result_type = context.struct_type(&[context.i64_type().into(), context.bool_type().into()], false);
    let function = codegen.module.add_function("test_fn", result_type.fn_type(&[], false), None);
    codegen.module.add_function("test_module_fetch", result_type.fn_type(&[], false), None);
    let entry_block = context.append_basic_block(function, "entry");
    codegen.builder.raw.position_at_end(entry_block);
    codegen.current_function = Some(function);
    codegen.return_type = Some(result_i64());
    codegen
}

fn fetch_call() -> HirExpr {
    HirExpr::Call {
        name: "fetch".to_string(),
        namespace: None,
        args: vec![],
        return_ty: result_i64(),
        target_ty: None,
        span: Span::default(),
    }
}

#[test]
fn try_in_a_result_function_returns_the_error() -> Result<(), Box<dyn std::error::Error>> {
    let context = Context::create();
    let mut codegen = generator_returning_result(&context);
    let e = HirExpr::Try { expr: Box::new(fetch_call()), ty: Type::I64, span: Span::default() };
    let v = codegen.generate_hir_expr(&e)?;
    assert!(matches!(v.ty, LType::Int(64)));
    let ir = codegen.print_ir();
    assert!(ir.contains("%is_error = extractvalue { i64, i1 } %call, 1"));
    assert!(ir.contains("br i1 %is_error, label %try_error, label %try_continue"));
    assert!(ir.contains("ret { i64, i1 } %call"));
    assert!(ir.contains("%try_value = extractvalue { i64, i1 } %call, 0"));
    Ok(())
}

#[test]
fn try_outside_a_result_function_keeps_the_value() -> Result<(), Box<dyn std::error::Error>> {
    let context = Context::create();
    let (mut codegen, _) = generator_in_fn(&context, true);
    codegen.return_type = Some(Type::I64);
    let e = HirExpr::Try { expr: Box::new(i64_lit(7)), ty: Type::I64, span: Span::default() };
    let v = codegen.generate_hir_expr(&e)?;
    assert!(matches!(v.ty, LType::Int(64)));
    assert!(!codegen.print_ir().contains("try_error"));
    Ok(())
}

#[test]
fn catch_merges_fallback_and_payload() -> Result<(), Box<dyn std::error::Error>> {
    let context = Context::create();
    let mut codegen = generator_returning_result(&context);
    let e = HirExpr::Catch {
        expr: Box::new(fetch_call()),
        error_var: None,
        body: Box::new(i64_lit(-1)),
        ty: Type::I64,
        span: Span::default(),
    };
    codegen.generate_hir_expr(&e)?;
    let ir = codegen.print_ir();
    assert!(ir.contains("br i1 %is_error, label %catch_body, label %catch_continue"));
    assert!(ir.contains("%catch_result = phi i64 [ -1, %catch_body ], [ %inner_value, %entry ]"));
    Ok(())
}

#[test]
fn error_return_from_main_prints_and_exits() -> Result<(), Box<dyn std::error::Error>> {
    let context = Context::create();
    let mut codegen = CodeGenerator::new(&context, "test_module");
    let main = codegen.module.add_function("main", context.i64_type().fn_type(&[], false), None);
    let entry_block = context.append_basic_block(main, "entry");
    codegen.builder.raw.position_at_end(entry_block);
    codegen.current_function = Some(main);
    codegen.return_type = Some(Type::Result(Box::new(Type::Void)));
    let ret = HirStmt::Return(
        Some(HirExpr::MemberAccess {
            object: Box::new(HirExpr::Ident("IoError".to_string(), Type::Error, Span::default())),
            member: "NotFound".to_string(),
            ty: Type::Error,
            span: Span::default(),
        }),
        Span::default(),
    );
    codegen.generate_hir_stmt(&ret)?;
    let ir = codegen.print_ir();
    assert!(ir.contains("@__lang_last_error_message = global i8* null"));
    assert!(ir.contains("c\"IoError.NotFound\\00\""));
    assert!(ir.contains("main_error_print:"));
    assert!(ir.contains("main_error_print_fallback:"));
    assert!(ir.contains("ret i64 1"));
    Ok(())
}

#[test]
fn error_return_from_a_result_function_sets_the_flag() -> Result<(), Box<dyn std::error::Error>> {
    let context = Context::create();
    let mut codegen = generator_returning_result(&context);
    let ret = HirStmt::Return(
        Some(HirExpr::MemberAccess {
            object: Box::new(HirExpr::Ident("IoError".to_string(), Type::Error, Span::default())),
            member: "Closed".to_string(),
            ty: Type::Error,
            span: Span::default(),
        }),
        Span::default(),
    );
    codegen.generate_hir_stmt(&ret)?;
    let ir = codegen.print_ir();
    assert!(ir.contains("ret { i64, i1 } { i64 0, i1 true }"));
    Ok(())
}

#[test]
fn intrinsics_by_name() -> Result<(), Box<dyn std::error::Error>> {
    let context = Context::create();
    let (mut codegen, _) = generator_in_fn(&context, true);
    let is_null = HirExpr::Intrinsic {
        name: "@is_null".to_string(),
        args: vec![HirExpr::Null(Type::RawPtr, Span::default())],
        ty: Type::Bool,
        span: Span::default(),
    };
    assert_eq!(
        codegen.generate_hir_expr(&is_null).err(),
        Some("Invalid argument type for null check".to_string())
    );
    let type_of = HirExpr::Intrinsic {
        name: "@type_of".to_string(),
        args: vec![i64_lit(3)],
        ty: Type::Array { size: None, element_type: Box::new(Type::U8) },
        span: Span::default(),
    };
    let v = codegen.generate_hir_expr(&type_of)?;
    assert!(matches!(v.ty, LType::Struct(_)));
    assert!(codegen.print_ir().contains("c\"i64\\00\""));
    let size_of = HirExpr::Intrinsic { name: "@size_of".to_string(), args: vec![i64_lit(3)], ty: Type::U64, span: Span::default() };
    assert_eq!(
        codegen.generate_hir_expr(&size_of).err(),
        Some("Argument to @size_of must be a type literal".to_string())
    );
    let unknown = HirExpr::Intrinsic { name: "@nope".to_string(), args: vec![], ty: Type::Void, span: Span::default() };
    assert_eq!(codegen.generate_hir_expr(&unknown).err(), Some("Intrinsic function '@nope' not found".to_string()));
    Ok(())
}

#[test]
fn null_checks_on_integer_addresses() -> Result<(), Box<dyn std::error::Error>> {
    let context = Context::create();
    let (mut codegen, _) = generator_in_fn(&context, true);
    let check = |name: &str| HirExpr::Intrinsic { name: name.to_string(), args: vec![i64_lit(0)], ty: Type::Bool, span: Span::default() };
    codegen.generate_hir_expr(&check("@is_null"))?;
    codegen.generate_hir_expr(&check("@is_not_null"))?;
    assert_eq!(langc::builtin::get_intrinsics().len(), 5);
    assert_eq!(langc::builtin::IsNotNullIntrinsic.name(), "@is_not_null");
    assert_eq!(langc::builtin::BitCastIntrinsic.name(), "@bit_cast");
    Ok(())
}

fn array_of_i64(size: Option<usize>) -> Type {
    Type::Array { size, element_type: Box::new(Type::I64) }
}

/// A generator holding `let a: [3]i64 = [1, 2, 3];`.
fn generator_with_array<'ctx>(context: &'ctx Context) -> Result<CodeGenerator<'ctx>, Box<dyn std::error::Error>> {
    let (mut codegen, _) = generator_in_fn(context, true);
    let let_stmt = HirStmt::Let {
        name: "a".to_string(),
        ty: array_of_i64(Some(3)),
        value: Some(HirExpr::Array {
            vals: vec![i64_lit(1), i64_lit(2), i64_lit(3)],
            ty: array_of_i64(Some(3)),
            span: Span::default(),
        }),
        mutability: Mutability::Var,
        span: Span::default(),
    };
    codegen.generate_hir_stmt(&let_stmt)?;
    Ok(codegen)
}

fn ident_a() -> HirExpr {
    HirExpr::Ident("a".to_string(), array_of_i64(Some(3)), Span::default())
}

#[test]
fn array_literal_is_stored_as_a_constant() -> Result<(), Box<dyn std::error::Error>> {
    let context = Context::create();
    let codegen = generator_with_array(&context)?;
    let ir = codegen.print_ir();
    assert!(ir.contains("%array = alloca [3 x i64]"));
    assert!(ir.contains("store [3 x i64] [i64 1, i64 2, i64 3], [3 x i64]* %array"));
    assert!(ir.contains("%array_load = load [3 x i64], [3 x i64]* %array"));
    Ok(())
}

#[test]
fn array_literal_without_array_type_is_refused() {
    let context = Context::create();
    let (mut codegen, _) = generator_in_fn(&context, true);
    let e = HirExpr::Array { vals: vec![i64_lit(1)], ty: Type::I64, span: Span::default() };
    let err = codegen.generate_hir_expr(&e).err().expect("refused");
    assert_eq!(err, "Array expression is missing an array type");
}

#[test]
fn indexing_an_array_loads_the_element() -> Result<(), Box<dyn std::error::Error>> {
    let context = Context::create();
    let mut codegen = generator_with_array(&context)?;
    let e = HirExpr::Index {
        object: Box::new(ident_a()),
        index: Box::new(i64_lit(2)),
        ty: Type::I64,
        span: Span::default(),
    };
    let v = codegen.generate_hir_expr(&e)?;
    assert!(matches!(v.ty, LType::Int(64)));
    let ir = codegen.print_ir();
    assert!(ir.contains("%index_ptr = inttoptr i64"));
    assert!(ir.contains("%index_load = load i64, i64* %index_ptr"));
    Ok(())
}

#[test]
fn indexing_a_non_array_is_refused() {
    let context = Context::create();
    let (mut codegen, _) = generator_in_fn(&context, true);
    let e = HirExpr::Index {
        object: Box::new(i64_lit(5)),
        index: Box::new(i64_lit(0)),
        ty: Type::I64,
        span: Span::default(),
    };
    let err = codegen.generate_hir_expr(&e).err().expect("refused");
    assert_eq!(err, "Indexing only supported on array or slice types");
}

#[test]
fn slicing_an_array_builds_pointer_and_length() -> Result<(), Box<dyn std::error::Error>> {
    let context = Context::create();
    let mut codegen = generator_with_array(&context)?;
    let e = HirExpr::Index {
        object: Box::new(ident_a()),
        index: Box::new(HirExpr::Binary {
            op: BinaryOp::Range,
            left: Box::new(i64_lit(1)),
            right: Box::new(i64_lit(3)),
            ty: Type::I64,
            span: Span::default(),
        }),
        ty: array_of_i64(None),
        span: Span::default(),
    };
    let v = codegen.generate_hir_expr(&e)?;
    assert!(matches!(v.ty, LType::Struct(_)));
    let ir = codegen.print_ir();
    assert!(ir.contains("%slice_ptr = inttoptr i64"));
    assert!(ir.contains("insertvalue { i8*, i64 }"));
    Ok(())
}

#[test]
fn indexed_assignment_stores_into_the_element() -> Result<(), Box<dyn std::error::Error>> {
    let context = Context::create();
    let mut codegen = generator_with_array(&context)?;
    let assign = HirStmt::Assign {
        target: "a[2]".to_string(),
        op: AssignOp::Assign,
        value: i64_lit(7),
        span: Span::default(),
    };
    codegen.generate_hir_stmt(&assign)?;
    let ir = codegen.print_ir();
    assert!(ir.contains("store i64 7, i64* %index_ptr"));
    Ok(())
}

#[test]
fn indexed_assignment_errors() -> Result<(), Box<dyn std::error::Error>> {
    let context = Context::create();
    let mut codegen = generator_with_array(&context)?;
    let bad_index = HirStmt::Assign {
        target: "a[i]".to_string(),
        op: AssignOp::Assign,
        value: i64_lit(7),
        span: Span::default(),
    };
    assert_eq!(codegen.generate_hir_stmt(&bad_index).err().expect("refused"), "Invalid index in assignment target");

    let let_x = HirStmt::Let {
        name: "x".to_string(),
        ty: Type::I64,
        value: Some(i64_lit(1)),
        mutability: Mutability::Var,
        span: Span::default(),
    };
    codegen.generate_hir_stmt(&let_x)?;
    let not_array = HirStmt::Assign {
        target: "x[0]".to_string(),
        op: AssignOp::Assign,
        value: i64_lit(7),
        span: Span::default(),
    };
    assert_eq!(codegen.generate_hir_stmt(&not_array).err().expect("refused"), "Indexing on non-array type: I64");
    Ok(())
}

#[test]
fn for_over_an_array_walks_its_elements_by_index() -> Result<(), Box<dyn std::error::Error>> {
    let context = Context::create();
    let mut codegen = generator_with_array(&context)?;
    let for_stmt = HirStmt::For {
        label: None,
        var_name: Some("x".to_string()),
        index_var: Some("i".to_string()),
        iterable: ident_a(),
        body: Box::new(HirStmt::Expr(HirExpr::Ident("x".to_string(), Type::I64, Span::default()))),
        span: Span::default(),
    };
    codegen.generate_hir_stmt(&for_stmt)?;
    let ir = codegen.print_ir();
    assert!(ir.contains("%array_index = alloca i64"));
    assert!(ir.contains("icmp slt i64 %array_idx_load, 3"));
    assert!(ir.contains("%array_elem = load i64, i64* %array_elem_ptr"));
    assert!(ir.contains("%array_idx_next = add i64 %array_idx_inc, 1"));
    assert!(codegen.lookup_variable("x").is_none());
    Ok(())
}

#[test]
fn switch_range_pattern_checks_both_bounds() -> Result<(), Box<dyn std::error::Error>> {
    let context = Context::create();
    let (mut codegen, _) = generator_in_fn(&context, true);
    codegen.return_type = Some(Type::I64);
    let let_stmt = HirStmt::Let {
        name: "x".to_string(),
        ty: Type::I64,
        value: Some(i64_lit(4)),
        mutability: Mutability::Var,
        span: Span::default(),
    };
    codegen.generate_hir_stmt(&let_stmt)?;
    let switch_stmt = HirStmt::Switch {
        condition: HirExpr::Ident("x".to_string(), Type::I64, Span::default()),
        cases: vec![HirCase {
            patterns: vec![range(1, 10)],
            body: HirStmt::Return(Some(i64_lit(10)), Span::default()),
            span: Span::default(),
        }],
        span: Span::default(),
    };
    codegen.generate_hir_stmt(&switch_stmt)?;
    let ir = codegen.print_ir();
    assert!(ir.contains("%range_ge = icmp uge i64 %x1, 1"));
    assert!(ir.contains("%range_lt = icmp ult i64 %x1, 10"));
    assert!(ir.contains("%range_check = and i1 %range_ge, %range_lt"));
    Ok(())
}

fn fn_i64_to_i64() -> Type {
    Type::Function { params: vec![Type::I64], return_type: Box::new(Type::I64) }
}

#[test]
fn call_through_a_function_pointer_variable() -> Result<(), Box<dyn std::error::Error>> {
    let context = Context::create();
    let (mut codegen, _) = generator_in_fn(&context, true);
    let i64_type = context.i64_type();
    codegen.module.add_function("test_module_double", i64_type.fn_type(&[i64_type.into()], false), None);
    let let_f = HirStmt::Let {
        name: "f".to_string(),
        ty: fn_i64_to_i64(),
        value: Some(HirExpr::Ident("double".to_string(), fn_i64_to_i64(), Span::default())),
        mutability: Mutability::Var,
        span: Span::default(),
    };
    codegen.generate_hir_stmt(&let_f)?;
    let call = HirExpr::Call {
        name: "f".to_string(),
        namespace: None,
        args: vec![i64_lit(21)],
        return_ty: Type::I64,
        target_ty: None,
        span: Span::default(),
    };
    let v = codegen.generate_hir_expr(&call)?;
    assert!(matches!(v.ty, LType::Int(64)));
    let ir = codegen.print_ir();
    assert!(ir.contains("store i8* bitcast (i64 (i64)* @test_module_double to i8*), i8** %f"));
    assert!(ir.contains("%cast_fn = bitcast i8* "));
    assert!(ir.contains("%indirect_call = call i64 %cast_fn(i64 21)"));
    Ok(())
}

#[test]
fn call_through_a_function_pointer_field() -> Result<(), Box<dyn std::error::Error>> {
    let context = Context::create();
    let (mut codegen, _) = generator_in_fn(&context, true);
    codegen.structs.push(StructLayout {
        name: "Calc".to_string(),
        fields: vec!["add".to_string()],
        types: vec![LType::Ptr],
    });
    let calc_type = context.opaque_struct_type("Calc");
    calc_type.set_body(&[context.i8_type().ptr_type(inkwell::AddressSpace::default()).into()], false);
    let c_alloca = codegen.builder.raw.build_alloca(calc_type, "c")?;
    codegen.add_variable(
        &"c".to_string(),
        c_alloca,
        &Type::Custom { name: "Calc".to_string(), generic_args: vec![], is_exported: false },
        false,
    );
    let call = HirExpr::Call {
        name: "add".to_string(),
        namespace: Some("c".to_string()),
        args: vec![],
        return_ty: Type::I64,
        target_ty: None,
        span: Span::default(),
    };
    codegen.generate_hir_expr(&call)?;
    let ir = codegen.print_ir();
    assert!(ir.contains("%field_ptr = getelementptr inbounds %Calc, %Calc* %c, i32 0, i32 0"));
    assert!(ir.contains("%fn_ptr = load i8*, i8** %field_ptr"));
    assert!(ir.contains("%indirect_call = call i64 %cast_fn()"));
    Ok(())
}

#[test]
fn call_of_an_unknown_function_is_refused() {
    let context = Context::create();
    let (mut codegen, _) = generator_in_fn(&context, true);
    let call = HirExpr::Call {
        name: "nowhere".to_string(),
        namespace: None,
        args: vec![],
        return_ty: Type::I64,
        target_ty: None,
        span: Span::default(),
    };
    let err = codegen.generate_hir_expr(&call).err().expect("refused");
    assert_eq!(err, "Fn not found: test_module_nowhere (original: nowhere)");
}

#[test]
fn imports_bind_namespaces_latest_first() -> Result<(), Box<dyn std::error::Error>> {
    let context = Context::create();
    let mut codegen = CodeGenerator::new(&context, "test_module");
    let imports = vec![
        (None, "utils/sub".to_string()),
        (Some("m".to_string()), "math".to_string()),
        (Some("sub".to_string()), "other".to_string()),
    ];
    codegen.process_imports(&imports)?;
    assert_eq!(codegen.imported_packages.len(), 3);
    assert_eq!(codegen.package_of("m"), Some("math".to_string()));
    assert_eq!(codegen.package_of("sub"), Some("other".to_string()));
    assert_eq!(codegen.package_of("utils"), None);
    Ok(())
}

#[test]
fn field_and_variant_lookups_take_the_latest_declaration() {
    let context = Context::create();
    let mut codegen = CodeGenerator::new(&context, "test_module");
    codegen.structs.push(StructLayout {
        name: "P".to_string(),
        fields: vec!["x".to_string(), "y".to_string()],
        types: vec![LType::Int(64), LType::Int(32)],
    });
    let (k, t) = codegen.field_of("P", "y").expect("field y");
    assert_eq!(k, 1);
    assert!(matches!(t, LType::Int(32)));
    assert!(codegen.field_of("P", "z").is_none());
    assert!(codegen.field_of("Q", "x").is_none());
    codegen.structs.push(StructLayout {
        name: "P".to_string(),
        fields: vec!["y".to_string()],
        types: vec![LType::F64],
    });
    let (k, t) = codegen.field_of("P", "y").expect("field y");
    assert_eq!(k, 0);
    assert!(matches!(t, LType::F64));

    codegen.enum_variants.push(("Color".to_string(), vec!["Red".to_string(), "Green".to_string()]));
    assert_eq!(codegen.enum_variant_index("Color", "Green"), Some(Some(1)));
    assert_eq!(codegen.enum_variant_index("Color", "Blue"), Some(None));
    assert_eq!(codegen.enum_variant_index("Shape", "Red"), None);
}

#[test]
fn literal_values_have_their_types() -> Result<(), Box<dyn std::error::Error>> {
    let context = Context::create();
    let (mut codegen, _) = generator_in_fn(&context, true);
    let null = HirExpr::Null(Type::Option(Box::new(Type::I32)), Span::default());
    let v = codegen.generate_hir_expr(&null)?;
    match &v.ty {
        LType::Struct(fs) => {
            assert_eq!(fs.len(), 2);
            assert!(matches!(fs[0], LType::Int(32)));
            assert!(matches!(fs[1], LType::Int(1)));
        }
        _ => panic!("null is an option pair"),
    }
    let b = codegen.generate_hir_expr(&HirExpr::Bool(true, Type::Bool, Span::default()))?;
    assert!(matches!(b.ty, LType::Int(1)));
    let small = codegen.generate_hir_expr(&HirExpr::Int(3, Type::U8, Span::default()))?;
    assert!(matches!(small.ty, LType::Int(8)));
    let wild = codegen.generate_hir_expr(&HirExpr::Ident("_".to_string(), Type::I32, Span::default()))?;
    assert!(matches!(wild.ty, LType::Int(64)));
    Ok(())
}

#[test]
fn a_name_out_of_scope_finds_no_variable() -> Result<(), Box<dyn std::error::Error>> {
    let context = Context::create();
    let (mut codegen, _) = generator_in_fn(&context, true);
    let slot = codegen.builder.raw.build_alloca(context.i64_type(), "slot")?;
    codegen.add_variable(&"x".to_string(), slot, &Type::I64, false);
    codegen.add_variable(&"y".to_string(), slot, &Type::I32, false);
    codegen.add_variable(&"x".to_string(), slot, &Type::I8, false);
    codegen.remove_variable("x");
    assert!(codegen.lookup_variable("x").is_none());
    let k = codegen.lookup_variable("y").expect("y stays");
    assert_eq!(codegen.variables[k].ty, Type::I32);
    assert_eq!(codegen.variables.len(), 1);
    Ok(())
}

#[test]
fn lowered_types_read_back() {
    let context = Context::create();
    let codegen = CodeGenerator::new(&context, "test_module");
    let arr = Type::Array { size: Some(4), element_type: Box::new(Type::I32) };
    for t in [Type::I8, Type::I64, Type::F32, Type::F64, Type::RawPtr, arr] {
        let lowered = codegen.llvm_type(&t);
        let back = langc::codegen::types::llvm_type_to_lang(&lowered, &codegen.struct_bodies());
        assert_eq!(back, t);
    }
    let unsigned = codegen.llvm_type(&Type::U8);
    assert_eq!(langc::codegen::types::llvm_type_to_lang(&unsigned, &codegen.struct_bodies()), Type::I8);
}

#[test]
fn declared_struct_fields_are_found() -> Result<(), Box<dyn std::error::Error>> {
    let context = Context::create();
    let mut codegen = CodeGenerator::new(&context, "test_module");
    let def = langc::ast::StructDef {
        name: "Pair".to_string(),
        fields: vec![
            langc::ast::StructField { name: "a".to_string(), ty: Type::I32, visibility: langc::ast::Visibility::Public },
            langc::ast::StructField { name: "b".to_string(), ty: Type::F64, visibility: langc::ast::Visibility::Public },
        ],
        methods: vec![],
        interface_impls: vec![],
        visibility: langc::ast::Visibility::Public,
        generic_params: vec![],
        span: Span::default(),
    };
    codegen.declare_struct(&def)?;
    let (k, t) = codegen.field_of("Pair", "b").expect("field b");
    assert_eq!(k, 1);
    assert!(matches!(t, LType::F64));
    assert_eq!(codegen.field_of("Pair", "a").map(|p| p.0), Some(0));
    Ok(())
}

#[test]
fn declared_enum_variants_are_found() -> Result<(), Box<dyn std::error::Error>> {
    let context = Context::create();
    let mut codegen = CodeGenerator::new(&context, "test_module");
    let variant = |n: &str| langc::ast::EnumVariant {
        name: n.to_string(),
        associated_types: vec![],
        visibility: langc::ast::Visibility::Public,
    };
    let def = langc::ast::EnumDef {
        name: "Dir".to_string(),
        variants: vec![variant("North"), variant("East"), variant("South")],
        methods: vec![],
        visibility: langc::ast::Visibility::Public,
        generic_params: vec![],
        span: Span::default(),
    };
    codegen.declare_enum(&def)?;
    assert_eq!(codegen.enum_variant_index("Dir", "South"), Some(Some(2)));
    assert_eq!(codegen.enum_variant_index("Dir", "West"), Some(None));
    Ok(())
}
