use langc::ast::{BinaryOp, Type, UnaryOp};
use langc::codegen::format::{PrintfArgKind, parse_format_string, parse_hir_format_string};
use langc::codegen::names::{CallPlan, mangle_name, method_name, namespace_of_import, package_module, plan_call, split_target};
use langc::codegen::ops::{
    BinaryInstr, Comparison, FloatOp, IntOp, TreeInstr, UnaryInstr, Widening, promote_ffi_arg, promote_printf_arg,
    select_binary, select_tree_binary, select_unary,
};
use langc::codegen::scope::{DeferStack, LoopTargets};
use langc::codegen::types::{Conversion, LType, conversion_between, lang_ltype, llvm_type_to_lang, ltype_equal};

#[test]
fn format_placeholders_become_printf_directives() {
    let (text, specs) = parse_format_string("Hello {d} and {s}!", 2);
    assert_eq!(text, "Hello %lld and %s!\n");
    assert_eq!(specs, vec![(0, PrintfArgKind::Integer), (1, PrintfArgKind::String)]);
}

#[test]
fn format_takes_no_more_arguments_than_given() {
    let (text, specs) = parse_format_string("{x}{f}{}{q}", 1);
    assert_eq!(text, "%llx%f%lld{q}\n");
    assert_eq!(specs, vec![(0, PrintfArgKind::Integer)]);
}

#[test]
fn format_escapes_are_decoded() {
    assert_eq!(parse_format_string("a\\nb\\tc", 0).0, "a\nb\tc\n");
    assert_eq!(parse_format_string("q\\\"\\\\", 0).0, "q\"\\\n");
    assert_eq!(parse_format_string("\\q", 0).0, "\\q\n");
    assert_eq!(parse_format_string("end\\", 0).0, "end\\\n");
}

#[test]
fn format_unclosed_placeholder_reads_to_the_end() {
    let (text, specs) = parse_format_string("n={d", 1);
    assert_eq!(text, "n=%lld\n");
    assert_eq!(specs, vec![(0, PrintfArgKind::Integer)]);
}

#[test]
fn hir_format_knows_upper_hex_and_booleans() {
    let (text, specs) = parse_hir_format_string("{X} {b}", 2);
    assert_eq!(text, "%llX %s\n");
    assert_eq!(specs, vec![(0, PrintfArgKind::Integer), (1, PrintfArgKind::Boolean)]);
    let (text, specs) = parse_format_string("{X} {b}", 2);
    assert_eq!(text, "{X} {b}\n");
    assert!(specs.is_empty());
}

#[test]
fn mangling_prefixes_all_but_main() {
    assert_eq!(mangle_name("test_module", "foo", false), "test_module_foo");
    assert_eq!(mangle_name("test_module", "main", false), "main");
    assert_eq!(mangle_name("test_module", "foo", true), "main");
}

#[test]
fn method_symbols_are_prefixed_once() {
    assert_eq!(method_name("Point", "sum"), "Point_sum");
    assert_eq!(method_name("Point", "Point_sum"), "Point_sum");
    assert_eq!(method_name("Point", "Pointsum"), "Point_Pointsum");
}

#[test]
fn package_namespaces() {
    assert_eq!(package_module("utils/sub"), "sub");
    assert_eq!(package_module("io"), "io");
    assert_eq!(package_module("a/b/"), "");
    assert_eq!(namespace_of_import(&Some("x".to_string()), "a/b"), "x");
    assert_eq!(namespace_of_import(&None, "a/b"), "b");
}

#[test]
fn assignment_targets_split_into_parts() {
    assert_eq!(split_target("a.b[0].*"), vec!["a", "b", "[0]", "*"]);
    assert_eq!(split_target("x"), vec!["x"]);
    assert_eq!(split_target("p.*.y"), vec!["p", "*", "y"]);
}

#[test]
fn call_plans() {
    let io = Some("io".to_string());
    assert!(matches!(plan_call("m", &io, "println", None, &None), CallPlan::Println));
    match plan_call("m", &None, "f", None, &None) {
        CallPlan::Direct(s) => assert_eq!(s, "m_f"),
        _ => panic!("direct call expected"),
    }
    let point = Type::Custom { name: "Point".to_string(), generic_args: vec![], is_exported: false };
    match plan_call("m", &Some("p".to_string()), "sum", Some(&point), &None) {
        CallPlan::MethodOrField(s) => assert_eq!(s, "m_Point_sum"),
        _ => panic!("method call expected"),
    }
    match plan_call("m", &Some("mm".to_string()), "sqrt", None, &Some("math".to_string())) {
        CallPlan::Direct(s) => assert_eq!(s, "math_sqrt"),
        _ => panic!("package call expected"),
    }
    match plan_call("m", &Some("Status".to_string()), "new", None, &None) {
        CallPlan::Direct(s) => assert_eq!(s, "m_Status_new"),
        _ => panic!("local call expected"),
    }
}

#[test]
fn instruction_selection() {
    assert_eq!(select_binary(BinaryOp::Div, false), BinaryInstr::Int(IntOp::UnsignedDiv));
    assert_eq!(select_binary(BinaryOp::Div, true), BinaryInstr::Float(FloatOp::Div));
    assert_eq!(select_binary(BinaryOp::Le, false), BinaryInstr::IntCompare(Comparison::Le));
    assert_eq!(select_binary(BinaryOp::Range, false), BinaryInstr::RangePair);
    assert_eq!(select_binary(BinaryOp::And, false), BinaryInstr::Int(IntOp::And));
    assert_eq!(select_tree_binary(BinaryOp::Div), Some(TreeInstr::Int(IntOp::SignedDiv)));
    assert_eq!(select_tree_binary(BinaryOp::Gt), Some(TreeInstr::SignedCompare(Comparison::Gt)));
    assert_eq!(select_tree_binary(BinaryOp::Or), Some(TreeInstr::LogicalOr));
    assert_eq!(select_tree_binary(BinaryOp::Range), None);
    assert_eq!(select_unary(UnaryOp::Not), UnaryInstr::IsZero);
    assert_eq!(select_unary(UnaryOp::Ref), UnaryInstr::AddressOf);
}

#[test]
fn argument_widening() {
    assert_eq!(promote_ffi_arg(&Type::I8), Widening::SignExtend(32));
    assert_eq!(promote_ffi_arg(&Type::Bool), Widening::ZeroExtend(32));
    assert_eq!(promote_ffi_arg(&Type::F32), Widening::FloatToDouble);
    assert_eq!(promote_ffi_arg(&Type::I64), Widening::Keep);
    assert_eq!(promote_printf_arg(PrintfArgKind::Integer, &LType::Int(1)), Widening::ZeroExtend(64));
    assert_eq!(promote_printf_arg(PrintfArgKind::Integer, &LType::Int(32)), Widening::SignExtend(64));
    assert_eq!(promote_printf_arg(PrintfArgKind::Integer, &LType::Int(64)), Widening::Keep);
    assert_eq!(promote_printf_arg(PrintfArgKind::Float, &LType::F32), Widening::FloatToDouble);
    assert_eq!(promote_printf_arg(PrintfArgKind::String, &LType::Ptr), Widening::Keep);
}

#[test]
fn defers_run_last_first() {
    let mut d: DeferStack<u32> = DeferStack::new();
    d.push_scope();
    d.add(1);
    d.add(2);
    d.push_scope();
    d.add(3);
    assert_eq!(d.pop_scope(), Some(vec![3]));
    assert_eq!(d.pop_scope(), Some(vec![2, 1]));
    assert_eq!(d.pop_scope(), None);
}

#[test]
fn loop_jumps_find_their_target() {
    let mut t: LoopTargets<u32> = LoopTargets::new();
    assert_eq!(t.find(&None), None);
    t.push_loop(1, Some("outer".to_string()));
    t.push_loop(2, None);
    assert_eq!(t.find(&None), Some(2));
    assert_eq!(t.find(&Some("outer".to_string())), Some(1));
    assert_eq!(t.find_innermost(&Some("outer".to_string())), None);
    assert_eq!(t.find(&Some("inner".to_string())), None);
    t.pop_loop();
    assert_eq!(t.find(&None), Some(1));
}

#[test]
fn language_types_in_llvm() {
    let known = vec!["Point".to_string()];
    assert!(matches!(lang_ltype(&Type::U16, &known), LType::Int(16)));
    assert!(matches!(lang_ltype(&Type::Bool, &known), LType::Int(1)));
    assert!(matches!(lang_ltype(&Type::Void, &known), LType::Int(64)));
    assert!(matches!(lang_ltype(&Type::RawPtr, &known), LType::Ptr));
    let point = Type::Custom { name: "Point".to_string(), generic_args: vec![], is_exported: false };
    match lang_ltype(&point, &known) {
        LType::Named(n) => assert_eq!(n, "Point"),
        other => panic!("named struct expected, got {:?}", other),
    }
    let unknown = Type::Custom { name: "Other".to_string(), generic_args: vec![], is_exported: false };
    assert!(matches!(lang_ltype(&unknown, &known), LType::Int(64)));
    let opt = lang_ltype(&Type::Option(Box::new(Type::I32)), &known);
    assert!(ltype_equal(&opt, &LType::Struct(vec![LType::Int(32), LType::Int(1)])));
    let slice = lang_ltype(&Type::Array { size: None, element_type: Box::new(Type::U8) }, &known);
    assert!(ltype_equal(&slice, &LType::Struct(vec![LType::Ptr, LType::Int(64)])));
    let arr = lang_ltype(&Type::Array { size: Some(3), element_type: Box::new(Type::U8) }, &known);
    assert!(ltype_equal(&arr, &LType::Array(Box::new(LType::Int(8)), 3)));
}

#[test]
fn llvm_types_back_to_language() {
    let bodies: Vec<(String, Vec<LType>)> = vec![];
    assert_eq!(llvm_type_to_lang(&LType::Int(8), &bodies), Type::I8);
    assert_eq!(llvm_type_to_lang(&LType::Int(1), &bodies), Type::I64);
    assert_eq!(llvm_type_to_lang(&LType::F32, &bodies), Type::F32);
    assert_eq!(llvm_type_to_lang(&LType::Ptr, &bodies), Type::RawPtr);
    assert_eq!(
        llvm_type_to_lang(&LType::Struct(vec![LType::Int(32), LType::F64]), &bodies),
        Type::Tuple(vec![Type::I32, Type::F64])
    );
    assert_eq!(
        llvm_type_to_lang(&LType::Array(Box::new(LType::Int(16)), 4), &bodies),
        Type::Array { size: Some(4), element_type: Box::new(Type::I16) }
    );
}

#[test]
fn value_conversions() {
    assert_eq!(conversion_between(&LType::Int(32), &LType::Int(64)), Conversion::IntResize);
    assert_eq!(conversion_between(&LType::Int(64), &LType::Int(64)), Conversion::Keep);
    assert_eq!(conversion_between(&LType::F32, &LType::F64), Conversion::FloatResize);
    assert_eq!(conversion_between(&LType::Int(32), &LType::F64), Conversion::UnsignedToFloat);
    assert_eq!(conversion_between(&LType::F64, &LType::Int(8)), Conversion::FloatToUnsigned);
    assert_eq!(conversion_between(&LType::Ptr, &LType::Int(8)), Conversion::Keep);
}

#[test]
fn plain_format_text_passes_through() {
    let (text, specs) = parse_hir_format_string("total: 42 items", 3);
    assert_eq!(text, "total: 42 items\n");
    assert!(specs.is_empty());
}
