//! Generation of LLVM IR straight from the syntax tree. This path knows no
//! types beyond what it recorded itself: literals are `i64`, operators take
//! their operands as integers, and a variable's type is the one it was
//! declared or inferred with.

use vstd::prelude::*;
use inkwell::values::BasicValueEnum;
use crate::ast::{AssignOp, BinaryOp, Expr, FnDef, Mutability, Span, Stmt, Type, TypeV, UnaryOp};
use crate::codegen::emit::{CodeGenerator, CodegenResult, Val, Variable, only_emitted, emitted_grows, ends_with, emitted_since, built_since, var_index, vars_view};
use crate::codegen::format::{PrintfArgKind, parse_format_string};
use crate::codegen::gen::{comparison_name, comparison_text, lerr, span_debug, span_debug_string};
use crate::codegen::llvm as ll;
use crate::codegen::names::opt_view;
use crate::codegen::ops::{Comparison, IntOp, TreeInstr, select_tree_binary, tree_binary_instr};
use crate::codegen::scope::{find_in_level, label_view};
use crate::codegen::types::{LType, LTypeV, llvm_type_to_lang, ltype_clone, names_view};
use crate::text::{chars_of, owned, push_char, push_str, push_string, push_u64, str_eq};

verus! {

/// The bindings of a sequence, in order, without those named `name`.
pub open spec fn bindings_without<'ctx>(vars: Seq<Variable<'ctx>>, name: Seq<char>) -> Seq<Variable<'ctx>>
    decreases vars.len(),
{
    if vars.len() == 0 {
        vars
    } else if vars[0].name@ == name {
        bindings_without(vars.drop_first(), name)
    } else {
        seq![vars[0]] + bindings_without(vars.drop_first(), name)
    }
}

/// The names of a sequence of bindings, in order.
pub open spec fn var_names<'ctx>(vars: Seq<Variable<'ctx>>) -> Seq<Seq<char>> {
    vars.map_values(|x: Variable<'ctx>| x.name@)
}

/// The names that a destructuring pattern binds, in order; `_` binds none.
pub open spec fn bound_names(names: Seq<Option<String>>) -> Seq<Seq<char>>
    decreases names.len(),
{
    if names.len() == 0 {
        Seq::empty()
    } else {
        let rest = bound_names(names.drop_last());
        match names.last() {
            Some(n) => rest.push(n@),
            None => rest,
        }
    }
}

/// The name the syntax-tree generator gives the result of an integer
/// instruction.
pub open spec fn tree_int_name(op: IntOp) -> Seq<char> {
    match op {
        IntOp::Add => "add"@,
        IntOp::Sub => "sub"@,
        IntOp::Mul => "mul"@,
        IntOp::SignedDiv | IntOp::UnsignedDiv => "div"@,
        IntOp::SignedRem | IntOp::UnsignedRem => "rem"@,
        IntOp::And => "bitand"@,
        IntOp::Or => "bitor"@,
        IntOp::Xor => "bitxor"@,
        IntOp::Shl => "shl"@,
        IntOp::LogicalShr => "shr"@,
    }
}

/// The last instructions of the model that a binary operator of the
/// syntax-tree generator builds: its integer instruction or its signed
/// comparison; for `and` and `or`, the signed comparisons of both sides
/// with zero (the `select` that follows is not modelled).
pub open spec fn tree_binary_tail(i: TreeInstr) -> Seq<ll::IrInstr> {
    match i {
        TreeInstr::Int(op) => seq![ll::IrInstr::IntBinary(op, tree_int_name(op))],
        TreeInstr::SignedCompare(c) => seq![ll::IrInstr::IntCompare(true, c, comparison_text(c))],
        TreeInstr::LogicalAnd | TreeInstr::LogicalOr => seq![
            ll::IrInstr::IntCompare(true, Comparison::Ne, "lhs_nonzero"@),
            ll::IrInstr::IntCompare(true, Comparison::Ne, "rhs_nonzero"@),
        ],
    }
}

/// Whether the syntax-tree generator handles an expression. Array,
/// character, struct, member, index and dereference expressions and ranges
/// are outside it, and an `if` needs a function being generated (`in_fn`).
pub open spec fn tree_expr_ok(e: Expr, in_fn: bool) -> bool
    decreases e,
{
    match e {
        Expr::Tuple(es, _) => forall|i: int| 0 <= i < es@.len() ==> tree_expr_ok(#[trigger] es@[i], in_fn),
        Expr::TupleIndex { tuple, .. } => tree_expr_ok(*tuple, in_fn),
        Expr::Binary { op, left, right, .. } => {
            op != crate::ast::BinaryOp::Range && tree_expr_ok(*left, in_fn) && tree_expr_ok(*right, in_fn)
        },
        Expr::Unary { expr, .. } => tree_expr_ok(*expr, in_fn),
        Expr::Call { args, .. } => forall|i: int| 0 <= i < args@.len() ==> tree_expr_ok(#[trigger] args@[i], in_fn),
        Expr::If { condition, then_branch, else_branch, .. } => {
            in_fn && tree_expr_ok(*condition, in_fn) && tree_expr_ok(*then_branch, in_fn) && tree_expr_ok(
                *else_branch,
                in_fn,
            )
        },
        Expr::Block { stmts, .. } => forall|i: int| 0 <= i < stmts@.len() ==> tree_stmt_ok(#[trigger] stmts@[i], in_fn),
        Expr::Try { expr, .. } => tree_expr_ok(*expr, in_fn),
        Expr::Catch { expr, .. } => tree_expr_ok(*expr, in_fn),
        Expr::Cast { expr, .. } => tree_expr_ok(*expr, in_fn),
        Expr::Array(..) | Expr::Char(..) | Expr::MemberAccess { .. } | Expr::Struct { .. } | Expr::Dereference { .. }
        | Expr::Index { .. } => false,
        _ => true,
    }
}

/// Whether the syntax-tree generator handles a statement: `for` and
/// `switch` are outside it, and of the compound assignments it knows only
/// `+=`, `-=`, `*=` and `/=`.
pub open spec fn tree_stmt_ok(s: Stmt, in_fn: bool) -> bool
    decreases s,
{
    match s {
        Stmt::Expr { expr, .. } => tree_expr_ok(expr, in_fn),
        Stmt::Let { value, .. } => match value {
            Some(v) => tree_expr_ok(v, in_fn),
            None => true,
        },
        Stmt::Assign { op, value, .. } => tree_assign_op_ok(op) && tree_expr_ok(value, in_fn),
        Stmt::Return { value, .. } => match value {
            Some(v) => tree_expr_ok(v, in_fn),
            None => true,
        },
        Stmt::Block { stmts, .. } => forall|i: int| 0 <= i < stmts@.len() ==> tree_stmt_ok(#[trigger] stmts@[i], in_fn),
        Stmt::If { condition, then_branch, else_branch, .. } => {
            in_fn && tree_expr_ok(condition, in_fn) && tree_stmt_ok(*then_branch, in_fn) && match else_branch {
                Some(b) => tree_stmt_ok(*b, in_fn),
                None => true,
            }
        },
        Stmt::For { .. } | Stmt::Switch { .. } => false,
        Stmt::Defer { stmt, .. } => tree_stmt_ok(*stmt, in_fn),
        Stmt::DeferBang { stmt, .. } => tree_stmt_ok(*stmt, in_fn),
        _ => true,
    }
}

/// The assignment operators of the syntax-tree generator.
pub open spec fn tree_assign_op_ok(op: AssignOp) -> bool {
    op == AssignOp::Assign || op == AssignOp::AddAssign || op == AssignOp::SubAssign || op == AssignOp::MulAssign || op
        == AssignOp::DivAssign
}

/// The position of the first `.` at or after `i`, or the length of the text.
pub open spec fn dot_from(s: Seq<char>, i: int) -> int
    decreases s.len() - i,
{
    if i < 0 || i >= s.len() {
        s.len() as int
    } else if s[i] == '.' {
        i
    } else {
        dot_from(s, i + 1)
    }
}

/// Whether an assignment target names a member (`object.member`).
pub open spec fn has_dot(s: Seq<char>) -> bool {
    dot_from(s, 0) < s.len()
}

/// The object of an assignment target: the text before the first `.`.
pub open spec fn target_object(s: Seq<char>) -> Seq<char> {
    s.subrange(0, dot_from(s, 0))
}

/// The member of an assignment target: the text between the first `.` and
/// the next one (or the end).
pub open spec fn target_member(s: Seq<char>) -> Seq<char> {
    let p = dot_from(s, 0);
    if p < s.len() {
        s.subrange(p + 1, dot_from(s, p + 1))
    } else {
        Seq::empty()
    }
}

/// The dot search stays within the text and never goes back.
proof fn lemma_dot_from_bounds(s: Seq<char>, i: int)
    requires
        0 <= i <= s.len(),
    ensures
        i <= dot_from(s, i) <= s.len(),
    decreases s.len() - i,
{
    if i < s.len() && s[i] != '.' {
        lemma_dot_from_bounds(s, i + 1);
    }
}

/// The position of the first `.` at or after `from`.
fn find_dot(cs: &Vec<char>, from: usize) -> (r: usize)
    requires
        from <= cs@.len(),
    ensures
        r as int == dot_from(cs@, from as int),
        from <= r <= cs@.len(),
{
    let mut i = from;
    while i < cs.len()
        invariant
            from <= i <= cs@.len(),
            dot_from(cs@, from as int) == dot_from(cs@, i as int),
        decreases cs@.len() - i,
    {
        if cs[i] == '.' {
            return i;
        }
        i = i + 1;
    }
    i
}

/// The characters of a range, as a string.
fn chars_range(cs: &Vec<char>, a: usize, b: usize) -> (r: String)
    requires
        a <= b <= cs@.len(),
    ensures
        r@ == cs@.subrange(a as int, b as int),
{
    let mut r = String::new();
    let mut k = a;
    while k < b
        invariant
            a <= k <= b,
            b <= cs@.len(),
            r@ == cs@.subrange(a as int, k as int),
        decreases b - k,
    {
        push_char(&mut r, cs[k]);
        assert(r@ =~= cs@.subrange(a as int, k + 1));
        k = k + 1;
    }
    r
}

/// Splits an assignment target into its object, its member, and whether it
/// has a member at all.
pub fn target_segments(target: &str) -> (r: (String, String, bool))
    ensures
        r.0@ == target_object(target@),
        r.1@ == target_member(target@),
        r.2 == has_dot(target@),
{
    let cs = chars_of(target);
    let p = find_dot(&cs, 0);
    let obj = chars_range(&cs, 0, p);
    if p < cs.len() {
        let q = find_dot(&cs, p + 1);
        let member = chars_range(&cs, p + 1, q);
        (obj, member, true)
    } else {
        (obj, String::new(), false)
    }
}

/// The model of the import registry: namespace and package of each entry.
pub open spec fn imports_view(s: Seq<(String, String)>) -> Seq<(Seq<char>, Seq<char>)> {
    s.map_values(|p: (String, String)| (p.0@, p.1@))
}

/// The model of the packages of an import statement.
pub open spec fn import_items(ps: Seq<(Option<String>, String)>) -> Seq<(Option<Seq<char>>, Seq<char>)> {
    ps.map_values(|p: (Option<String>, String)| (opt_view(p.0), p.1@))
}

/// The namespace an import statement binds a package to: its alias, else
/// the package path itself.
pub open spec fn bound_namespace(alias: Option<Seq<char>>, package: Seq<char>) -> Seq<char> {
    match alias {
        Some(a) => a,
        None => package,
    }
}

/// The first namespace of the registry under which the package is imported
/// and which is not the alias.
pub open spec fn other_alias(reg: Seq<(Seq<char>, Seq<char>)>, package: Seq<char>, alias: Option<Seq<char>>) -> Option<Seq<char>>
    decreases reg.len(),
{
    if reg.len() == 0 {
        None
    } else if reg[0].1 == package && Some(reg[0].0) != alias {
        Some(reg[0].0)
    } else {
        other_alias(reg.drop_first(), package, alias)
    }
}

/// Why an import is refused, if it is: its namespace is taken, or its
/// package is already imported under another name.
pub open spec fn import_refusal(reg: Seq<(Seq<char>, Seq<char>)>, alias: Option<Seq<char>>, package: Seq<char>) -> Option<Seq<char>> {
    let ns = bound_namespace(alias, package);
    if exists|i: int| 0 <= i < reg.len() && (#[trigger] reg[i]).0 == ns {
        Some("Duplicate import: '"@ + ns + "' is already imported"@)
    } else {
        match other_alias(reg, package, alias) {
            Some(a) => Some("Package '"@ + package + "' is already imported as '"@ + a + "'"@),
            None => None,
        }
    }
}

/// The registry after the packages of an import statement are imported in
/// order, or the first refusal.
pub open spec fn import_fold(reg: Seq<(Seq<char>, Seq<char>)>, ps: Seq<(Option<Seq<char>>, Seq<char>)>) -> Result<
    Seq<(Seq<char>, Seq<char>)>,
    Seq<char>,
>
    decreases ps.len(),
{
    if ps.len() == 0 {
        Ok(reg)
    } else {
        match import_fold(reg, ps.drop_last()) {
            Ok(cur) => match import_refusal(cur, ps.last().0, ps.last().1) {
                Some(m) => Err(m),
                None => Ok(cur.push((bound_namespace(ps.last().0, ps.last().1), ps.last().1))),
            },
            Err(m) => Err(m),
        }
    }
}

/// The message for a `break` or `continue` (`word`) the syntax-tree
/// generator cannot place: outside any loop, or not answered by the
/// innermost one.
pub open spec fn tree_jump_error(word: Seq<char>, label: Option<Seq<char>>, span: Span, in_loop: bool) -> Seq<char> {
    if in_loop {
        word + " statement with label '"@ + match label {
            Some(l) => l,
            None => "none"@,
        } + "' not found in scope at span "@ + span_debug(span)
    } else {
        word + " statement outside of loop at span "@ + span_debug(span)
    }
}

/// The target of a `break` or `continue` in the syntax-tree generator: the
/// innermost loop only, by label or unlabelled.
pub open spec fn find_target_innermost<B>(levels: Seq<Seq<(B, Option<Seq<char>>)>>, label: Option<Seq<char>>) -> Option<B> {
    if levels.len() == 0 {
        None
    } else {
        find_in_level(levels.last(), label)
    }
}

/// An assignment to a plain variable that is refused before its operator
/// matters: the variable is a constant, or there is none of that name.
pub open spec fn tree_assign_refused(s: Stmt, consts: Seq<Seq<char>>, vars: Seq<(Seq<char>, TypeV)>) -> bool {
    s matches Stmt::Assign { target, .. } && !has_dot(target@) && (consts.contains(target@) || var_index(vars, target@)
        == -1)
}

/// The message for reassigning a constant.
pub open spec fn const_error(target: Seq<char>) -> Seq<char> {
    "Cannot reassign constant variable '"@ + target + "'"@
}

fn tree_jump_error_string(word: &str, label: &Option<String>, span: Span, in_loop: bool) -> (r: String)
    ensures
        r@ == tree_jump_error(word@, label_view(*label), span, in_loop),
{
    let mut r = owned(word);
    if in_loop {
        push_str(&mut r, " statement with label '");
        match label {
            Some(l) => push_string(&mut r, l),
            None => push_str(&mut r, "none"),
        }
        push_str(&mut r, "' not found in scope at span ");
    } else {
        push_str(&mut r, " statement outside of loop at span ");
    }
    push_string(&mut r, &span_debug_string(span));
    r
}

/// The LLVM type of the value of a binary operation in the syntax-tree
/// generator, where the operator alone decides it: comparisons and `&&`
/// give `i1`, `||` gives `i64`.
pub open spec fn tree_binary_type(op: BinaryOp) -> Option<LTypeV> {
    match tree_binary_instr(op) {
        Some(TreeInstr::SignedCompare(_)) => Some(LTypeV::Int(1)),
        Some(TreeInstr::LogicalAnd) => Some(LTypeV::Int(1)),
        Some(TreeInstr::LogicalOr) => Some(LTypeV::Int(64)),
        _ => None,
    }
}

impl<'ctx> CodeGenerator<'ctx> {
    /// Whether a name was declared `const` by the syntax-tree generator.
    pub fn is_const_name(&self, name: &str) -> (r: bool)
        ensures
            r == names_view(self.const_names@).contains(name@),
    {
        let mut i: usize = 0;
        while i < self.const_names.len()
            invariant
                i <= self.const_names@.len(),
                forall|k: int| 0 <= k < i ==> self.const_names@[k]@ != name@,
            decreases self.const_names@.len() - i,
        {
            if str_eq(self.const_names[i].as_str(), name) {
                assert(names_view(self.const_names@)[i as int] == name@);
                return true;
            }
            i = i + 1;
        }
        assert forall|k: int| 0 <= k < names_view(self.const_names@).len() implies names_view(self.const_names@)[k]
            != name@ by {
            assert(names_view(self.const_names@)[k] == self.const_names@[k]@);
        }
        false
    }

    /// Why importing `package` under `alias` is refused, if it is.
    fn import_refused(&self, alias: &Option<String>, package: &String) -> (r: Option<String>)
        ensures
            match r {
                Some(m) => import_refusal(imports_view(self.imported_packages@), opt_view(*alias), package@) == Some(m@),
                None => import_refusal(imports_view(self.imported_packages@), opt_view(*alias), package@) is None,
            },
    {
        let ghost reg = imports_view(self.imported_packages@);
        let ns = match alias {
            Some(a) => a.clone(),
            None => package.clone(),
        };
        assert(ns@ == bound_namespace(opt_view(*alias), package@));
        let mut i: usize = 0;
        while i < self.imported_packages.len()
            invariant
                i <= self.imported_packages@.len(),
                reg == imports_view(self.imported_packages@),
                ns@ == bound_namespace(opt_view(*alias), package@),
                forall|k: int| 0 <= k < i ==> (#[trigger] reg[k]).0 != ns@,
            decreases self.imported_packages@.len() - i,
        {
            if str_eq(self.imported_packages[i].0.as_str(), ns.as_str()) {
                assert(reg[i as int].0 == ns@);
                let mut m = owned("Duplicate import: '");
                push_string(&mut m, &ns);
                push_str(&mut m, "' is already imported");
                return Some(m);
            }
            i = i + 1;
        }
        assert(reg.subrange(0, reg.len() as int) =~= reg);
        let mut j: usize = 0;
        while j < self.imported_packages.len()
            invariant
                j <= self.imported_packages@.len(),
                reg == imports_view(self.imported_packages@),
                ns@ == bound_namespace(opt_view(*alias), package@),
                !(exists|k: int| 0 <= k < reg.len() && (#[trigger] reg[k]).0 == ns@),
                other_alias(reg, package@, opt_view(*alias)) == other_alias(
                    reg.subrange(j as int, reg.len() as int),
                    package@,
                    opt_view(*alias),
                ),
            decreases self.imported_packages@.len() - j,
        {
            let ghost rest = reg.subrange(j as int, reg.len() as int);
            assert(rest[0] == reg[j as int]);
            assert(rest.drop_first() =~= reg.subrange(j + 1, reg.len() as int));
            let same_package = str_eq(self.imported_packages[j].1.as_str(), package.as_str());
            let same_alias = match alias {
                Some(a) => str_eq(self.imported_packages[j].0.as_str(), a.as_str()),
                None => false,
            };
            if same_package && !same_alias {
                let mut m = owned("Package '");
                push_string(&mut m, package);
                push_str(&mut m, "' is already imported as '");
                push_string(&mut m, &self.imported_packages[j].0);
                push_str(&mut m, "'");
                return Some(m);
            }
            j = j + 1;
        }
        assert(reg.subrange(j as int, reg.len() as int).len() == 0);
        None
    }

    /// Declares the functions of a loaded package under this module's
    /// prefix; a package that was not loaded declares nothing.
    fn declare_package_functions(&mut self, package: &String) -> (r: CodegenResult<()>)
        ensures
            emitted_grows(*old(self), *final(self)),
            final(self).imported_packages == old(self).imported_packages,
            final(self).current_function == old(self).current_function,
            final(self).variables == old(self).variables,
            final(self).const_names == old(self).const_names,
            final(self).packages == old(self).packages,
            (forall|k: int| 0 <= k < old(self).packages@.len() ==> (#[trigger] old(self).packages@[k]).0@ != package@) ==> r
                is Ok,
    {
        let mut packages: Vec<(String, crate::ast::Program)> = Vec::new();
        std::mem::swap(&mut packages, &mut self.packages);
        let mut result: CodegenResult<()> = Ok(());
        let mut k: usize = 0;
        while k < packages.len()
            invariant_except_break
                result is Ok,
                forall|j: int| 0 <= j < k ==> (#[trigger] packages@[j]).0@ != package@,
            invariant
                emitted_grows(*old(self), *self),
                k <= packages@.len(),
                packages == old(self).packages,
                self.imported_packages == old(self).imported_packages,
                self.current_function == old(self).current_function,
                self.variables == old(self).variables,
                self.const_names == old(self).const_names,
            ensures
                (forall|j: int| 0 <= j < packages@.len() ==> (#[trigger] packages@[j]).0@ != package@) ==> result is Ok,
            decreases packages@.len() - k,
        {
            if str_eq(packages[k].0.as_str(), package.as_str()) {
                let fns = &packages[k].1.functions;
                let mut j: usize = 0;
                while j < fns.len()
                    invariant
                        emitted_grows(*old(self), *self),
                        j <= fns@.len(),
                        self.imported_packages == old(self).imported_packages,
                        self.current_function == old(self).current_function,
                        self.variables == old(self).variables,
                        self.const_names == old(self).const_names,
                    decreases fns@.len() - j,
                {
                    match self.declare_stdlib_function(&fns[j]) {
                        Ok(()) => {},
                        Err(e) => {
                            let mut m = owned("Failed to declare function from package '");
                            push_string(&mut m, package);
                            push_str(&mut m, "': ");
                            push_string(&mut m, &e);
                            result = Err(m);
                            break;
                        },
                    }
                    j = j + 1;
                }
                break;
            }
            k = k + 1;
        }
        std::mem::swap(&mut packages, &mut self.packages);
        result
    }

    /// Takes out of scope every binding of a name made at or after position
    /// `mark`.
    fn drop_bindings_from(&mut self, name: &str, mark: usize)
        ensures
            emitted_grows(*old(self), *final(self)),
            final(self).current_function == old(self).current_function,
            final(self).loop_end_blocks == old(self).loop_end_blocks,
            final(self).loop_continue_blocks == old(self).loop_continue_blocks,
            mark <= old(self).variables@.len() ==> final(self).variables@ == old(self).variables@.subrange(0, mark as int)
                + bindings_without(old(self).variables@.subrange(mark as int, old(self).variables@.len() as int), name@),
            mark > old(self).variables@.len() ==> final(self).variables@ == old(self).variables@,
    {
        let ghost all = self.variables@;
        let ghost n = all.len() as int;
        let mut i = self.variables.len();
        while i > mark
            invariant
                emitted_grows(*old(self), *self),
                n == all.len(),
                all == old(self).variables@,
                mark <= n ==> mark <= i,
                mark > n ==> i == n,
                i <= n,
                self.variables@ == all.subrange(0, i as int) + bindings_without(all.subrange(i as int, n), name@),
                self.current_function == old(self).current_function,
                self.loop_end_blocks == old(self).loop_end_blocks,
                self.loop_continue_blocks == old(self).loop_continue_blocks,
            decreases i,
        {
            let ghost before = self.variables@;
            assert(before[i - 1] == all[i - 1]);
            assert(all.subrange(i - 1, n).drop_first() =~= all.subrange(i as int, n));
            assert(all.subrange(i - 1, n)[0] == all[i - 1]);
            if str_eq(self.variables[i - 1].name.as_str(), name) {
                let _ = self.variables.remove(i - 1);
                assert(self.variables@ =~= all.subrange(0, i - 1) + bindings_without(all.subrange(i - 1, n), name@));
            } else {
                assert(self.variables@ =~= all.subrange(0, i - 1) + bindings_without(all.subrange(i - 1, n), name@));
            }
            i = i - 1;
        }
        proof {
            if i == n {
                assert(all.subrange(i as int, n) =~= Seq::<Variable<'ctx>>::empty());
                assert(self.variables@ =~= all);
            }
        }
    }
}


impl<'ctx> CodeGenerator<'ctx> {
    /// Generates an expression and hands back its value: integer literals
    /// are `i64` constants, a tuple is a struct of its values, a variable is
    /// loaded from its slot, an `if` merges its branches, a block gives the
    /// value of its last expression statement (else 0), `try` and `catch`
    /// give the value of their expression, and a cast converts it.
    #[verifier::loop_isolation(false)]
    pub fn generate_expr(&mut self, e: &Expr) -> (r: CodegenResult<Val<'ctx>>)
        requires
            tree_expr_ok(*e, old(self).current_function is Some),
        ensures
            emitted_grows(*old(self), *final(self)),
            final(self).current_function == old(self).current_function,
            *e matches Expr::Int(..) ==> (r matches Ok(v) ==> v.ty@ == LTypeV::Int(64)),
            *e matches Expr::Bool(..) ==> (r matches Ok(v) ==> v.ty@ == LTypeV::Int(1)),
            *e is Int || *e is Bool ==> r is Ok,
            *e is Int || *e is Bool ==> crate::codegen::emit::only_emitted(*old(self), *final(self)),
            *e matches Expr::Int(n, _) ==> emitted_since(*old(self), *final(self)) == seq![
                ll::IrInstr::IntConst(n as u64, false),
            ],
            *e matches Expr::Bool(b, _) ==> emitted_since(*old(self), *final(self)) == seq![
                ll::IrInstr::IntConst(if b { 1 } else { 0 }, false),
            ],
            *e matches Expr::Block { stmts, .. } ==> (r matches Ok(v) ==> ((stmts@.len() == 0 || !(stmts@.last() is Expr)) ==> (
            v.ty@ == LTypeV::Int(64) && ends_with(*final(self), seq![ll::IrInstr::IntConst(0, false)])))),
            *e matches Expr::Block { stmts, .. } ==> (r matches Ok(v) ==> (stmts@.len() > 0 ==> (stmts@.last() matches Stmt::Expr {
                expr: Expr::Int(n, _),
                ..
            } ==> v.ty@ == LTypeV::Int(64) && ends_with(*final(self), seq![ll::IrInstr::IntConst(n as u64, false)])))),
            *e matches Expr::Ident(name, _) ==> (var_index(vars_view(old(self).variables@), name@) == -1 ==> (r matches Err(
                m,
            ) && m@ == "Variable not found: "@ + name@)),
        decreases e, 3nat,
    {
        match e {
            Expr::Int(v, _) => self.const_int_of(&LType::Int(64), *v as u64, false),
            Expr::Float(v, _) => {
                let bits = self.const_i64(v.bits)?;
                let ft = ll::f64_type(self.context);
                let raw = lerr(ll::build_bit_cast(&self.builder, bits.raw, ft, "float"))?;
                Ok(Val { raw, ty: LType::F64 })
            },
            Expr::Bool(b, _) => self.const_int_of(&LType::Int(1), if *b { 1 } else { 0 }, false),
            Expr::String(v, _) => {
                let raw = lerr(ll::build_global_string_ptr(&self.builder, v.as_str(), "str"))?;
                Ok(Val { raw, ty: LType::Ptr })
            },
            Expr::Null(_) => {
                let mut fs: Vec<LType> = Vec::new();
                fs.push(LType::Int(64));
                fs.push(LType::Int(1));
                let lt = LType::Struct(fs);
                let bt = self.basic_type(&lt)?;
                Ok(Val { raw: ll::const_zero(bt), ty: lt })
            },
            Expr::Tuple(es, _) => {
                let mut raws: Vec<BasicValueEnum<'ctx>> = Vec::new();
                let mut tys: Vec<LType> = Vec::new();
                let mut i: usize = 0;
                while i < es.len()
                    invariant
                        emitted_grows(*old(self), *self),
                        i <= es@.len(),
                        self.current_function == old(self).current_function,
                    decreases es@.len() - i,
                {
                    proof {
                        assert(decreases_to!(*e => *es));
                        assert(decreases_to!(*es => es@));
                        assert(decreases_to!(es@ => es@[i as int]));
                    }
                    let v = self.generate_expr(&es[i])?;
                    raws.push(v.raw);
                    tys.push(v.ty);
                    i = i + 1;
                }
                let lt = LType::Struct(tys);
                let bt = self.basic_type(&lt)?;
                let mut agg = ll::const_zero(bt);
                let mut k: usize = 0;
                while k < raws.len()
                    invariant
                        emitted_grows(*old(self), *self),
                        k <= raws@.len(),
                        self.current_function == old(self).current_function,
                    decreases raws@.len() - k,
                {
                    if k > u32::MAX as usize {
                        return Err(owned("Tuple too large"));
                    }
                    agg = lerr(ll::build_insert_value(&self.builder, agg, raws[k], k as u32, "tuple_elem"))?;
                    k = k + 1;
                }
                Ok(Val { raw: agg, ty: lt })
            },
            Expr::TupleIndex { tuple, index, .. } => {
                let t = self.generate_expr(tuple)?;
                if *index > u32::MAX as usize {
                    return Err(owned("Tuple index out of range"));
                }
                let mut name = owned("tuple_idx");
                push_u64(&mut name, *index as u64);
                match &t.ty {
                    LType::Struct(_) | LType::Named(_) => {
                        let fields = self.struct_fields_of(&t.ty);
                        let raw = lerr(ll::build_extract_value(&self.builder, t.raw, *index as u32, name.as_str()))?;
                        let ty = match fields {
                            Some(fs) => if *index < fs.len() { ltype_clone(&fs[*index]) } else { LType::Int(64) },
                            None => LType::Int(64),
                        };
                        Ok(Val { raw, ty })
                    },
                    LType::Ptr => {
                        let ptr = lerr(ll::as_pointer(t.raw))?;
                        let loaded = lerr(ll::build_load(&mut self.builder, ptr, "tuple_load"))?;
                        match &**tuple {
                            Expr::Ident(..) => {
                                let raw = lerr(ll::build_extract_value(&self.builder, loaded, *index as u32, name.as_str()))?;
                                Ok(Val { raw, ty: LType::Int(64) })
                            },
                            _ => Ok(Val { raw: loaded, ty: LType::Int(8) }),
                        }
                    },
                    _ => Err(owned("Tuple index access requires a tuple or pointer to tuple")),
                }
            },
            Expr::Ident(name, _) => match self.lookup_variable(name.as_str()) {
                Some(k) => {
                    let lt = self.llvm_type(&self.variables[k].ty);
                    let raw = lerr(ll::build_load(&mut self.builder, self.variables[k].ptr, name.as_str()))?;
                    Ok(Val { raw, ty: lt })
                },
                None => {
                    let mut m = owned("Variable not found: ");
                    push_string(&mut m, name);
                    Err(m)
                },
            },
            Expr::Binary { .. } => self.generate_binary_op(e),
            Expr::Unary { .. } => self.generate_unary_op(e),
            Expr::Call { .. } => self.generate_call(e),
            Expr::If { .. } => self.generate_expr_if(e),
            Expr::Block { stmts, .. } => {
                let mut last: Option<Val<'ctx>> = None;
                let mut i: usize = 0;
                while i < stmts.len()
                    invariant
                        emitted_grows(*old(self), *self),
                        i <= stmts@.len(),
                        self.current_function == old(self).current_function,
                        last is None <==> (i == 0 || !(stmts@[i - 1] is Expr)),
                        i > 0 ==> (stmts@[i - 1] matches Stmt::Expr { expr: Expr::Int(n, _), .. } ==> (last matches Some(v)
                            && v.ty@ == LTypeV::Int(64) && ends_with(*self, seq![ll::IrInstr::IntConst(n as u64, false)]))),
                    decreases stmts@.len() - i,
                {
                    proof {
                        assert(decreases_to!(*e => *stmts));
                        assert(decreases_to!(*stmts => stmts@));
                        assert(decreases_to!(stmts@ => stmts@[i as int]));
                    }
                    match &stmts[i] {
                        Stmt::Expr { expr: x, .. } => {
                            proof {
                                assert(decreases_to!(stmts@[i as int] => *x));
                                assert(tree_stmt_ok(stmts@[i as int], old(self).current_function is Some));
                            }
                            let ghost before = *self;
                            last = Some(self.generate_expr(x)?);
                            proof {
                                if x is Int {
                                    let t = self.builder.emitted@;
                                    assert(emitted_since(before, *self).len() == 1);
                                    assert(t.subrange(t.len() - 1, t.len() as int) =~= emitted_since(before, *self));
                                }
                            }
                        },
                        _ => {
                            self.generate_stmt(&stmts[i])?;
                            last = None;
                        },
                    }
                    i = i + 1;
                }
                match last {
                    Some(v) => Ok(v),
                    None => {
                        let r = self.const_i64(0);
                        proof {
                            let t = self.builder.emitted@;
                            assert(t.subrange(t.len() - 1, t.len() as int) =~= emitted_since(*old(self), *self).subrange(
                                emitted_since(*old(self), *self).len() - 1,
                                emitted_since(*old(self), *self).len() as int,
                            ));
                        }
                        r
                    },
                }
            },
            Expr::Try { expr, .. } => self.generate_expr(expr),
            Expr::Catch { expr, .. } => self.generate_expr(expr),
            Expr::Cast { target_type, expr, .. } => {
                let v = self.generate_expr(expr)?;
                self.generate_cast(v, target_type)
            },
            _ => {
                proof {
                    assert(false);
                }
                Err(owned("Expression not handled by the syntax-tree generator"))
            },
        }
    }

    /// Converts a value to the LLVM type of a language type.
    pub fn generate_cast(&self, v: Val<'ctx>, target_type: &Type) -> (r: CodegenResult<Val<'ctx>>)
        ensures
            ({
                let target = crate::codegen::types::ltype_of(target_type@, crate::codegen::emit::struct_names(self.structs@));
                &&& r matches Ok(x) ==> x.ty@ == (if crate::codegen::types::conversion(v.ty@, target) == crate::codegen::types::Conversion::Keep {
                    v.ty@
                } else {
                    target
                })
                &&& crate::codegen::types::conversion(v.ty@, target) == crate::codegen::types::Conversion::Keep
                    && crate::codegen::types::buildable(target) ==> r == Ok::<Val<'ctx>, String>(v)
            }),
    {
        let target = self.llvm_type(target_type);
        self.coerce_to_llvm_type(v, &target)
    }

    /// Generates a binary operation on two integers: arithmetic (division
    /// and remainder signed), signed comparisons, bit operations, and the
    /// logical operators as selects over comparisons with zero.
    pub fn generate_binary_op(&mut self, e: &Expr) -> (r: CodegenResult<Val<'ctx>>)
        requires
            tree_expr_ok(*e, old(self).current_function is Some),
            *e is Binary,
        ensures
            emitted_grows(*old(self), *final(self)),
            final(self).current_function == old(self).current_function,
            *e matches Expr::Binary { op, .. } ==> (tree_binary_type(op) matches Some(t) ==> (r matches Ok(v) ==> v.ty@ == t)),
            *e matches Expr::Binary { op, .. } ==> (r is Ok ==> (tree_binary_instr(op) matches Some(i) && ends_with(
                *final(self),
                tree_binary_tail(i),
            ))),
        decreases e, 2nat,
    {
        let (op, left, right) = match e {
            Expr::Binary { op, left, right, .. } => (op, left, right),
            _ => {
                return Err(owned("Binary expression expected"));
            },
        };
        let l = self.generate_expr(left)?;
        let r = self.generate_expr(right)?;
        let ghost mid = self.builder.emitted@;
        match select_tree_binary(*op) {
            Some(TreeInstr::Int(iop)) => {
                let raw = match iop {
                    IntOp::Add => lerr(ll::build_int_add(&mut self.builder, l.raw, r.raw, "add"))?,
                    IntOp::Sub => lerr(ll::build_int_sub(&mut self.builder, l.raw, r.raw, "sub"))?,
                    IntOp::Mul => lerr(ll::build_int_mul(&mut self.builder, l.raw, r.raw, "mul"))?,
                    IntOp::SignedDiv => lerr(ll::build_int_signed_div(&mut self.builder, l.raw, r.raw, "div"))?,
                    IntOp::SignedRem => lerr(ll::build_int_signed_rem(&mut self.builder, l.raw, r.raw, "rem"))?,
                    IntOp::UnsignedDiv => lerr(ll::build_int_unsigned_div(&mut self.builder, l.raw, r.raw, "div"))?,
                    IntOp::UnsignedRem => lerr(ll::build_int_unsigned_rem(&mut self.builder, l.raw, r.raw, "rem"))?,
                    IntOp::And => lerr(ll::build_and(&mut self.builder, l.raw, r.raw, "bitand"))?,
                    IntOp::Or => lerr(ll::build_or(&mut self.builder, l.raw, r.raw, "bitor"))?,
                    IntOp::Xor => lerr(ll::build_xor(&mut self.builder, l.raw, r.raw, "bitxor"))?,
                    IntOp::Shl => lerr(ll::build_left_shift(&mut self.builder, l.raw, r.raw, "shl"))?,
                    IntOp::LogicalShr => lerr(ll::build_logical_right_shift(&mut self.builder, l.raw, r.raw, "shr"))?,
                };
                proof {
                    crate::codegen::emit::lemma_since_push(mid, ll::IrInstr::IntBinary(iop, tree_int_name(iop)));
                }
                Ok(Val { raw, ty: l.ty })
            },
            Some(TreeInstr::SignedCompare(c)) => {
                let raw = lerr(ll::build_signed_int_compare(&mut self.builder, c, l.raw, r.raw, comparison_name(c)))?;
                proof {
                    crate::codegen::emit::lemma_since_push(mid, ll::IrInstr::IntCompare(true, c, comparison_text(c)));
                }
                Ok(Val { raw, ty: LType::Int(1) })
            },
            Some(TreeInstr::LogicalAnd) => {
                let zero = self.const_i64(0)?;
                let ghost mid = self.builder.emitted@;
                let lhs = lerr(ll::build_signed_int_compare(&mut self.builder, Comparison::Ne, l.raw, zero.raw, "lhs_nonzero"))?;
                let rhs = lerr(ll::build_signed_int_compare(&mut self.builder, Comparison::Ne, r.raw, zero.raw, "rhs_nonzero"))?;
                assert(self.builder.emitted@.subrange(mid.len() as int, mid.len() + 2 as int) =~= tree_binary_tail(TreeInstr::LogicalAnd));
                let raw = lerr(ll::build_select(&self.builder, lhs, rhs, zero.raw, "and_result"))?;
                Ok(Val { raw, ty: LType::Int(1) })
            },
            Some(TreeInstr::LogicalOr) => {
                let zero = self.const_i64(0)?;
                let one = self.const_i64(1)?;
                let ghost mid = self.builder.emitted@;
                let lhs = lerr(ll::build_signed_int_compare(&mut self.builder, Comparison::Ne, l.raw, zero.raw, "lhs_nonzero"))?;
                let rhs = lerr(ll::build_signed_int_compare(&mut self.builder, Comparison::Ne, r.raw, zero.raw, "rhs_nonzero"))?;
                assert(self.builder.emitted@.subrange(mid.len() as int, mid.len() + 2 as int) =~= tree_binary_tail(TreeInstr::LogicalOr));
                let raw = lerr(ll::build_select(&self.builder, lhs, one.raw, rhs, "or_result"))?;
                Ok(Val { raw, ty: LType::Int(64) })
            },
            None => {
                proof {
                    assert(false);
                }
                Err(owned("Range operator not handled by the syntax-tree generator"))
            },
        }
    }

    /// Generates a unary operation: negation subtracts from `i64` zero, `!`
    /// compares with `i64` zero, `+` and `&` give the operand unchanged.
    pub fn generate_unary_op(&mut self, e: &Expr) -> (r: CodegenResult<Val<'ctx>>)
        requires
            tree_expr_ok(*e, old(self).current_function is Some),
            *e is Unary,
        ensures
            emitted_grows(*old(self), *final(self)),
            final(self).current_function == old(self).current_function,
            *e matches Expr::Unary { op: UnaryOp::Neg, .. } ==> (r matches Ok(v) ==> v.ty@ == LTypeV::Int(64)),
            *e matches Expr::Unary { op: UnaryOp::Not, .. } ==> (r matches Ok(v) ==> v.ty@ == LTypeV::Int(1)),
            *e matches Expr::Unary { op: UnaryOp::Neg, .. } ==> (r is Ok ==> ends_with(
                *final(self),
                seq![ll::IrInstr::IntBinary(IntOp::Sub, "neg"@)],
            )),
            *e matches Expr::Unary { op: UnaryOp::Not, .. } ==> (r is Ok ==> ends_with(
                *final(self),
                seq![ll::IrInstr::IntCompare(true, Comparison::Eq, "not"@)],
            )),
        decreases e, 2nat,
    {
        let (op, inner) = match e {
            Expr::Unary { op, expr, .. } => (op, expr),
            _ => {
                return Err(owned("Unary expression expected"));
            },
        };
        let v = self.generate_expr(inner)?;
        match op {
            UnaryOp::Neg => {
                let zero = self.const_i64(0)?;
                let ghost mid = self.builder.emitted@;
                let raw = lerr(ll::build_int_sub(&mut self.builder, zero.raw, v.raw, "neg"))?;
                proof {
                    crate::codegen::emit::lemma_since_push(mid, ll::IrInstr::IntBinary(IntOp::Sub, "neg"@));
                }
                Ok(Val { raw, ty: LType::Int(64) })
            },
            UnaryOp::Not => {
                let zero = self.const_i64(0)?;
                let ghost mid = self.builder.emitted@;
                let raw = lerr(ll::build_signed_int_compare(&mut self.builder, Comparison::Eq, v.raw, zero.raw, "not"))?;
                proof {
                    crate::codegen::emit::lemma_since_push(mid, ll::IrInstr::IntCompare(true, Comparison::Eq, "not"@));
                }
                Ok(Val { raw, ty: LType::Int(1) })
            },
            UnaryOp::Pos | UnaryOp::Ref => Ok(v),
        }
    }
}


impl<'ctx> CodeGenerator<'ctx> {
    /// Generates a call. `io.println` (through a namespace bound to the
    /// package `io`, or named `io`) prints; a call through a namespace goes
    /// to `package_name` with the namespace's package; `main` stays `main`;
    /// other calls go to `module_name`. A function missing under that symbol
    /// is looked up under its own name (C functions). A void call gives 0.
    pub fn generate_call(&mut self, e: &Expr) -> (r: CodegenResult<Val<'ctx>>)
        requires
            tree_expr_ok(*e, old(self).current_function is Some),
            *e is Call,
        ensures
            emitted_grows(*old(self), *final(self)),
            final(self).current_function == old(self).current_function,
        decreases e, 2nat,
    {
        let (name, namespace, args) = match e {
            Expr::Call { name, namespace, args, .. } => (name, namespace, args),
            _ => {
                return Err(owned("Call expected"));
            },
        };
        let symbol = match namespace {
            Some(ns) => {
                let package = match self.package_of(ns.as_str()) {
                    Some(p) => p,
                    None => ns.clone(),
                };
                if str_eq(package.as_str(), "io") && str_eq(name.as_str(), "println") {
                    return self.generate_io_println(e);
                }
                let mut sym = package;
                push_str(&mut sym, "_");
                push_string(&mut sym, name);
                sym
            },
            None => {
                if str_eq(name.as_str(), "main") {
                    owned("main")
                } else {
                    let mut sym = self.module_name.clone();
                    push_str(&mut sym, "_");
                    push_string(&mut sym, name);
                    sym
                }
            },
        };
        let (function, used) = match ll::get_function(&self.module, symbol.as_str()) {
            Some(f) => (f, symbol.clone()),
            None => match ll::get_function(&self.module, name.as_str()) {
                Some(f) => (f, name.clone()),
                None => {
                    let mut m = owned("Function not found: ");
                    push_string(&mut m, &symbol);
                    push_str(&mut m, " (original: ");
                    push_string(&mut m, name);
                    push_str(&mut m, ")");
                    return Err(m);
                },
            },
        };
        let ret: Option<LType> = match self.find_function(used.as_str()) {
            Some(k) => match &self.functions[k].ret {
                Some(t) => Some(ltype_clone(t)),
                None => None,
            },
            None => None,
        };
        let mut xs: Vec<BasicValueEnum<'ctx>> = Vec::new();
        let mut i: usize = 0;
        while i < args.len()
            invariant
                emitted_grows(*old(self), *self),
                i <= args@.len(),
                tree_expr_ok(*e, old(self).current_function is Some),
                *e matches Expr::Call { args: a, .. } && a == *args,
                self.current_function == old(self).current_function,
            decreases args@.len() - i,
        {
            proof {
                assert(decreases_to!(*e => *args));
                assert(decreases_to!(*args => args@));
                assert(decreases_to!(args@ => args@[i as int]));
            }
            let v = self.generate_expr(&args[i])?;
            xs.push(v.raw);
            i = i + 1;
        }
        match lerr(ll::build_call(&self.builder, function, &xs, "call_tmp"))? {
            Some(v) => match ret {
                Some(t) => Ok(Val { raw: v, ty: t }),
                None => Ok(Val { raw: v, ty: LType::Int(64) }),
            },
            None => self.const_i64(0),
        }
    }

    /// Generates `io.println(..)` through a fresh declaration of `printf`:
    /// with no argument a newline; with a format string first, a `printf`
    /// of its rewrite with the arguments its placeholders take; with another
    /// first argument, that value printed as a string, a float or an
    /// integer. Gives 0.
    pub fn generate_io_println(&mut self, e: &Expr) -> (r: CodegenResult<Val<'ctx>>)
        requires
            tree_expr_ok(*e, old(self).current_function is Some),
            *e is Call,
        ensures
            emitted_grows(*old(self), *final(self)),
            final(self).current_function == old(self).current_function,
            r matches Ok(v) ==> v.ty@ == LTypeV::Int(64),
        decreases e, 1nat,
    {
        let args = match e {
            Expr::Call { args, .. } => args,
            _ => {
                return Err(owned("Call expected"));
            },
        };
        let mut ps: Vec<inkwell::types::BasicTypeEnum<'ctx>> = Vec::new();
        ps.push(ll::ptr_type(self.context));
        let i64t = self.basic_type(&LType::Int(64))?;
        let fty = ll::variadic_fn_type(i64t, &ps);
        let printf = ll::add_external_function(&self.module, "printf", fty);
        if args.len() == 0 {
            let nl = lerr(ll::build_global_string_ptr(&self.builder, "\n", "empty"))?;
            let mut xs: Vec<BasicValueEnum<'ctx>> = Vec::new();
            xs.push(nl);
            let _ = lerr(ll::build_call(&self.builder, printf, &xs, ""))?;
            return self.const_i64(0);
        }
        match &args[0] {
            Expr::String(fmt, _) => {
                let (text, specs) = parse_format_string(fmt.as_str(), args.len() - 1);
                let f = lerr(ll::build_global_string_ptr(&self.builder, text.as_str(), "fmt"))?;
                let mut xs: Vec<BasicValueEnum<'ctx>> = Vec::new();
                xs.push(f);
                let mut i: usize = 0;
                while i < specs.len()
                    invariant
                        emitted_grows(*old(self), *self),
                        i <= specs@.len(),
                        tree_expr_ok(*e, old(self).current_function is Some),
                        *e matches Expr::Call { args: a, .. } && a == *args,
                        self.current_function == old(self).current_function,
                    decreases specs@.len() - i,
                {
                    let (idx, kind) = specs[i];
                    if idx < args.len() && idx + 1 < args.len() {
                        proof {
                            assert(decreases_to!(*e => *args));
                            assert(decreases_to!(*args => args@));
                            assert(decreases_to!(args@ => args@[idx + 1]));
                        }
                        let v = self.generate_expr(&args[idx + 1])?;
                        let w = self.widen_printf_arg(v, kind)?;
                        xs.push(w.raw);
                    }
                    i = i + 1;
                }
                let _ = lerr(ll::build_call(&self.builder, printf, &xs, ""))?;
            },
            _ => {
                proof {
                    assert(decreases_to!(*e => *args));
                    assert(decreases_to!(*args => args@));
                    assert(decreases_to!(args@ => args@[0]));
                }
                let v = self.generate_expr(&args[0])?;
                let (fmt, arg) = match &v.ty {
                    LType::Ptr => ("%s\n", v),
                    LType::F32 | LType::F64 => ("%f\n", self.widen_printf_arg(v, PrintfArgKind::Float)?),
                    _ => ("%lld\n", self.widen_printf_arg(v, PrintfArgKind::Integer)?),
                };
                let f = lerr(ll::build_global_string_ptr(&self.builder, fmt, "fmt"))?;
                let mut xs: Vec<BasicValueEnum<'ctx>> = Vec::new();
                xs.push(f);
                xs.push(arg.raw);
                let _ = lerr(ll::build_call(&self.builder, printf, &xs, ""))?;
            },
        }
        self.const_i64(0)
    }

    /// The truth of a condition: the flag of a two-field struct, else a
    /// comparison with `i64` zero.
    fn tree_condition(&mut self, v: &Val<'ctx>) -> (r: CodegenResult<BasicValueEnum<'ctx>>)
        ensures
            emitted_grows(*old(self), *final(self)),
            only_emitted(*old(self), *final(self)),
    {
        let two_fields = match self.struct_fields_of(&v.ty) {
            Some(fs) => fs.len() == 2,
            None => false,
        };
        if two_fields {
            lerr(ll::build_extract_value(&self.builder, v.raw, 1, "is_valid"))
        } else {
            let zero = self.const_i64(0)?;
            lerr(ll::build_signed_int_compare(&mut self.builder, Comparison::Ne, v.raw, zero.raw, "cond"))
        }
    }

    /// Binds a capture to the first field of a struct condition; says
    /// whether it bound one.
    fn tree_bind_capture(&mut self, capture: &Option<String>, cond: &Val<'ctx>) -> (r: CodegenResult<bool>)
        ensures
            emitted_grows(*old(self), *final(self)),
            final(self).current_function == old(self).current_function,
            capture is None || !(cond.ty is Struct || cond.ty is Named) ==> r == Ok::<bool, String>(false),
            r matches Ok(b) ==> (b <==> (capture is Some && (cond.ty is Struct || cond.ty is Named))),
            !(r matches Ok(true)) ==> final(self).variables == old(self).variables,
            r matches Ok(true) ==> vars_view(final(self).variables@).len() == vars_view(old(self).variables@).len() + 1
                && vars_view(final(self).variables@).drop_last() == vars_view(old(self).variables@)
                && vars_view(final(self).variables@).last().0 == capture->0@,
    {
        let name = match capture {
            Some(n) => n,
            None => {
                return Ok(false);
            },
        };
        match &cond.ty {
            LType::Struct(_) | LType::Named(_) => {},
            _ => {
                return Ok(false);
            },
        }
        let val = lerr(ll::build_extract_value(&self.builder, cond.raw, 0, "captured"))?;
        let first = match self.struct_fields_of(&cond.ty) {
            Some(fs) => if fs.len() > 0 {
                ltype_clone(&fs[0])
            } else {
                return Err(owned("Captured value has no field"));
            },
            None => {
                return Err(owned("Struct layout not found"));
            },
        };
        let bt = self.basic_type(&first)?;
        let slot = lerr(ll::build_alloca(&mut self.builder, bt, name.as_str()))?;
        lerr(ll::build_store(&mut self.builder, slot, val))?;
        let lang = llvm_type_to_lang(&first, &self.struct_bodies());
        self.add_variable(name, slot, &lang, false);
        assert(vars_view(self.variables@).drop_last() =~= vars_view(old(self).variables@));
        Ok(true)
    }

    /// Ends a capture's scope: the bindings of its name made since `mark`
    /// go when one was bound, every binding of the name goes when none was.
    fn tree_unbind_capture(&mut self, capture: &Option<String>, bound: bool, mark: usize)
        ensures
            emitted_grows(*old(self), *final(self)),
            final(self).current_function == old(self).current_function,
            final(self).loop_end_blocks == old(self).loop_end_blocks,
            final(self).loop_continue_blocks == old(self).loop_continue_blocks,
            capture is None ==> final(self).variables@ == old(self).variables@,
            capture matches Some(n) ==> (!bound ==> final(self).variables@ == bindings_without(old(self).variables@, n@)),
            capture matches Some(n) ==> (bound && mark <= old(self).variables@.len() ==> final(self).variables@
                == old(self).variables@.subrange(0, mark as int) + bindings_without(
                old(self).variables@.subrange(mark as int, old(self).variables@.len() as int),
                n@,
            )),
            capture matches Some(n) ==> (bound && mark > old(self).variables@.len() ==> final(self).variables@
                == old(self).variables@),
    {
        proof {
            assert(old(self).variables@.subrange(0, 0) + old(self).variables@.subrange(0, old(self).variables@.len() as int)
                =~= old(self).variables@);
        }
        match capture {
            Some(n) => {
                if bound {
                    self.drop_bindings_from(n.as_str(), mark);
                } else {
                    self.drop_bindings_from(n.as_str(), 0);
                }
            },
            None => {},
        }
    }

    /// Generates an `if` expression: blocks `then`, `else` and `ifcont`,
    /// a capture bound in `then`, and a phi of the two branch values.
    pub fn generate_expr_if(&mut self, e: &Expr) -> (r: CodegenResult<Val<'ctx>>)
        requires
            tree_expr_ok(*e, old(self).current_function is Some),
            *e is If,
        ensures
            emitted_grows(*old(self), *final(self)),
            final(self).current_function == old(self).current_function,
            r is Ok ==> built_since(*old(self), *final(self), ll::IrInstr::CondBranch),
        decreases e, 2nat,
    {
        let (condition, capture, then_branch, else_branch) = match e {
            Expr::If { condition, capture, then_branch, else_branch, .. } => (condition, capture, then_branch, else_branch),
            _ => {
                return Err(owned("If expected"));
            },
        };
        let function = match self.current_function {
            Some(f) => f,
            None => {
                return Err(owned("No current function"));
            },
        };
        let cond = self.generate_expr(condition)?;
        let is_valid = self.tree_condition(&cond)?;
        let then_block = ll::append_block(self.context, function, "then");
        let else_block = ll::append_block(self.context, function, "else");
        let merge = ll::append_block(self.context, function, "ifcont");
        let ghost at = self.builder.emitted@.len() as int;
        lerr(ll::build_cond_branch(&mut self.builder, is_valid, then_block, else_block))?;
        ll::position_at_end(&mut self.builder, then_block);
        let mark = self.variables.len();
        let bound = self.tree_bind_capture(capture, &cond)?;
        let then_val = self.generate_expr(then_branch)?;
        let then_end = match ll::insert_block(&self.builder) {
            Some(b) => b,
            None => then_block,
        };
        lerr(ll::build_branch(&mut self.builder, merge))?;
        self.tree_unbind_capture(capture, bound, mark);
        ll::position_at_end(&mut self.builder, else_block);
        let else_val = self.generate_expr(else_branch)?;
        let else_end = match ll::insert_block(&self.builder) {
            Some(b) => b,
            None => else_block,
        };
        lerr(ll::build_branch(&mut self.builder, merge))?;
        ll::position_at_end(&mut self.builder, merge);
        let bt = self.basic_type(&then_val.ty)?;
        let phi = lerr(ll::build_phi(&self.builder, bt, "ifphi"))?;
        ll::phi_add_two(phi, then_val.raw, then_end, else_val.raw, else_end);
        assert(self.builder.emitted@[at] == ll::IrInstr::CondBranch);
        Ok(Val { raw: ll::phi_value(phi), ty: then_val.ty })
    }

    /// Generates an `if` statement: blocks `then`, `else` and `ifcont`, a
    /// capture bound in `then`, each branch ending in a jump to `ifcont`.
    pub fn generate_if(&mut self, s: &Stmt) -> (r: CodegenResult<()>)
        requires
            tree_stmt_ok(*s, old(self).current_function is Some),
            *s is If,
        ensures
            emitted_grows(*old(self), *final(self)),
            final(self).current_function == old(self).current_function,
            r is Ok ==> built_since(*old(self), *final(self), ll::IrInstr::CondBranch),
        decreases s, 2nat,
    {
        let (condition, capture, then_branch, else_branch) = match s {
            Stmt::If { condition, capture, then_branch, else_branch, .. } => (condition, capture, then_branch, else_branch),
            _ => {
                return Err(owned("If expected"));
            },
        };
        let function = match self.current_function {
            Some(f) => f,
            None => {
                return Err(owned("No current function"));
            },
        };
        let cond = self.generate_expr(condition)?;
        let is_valid = self.tree_condition(&cond)?;
        let then_block = ll::append_block(self.context, function, "then");
        let else_block = ll::append_block(self.context, function, "else");
        let merge = ll::append_block(self.context, function, "ifcont");
        let ghost at = self.builder.emitted@.len() as int;
        lerr(ll::build_cond_branch(&mut self.builder, is_valid, then_block, else_block))?;
        ll::position_at_end(&mut self.builder, then_block);
        let mark = self.variables.len();
        let bound = self.tree_bind_capture(capture, &cond)?;
        self.generate_stmt(then_branch)?;
        lerr(ll::build_branch(&mut self.builder, merge))?;
        self.tree_unbind_capture(capture, bound, mark);
        ll::position_at_end(&mut self.builder, else_block);
        match else_branch {
            Some(b) => {
                self.generate_stmt(b)?;
            },
            None => {},
        }
        lerr(ll::build_branch(&mut self.builder, merge))?;
        ll::position_at_end(&mut self.builder, merge);
        assert(self.builder.emitted@[at] == ll::IrInstr::CondBranch);
        Ok(())
    }
}


impl<'ctx> CodeGenerator<'ctx> {
    /// Generates a statement of the syntax tree. An import records its
    /// packages (refusing a namespace already taken, or a package already
    /// imported under another name) and declares the functions of each
    /// loaded one; a `let` gives the variable its declared type, else the
    /// type of its value, else `i64`; `defer` runs its statement at once.
    #[verifier::loop_isolation(false)]
    pub fn generate_stmt(&mut self, stmt: &Stmt) -> (r: CodegenResult<()>)
        requires
            tree_stmt_ok(*stmt, old(self).current_function is Some) || tree_assign_refused(
                *stmt,
                names_view(old(self).const_names@),
                vars_view(old(self).variables@),
            ),
        ensures
            emitted_grows(*old(self), *final(self)),
            final(self).current_function == old(self).current_function,
            *stmt matches Stmt::Break { label, span } ==> (old(self).loop_end_blocks@.len() == 0 ==> (r matches Err(m) && m@
                == tree_jump_error("break"@, label_view(label), span, false))),
            *stmt matches Stmt::Break { label, span } ==> (old(self).loop_end_blocks@.len() > 0 && find_in_level(
                old(self).loop_end_blocks@.last(),
                label_view(label),
            ) is None ==> (r matches Err(m) && m@ == tree_jump_error("break"@, label_view(label), span, true))),
            *stmt matches Stmt::Continue { label, span } ==> (old(self).loop_continue_blocks@.len() == 0 ==> (r matches Err(m)
                && m@ == tree_jump_error("continue"@, label_view(label), span, false))),
            *stmt matches Stmt::Continue { label, span } ==> (old(self).loop_continue_blocks@.len() > 0 && find_in_level(
                old(self).loop_continue_blocks@.last(),
                label_view(label),
            ) is None ==> (r matches Err(m) && m@ == tree_jump_error("continue"@, label_view(label), span, true))),
            *stmt matches Stmt::Assign { target, .. } ==> (!has_dot(target@) && names_view(old(self).const_names@).contains(
                target@,
            ) ==> (r matches Err(m) && m@ == const_error(target@))),
            *stmt matches Stmt::Assign { target, .. } ==> (!has_dot(target@) && !names_view(old(self).const_names@).contains(
                target@,
            ) && var_index(vars_view(old(self).variables@), target@) == -1 ==> (r matches Err(m) && m@
                == "Variable not found: "@ + target@)),
            *stmt matches Stmt::Assign { target, .. } ==> (has_dot(target@) && var_index(
                vars_view(old(self).variables@),
                target_object(target@),
            ) == -1 ==> (r matches Err(m) && m@ == "Var not found"@)),
            *stmt matches Stmt::Let { name, names: None, ty: Some(t), .. } ==> (r is Ok ==> vars_view(
                final(self).variables@,
            ).len() > 0 && vars_view(final(self).variables@).last() == (name@, t@)),
            *stmt matches Stmt::Let { name, names: None, ty: None, value: None, .. } ==> (r is Ok ==> vars_view(
                final(self).variables@,
            ).len() > 0 && vars_view(final(self).variables@).last() == (name@, TypeV::I64)),
            *stmt matches Stmt::Let { name, names: None, mutability: Mutability::Const, .. } ==> (r is Ok ==> names_view(
                final(self).const_names@,
            ).len() > 0 && names_view(final(self).const_names@).last() == name@),
            *stmt matches Stmt::Import { packages, .. } ==> (r is Ok ==> import_fold(
                imports_view(old(self).imported_packages@),
                import_items(packages@),
            ) == Ok::<Seq<(Seq<char>, Seq<char>)>, Seq<char>>(imports_view(final(self).imported_packages@))),
            *stmt matches Stmt::Import { packages, .. } ==> (packages@.len() > 0 ==> (import_refusal(
                imports_view(old(self).imported_packages@),
                opt_view(packages@[0].0),
                packages@[0].1@,
            ) matches Some(m) ==> (r matches Err(x) && x@ == m))),
            *stmt matches Stmt::Import { packages, .. } ==> (packages@.len() > 0 ==> (import_refusal(
                imports_view(old(self).imported_packages@),
                opt_view(packages@[0].0),
                packages@[0].1@,
            ) is Some ==> *final(self) == *old(self))),
            *stmt matches Stmt::Assign { target, .. } ==> (!has_dot(target@) && names_view(old(self).const_names@).contains(
                target@,
            ) ==> *final(self) == *old(self)),
            *stmt matches Stmt::Break { label, .. } ==> (find_target_innermost(old(self).loop_end_blocks@, label_view(label)) is None
                ==> *final(self) == *old(self)),
            *stmt matches Stmt::Continue { label, .. } ==> (find_target_innermost(old(self).loop_continue_blocks@, label_view(label))
                is None ==> *final(self) == *old(self)),
            *stmt matches Stmt::Break { .. } ==> (r is Ok ==> ends_with(*final(self), seq![ll::IrInstr::Branch])),
            *stmt matches Stmt::Continue { .. } ==> (r is Ok ==> ends_with(*final(self), seq![ll::IrInstr::Branch])),
            *stmt matches Stmt::Let { name, names: None, value: Some(_), .. } ==> (r is Ok ==> ends_with(
                *final(self),
                seq![ll::IrInstr::Alloca(name@), ll::IrInstr::Store],
            )),
            *stmt matches Stmt::Let { name, names: None, value: None, .. } ==> (r is Ok ==> ends_with(
                *final(self),
                seq![ll::IrInstr::Alloca(name@)],
            )),
            *stmt matches Stmt::Assign { target, op: AssignOp::Assign, .. } ==> (!has_dot(target@) && r is Ok ==> ends_with(
                *final(self),
                seq![ll::IrInstr::Store],
            )),
            *stmt is If && r is Ok ==> built_since(*old(self), *final(self), ll::IrInstr::CondBranch),
            *stmt matches Stmt::Return { value: None, .. } ==> (r is Ok ==> ends_with(
                *final(self),
                seq![ll::IrInstr::ReturnVoid],
            )),
            *stmt matches Stmt::Return { value: Some(_), .. } ==> (r is Ok ==> ends_with(
                *final(self),
                seq![ll::IrInstr::Return],
            ) || ends_with(*final(self), seq![ll::IrInstr::ReturnVoid])),
            *stmt matches Stmt::Let { names: None, ty: Some(t), value, .. } ==> (old(self).builder.positioned@ && (value is None
                || (value matches Some(x) && x is Int)) && crate::codegen::types::buildable(
                crate::codegen::types::ltype_of(t@, crate::codegen::emit::struct_names(old(self).structs@)),
            ) ==> r is Ok),
            *stmt matches Stmt::Return { value, .. } ==> (old(self).builder.positioned@ && (value is None || (value matches Some(
                x,
            ) && x is Int)) ==> r is Ok),
        decreases stmt, 3nat,
    {
        match stmt {
            Stmt::Expr { expr, .. } => {
                self.generate_expr(expr)?;
                Ok(())
            },
            Stmt::Import { packages, .. } => {
                let ghost items = import_items(packages@);
                let ghost reg0 = imports_view(self.imported_packages@);
                let mut i: usize = 0;
                assert(items.take(0) =~= Seq::<(Option<Seq<char>>, Seq<char>)>::empty());
                while i < packages.len()
                    invariant
                        emitted_grows(*old(self), *self),
                        i <= packages@.len(),
                        items == import_items(packages@),
                        import_fold(reg0, items.take(i as int)) == Ok::<Seq<(Seq<char>, Seq<char>)>, Seq<char>>(
                            imports_view(self.imported_packages@),
                        ),
                        i > 0 ==> import_refusal(reg0, items[0].0, items[0].1) is None,
                        self.current_function == old(self).current_function,
                        i == 0 ==> *self == *old(self),
                    decreases packages@.len() - i,
                {
                    let (alias, package) = &packages[i];
                    assert(items[i as int] == (opt_view(*alias), package@));
                    assert(items.take(i + 1).drop_last() =~= items.take(i as int));
                    match self.import_refused(alias, package) {
                        Some(m) => {
                            return Err(m);
                        },
                        None => {},
                    }
                    let ns = match alias {
                        Some(a) => a.clone(),
                        None => package.clone(),
                    };
                    let ghost before = self.imported_packages@;
                    self.imported_packages.push((ns, package.clone()));
                    assert(imports_view(self.imported_packages@) =~= imports_view(before).push(
                        (bound_namespace(opt_view(*alias), package@), package@),
                    ));
                    self.declare_package_functions(package)?;
                    i = i + 1;
                }
                assert(items.take(i as int) =~= items);
                Ok(())
            },
            Stmt::Let { mutability, name, names, ty, value, .. } => {
                let llvm_val = match value {
                    Some(v) => Some(self.generate_expr(v)?),
                    None => None,
                };
                let is_const = *mutability == Mutability::Const;
                match names {
                    Some(ns) => self.tree_destructure(ns, llvm_val, is_const),
                    None => {
                        let lang = match ty {
                            Some(t) => t.deep_clone(),
                            None => match &llvm_val {
                                Some(v) => llvm_type_to_lang(&v.ty, &self.struct_bodies()),
                                None => Type::I64,
                            },
                        };
                        let lt = self.llvm_type(&lang);
                        let bt = self.basic_type(&lt)?;
                        let ghost mid = self.builder.emitted@;
                        let slot = lerr(ll::build_alloca(&mut self.builder, bt, name.as_str()))?;
                        match llvm_val {
                            Some(v) => {
                                lerr(ll::build_store(&mut self.builder, slot, v.raw))?;
                                assert(self.builder.emitted@.subrange(mid.len() as int, mid.len() + 2 as int) =~= seq![
                                    ll::IrInstr::Alloca(name@),
                                    ll::IrInstr::Store,
                                ]);
                            },
                            None => {
                                proof {
                                    crate::codegen::emit::lemma_since_push(mid, ll::IrInstr::Alloca(name@));
                                }
                            },
                        }
                        self.add_variable(name, slot, &lang, is_const);
                        if is_const {
                            let ghost before = self.const_names@;
                            self.const_names.push(name.clone());
                            assert(names_view(self.const_names@) =~= names_view(before).push(name@));
                        }
                        Ok(())
                    },
                }
            },
            Stmt::Assign { target, op, value, .. } => {
                let (_, _, dotted) = target_segments(target.as_str());
                if !dotted && self.is_const_name(target.as_str()) {
                    let mut m = owned("Cannot reassign constant variable '");
                    push_string(&mut m, target);
                    push_str(&mut m, "'");
                    return Err(m);
                }
                if dotted {
                    return self.tree_member_assign(stmt);
                }
                let k = match self.lookup_variable(target.as_str()) {
                    Some(k) => k,
                    None => {
                        let mut m = owned("Variable not found: ");
                        push_string(&mut m, target);
                        return Err(m);
                    },
                };
                let ptr = self.variables[k].ptr;
                let v = self.generate_expr(value)?;
                if *op == AssignOp::Assign {
                    let ghost mid = self.builder.emitted@;
                    let r = lerr(ll::build_store(&mut self.builder, ptr, v.raw));
                    proof {
                        crate::codegen::emit::lemma_since_push(mid, ll::IrInstr::Store);
                    }
                    r
                } else {
                    self.tree_compound_store(*op, ptr, v)
                }
            },
            Stmt::Return { value, .. } => match value {
                Some(v) => {
                    let x = self.generate_expr(v)?;
                    let void_result = match &self.return_type {
                        Some(t) => t.is_void_result(),
                        None => false,
                    };
                    let ghost mid = self.builder.emitted@;
                    if void_result {
                        let r = lerr(ll::build_return_void(&mut self.builder));
                        proof {
                            crate::codegen::emit::lemma_since_push(mid, ll::IrInstr::ReturnVoid);
                        }
                        r
                    } else {
                        let r = lerr(ll::build_return_value(&mut self.builder, x.raw));
                        proof {
                            crate::codegen::emit::lemma_since_push(mid, ll::IrInstr::Return);
                        }
                        r
                    }
                },
                None => {
                    let ghost mid = self.builder.emitted@;
                    let r = lerr(ll::build_return_void(&mut self.builder));
                    proof {
                        crate::codegen::emit::lemma_since_push(mid, ll::IrInstr::ReturnVoid);
                    }
                    r
                },
            },
            Stmt::Block { stmts, .. } => {
                let mut i: usize = 0;
                while i < stmts.len()
                    invariant
                        emitted_grows(*old(self), *self),
                        i <= stmts@.len(),
                        self.current_function == old(self).current_function,
                    decreases stmts@.len() - i,
                {
                    proof {
                        assert(decreases_to!(*stmt => *stmts));
                        assert(decreases_to!(*stmts => stmts@));
                        assert(decreases_to!(stmts@ => stmts@[i as int]));
                    }
                    self.generate_stmt(&stmts[i])?;
                    i = i + 1;
                }
                Ok(())
            },
            Stmt::If { .. } => self.generate_if(stmt),
            Stmt::Defer { stmt: inner, .. } => self.generate_stmt(inner),
            Stmt::DeferBang { stmt: inner, .. } => self.generate_stmt(inner),
            Stmt::Break { label, span } => match self.loop_end_blocks.find_innermost(label) {
                Some(target) => {
                    let ghost mid = self.builder.emitted@;
                    let r = lerr(ll::build_branch(&mut self.builder, target));
                    proof {
                        crate::codegen::emit::lemma_since_push(mid, ll::IrInstr::Branch);
                    }
                    r
                },
                None => Err(tree_jump_error_string("break", label, *span, self.loop_end_blocks.levels.len() > 0)),
            },
            Stmt::Continue { label, span } => match self.loop_continue_blocks.find_innermost(label) {
                Some(target) => {
                    let ghost mid = self.builder.emitted@;
                    let r = lerr(ll::build_branch(&mut self.builder, target));
                    proof {
                        crate::codegen::emit::lemma_since_push(mid, ll::IrInstr::Branch);
                    }
                    r
                },
                None => Err(tree_jump_error_string("continue", label, *span, self.loop_continue_blocks.levels.len() > 0)),
            },
            Stmt::For { .. } | Stmt::Switch { .. } => {
                proof {
                    assert(false);
                }
                Err(owned("Statement not handled by the syntax-tree generator"))
            },
        }
    }

    /// `const (a, _, c) = value`: each named element of the tuple value in
    /// a slot of its own, typed by the element.
    #[verifier::loop_isolation(false)]
    fn tree_destructure(&mut self, names: &Vec<Option<String>>, val: Option<Val<'ctx>>, is_const: bool) -> (r: CodegenResult<()>)
        ensures
            emitted_grows(*old(self), *final(self)),
            final(self).current_function == old(self).current_function,
            val is None ==> (r matches Err(m) && m@ == "Tuple destructuring requires a value"@),
            val matches Some(v) ==> (!(v.ty is Struct || v.ty is Named) ==> (r matches Err(m) && m@
                == "Tuple destructuring requires a tuple value"@)),
            val matches Some(v) ==> (v.ty matches LType::Struct(fs) ==> (names@.len() > fs@.len() ==> r is Err)),
            r is Ok ==> var_names(final(self).variables@) == var_names(old(self).variables@) + bound_names(names@),
    {
        let v = match val {
            Some(v) => v,
            None => {
                return Err(owned("Tuple destructuring requires a value"));
            },
        };
        let fields = match self.struct_fields_of(&v.ty) {
            Some(fs) => fs,
            None => {
                return Err(owned("Tuple destructuring requires a tuple value"));
            },
        };
        proof {
            crate::codegen::types::lemma_ltypes_view(fields@);
            if let LType::Struct(fs) = v.ty {
                crate::codegen::types::lemma_ltypes_view(fs@);
            }
        }
        let n = names.len();
        let mut count: usize = 0;
        while count < n && count < fields.len()
            invariant
                emitted_grows(*old(self), *self),
                count <= n,
                count <= fields@.len(),
            decreases n - count,
        {
            if count > u32::MAX as usize {
                break;
            }
            let mut nm = owned("tuple_elem");
            push_u64(&mut nm, count as u64);
            match ll::build_extract_value(&self.builder, v.raw, count as u32, nm.as_str()) {
                Ok(_) => {},
                Err(_) => {
                    break;
                },
            }
            count = count + 1;
        }
        if n != count {
            let mut m = owned("Tuple destructuring: expected ");
            push_u64(&mut m, n as u64);
            push_str(&mut m, " elements, got ");
            push_u64(&mut m, count as u64);
            return Err(m);
        }
        let bodies = self.struct_bodies();
        let mut i: usize = 0;
        assert(names@.subrange(0, 0) =~= Seq::<Option<String>>::empty());
        assert(var_names(self.variables@) =~= var_names(old(self).variables@) + bound_names(names@.subrange(0, 0)));
        while i < n
            invariant
                emitted_grows(*old(self), *self),
                i <= n,
                n == names@.len(),
                n <= fields@.len(),
                self.current_function == old(self).current_function,
                var_names(self.variables@) == var_names(old(self).variables@) + bound_names(names@.subrange(0, i as int)),
            decreases n - i,
        {
            let ghost before = self.variables@;
            assert(names@.subrange(0, i + 1).drop_last() =~= names@.subrange(0, i as int));
            if i > u32::MAX as usize {
                return Err(owned("Tuple too large"));
            }
            match &names[i] {
                Some(var) => {
                    let mut nm = owned("tuple_elem");
                    push_u64(&mut nm, i as u64);
                    let elem = lerr(ll::build_extract_value(&self.builder, v.raw, i as u32, nm.as_str()))?;
                    let bt = self.basic_type(&fields[i])?;
                    let slot = lerr(ll::build_alloca(&mut self.builder, bt, var.as_str()))?;
                    lerr(ll::build_store(&mut self.builder, slot, elem))?;
                    let lang = llvm_type_to_lang(&fields[i], &bodies);
                    self.add_variable(var, slot, &lang, is_const);
                    if is_const {
                        self.const_names.push(var.clone());
                    }
                    assert(var_names(self.variables@) =~= var_names(before).push(var@)) by {
                        assert(vars_view(self.variables@).len() == self.variables@.len());
                        assert forall|j: int| 0 <= j < self.variables@.len() implies #[trigger] var_names(self.variables@)[j]
                            == var_names(before).push(var@)[j] by {
                            assert(vars_view(self.variables@)[j] == vars_view(before).push((var@, lang@))[j]);
                        }
                    }
                },
                None => {},
            }
            i = i + 1;
        }
        assert(names@.subrange(0, n as int) =~= names@);
        Ok(())
    }

    /// `object.member op= value`: the member of the struct the variable
    /// holds, or points to, updated in place.
    fn tree_member_assign(&mut self, stmt: &Stmt) -> (r: CodegenResult<()>)
        requires
            tree_stmt_ok(*stmt, old(self).current_function is Some),
            *stmt is Assign,
        ensures
            emitted_grows(*old(self), *final(self)),
            final(self).current_function == old(self).current_function,
            *stmt matches Stmt::Assign { target, .. } ==> (var_index(vars_view(old(self).variables@), target_object(target@))
                == -1 ==> (r matches Err(m) && m@ == "Var not found"@)),
        decreases stmt, 2nat,
    {
        let (target, op, value) = match stmt {
            Stmt::Assign { target, op, value, .. } => (target, op, value),
            _ => {
                return Err(owned("Assignment expected"));
            },
        };
        let (obj, member, _) = target_segments(target.as_str());
        let k = match self.lookup_variable(obj.as_str()) {
            Some(k) => k,
            None => {
                return Err(owned("Var not found"));
            },
        };
        let ptr = self.variables[k].ptr;
        let through_pointer = matches!(self.variables[k].ty, Type::Pointer(_));
        let sname = match &self.variables[k].ty {
            Type::Pointer(inner) => match &**inner {
                Type::Custom { name, .. } => name.clone(),
                _ => {
                    return Err(owned("Member assignment on non-custom pointer type"));
                },
            },
            Type::Custom { name, .. } => name.clone(),
            _ => {
                return Err(owned("Member assignment on non-struct type"));
            },
        };
        let (idx, fty) = match self.field_of(sname.as_str(), member.as_str()) {
            Some(x) => x,
            None => {
                let mut m = owned("Field '");
                push_string(&mut m, &member);
                push_str(&mut m, "' not found in struct '");
                push_string(&mut m, &sname);
                push_str(&mut m, "'");
                return Err(m);
            },
        };
        let base = if through_pointer {
            lerr(ll::build_load(&mut self.builder, ptr, "obj_ptr"))?
        } else {
            ll::pointer_value(ptr)
        };
        let fp = lerr(ll::build_struct_gep(&self.builder, base, idx, "field_ptr"))?;
        let v = self.generate_expr(value)?;
        if *op == AssignOp::Assign {
            let stored = match (&fty, &v.ty) {
                (LType::Int(_), LType::Int(_)) => {
                    let bt = self.basic_type(&fty)?;
                    lerr(ll::build_int_cast(&self.builder, v.raw, bt, "assign_cast"))?
                },
                _ => v.raw,
            };
            lerr(ll::build_store(&mut self.builder, fp, stored))
        } else {
            self.tree_compound_store(*op, fp, v)
        }
    }

    /// `+=`, `-=`, `*=` and `/=` (signed) on the integer in a slot.
    fn tree_compound_store(&mut self, op: AssignOp, ptr: inkwell::values::PointerValue<'ctx>, v: Val<'ctx>) -> (r: CodegenResult<()>)
        requires
            tree_assign_op_ok(op),
            op != AssignOp::Assign,
        ensures
            emitted_grows(*old(self), *final(self)),
            only_emitted(*old(self), *final(self)),
            r is Ok ==> emitted_since(*old(self), *final(self)).len() == 3 && (emitted_since(*old(self), *final(self))[1] matches ll::IrInstr::IntBinary(
                i,
                _,
            ) && tree_binary_instr(crate::hir::compound_base(op)->0) == Some(TreeInstr::Int(i))),
    {
        let ghost before = *self;
        let cur = lerr(ll::build_load(&mut self.builder, ptr, "tmp"))?;

        let res = match op {
            AssignOp::AddAssign => lerr(ll::build_int_add(&mut self.builder, cur, v.raw, "addtmp"))?,
            AssignOp::SubAssign => lerr(ll::build_int_sub(&mut self.builder, cur, v.raw, "subtmp"))?,
            AssignOp::MulAssign => lerr(ll::build_int_mul(&mut self.builder, cur, v.raw, "multmp"))?,
            AssignOp::DivAssign => lerr(ll::build_int_signed_div(&mut self.builder, cur, v.raw, "divtmp"))?,
            _ => {
                proof {
                    assert(false);
                }
                return Err(owned("Compound assignment not handled by the syntax-tree generator"));
            },
        };
        let r = lerr(ll::build_store(&mut self.builder, ptr, res));
        proof {
            if r is Ok {
                let e = emitted_since(before, *self);
                assert(e.len() == 3);
            }
        }
        r
    }

    /// Generates a function of the syntax tree that was declared under its
    /// own name: its parameters in stack slots, its body, and a closing
    /// return (nothing for a void function, zero otherwise).
    pub fn generate_function(&mut self, fn_def: &FnDef) -> (r: CodegenResult<()>)
        requires
            forall|i: int| 0 <= i < fn_def.body@.len() ==> tree_stmt_ok(#[trigger] fn_def.body@[i], true),
        ensures
            emitted_grows(*old(self), *final(self)),
            r is Ok ==> final(self).current_function is None,
    {
        let function = match ll::get_function(&self.module, fn_def.name.as_str()) {
            Some(f) => f,
            None => {
                let mut m = owned("Function not declared: ");
                push_string(&mut m, &fn_def.name);
                return Err(m);
            },
        };
        self.current_function = Some(function);
        self.return_type = Some(fn_def.return_ty.deep_clone());
        self.variables = Vec::new();
        let entry = ll::append_block(self.context, function, "entry");
        ll::position_at_end(&mut self.builder, entry);
        let mut i: usize = 0;
        while i < fn_def.params.len()
            invariant
                emitted_grows(*old(self), *self),
                i <= fn_def.params@.len(),
                self.current_function is Some,
            decreases fn_def.params@.len() - i,
        {
            let pv = if i <= u32::MAX as usize {
                ll::nth_param(function, i as u32)
            } else {
                None
            };
            let pv = match pv {
                Some(v) => v,
                None => {
                    let mut m = owned("Failed to get parameter ");
                    push_u64(&mut m, i as u64);
                    push_str(&mut m, " for function ");
                    push_string(&mut m, &fn_def.name);
                    return Err(m);
                },
            };
            let lt = self.llvm_type(&fn_def.params[i].ty);
            let bt = self.basic_type(&lt)?;
            let slot = lerr(ll::build_alloca(&mut self.builder, bt, fn_def.params[i].name.as_str()))?;
            lerr(ll::build_store(&mut self.builder, slot, pv))?;
            self.add_variable(&fn_def.params[i].name, slot, &fn_def.params[i].ty, false);
            i = i + 1;
        }
        let mut k: usize = 0;
        while k < fn_def.body.len()
            invariant
                emitted_grows(*old(self), *self),
                k <= fn_def.body@.len(),
                self.current_function is Some,
                forall|j: int| 0 <= j < fn_def.body@.len() ==> tree_stmt_ok(#[trigger] fn_def.body@[j], true),
            decreases fn_def.body@.len() - k,
        {
            self.generate_stmt(&fn_def.body[k])?;
            k = k + 1;
        }
        if matches!(fn_def.return_ty, Type::Void) {
            lerr(ll::build_return_void(&mut self.builder))?;
        } else {
            let lt = self.llvm_type(&fn_def.return_ty);
            let bt = self.basic_type(&lt)?;
            lerr(ll::build_return_value(&mut self.builder, ll::const_zero(bt)))?;
        }
        self.current_function = None;
        Ok(())
    }
}

} // verus!
