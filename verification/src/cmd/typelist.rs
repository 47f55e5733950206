//! The `typelist` command: every type a program mentions, each with a unique
//! numeric id.

use vstd::prelude::*;
use crate::ast::{
    EnumDef, ErrorDef, Expr, FnDef, Program, Stmt, StructDef, SwitchCase, Type, TypeV, Visibility,
    lemma_types_view, push_type_text, type_text, type_view, types_view, types_equal,
};
use crate::seqs::{lemma_map_values_push, lemma_subrange_push, lemma_subrange_all};
use crate::text::{nat_text, owned, push_str, push_u64};

verus! {

/// A type as met in a walk, with the types it is built from after it:
/// pointer, option and result targets, array elements, tuple members,
/// generic arguments, then parameter and return types of function types.
pub open spec fn type_walk(t: TypeV) -> Seq<TypeV>
    decreases t,
{
    seq![t] + match t {
        TypeV::Pointer(inner) => type_walk(*inner),
        TypeV::Option(inner) => type_walk(*inner),
        TypeV::Result(inner) => type_walk(*inner),
        TypeV::Array { element_type, .. } => type_walk(*element_type),
        TypeV::Tuple(ts) => types_walk(ts),
        TypeV::Custom { generic_args, .. } => types_walk(generic_args),
        TypeV::Function { params, return_type } => types_walk(params) + type_walk(*return_type),
        _ => Seq::empty(),
    }
}

/// The walks of a list of types, one after the other.
pub open spec fn types_walk(ts: Seq<TypeV>) -> Seq<TypeV>
    decreases ts,
{
    if ts.len() == 0 {
        Seq::empty()
    } else {
        types_walk(ts.drop_last()) + type_walk(ts.last())
    }
}

/// The types an expression mentions: only types written inside nested
/// statements (variable annotations); expressions themselves carry none.
pub open spec fn expr_walk(e: Expr) -> Seq<TypeV>
    decreases e,
{
    match e {
        Expr::Binary { left, right, .. } => expr_walk(*left) + expr_walk(*right),
        Expr::Unary { expr, .. } => expr_walk(*expr),
        Expr::Call { args, .. } => exprs_walk(args@),
        Expr::If { condition, then_branch, else_branch, .. } => {
            expr_walk(*condition) + expr_walk(*then_branch) + expr_walk(*else_branch)
        },
        Expr::Block { stmts, .. } => stmts_walk(stmts@),
        Expr::MemberAccess { object, .. } => expr_walk(*object),
        Expr::TupleIndex { tuple, .. } => expr_walk(*tuple),
        Expr::Struct { fields, .. } => fields_walk(fields@),
        Expr::Array(elements, _, _) => exprs_walk(elements@),
        Expr::Tuple(elements, _) => exprs_walk(elements@),
        Expr::Try { expr, .. } => expr_walk(*expr),
        Expr::Catch { expr, body, .. } => expr_walk(*expr) + expr_walk(*body),
        Expr::Cast { expr, .. } => expr_walk(*expr),
        Expr::Dereference { expr, .. } => expr_walk(*expr),
        Expr::Index { object, index, .. } => expr_walk(*object) + expr_walk(*index),
        _ => Seq::empty(),
    }
}

/// The walks of a list of expressions.
pub open spec fn exprs_walk(es: Seq<Expr>) -> Seq<TypeV>
    decreases es,
{
    if es.len() == 0 {
        Seq::empty()
    } else {
        exprs_walk(es.drop_last()) + expr_walk(es.last())
    }
}

/// The walks of the values of struct literal fields.
pub open spec fn fields_walk(fs: Seq<(String, Expr)>) -> Seq<TypeV>
    decreases fs,
{
    if fs.len() == 0 {
        Seq::empty()
    } else {
        fields_walk(fs.drop_last()) + expr_walk(fs.last().1)
    }
}

/// The types a statement mentions.
pub open spec fn stmt_walk(s: Stmt) -> Seq<TypeV>
    decreases s,
{
    match s {
        Stmt::Let { ty, value, .. } => {
            (match ty { Some(t) => type_walk(t@), None => Seq::empty() }) + (match value {
                Some(v) => expr_walk(v),
                None => Seq::empty(),
            })
        },
        Stmt::Assign { value, .. } => expr_walk(value),
        Stmt::Return { value, .. } => match value { Some(v) => expr_walk(v), None => Seq::empty() },
        Stmt::Expr { expr, .. } => expr_walk(expr),
        Stmt::If { condition, then_branch, else_branch, .. } => {
            expr_walk(condition) + stmt_walk(*then_branch) + match else_branch {
                Some(b) => stmt_walk(*b),
                None => Seq::empty(),
            }
        },
        Stmt::For { iterable, body, .. } => expr_walk(iterable) + stmt_walk(*body),
        Stmt::Switch { condition, cases, .. } => expr_walk(condition) + cases_walk(cases@),
        Stmt::Block { stmts, .. } => stmts_walk(stmts@),
        Stmt::Defer { stmt, .. } => stmt_walk(*stmt),
        Stmt::DeferBang { stmt, .. } => stmt_walk(*stmt),
        _ => Seq::empty(),
    }
}

/// The walks of a list of statements.
pub open spec fn stmts_walk(ss: Seq<Stmt>) -> Seq<TypeV>
    decreases ss,
{
    if ss.len() == 0 {
        Seq::empty()
    } else {
        stmts_walk(ss.drop_last()) + stmt_walk(ss.last())
    }
}

/// The walks of the bodies of switch cases (patterns mention no types).
pub open spec fn cases_walk(cs: Seq<SwitchCase>) -> Seq<TypeV>
    decreases cs,
{
    if cs.len() == 0 {
        Seq::empty()
    } else {
        cases_walk(cs.drop_last()) + stmt_walk(cs.last().body)
    }
}

/// The types of a function: its return type, its parameter types, then the
/// types in its body.
pub open spec fn fn_walk(f: FnDef) -> Seq<TypeV> {
    type_walk(f.return_ty@) + params_walk(f.params@) + stmts_walk(f.body@)
}

/// The walks of parameter types.
pub open spec fn params_walk(ps: Seq<crate::ast::FnParam>) -> Seq<TypeV>
    decreases ps.len(),
{
    if ps.len() == 0 {
        Seq::empty()
    } else {
        params_walk(ps.drop_last()) + type_walk(ps.last().ty@)
    }
}

/// The walks of a list of functions.
pub open spec fn fns_walk(fs: Seq<FnDef>) -> Seq<TypeV>
    decreases fs.len(),
{
    if fs.len() == 0 {
        Seq::empty()
    } else {
        fns_walk(fs.drop_last()) + fn_walk(fs.last())
    }
}

/// The walks of lists of types, one list after the other.
pub open spec fn type_lists_walk(ls: Seq<Vec<Type>>) -> Seq<TypeV>
    decreases ls.len(),
{
    if ls.len() == 0 {
        Seq::empty()
    } else {
        type_lists_walk(ls.drop_last()) + types_walk(types_view(ls.last()@))
    }
}

/// The types of the struct fields.
pub open spec fn field_types_walk(fs: Seq<crate::ast::StructField>) -> Seq<TypeV>
    decreases fs.len(),
{
    if fs.len() == 0 {
        Seq::empty()
    } else {
        field_types_walk(fs.drop_last()) + type_walk(fs.last().ty@)
    }
}

/// The custom type naming a declared struct or enum: its generic parameters
/// as arguments, exported when the declaration is public.
pub open spec fn declared_type(name: Seq<char>, params: Seq<String>, vis: Visibility) -> TypeV {
    TypeV::Custom {
        name: name,
        generic_args: params.map_values(|p: String| TypeV::GenericParam(p@)),
        is_exported: vis == Visibility::Public,
    }
}

/// The types of a struct: its own type, its field types, then its methods.
pub open spec fn struct_walk(s: StructDef) -> Seq<TypeV> {
    seq![declared_type(s.name@, s.generic_params@, s.visibility)] + field_types_walk(s.fields@) + fns_walk(s.methods@)
}

/// The associated types of enum variants.
pub open spec fn enum_variants_walk(vs: Seq<crate::ast::EnumVariant>) -> Seq<TypeV>
    decreases vs.len(),
{
    if vs.len() == 0 {
        Seq::empty()
    } else {
        enum_variants_walk(vs.drop_last()) + types_walk(types_view(vs.last().associated_types@))
    }
}

/// The associated types of error variants.
pub open spec fn error_variants_walk(vs: Seq<crate::ast::ErrorVariant>) -> Seq<TypeV>
    decreases vs.len(),
{
    if vs.len() == 0 {
        Seq::empty()
    } else {
        error_variants_walk(vs.drop_last()) + types_walk(types_view(vs.last().associated_types@))
    }
}

/// The types of an enum: its own type, its variants' types, then its methods.
pub open spec fn enum_walk(e: EnumDef) -> Seq<TypeV> {
    seq![declared_type(e.name@, e.generic_params@, e.visibility)] + enum_variants_walk(e.variants@) + fns_walk(e.methods@)
}

/// The types of an error type: its own type, then its variants' types.
pub open spec fn error_walk(e: ErrorDef) -> Seq<TypeV> {
    seq![TypeV::Custom { name: e.name@, generic_args: Seq::empty(), is_exported: e.visibility == Visibility::Public }]
        + error_variants_walk(e.variants@)
}

/// The walks of the structs.
pub open spec fn structs_walk(ss: Seq<StructDef>) -> Seq<TypeV>
    decreases ss.len(),
{
    if ss.len() == 0 { Seq::empty() } else { structs_walk(ss.drop_last()) + struct_walk(ss.last()) }
}

/// The walks of the enums.
pub open spec fn enums_walk(es: Seq<EnumDef>) -> Seq<TypeV>
    decreases es.len(),
{
    if es.len() == 0 { Seq::empty() } else { enums_walk(es.drop_last()) + enum_walk(es.last()) }
}

/// The walks of the error types.
pub open spec fn errors_walk(es: Seq<ErrorDef>) -> Seq<TypeV>
    decreases es.len(),
{
    if es.len() == 0 { Seq::empty() } else { errors_walk(es.drop_last()) + error_walk(es.last()) }
}

/// Every type a program mentions, in the order the type listing meets them:
/// structs, enums, functions, then error types.
pub open spec fn program_walk(p: Program) -> Seq<TypeV> {
    structs_walk(p.structs@) + enums_walk(p.enums@) + fns_walk(p.functions@) + errors_walk(p.errors@)
}

/// A registry after meeting one more type: unchanged when it knows the
/// type, else with the type added at the end.
pub open spec fn reg_add(reg: Seq<TypeV>, t: TypeV) -> Seq<TypeV> {
    if reg.contains(t) { reg } else { reg.push(t) }
}

/// A registry after meeting each type of a walk in turn.
pub open spec fn reg_extend(reg: Seq<TypeV>, walk: Seq<TypeV>) -> Seq<TypeV>
    decreases walk.len(),
{
    if walk.len() == 0 { reg } else { reg_add(reg_extend(reg, walk.drop_last()), walk.last()) }
}

/// Meeting two walks in turn is meeting their concatenation.
pub proof fn lemma_reg_extend_concat(reg: Seq<TypeV>, a: Seq<TypeV>, b: Seq<TypeV>)
    ensures
        reg_extend(reg_extend(reg, a), b) == reg_extend(reg, a + b),
    decreases b.len(),
{
    if b.len() == 0 {
        assert(a + b =~= a);
    } else {
        lemma_reg_extend_concat(reg, a, b.drop_last());
        assert((a + b).drop_last() =~= a + b.drop_last());
        assert((a + b).last() == b.last());
    }
}

/// A registry only grows, keeps what it had in place, and grows by at most
/// the length of the walk.
pub proof fn lemma_reg_extend_grows(reg: Seq<TypeV>, walk: Seq<TypeV>)
    ensures
        reg.len() <= reg_extend(reg, walk).len() <= reg.len() + walk.len(),
        reg_extend(reg, walk).subrange(0, reg.len() as int) == reg,
    decreases walk.len(),
{
    if walk.len() > 0 {
        lemma_reg_extend_grows(reg, walk.drop_last());
        let e = reg_extend(reg, walk.drop_last());
        if !e.contains(walk.last()) {
            assert(e.push(walk.last()).subrange(0, reg.len() as int) =~= e.subrange(0, reg.len() as int));
        }
    } else {
        assert(reg.subrange(0, reg.len() as int) =~= reg);
    }
}

/// The model of a listing: the types of its entries.
pub open spec fn listed_types(l: Seq<(u32, Type)>) -> Seq<TypeV> {
    l.map_values(|p: (u32, Type)| p.1@)
}

/// A registry holds each type once, and every entry of the listing names
/// its type by the type's position in the registry.
pub open spec fn registry_ok(reg: Seq<TypeV>, l: Seq<(u32, Type)>) -> bool {
    &&& reg.no_duplicates()
    &&& forall|k: int| 0 <= k < l.len() ==> (#[trigger] l[k]).0 < reg.len() && reg[l[k].0 as int] == l[k].1@
}

/// Assigns unique ids to types: a type's id is its position in the order
/// the registry first met it.
pub struct TypeRegistry {
    pub types: Vec<Type>,
}

impl View for TypeRegistry {
    type V = Seq<TypeV>;

    open spec fn view(&self) -> Seq<TypeV> {
        types_view(self.types@)
    }
}

impl TypeRegistry {
    /// An empty registry.
    pub fn new() -> (r: Self)
        ensures
            r@ == Seq::<TypeV>::empty(),
    {
        TypeRegistry { types: Vec::new() }
    }

    /// The id of a type, registering it when it is new.
    pub fn get_type_id(&mut self, ty: &Type) -> (r: u32)
        requires
            old(self)@.no_duplicates(),
            old(self)@.len() < u32::MAX,
        ensures
            final(self)@ == reg_add(old(self)@, ty@),
            final(self)@.no_duplicates(),
            (r as int) < final(self)@.len(),
            final(self)@[r as int] == ty@,
    {
        proof {
            lemma_types_view(self.types@);
        }
        let mut i: usize = 0;
        while i < self.types.len()
            invariant
                i <= self.types.len(),
                self@ == types_view(self.types@),
                self@.len() == self.types.len(),
                self.types.len() < u32::MAX,
                self@.no_duplicates(),
                forall|j: int| 0 <= j < self.types.len() ==> #[trigger] self@[j] == type_view(self.types@[j]),
                forall|j: int| 0 <= j < i ==> self@[j] != ty@,
            decreases self.types.len() - i,
        {
            if types_equal(&self.types[i], ty) {
                assert(self@.contains(ty@)) by {
                    assert(self@[i as int] == ty@);
                }
                return i as u32;
            }
            i = i + 1;
        }
        assert(!self@.contains(ty@));
        let t = ty.deep_clone();
        proof {
            crate::ast::lemma_types_view_push(self.types@, t);
        }
        let ghost before = self@;
        self.types.push(t);
        assert(self@ == before.push(ty@));
        assert(self@.no_duplicates()) by {
            assert forall|a: int, b: int| 0 <= a < self@.len() && 0 <= b < self@.len() && a != b implies self@[a] != self@[b] by {
                if a < before.len() && b < before.len() {
                } else if a == before.len() {
                    assert(self@[b] == before[b]);
                } else {
                    assert(self@[a] == before[a]);
                }
            }
        }
        i as u32
    }
}

/// Every entry of a listing from position `start` on names its type by the
/// type's position in the registry.
pub open spec fn entries_ok_from(reg: Seq<TypeV>, l: Seq<(u32, Type)>, start: int) -> bool {
    forall|k: int| start <= k < l.len() ==> (#[trigger] l[k]).0 < reg.len() && reg[l[k].0 as int] == l[k].1@
}

/// Registers a type and adds it to the listing.
fn note_type(ty: &Type, registry: &mut TypeRegistry, type_list: &mut Vec<(u32, Type)>)
    requires
        old(registry)@.no_duplicates(),
        old(registry)@.len() < u32::MAX,
    ensures
        final(registry)@.no_duplicates(),
        final(registry)@ == reg_add(old(registry)@, ty@),
        listed_types(final(type_list)@) == listed_types(old(type_list)@).push(ty@),
        final(type_list)@.len() == old(type_list)@.len() + 1,
        final(type_list)@.subrange(0, old(type_list)@.len() as int) == old(type_list)@,
        entries_ok_from(final(registry)@, final(type_list)@, old(type_list)@.len() as int),
{
    let ghost reg0 = registry@;
    let id = registry.get_type_id(ty);
    let entry = (id, ty.deep_clone());
    proof {
        lemma_map_values_push(type_list@, entry, |p: (u32, Type)| p.1@);
        assert(reg_add(reg0, ty@).subrange(0, reg0.len() as int) =~= reg0);
    }
    let ghost l0 = type_list@;
    type_list.push(entry);
    assert(type_list@.subrange(0, l0.len() as int) =~= l0);
}

/// The obligations and promises of the walking functions below, over the
/// walk `w` they perform.
pub open spec fn walk_pre(reg: Seq<TypeV>, l: Seq<(u32, Type)>, w: Seq<TypeV>) -> bool {
    reg.no_duplicates() && reg.len() + w.len() < u32::MAX
}

/// What a walking function leaves behind: the registry has met the walk, and
/// the listing keeps its entries and has gained the walk's types, each new
/// entry naming its type by the type's position in the registry.
pub open spec fn walk_post(
    reg0: Seq<TypeV>,
    l0: Seq<(u32, Type)>,
    reg1: Seq<TypeV>,
    l1: Seq<(u32, Type)>,
    w: Seq<TypeV>,
) -> bool {
    &&& reg1.no_duplicates()
    &&& reg1 == reg_extend(reg0, w)
    &&& listed_types(l1) == listed_types(l0) + w
    &&& l0.len() <= l1.len()
    &&& l1.subrange(0, l0.len() as int) == l0
    &&& entries_ok_from(reg1, l1, l0.len() as int)
}

/// A walk keeps a listing kept by its registry so: the old entries still
/// name their types, the new ones name theirs.
pub proof fn law_walk_keeps_registry_ok(
    reg0: Seq<TypeV>,
    l0: Seq<(u32, Type)>,
    reg1: Seq<TypeV>,
    l1: Seq<(u32, Type)>,
    w: Seq<TypeV>,
)
    requires
        registry_ok(reg0, l0),
        walk_post(reg0, l0, reg1, l1, w),
    ensures
        registry_ok(reg1, l1),
{
    lemma_reg_extend_grows(reg0, w);
    assert forall|k: int| 0 <= k < l1.len() implies (#[trigger] l1[k]).0 < reg1.len() && reg1[l1[k].0 as int] == l1[k].1@ by {
        if k < l0.len() {
            assert(l1[k] == l1.subrange(0, l0.len() as int)[k]);
            assert(reg1.subrange(0, reg0.len() as int)[l0[k].0 as int] == reg1[l0[k].0 as int]);
        }
    }
}

/// Chains two walks: the promise of the first and of the second give the
/// promise of the concatenation.
proof fn lemma_walk_chain(
    reg0: Seq<TypeV>,
    l0: Seq<(u32, Type)>,
    reg1: Seq<TypeV>,
    l1: Seq<(u32, Type)>,
    reg2: Seq<TypeV>,
    l2: Seq<(u32, Type)>,
    a: Seq<TypeV>,
    b: Seq<TypeV>,
)
    requires
        walk_post(reg0, l0, reg1, l1, a),
        walk_post(reg1, l1, reg2, l2, b),
    ensures
        walk_post(reg0, l0, reg2, l2, a + b),
{
    lemma_reg_extend_concat(reg0, a, b);
    lemma_reg_extend_grows(reg1, b);
    assert(listed_types(l0) + a + b =~= listed_types(l0) + (a + b));
    assert(l2.subrange(0, l0.len() as int) =~= l0) by {
        assert forall|k: int| 0 <= k < l0.len() implies l2[k] == l0[k] by {
            assert(l2[k] == l2.subrange(0, l1.len() as int)[k]);
            assert(l1[k] == l1.subrange(0, l0.len() as int)[k]);
        }
    }
    assert forall|k: int| l0.len() <= k < l2.len() implies (#[trigger] l2[k]).0 < reg2.len() && reg2[l2[k].0 as int]
        == l2[k].1@ by {
        if k < l1.len() {
            assert(l2[k] == l2.subrange(0, l1.len() as int)[k]);
            assert(reg2.subrange(0, reg1.len() as int)[l1[k].0 as int] == reg2[l1[k].0 as int]);
        }
    }
}

/// After the first of two walks the second can still be performed.
proof fn lemma_walk_room(reg0: Seq<TypeV>, l0: Seq<(u32, Type)>, reg1: Seq<TypeV>, l1: Seq<(u32, Type)>, a: Seq<TypeV>, b: Seq<TypeV>)
    requires
        walk_pre(reg0, l0, a + b),
        walk_post(reg0, l0, reg1, l1, a),
    ensures
        walk_pre(reg1, l1, b),
{
    lemma_reg_extend_grows(reg0, a);
}

proof fn lemma_walk_empty(reg: Seq<TypeV>, l: Seq<(u32, Type)>)
    requires
        reg.no_duplicates(),
    ensures
        walk_post(reg, l, reg, l, Seq::empty()),
{
    assert(listed_types(l) + Seq::<TypeV>::empty() =~= listed_types(l));
    assert(l.subrange(0, l.len() as int) =~= l);
}

/// Adds a type and the types it is built from.
pub fn collect_type(ty: &Type, registry: &mut TypeRegistry, type_list: &mut Vec<(u32, Type)>)
    requires
        walk_pre(old(registry)@, old(type_list)@, type_walk(ty@)),
    ensures
        walk_post(old(registry)@, old(type_list)@, final(registry)@, final(type_list)@, type_walk(ty@)),
    decreases ty,
{
    let ghost reg0 = registry@;
    let ghost l0 = type_list@;
    let ghost rest = type_walk(ty@).drop_first();
    assert(type_walk(ty@) =~= seq![ty@] + rest);
    note_type(ty, registry, type_list);
    assert(reg_add(reg0, ty@) == reg_extend(reg0, seq![ty@])) by {
        assert(seq![ty@].drop_last() =~= Seq::<TypeV>::empty());
        assert(seq![ty@].last() == ty@);
        assert(reg_extend(reg0, Seq::<TypeV>::empty()) == reg0);
    }
    assert(listed_types(l0).push(ty@) =~= listed_types(l0) + seq![ty@]);
    let ghost reg1 = registry@;
    let ghost l1 = type_list@;
    proof {
        lemma_walk_room(reg0, l0, reg1, l1, seq![ty@], rest);
    }
    match ty {
        Type::Pointer(inner) => {
            assert(rest =~= type_walk(inner@));
            collect_type(inner, registry, type_list)
        },
        Type::Option(inner) => {
            assert(rest =~= type_walk(inner@));
            collect_type(inner, registry, type_list)
        },
        Type::Result(inner) => {
            assert(rest =~= type_walk(inner@));
            collect_type(inner, registry, type_list)
        },
        Type::Array { element_type, .. } => {
            assert(rest =~= type_walk(element_type@));
            collect_type(element_type, registry, type_list)
        },
        Type::Tuple(ts) => {
            assert(rest =~= types_walk(types_view(ts@)));
            collect_types(ts, registry, type_list)
        },
        Type::Custom { generic_args, .. } => {
            assert(rest =~= types_walk(types_view(generic_args@)));
            collect_types(generic_args, registry, type_list)
        },
        Type::Function { params, return_type } => {
            let ghost pw = types_walk(types_view(params@));
            let ghost rw = type_walk(return_type@);
            assert(rest =~= pw + rw);
            proof {
                lemma_reg_extend_grows(reg1, pw);
            }
            collect_types(params, registry, type_list);
            let ghost reg2 = registry@;
            let ghost l2 = type_list@;
            collect_type(return_type, registry, type_list);
            proof {
                lemma_walk_chain(reg1, l1, reg2, l2, registry@, type_list@, pw, rw);
            }
        },
        _ => {
            proof {
                lemma_walk_empty(reg1, l1);
            }
            assert(rest =~= Seq::<TypeV>::empty());
        },
    }
    proof {
        lemma_walk_chain(reg0, l0, reg1, l1, registry@, type_list@, seq![ty@], rest);
    }
}

/// Adds each type of a list with the types it is built from.
pub fn collect_types(ts: &Vec<Type>, registry: &mut TypeRegistry, type_list: &mut Vec<(u32, Type)>)
    requires
        walk_pre(old(registry)@, old(type_list)@, types_walk(types_view(ts@))),
    ensures
        walk_post(old(registry)@, old(type_list)@, final(registry)@, final(type_list)@, types_walk(types_view(ts@))),
    decreases ts,
{
    proof {
        lemma_types_view(ts@);
    }
    let ghost reg0 = registry@;
    let ghost l0 = type_list@;
    let ghost tv = types_view(ts@);
    proof {
        lemma_walk_empty(reg0, l0);
        assert(tv.subrange(0, 0) =~= Seq::<TypeV>::empty());
    }
    let mut i: usize = 0;
    while i < ts.len()
        invariant
            i <= ts.len(),
            tv == types_view(ts@),
            tv.len() == ts.len(),
            forall|j: int| 0 <= j < ts.len() ==> #[trigger] tv[j] == type_view(ts@[j]),
            walk_pre(reg0, l0, types_walk(tv)),
            walk_post(reg0, l0, registry@, type_list@, types_walk(tv.subrange(0, i as int))),
        decreases ts.len() - i,
    {
        let ghost sub = tv.subrange(0, i as int);
        let ghost next = tv.subrange(0, i + 1);
        assert(next.drop_last() =~= sub);
        assert(next.last() == type_view(ts@[i as int]));
        let ghost reg1 = registry@;
        let ghost l1 = type_list@;
        proof {
            lemma_walk_prefix_room(reg0, l0, reg1, l1, tv, i as int);
        }
        collect_type(&ts[i], registry, type_list);
        proof {
            lemma_walk_chain(reg0, l0, reg1, l1, registry@, type_list@, types_walk(sub), type_walk(tv[i as int]));
        }
        i = i + 1;
    }
    assert(tv.subrange(0, ts.len() as int) =~= tv);
}

/// Walks of prefixes are prefixes of the walk.
proof fn lemma_types_walk_prefix(tv: Seq<TypeV>, i: int)
    requires
        0 <= i <= tv.len(),
    ensures
        types_walk(tv.subrange(0, i)).len() <= types_walk(tv).len(),
    decreases tv.len() - i,
{
    if i < tv.len() {
        lemma_types_walk_prefix(tv, i + 1);
        assert(tv.subrange(0, i + 1).drop_last() =~= tv.subrange(0, i));
        assert(types_walk(tv.subrange(0, i + 1)) == types_walk(tv.subrange(0, i)) + type_walk(tv.subrange(0, i + 1).last()));
    } else {
        assert(tv.subrange(0, i) =~= tv);
    }
}

proof fn lemma_walk_prefix_room(
    reg0: Seq<TypeV>,
    l0: Seq<(u32, Type)>,
    reg1: Seq<TypeV>,
    l1: Seq<(u32, Type)>,
    tv: Seq<TypeV>,
    i: int,
)
    requires
        0 <= i < tv.len(),
        walk_pre(reg0, l0, types_walk(tv)),
        walk_post(reg0, l0, reg1, l1, types_walk(tv.subrange(0, i))),
    ensures
        walk_pre(reg1, l1, type_walk(tv[i])),
{
    lemma_types_walk_prefix(tv, i + 1);
    assert(tv.subrange(0, i + 1).drop_last() =~= tv.subrange(0, i));
    lemma_reg_extend_grows(reg0, types_walk(tv.subrange(0, i)));
}

/// A walk no longer than one the caller made room for fits too.
proof fn lemma_room_shorter(reg: Seq<TypeV>, l: Seq<(u32, Type)>, w: Seq<TypeV>, e: Seq<TypeV>)
    requires
        walk_pre(reg, l, w),
        e.len() <= w.len(),
    ensures
        walk_pre(reg, l, e),
{
}

/// After a first part of a walk, room is left for the next part.
proof fn lemma_room(
    reg0: Seq<TypeV>,
    l0: Seq<(u32, Type)>,
    reg1: Seq<TypeV>,
    l1: Seq<(u32, Type)>,
    w: Seq<TypeV>,
    p: Seq<TypeV>,
    e: Seq<TypeV>,
)
    requires
        walk_pre(reg0, l0, w),
        walk_post(reg0, l0, reg1, l1, p),
        p.len() + e.len() <= w.len(),
    ensures
        walk_pre(reg1, l1, e),
{
    lemma_reg_extend_grows(reg0, p);
}

proof fn lemma_exprs_step(s: Seq<Expr>, i: int)
    requires
        0 <= i < s.len(),
    ensures
        exprs_walk(s.subrange(0, i + 1)) == exprs_walk(s.subrange(0, i)) + expr_walk(s[i]),
{
    assert(s.subrange(0, i + 1).drop_last() =~= s.subrange(0, i));
    assert(s.subrange(0, i + 1).last() == s[i]);
}

proof fn lemma_exprs_prefix(s: Seq<Expr>, i: int)
    requires
        0 <= i <= s.len(),
    ensures
        exprs_walk(s.subrange(0, i)).len() <= exprs_walk(s).len(),
    decreases s.len() - i,
{
    if i < s.len() {
        lemma_exprs_prefix(s, i + 1);
        lemma_exprs_step(s, i);
    } else {
        assert(s.subrange(0, i) =~= s);
    }
}

proof fn lemma_fields_step(s: Seq<(String, Expr)>, i: int)
    requires
        0 <= i < s.len(),
    ensures
        fields_walk(s.subrange(0, i + 1)) == fields_walk(s.subrange(0, i)) + expr_walk(s[i].1),
{
    assert(s.subrange(0, i + 1).drop_last() =~= s.subrange(0, i));
    assert(s.subrange(0, i + 1).last() == s[i]);
}

proof fn lemma_fields_prefix(s: Seq<(String, Expr)>, i: int)
    requires
        0 <= i <= s.len(),
    ensures
        fields_walk(s.subrange(0, i)).len() <= fields_walk(s).len(),
    decreases s.len() - i,
{
    if i < s.len() {
        lemma_fields_prefix(s, i + 1);
        lemma_fields_step(s, i);
    } else {
        assert(s.subrange(0, i) =~= s);
    }
}

proof fn lemma_stmts_step(s: Seq<Stmt>, i: int)
    requires
        0 <= i < s.len(),
    ensures
        stmts_walk(s.subrange(0, i + 1)) == stmts_walk(s.subrange(0, i)) + stmt_walk(s[i]),
{
    assert(s.subrange(0, i + 1).drop_last() =~= s.subrange(0, i));
    assert(s.subrange(0, i + 1).last() == s[i]);
}

proof fn lemma_stmts_prefix(s: Seq<Stmt>, i: int)
    requires
        0 <= i <= s.len(),
    ensures
        stmts_walk(s.subrange(0, i)).len() <= stmts_walk(s).len(),
    decreases s.len() - i,
{
    if i < s.len() {
        lemma_stmts_prefix(s, i + 1);
        lemma_stmts_step(s, i);
    } else {
        assert(s.subrange(0, i) =~= s);
    }
}

proof fn lemma_cases_step(s: Seq<SwitchCase>, i: int)
    requires
        0 <= i < s.len(),
    ensures
        cases_walk(s.subrange(0, i + 1)) == cases_walk(s.subrange(0, i)) + stmt_walk(s[i].body),
{
    assert(s.subrange(0, i + 1).drop_last() =~= s.subrange(0, i));
    assert(s.subrange(0, i + 1).last() == s[i]);
}

proof fn lemma_cases_prefix(s: Seq<SwitchCase>, i: int)
    requires
        0 <= i <= s.len(),
    ensures
        cases_walk(s.subrange(0, i)).len() <= cases_walk(s).len(),
    decreases s.len() - i,
{
    if i < s.len() {
        lemma_cases_prefix(s, i + 1);
        lemma_cases_step(s, i);
    } else {
        assert(s.subrange(0, i) =~= s);
    }
}

proof fn lemma_params_step(s: Seq<crate::ast::FnParam>, i: int)
    requires
        0 <= i < s.len(),
    ensures
        params_walk(s.subrange(0, i + 1)) == params_walk(s.subrange(0, i)) + type_walk(s[i].ty@),
{
    assert(s.subrange(0, i + 1).drop_last() =~= s.subrange(0, i));
    assert(s.subrange(0, i + 1).last() == s[i]);
}

proof fn lemma_params_prefix(s: Seq<crate::ast::FnParam>, i: int)
    requires
        0 <= i <= s.len(),
    ensures
        params_walk(s.subrange(0, i)).len() <= params_walk(s).len(),
    decreases s.len() - i,
{
    if i < s.len() {
        lemma_params_prefix(s, i + 1);
        lemma_params_step(s, i);
    } else {
        assert(s.subrange(0, i) =~= s);
    }
}

proof fn lemma_fns_step(s: Seq<FnDef>, i: int)
    requires
        0 <= i < s.len(),
    ensures
        fns_walk(s.subrange(0, i + 1)) == fns_walk(s.subrange(0, i)) + fn_walk(s[i]),
{
    assert(s.subrange(0, i + 1).drop_last() =~= s.subrange(0, i));
    assert(s.subrange(0, i + 1).last() == s[i]);
}

proof fn lemma_fns_prefix(s: Seq<FnDef>, i: int)
    requires
        0 <= i <= s.len(),
    ensures
        fns_walk(s.subrange(0, i)).len() <= fns_walk(s).len(),
    decreases s.len() - i,
{
    if i < s.len() {
        lemma_fns_prefix(s, i + 1);
        lemma_fns_step(s, i);
    } else {
        assert(s.subrange(0, i) =~= s);
    }
}

proof fn lemma_field_types_step(s: Seq<crate::ast::StructField>, i: int)
    requires
        0 <= i < s.len(),
    ensures
        field_types_walk(s.subrange(0, i + 1)) == field_types_walk(s.subrange(0, i)) + type_walk(s[i].ty@),
{
    assert(s.subrange(0, i + 1).drop_last() =~= s.subrange(0, i));
    assert(s.subrange(0, i + 1).last() == s[i]);
}

proof fn lemma_field_types_prefix(s: Seq<crate::ast::StructField>, i: int)
    requires
        0 <= i <= s.len(),
    ensures
        field_types_walk(s.subrange(0, i)).len() <= field_types_walk(s).len(),
    decreases s.len() - i,
{
    if i < s.len() {
        lemma_field_types_prefix(s, i + 1);
        lemma_field_types_step(s, i);
    } else {
        assert(s.subrange(0, i) =~= s);
    }
}

proof fn lemma_enum_variants_step(s: Seq<crate::ast::EnumVariant>, i: int)
    requires
        0 <= i < s.len(),
    ensures
        enum_variants_walk(s.subrange(0, i + 1)) == enum_variants_walk(s.subrange(0, i)) + types_walk(types_view(s[i].associated_types@)),
{
    assert(s.subrange(0, i + 1).drop_last() =~= s.subrange(0, i));
    assert(s.subrange(0, i + 1).last() == s[i]);
}

proof fn lemma_enum_variants_prefix(s: Seq<crate::ast::EnumVariant>, i: int)
    requires
        0 <= i <= s.len(),
    ensures
        enum_variants_walk(s.subrange(0, i)).len() <= enum_variants_walk(s).len(),
    decreases s.len() - i,
{
    if i < s.len() {
        lemma_enum_variants_prefix(s, i + 1);
        lemma_enum_variants_step(s, i);
    } else {
        assert(s.subrange(0, i) =~= s);
    }
}

proof fn lemma_error_variants_step(s: Seq<crate::ast::ErrorVariant>, i: int)
    requires
        0 <= i < s.len(),
    ensures
        error_variants_walk(s.subrange(0, i + 1)) == error_variants_walk(s.subrange(0, i)) + types_walk(types_view(s[i].associated_types@)),
{
    assert(s.subrange(0, i + 1).drop_last() =~= s.subrange(0, i));
    assert(s.subrange(0, i + 1).last() == s[i]);
}

proof fn lemma_error_variants_prefix(s: Seq<crate::ast::ErrorVariant>, i: int)
    requires
        0 <= i <= s.len(),
    ensures
        error_variants_walk(s.subrange(0, i)).len() <= error_variants_walk(s).len(),
    decreases s.len() - i,
{
    if i < s.len() {
        lemma_error_variants_prefix(s, i + 1);
        lemma_error_variants_step(s, i);
    } else {
        assert(s.subrange(0, i) =~= s);
    }
}

proof fn lemma_structs_step(s: Seq<StructDef>, i: int)
    requires
        0 <= i < s.len(),
    ensures
        structs_walk(s.subrange(0, i + 1)) == structs_walk(s.subrange(0, i)) + struct_walk(s[i]),
{
    assert(s.subrange(0, i + 1).drop_last() =~= s.subrange(0, i));
    assert(s.subrange(0, i + 1).last() == s[i]);
}

proof fn lemma_structs_prefix(s: Seq<StructDef>, i: int)
    requires
        0 <= i <= s.len(),
    ensures
        structs_walk(s.subrange(0, i)).len() <= structs_walk(s).len(),
    decreases s.len() - i,
{
    if i < s.len() {
        lemma_structs_prefix(s, i + 1);
        lemma_structs_step(s, i);
    } else {
        assert(s.subrange(0, i) =~= s);
    }
}

proof fn lemma_enums_step(s: Seq<EnumDef>, i: int)
    requires
        0 <= i < s.len(),
    ensures
        enums_walk(s.subrange(0, i + 1)) == enums_walk(s.subrange(0, i)) + enum_walk(s[i]),
{
    assert(s.subrange(0, i + 1).drop_last() =~= s.subrange(0, i));
    assert(s.subrange(0, i + 1).last() == s[i]);
}

proof fn lemma_enums_prefix(s: Seq<EnumDef>, i: int)
    requires
        0 <= i <= s.len(),
    ensures
        enums_walk(s.subrange(0, i)).len() <= enums_walk(s).len(),
    decreases s.len() - i,
{
    if i < s.len() {
        lemma_enums_prefix(s, i + 1);
        lemma_enums_step(s, i);
    } else {
        assert(s.subrange(0, i) =~= s);
    }
}

proof fn lemma_errors_step(s: Seq<ErrorDef>, i: int)
    requires
        0 <= i < s.len(),
    ensures
        errors_walk(s.subrange(0, i + 1)) == errors_walk(s.subrange(0, i)) + error_walk(s[i]),
{
    assert(s.subrange(0, i + 1).drop_last() =~= s.subrange(0, i));
    assert(s.subrange(0, i + 1).last() == s[i]);
}

proof fn lemma_errors_prefix(s: Seq<ErrorDef>, i: int)
    requires
        0 <= i <= s.len(),
    ensures
        errors_walk(s.subrange(0, i)).len() <= errors_walk(s).len(),
    decreases s.len() - i,
{
    if i < s.len() {
        lemma_errors_prefix(s, i + 1);
        lemma_errors_step(s, i);
    } else {
        assert(s.subrange(0, i) =~= s);
    }
}

/// Adds the types of a list of expressions.
fn collect_exprs(items: &Vec<Expr>, registry: &mut TypeRegistry, type_list: &mut Vec<(u32, Type)>)
    requires
        walk_pre(old(registry)@, old(type_list)@, exprs_walk(items@)),
    ensures
        walk_post(old(registry)@, old(type_list)@, final(registry)@, final(type_list)@, exprs_walk(items@)),
    decreases items,
{
    let ghost reg0 = registry@;
    let ghost l0 = type_list@;
    let ghost sv = items@;
    proof {
        lemma_walk_empty(reg0, l0);
        assert(sv.subrange(0, 0) =~= Seq::<Expr>::empty());
    }
    let mut i: usize = 0;
    while i < items.len()
        invariant
            i <= items.len(),
            sv == items@,
            walk_pre(reg0, l0, exprs_walk(sv)),
            walk_post(reg0, l0, registry@, type_list@, exprs_walk(sv.subrange(0, i as int))),
        decreases items.len() - i,
    {
        let ghost reg1 = registry@;
        let ghost l1 = type_list@;
        proof {
            lemma_exprs_step(sv, i as int);
            lemma_exprs_prefix(sv, i + 1);
            lemma_room(reg0, l0, reg1, l1, exprs_walk(sv), exprs_walk(sv.subrange(0, i as int)), expr_walk(sv[i as int]));
        }
        collect_expr_types(&items[i], registry, type_list);
        proof {
            lemma_walk_chain(reg0, l0, reg1, l1, registry@, type_list@, exprs_walk(sv.subrange(0, i as int)), expr_walk(sv[i as int]));
        }
        i = i + 1;
    }
    proof {
        lemma_subrange_all(sv);
    }
}

/// Adds the types of struct literal field values.
fn collect_fields(items: &Vec<(String, Expr)>, registry: &mut TypeRegistry, type_list: &mut Vec<(u32, Type)>)
    requires
        walk_pre(old(registry)@, old(type_list)@, fields_walk(items@)),
    ensures
        walk_post(old(registry)@, old(type_list)@, final(registry)@, final(type_list)@, fields_walk(items@)),
    decreases items,
{
    let ghost reg0 = registry@;
    let ghost l0 = type_list@;
    let ghost sv = items@;
    proof {
        lemma_walk_empty(reg0, l0);
        assert(sv.subrange(0, 0) =~= Seq::<(String, Expr)>::empty());
    }
    let mut i: usize = 0;
    while i < items.len()
        invariant
            i <= items.len(),
            sv == items@,
            walk_pre(reg0, l0, fields_walk(sv)),
            walk_post(reg0, l0, registry@, type_list@, fields_walk(sv.subrange(0, i as int))),
        decreases items.len() - i,
    {
        let ghost reg1 = registry@;
        let ghost l1 = type_list@;
        proof {
            lemma_fields_step(sv, i as int);
            lemma_fields_prefix(sv, i + 1);
            lemma_room(reg0, l0, reg1, l1, fields_walk(sv), fields_walk(sv.subrange(0, i as int)), expr_walk(sv[i as int].1));
        }
        collect_expr_types(&(&items[i]).1, registry, type_list);
        proof {
            lemma_walk_chain(reg0, l0, reg1, l1, registry@, type_list@, fields_walk(sv.subrange(0, i as int)), expr_walk(sv[i as int].1));
        }
        i = i + 1;
    }
    proof {
        lemma_subrange_all(sv);
    }
}

/// Adds the types of a list of statements.
fn collect_stmts(items: &Vec<Stmt>, registry: &mut TypeRegistry, type_list: &mut Vec<(u32, Type)>)
    requires
        walk_pre(old(registry)@, old(type_list)@, stmts_walk(items@)),
    ensures
        walk_post(old(registry)@, old(type_list)@, final(registry)@, final(type_list)@, stmts_walk(items@)),
    decreases items,
{
    let ghost reg0 = registry@;
    let ghost l0 = type_list@;
    let ghost sv = items@;
    proof {
        lemma_walk_empty(reg0, l0);
        assert(sv.subrange(0, 0) =~= Seq::<Stmt>::empty());
    }
    let mut i: usize = 0;
    while i < items.len()
        invariant
            i <= items.len(),
            sv == items@,
            walk_pre(reg0, l0, stmts_walk(sv)),
            walk_post(reg0, l0, registry@, type_list@, stmts_walk(sv.subrange(0, i as int))),
        decreases items.len() - i,
    {
        let ghost reg1 = registry@;
        let ghost l1 = type_list@;
        proof {
            lemma_stmts_step(sv, i as int);
            lemma_stmts_prefix(sv, i + 1);
            lemma_room(reg0, l0, reg1, l1, stmts_walk(sv), stmts_walk(sv.subrange(0, i as int)), stmt_walk(sv[i as int]));
        }
        collect_stmt_types(&items[i], registry, type_list);
        proof {
            lemma_walk_chain(reg0, l0, reg1, l1, registry@, type_list@, stmts_walk(sv.subrange(0, i as int)), stmt_walk(sv[i as int]));
        }
        i = i + 1;
    }
    proof {
        lemma_subrange_all(sv);
    }
}

/// Adds the types of switch case bodies.
fn collect_cases(items: &Vec<SwitchCase>, registry: &mut TypeRegistry, type_list: &mut Vec<(u32, Type)>)
    requires
        walk_pre(old(registry)@, old(type_list)@, cases_walk(items@)),
    ensures
        walk_post(old(registry)@, old(type_list)@, final(registry)@, final(type_list)@, cases_walk(items@)),
    decreases items,
{
    let ghost reg0 = registry@;
    let ghost l0 = type_list@;
    let ghost sv = items@;
    proof {
        lemma_walk_empty(reg0, l0);
        assert(sv.subrange(0, 0) =~= Seq::<SwitchCase>::empty());
    }
    let mut i: usize = 0;
    while i < items.len()
        invariant
            i <= items.len(),
            sv == items@,
            walk_pre(reg0, l0, cases_walk(sv)),
            walk_post(reg0, l0, registry@, type_list@, cases_walk(sv.subrange(0, i as int))),
        decreases items.len() - i,
    {
        let ghost reg1 = registry@;
        let ghost l1 = type_list@;
        proof {
            lemma_cases_step(sv, i as int);
            lemma_cases_prefix(sv, i + 1);
            lemma_room(reg0, l0, reg1, l1, cases_walk(sv), cases_walk(sv.subrange(0, i as int)), stmt_walk(sv[i as int].body));
        }
        collect_stmt_types(&(&items[i]).body, registry, type_list);
        proof {
            lemma_walk_chain(reg0, l0, reg1, l1, registry@, type_list@, cases_walk(sv.subrange(0, i as int)), stmt_walk(sv[i as int].body));
        }
        i = i + 1;
    }
    proof {
        lemma_subrange_all(sv);
    }
}

/// Adds the parameter types.
fn collect_params(items: &Vec<crate::ast::FnParam>, registry: &mut TypeRegistry, type_list: &mut Vec<(u32, Type)>)
    requires
        walk_pre(old(registry)@, old(type_list)@, params_walk(items@)),
    ensures
        walk_post(old(registry)@, old(type_list)@, final(registry)@, final(type_list)@, params_walk(items@)),
    decreases items,
{
    let ghost reg0 = registry@;
    let ghost l0 = type_list@;
    let ghost sv = items@;
    proof {
        lemma_walk_empty(reg0, l0);
        assert(sv.subrange(0, 0) =~= Seq::<crate::ast::FnParam>::empty());
    }
    let mut i: usize = 0;
    while i < items.len()
        invariant
            i <= items.len(),
            sv == items@,
            walk_pre(reg0, l0, params_walk(sv)),
            walk_post(reg0, l0, registry@, type_list@, params_walk(sv.subrange(0, i as int))),
        decreases items.len() - i,
    {
        let ghost reg1 = registry@;
        let ghost l1 = type_list@;
        proof {
            lemma_params_step(sv, i as int);
            lemma_params_prefix(sv, i + 1);
            lemma_room(reg0, l0, reg1, l1, params_walk(sv), params_walk(sv.subrange(0, i as int)), type_walk(sv[i as int].ty@));
        }
        collect_type(&(&items[i]).ty, registry, type_list);
        proof {
            lemma_walk_chain(reg0, l0, reg1, l1, registry@, type_list@, params_walk(sv.subrange(0, i as int)), type_walk(sv[i as int].ty@));
        }
        i = i + 1;
    }
    proof {
        lemma_subrange_all(sv);
    }
}

/// Adds the types of a list of functions.
fn collect_fns(items: &Vec<FnDef>, registry: &mut TypeRegistry, type_list: &mut Vec<(u32, Type)>)
    requires
        walk_pre(old(registry)@, old(type_list)@, fns_walk(items@)),
    ensures
        walk_post(old(registry)@, old(type_list)@, final(registry)@, final(type_list)@, fns_walk(items@)),
    decreases items,
{
    let ghost reg0 = registry@;
    let ghost l0 = type_list@;
    let ghost sv = items@;
    proof {
        lemma_walk_empty(reg0, l0);
        assert(sv.subrange(0, 0) =~= Seq::<FnDef>::empty());
    }
    let mut i: usize = 0;
    while i < items.len()
        invariant
            i <= items.len(),
            sv == items@,
            walk_pre(reg0, l0, fns_walk(sv)),
            walk_post(reg0, l0, registry@, type_list@, fns_walk(sv.subrange(0, i as int))),
        decreases items.len() - i,
    {
        let ghost reg1 = registry@;
        let ghost l1 = type_list@;
        proof {
            lemma_fns_step(sv, i as int);
            lemma_fns_prefix(sv, i + 1);
            lemma_room(reg0, l0, reg1, l1, fns_walk(sv), fns_walk(sv.subrange(0, i as int)), fn_walk(sv[i as int]));
        }
        collect_fn_types(&items[i], registry, type_list);
        proof {
            lemma_walk_chain(reg0, l0, reg1, l1, registry@, type_list@, fns_walk(sv.subrange(0, i as int)), fn_walk(sv[i as int]));
        }
        i = i + 1;
    }
    proof {
        lemma_subrange_all(sv);
    }
}

/// Adds struct field types.
fn collect_field_types(items: &Vec<crate::ast::StructField>, registry: &mut TypeRegistry, type_list: &mut Vec<(u32, Type)>)
    requires
        walk_pre(old(registry)@, old(type_list)@, field_types_walk(items@)),
    ensures
        walk_post(old(registry)@, old(type_list)@, final(registry)@, final(type_list)@, field_types_walk(items@)),
    decreases items,
{
    let ghost reg0 = registry@;
    let ghost l0 = type_list@;
    let ghost sv = items@;
    proof {
        lemma_walk_empty(reg0, l0);
        assert(sv.subrange(0, 0) =~= Seq::<crate::ast::StructField>::empty());
    }
    let mut i: usize = 0;
    while i < items.len()
        invariant
            i <= items.len(),
            sv == items@,
            walk_pre(reg0, l0, field_types_walk(sv)),
            walk_post(reg0, l0, registry@, type_list@, field_types_walk(sv.subrange(0, i as int))),
        decreases items.len() - i,
    {
        let ghost reg1 = registry@;
        let ghost l1 = type_list@;
        proof {
            lemma_field_types_step(sv, i as int);
            lemma_field_types_prefix(sv, i + 1);
            lemma_room(reg0, l0, reg1, l1, field_types_walk(sv), field_types_walk(sv.subrange(0, i as int)), type_walk(sv[i as int].ty@));
        }
        collect_type(&(&items[i]).ty, registry, type_list);
        proof {
            lemma_walk_chain(reg0, l0, reg1, l1, registry@, type_list@, field_types_walk(sv.subrange(0, i as int)), type_walk(sv[i as int].ty@));
        }
        i = i + 1;
    }
    proof {
        lemma_subrange_all(sv);
    }
}

/// Adds enum variant types.
fn collect_enum_variants(items: &Vec<crate::ast::EnumVariant>, registry: &mut TypeRegistry, type_list: &mut Vec<(u32, Type)>)
    requires
        walk_pre(old(registry)@, old(type_list)@, enum_variants_walk(items@)),
    ensures
        walk_post(old(registry)@, old(type_list)@, final(registry)@, final(type_list)@, enum_variants_walk(items@)),
    decreases items,
{
    let ghost reg0 = registry@;
    let ghost l0 = type_list@;
    let ghost sv = items@;
    proof {
        lemma_walk_empty(reg0, l0);
        assert(sv.subrange(0, 0) =~= Seq::<crate::ast::EnumVariant>::empty());
    }
    let mut i: usize = 0;
    while i < items.len()
        invariant
            i <= items.len(),
            sv == items@,
            walk_pre(reg0, l0, enum_variants_walk(sv)),
            walk_post(reg0, l0, registry@, type_list@, enum_variants_walk(sv.subrange(0, i as int))),
        decreases items.len() - i,
    {
        let ghost reg1 = registry@;
        let ghost l1 = type_list@;
        proof {
            lemma_enum_variants_step(sv, i as int);
            lemma_enum_variants_prefix(sv, i + 1);
            lemma_room(reg0, l0, reg1, l1, enum_variants_walk(sv), enum_variants_walk(sv.subrange(0, i as int)), types_walk(types_view(sv[i as int].associated_types@)));
        }
        collect_types(&(&items[i]).associated_types, registry, type_list);
        proof {
            lemma_walk_chain(reg0, l0, reg1, l1, registry@, type_list@, enum_variants_walk(sv.subrange(0, i as int)), types_walk(types_view(sv[i as int].associated_types@)));
        }
        i = i + 1;
    }
    proof {
        lemma_subrange_all(sv);
    }
}

/// Adds error variant types.
fn collect_error_variants(items: &Vec<crate::ast::ErrorVariant>, registry: &mut TypeRegistry, type_list: &mut Vec<(u32, Type)>)
    requires
        walk_pre(old(registry)@, old(type_list)@, error_variants_walk(items@)),
    ensures
        walk_post(old(registry)@, old(type_list)@, final(registry)@, final(type_list)@, error_variants_walk(items@)),
    decreases items,
{
    let ghost reg0 = registry@;
    let ghost l0 = type_list@;
    let ghost sv = items@;
    proof {
        lemma_walk_empty(reg0, l0);
        assert(sv.subrange(0, 0) =~= Seq::<crate::ast::ErrorVariant>::empty());
    }
    let mut i: usize = 0;
    while i < items.len()
        invariant
            i <= items.len(),
            sv == items@,
            walk_pre(reg0, l0, error_variants_walk(sv)),
            walk_post(reg0, l0, registry@, type_list@, error_variants_walk(sv.subrange(0, i as int))),
        decreases items.len() - i,
    {
        let ghost reg1 = registry@;
        let ghost l1 = type_list@;
        proof {
            lemma_error_variants_step(sv, i as int);
            lemma_error_variants_prefix(sv, i + 1);
            lemma_room(reg0, l0, reg1, l1, error_variants_walk(sv), error_variants_walk(sv.subrange(0, i as int)), types_walk(types_view(sv[i as int].associated_types@)));
        }
        collect_types(&(&items[i]).associated_types, registry, type_list);
        proof {
            lemma_walk_chain(reg0, l0, reg1, l1, registry@, type_list@, error_variants_walk(sv.subrange(0, i as int)), types_walk(types_view(sv[i as int].associated_types@)));
        }
        i = i + 1;
    }
    proof {
        lemma_subrange_all(sv);
    }
}

/// Adds the types mentioned inside an expression.
fn collect_expr_types(expr: &Expr, registry: &mut TypeRegistry, type_list: &mut Vec<(u32, Type)>)
    requires
        walk_pre(old(registry)@, old(type_list)@, expr_walk(*expr)),
    ensures
        walk_post(old(registry)@, old(type_list)@, final(registry)@, final(type_list)@, expr_walk(*expr)),
    decreases expr,
{
    let ghost reg0 = registry@;
    let ghost l0 = type_list@;
    match expr {
        Expr::Binary { left, right, .. } => {
            let ghost w1 = expr_walk(**left);
            let ghost w2 = expr_walk(**right);
            proof { lemma_room_shorter(reg0, l0, w1 + w2, w1); }
            collect_expr_types(left, registry, type_list);
            let ghost reg1 = registry@;
            let ghost l1 = type_list@;
            proof { lemma_room(reg0, l0, reg1, l1, w1 + w2, w1, w2); }
            collect_expr_types(right, registry, type_list);
            proof { lemma_walk_chain(reg0, l0, reg1, l1, registry@, type_list@, w1, w2); }
        },
        Expr::Unary { expr: inner, .. } => collect_expr_types(inner, registry, type_list),
        Expr::Call { args, .. } => collect_exprs(args, registry, type_list),
        Expr::If { condition, then_branch, else_branch, .. } => {
            let ghost w1 = expr_walk(**condition);
            let ghost w2 = expr_walk(**then_branch);
            let ghost w3 = expr_walk(**else_branch);
            proof { lemma_room_shorter(reg0, l0, w1 + w2 + w3, w1); }
            collect_expr_types(condition, registry, type_list);
            let ghost reg1 = registry@;
            let ghost l1 = type_list@;
            proof { lemma_room(reg0, l0, reg1, l1, w1 + w2 + w3, w1, w2); }
            collect_expr_types(then_branch, registry, type_list);
            proof { lemma_walk_chain(reg0, l0, reg1, l1, registry@, type_list@, w1, w2); }
            let ghost reg2 = registry@;
            let ghost l2 = type_list@;
            proof { lemma_room(reg0, l0, reg2, l2, w1 + w2 + w3, w1 + w2, w3); }
            collect_expr_types(else_branch, registry, type_list);
            proof { lemma_walk_chain(reg0, l0, reg2, l2, registry@, type_list@, w1 + w2, w3); }
        },
        Expr::Block { stmts, .. } => collect_stmts(stmts, registry, type_list),
        Expr::MemberAccess { object, .. } => collect_expr_types(object, registry, type_list),
        Expr::TupleIndex { tuple, .. } => collect_expr_types(tuple, registry, type_list),
        Expr::Struct { fields, .. } => collect_fields(fields, registry, type_list),
        Expr::Array(elements, _, _) => collect_exprs(elements, registry, type_list),
        Expr::Tuple(elements, _) => collect_exprs(elements, registry, type_list),
        Expr::Try { expr: inner, .. } => collect_expr_types(inner, registry, type_list),
        Expr::Catch { expr: inner, body, .. } => {
            let ghost w1 = expr_walk(**inner);
            let ghost w2 = expr_walk(**body);
            proof { lemma_room_shorter(reg0, l0, w1 + w2, w1); }
            collect_expr_types(inner, registry, type_list);
            let ghost reg1 = registry@;
            let ghost l1 = type_list@;
            proof { lemma_room(reg0, l0, reg1, l1, w1 + w2, w1, w2); }
            collect_expr_types(body, registry, type_list);
            proof { lemma_walk_chain(reg0, l0, reg1, l1, registry@, type_list@, w1, w2); }
        },
        Expr::Cast { expr: inner, .. } => collect_expr_types(inner, registry, type_list),
        Expr::Dereference { expr: inner, .. } => collect_expr_types(inner, registry, type_list),
        Expr::Index { object, index, .. } => {
            let ghost w1 = expr_walk(**object);
            let ghost w2 = expr_walk(**index);
            proof { lemma_room_shorter(reg0, l0, w1 + w2, w1); }
            collect_expr_types(object, registry, type_list);
            let ghost reg1 = registry@;
            let ghost l1 = type_list@;
            proof { lemma_room(reg0, l0, reg1, l1, w1 + w2, w1, w2); }
            collect_expr_types(index, registry, type_list);
            proof { lemma_walk_chain(reg0, l0, reg1, l1, registry@, type_list@, w1, w2); }
        },
        _ => {
            proof { lemma_walk_empty(reg0, l0); }
        },
    }
}

/// Adds the types mentioned in a statement.
fn collect_stmt_types(stmt: &Stmt, registry: &mut TypeRegistry, type_list: &mut Vec<(u32, Type)>)
    requires
        walk_pre(old(registry)@, old(type_list)@, stmt_walk(*stmt)),
    ensures
        walk_post(old(registry)@, old(type_list)@, final(registry)@, final(type_list)@, stmt_walk(*stmt)),
    decreases stmt,
{
    let ghost reg0 = registry@;
    let ghost l0 = type_list@;
    match stmt {
        Stmt::Let { ty, value, .. } => {
            let ghost w1 = match ty { Some(t) => type_walk(t@), None => Seq::<TypeV>::empty() };
            let ghost w2 = match value { Some(v) => expr_walk(*v), None => Seq::<TypeV>::empty() };
            proof { lemma_room_shorter(reg0, l0, w1 + w2, w1); }
            match ty {
                Some(t) => collect_type(t, registry, type_list),
                None => { proof { lemma_walk_empty(reg0, l0); } },
            }
            let ghost reg1 = registry@;
            let ghost l1 = type_list@;
            proof { lemma_room(reg0, l0, reg1, l1, w1 + w2, w1, w2); }
            match value {
                Some(v) => collect_expr_types(v, registry, type_list),
                None => { proof { lemma_walk_empty(reg1, l1); } },
            }
            proof { lemma_walk_chain(reg0, l0, reg1, l1, registry@, type_list@, w1, w2); }
        },
        Stmt::Assign { value, .. } => collect_expr_types(value, registry, type_list),
        Stmt::Return { value, .. } => {
            match value {
                Some(v) => collect_expr_types(v, registry, type_list),
                None => { proof { lemma_walk_empty(reg0, l0); } },
            }
        },
        Stmt::Expr { expr, .. } => collect_expr_types(expr, registry, type_list),
        Stmt::If { condition, then_branch, else_branch, .. } => {
            let ghost w1 = expr_walk(*condition);
            let ghost w2 = stmt_walk(**then_branch);
            let ghost w3 = match else_branch { Some(b) => stmt_walk(**b), None => Seq::<TypeV>::empty() };
            proof { lemma_room_shorter(reg0, l0, w1 + w2 + w3, w1); }
            collect_expr_types(condition, registry, type_list);
            let ghost reg1 = registry@;
            let ghost l1 = type_list@;
            proof { lemma_room(reg0, l0, reg1, l1, w1 + w2 + w3, w1, w2); }
            collect_stmt_types(then_branch, registry, type_list);
            proof { lemma_walk_chain(reg0, l0, reg1, l1, registry@, type_list@, w1, w2); }
            let ghost reg2 = registry@;
            let ghost l2 = type_list@;
            proof { lemma_room(reg0, l0, reg2, l2, w1 + w2 + w3, w1 + w2, w3); }
            match else_branch {
                Some(b) => collect_stmt_types(b, registry, type_list),
                None => { proof { lemma_walk_empty(reg2, l2); } },
            }
            proof { lemma_walk_chain(reg0, l0, reg2, l2, registry@, type_list@, w1 + w2, w3); }
        },
        Stmt::For { iterable, body, .. } => {
            let ghost w1 = expr_walk(*iterable);
            let ghost w2 = stmt_walk(**body);
            proof { lemma_room_shorter(reg0, l0, w1 + w2, w1); }
            collect_expr_types(iterable, registry, type_list);
            let ghost reg1 = registry@;
            let ghost l1 = type_list@;
            proof { lemma_room(reg0, l0, reg1, l1, w1 + w2, w1, w2); }
            collect_stmt_types(body, registry, type_list);
            proof { lemma_walk_chain(reg0, l0, reg1, l1, registry@, type_list@, w1, w2); }
        },
        Stmt::Switch { condition, cases, .. } => {
            let ghost w1 = expr_walk(*condition);
            let ghost w2 = cases_walk(cases@);
            proof { lemma_room_shorter(reg0, l0, w1 + w2, w1); }
            collect_expr_types(condition, registry, type_list);
            let ghost reg1 = registry@;
            let ghost l1 = type_list@;
            proof { lemma_room(reg0, l0, reg1, l1, w1 + w2, w1, w2); }
            collect_cases(cases, registry, type_list);
            proof { lemma_walk_chain(reg0, l0, reg1, l1, registry@, type_list@, w1, w2); }
        },
        Stmt::Block { stmts, .. } => collect_stmts(stmts, registry, type_list),
        Stmt::Defer { stmt: inner, .. } => collect_stmt_types(inner, registry, type_list),
        Stmt::DeferBang { stmt: inner, .. } => collect_stmt_types(inner, registry, type_list),
        _ => {
            proof { lemma_walk_empty(reg0, l0); }
        },
    }
}

/// Adds the types of a function: return type, parameter types, then the
/// types in its body.
fn collect_fn_types(fn_def: &FnDef, registry: &mut TypeRegistry, type_list: &mut Vec<(u32, Type)>)
    requires
        walk_pre(old(registry)@, old(type_list)@, fn_walk(*fn_def)),
    ensures
        walk_post(old(registry)@, old(type_list)@, final(registry)@, final(type_list)@, fn_walk(*fn_def)),
{
    let ghost reg0 = registry@;
    let ghost l0 = type_list@;
    let ghost w1 = type_walk(fn_def.return_ty@);
    let ghost w2 = params_walk(fn_def.params@);
    let ghost w3 = stmts_walk(fn_def.body@);
    proof { lemma_room_shorter(reg0, l0, w1 + w2 + w3, w1); }
    collect_type(&fn_def.return_ty, registry, type_list);
    let ghost reg1 = registry@;
    let ghost l1 = type_list@;
    proof { lemma_room(reg0, l0, reg1, l1, w1 + w2 + w3, w1, w2); }
    collect_params(&fn_def.params, registry, type_list);
    proof { lemma_walk_chain(reg0, l0, reg1, l1, registry@, type_list@, w1, w2); }
    let ghost reg2 = registry@;
    let ghost l2 = type_list@;
    proof { lemma_room(reg0, l0, reg2, l2, w1 + w2 + w3, w1 + w2, w3); }
    collect_stmts(&fn_def.body, registry, type_list);
    proof { lemma_walk_chain(reg0, l0, reg2, l2, registry@, type_list@, w1 + w2, w3); }
}

/// The generic parameters of a declaration as type arguments.
fn generic_param_types(params: &Vec<String>) -> (r: Vec<Type>)
    ensures
        types_view(r@) == params@.map_values(|p: String| TypeV::GenericParam(p@)),
{
    let mut r: Vec<Type> = Vec::new();
    let mut i: usize = 0;
    while i < params.len()
        invariant
            i <= params.len(),
            types_view(r@) == params@.subrange(0, i as int).map_values(|p: String| TypeV::GenericParam(p@)),
        decreases params.len() - i,
    {
        let t = Type::GenericParam(params[i].clone());
        proof {
            crate::ast::lemma_types_view_push(r@, t);
            lemma_map_values_push(params@.subrange(0, i as int), params@[i as int], |p: String| TypeV::GenericParam(p@));
            lemma_subrange_push(params@, i as int);
        }
        r.push(t);
        i = i + 1;
    }
    proof {
        lemma_subrange_all(params@);
    }
    r
}

/// One walk of a single type that is noted without the types inside it.
proof fn lemma_single(reg0: Seq<TypeV>, l0: Seq<(u32, Type)>, reg1: Seq<TypeV>, l1: Seq<(u32, Type)>, t: TypeV)
    requires
        reg1.no_duplicates(),
        reg1 == reg_add(reg0, t),
        listed_types(l1) == listed_types(l0).push(t),
        l1.len() == l0.len() + 1,
        l1.subrange(0, l0.len() as int) == l0,
        entries_ok_from(reg1, l1, l0.len() as int),
    ensures
        walk_post(reg0, l0, reg1, l1, seq![t]),
{
    assert(seq![t].drop_last() =~= Seq::<TypeV>::empty());
    assert(seq![t].last() == t);
    assert(reg_extend(reg0, Seq::<TypeV>::empty()) == reg0);
    assert(listed_types(l0).push(t) =~= listed_types(l0) + seq![t]);
}

/// Adds the types of a struct: its own type, field types, then its methods.
fn collect_struct(def: &StructDef, registry: &mut TypeRegistry, type_list: &mut Vec<(u32, Type)>)
    requires
        walk_pre(old(registry)@, old(type_list)@, struct_walk(*def)),
    ensures
        walk_post(old(registry)@, old(type_list)@, final(registry)@, final(type_list)@, struct_walk(*def)),
{
    let ghost reg0 = registry@;
    let ghost l0 = type_list@;
    let ghost w1 = seq![declared_type(def.name@, def.generic_params@, def.visibility)];
    let ghost w2 = field_types_walk(def.fields@);
    let ghost w3 = fns_walk(def.methods@);
    let custom_ty = Type::Custom {
        name: def.name.clone(),
        generic_args: generic_param_types(&def.generic_params),
        is_exported: def.visibility == Visibility::Public,
    };
    assert(custom_ty@ == declared_type(def.name@, def.generic_params@, def.visibility));
    note_type(&custom_ty, registry, type_list);
    proof { lemma_single(reg0, l0, registry@, type_list@, custom_ty@); }
    let ghost reg1 = registry@;
    let ghost l1 = type_list@;
    proof { lemma_room(reg0, l0, reg1, l1, w1 + w2 + w3, w1, w2); }
    collect_field_types(&def.fields, registry, type_list);
    proof { lemma_walk_chain(reg0, l0, reg1, l1, registry@, type_list@, w1, w2); }
    let ghost reg2 = registry@;
    let ghost l2 = type_list@;
    proof { lemma_room(reg0, l0, reg2, l2, w1 + w2 + w3, w1 + w2, w3); }
    collect_fns(&def.methods, registry, type_list);
    proof { lemma_walk_chain(reg0, l0, reg2, l2, registry@, type_list@, w1 + w2, w3); }
}

/// Adds the types of an enum: its own type, its variants' types, then its
/// methods.
fn collect_enum(def: &EnumDef, registry: &mut TypeRegistry, type_list: &mut Vec<(u32, Type)>)
    requires
        walk_pre(old(registry)@, old(type_list)@, enum_walk(*def)),
    ensures
        walk_post(old(registry)@, old(type_list)@, final(registry)@, final(type_list)@, enum_walk(*def)),
{
    let ghost reg0 = registry@;
    let ghost l0 = type_list@;
    let ghost w1 = seq![declared_type(def.name@, def.generic_params@, def.visibility)];
    let ghost w2 = enum_variants_walk(def.variants@);
    let ghost w3 = fns_walk(def.methods@);
    let custom_ty = Type::Custom {
        name: def.name.clone(),
        generic_args: generic_param_types(&def.generic_params),
        is_exported: def.visibility == Visibility::Public,
    };
    assert(custom_ty@ == declared_type(def.name@, def.generic_params@, def.visibility));
    note_type(&custom_ty, registry, type_list);
    proof { lemma_single(reg0, l0, registry@, type_list@, custom_ty@); }
    let ghost reg1 = registry@;
    let ghost l1 = type_list@;
    proof { lemma_room(reg0, l0, reg1, l1, w1 + w2 + w3, w1, w2); }
    collect_enum_variants(&def.variants, registry, type_list);
    proof { lemma_walk_chain(reg0, l0, reg1, l1, registry@, type_list@, w1, w2); }
    let ghost reg2 = registry@;
    let ghost l2 = type_list@;
    proof { lemma_room(reg0, l0, reg2, l2, w1 + w2 + w3, w1 + w2, w3); }
    collect_fns(&def.methods, registry, type_list);
    proof { lemma_walk_chain(reg0, l0, reg2, l2, registry@, type_list@, w1 + w2, w3); }
}

/// Adds the types of an error type: its own type, then its variants' types.
fn collect_error(def: &ErrorDef, registry: &mut TypeRegistry, type_list: &mut Vec<(u32, Type)>)
    requires
        walk_pre(old(registry)@, old(type_list)@, error_walk(*def)),
    ensures
        walk_post(old(registry)@, old(type_list)@, final(registry)@, final(type_list)@, error_walk(*def)),
{
    let ghost reg0 = registry@;
    let ghost l0 = type_list@;
    let ghost w1 = seq![TypeV::Custom { name: def.name@, generic_args: Seq::empty(), is_exported: def.visibility == Visibility::Public }];
    let ghost w2 = error_variants_walk(def.variants@);
    let custom_ty = Type::Custom {
        name: def.name.clone(),
        generic_args: Vec::new(),
        is_exported: def.visibility == Visibility::Public,
    };
    assert(types_view(Seq::<Type>::empty()) =~= Seq::<TypeV>::empty());
    assert(custom_ty@ == w1[0]);
    note_type(&custom_ty, registry, type_list);
    proof { lemma_single(reg0, l0, registry@, type_list@, custom_ty@); }
    let ghost reg1 = registry@;
    let ghost l1 = type_list@;
    proof { lemma_room(reg0, l0, reg1, l1, w1 + w2, w1, w2); }
    collect_error_variants(&def.variants, registry, type_list);
    proof { lemma_walk_chain(reg0, l0, reg1, l1, registry@, type_list@, w1, w2); }
}

/// Adds the types of each struct in turn.
fn collect_structs(items: &Vec<StructDef>, registry: &mut TypeRegistry, type_list: &mut Vec<(u32, Type)>)
    requires
        walk_pre(old(registry)@, old(type_list)@, structs_walk(items@)),
    ensures
        walk_post(old(registry)@, old(type_list)@, final(registry)@, final(type_list)@, structs_walk(items@)),
    decreases items,
{
    let ghost reg0 = registry@;
    let ghost l0 = type_list@;
    let ghost sv = items@;
    proof {
        lemma_walk_empty(reg0, l0);
        assert(sv.subrange(0, 0) =~= Seq::<StructDef>::empty());
    }
    let mut i: usize = 0;
    while i < items.len()
        invariant
            i <= items.len(),
            sv == items@,
            walk_pre(reg0, l0, structs_walk(sv)),
            walk_post(reg0, l0, registry@, type_list@, structs_walk(sv.subrange(0, i as int))),
        decreases items.len() - i,
    {
        let ghost reg1 = registry@;
        let ghost l1 = type_list@;
        proof {
            lemma_structs_step(sv, i as int);
            lemma_structs_prefix(sv, i + 1);
            lemma_room(reg0, l0, reg1, l1, structs_walk(sv), structs_walk(sv.subrange(0, i as int)), struct_walk(sv[i as int]));
        }
        collect_struct(&items[i], registry, type_list);
        proof {
            lemma_walk_chain(reg0, l0, reg1, l1, registry@, type_list@, structs_walk(sv.subrange(0, i as int)), struct_walk(sv[i as int]));
        }
        i = i + 1;
    }
    proof {
        lemma_subrange_all(sv);
    }
}

/// Adds the types of each enum in turn.
fn collect_enums(items: &Vec<EnumDef>, registry: &mut TypeRegistry, type_list: &mut Vec<(u32, Type)>)
    requires
        walk_pre(old(registry)@, old(type_list)@, enums_walk(items@)),
    ensures
        walk_post(old(registry)@, old(type_list)@, final(registry)@, final(type_list)@, enums_walk(items@)),
    decreases items,
{
    let ghost reg0 = registry@;
    let ghost l0 = type_list@;
    let ghost sv = items@;
    proof {
        lemma_walk_empty(reg0, l0);
        assert(sv.subrange(0, 0) =~= Seq::<EnumDef>::empty());
    }
    let mut i: usize = 0;
    while i < items.len()
        invariant
            i <= items.len(),
            sv == items@,
            walk_pre(reg0, l0, enums_walk(sv)),
            walk_post(reg0, l0, registry@, type_list@, enums_walk(sv.subrange(0, i as int))),
        decreases items.len() - i,
    {
        let ghost reg1 = registry@;
        let ghost l1 = type_list@;
        proof {
            lemma_enums_step(sv, i as int);
            lemma_enums_prefix(sv, i + 1);
            lemma_room(reg0, l0, reg1, l1, enums_walk(sv), enums_walk(sv.subrange(0, i as int)), enum_walk(sv[i as int]));
        }
        collect_enum(&items[i], registry, type_list);
        proof {
            lemma_walk_chain(reg0, l0, reg1, l1, registry@, type_list@, enums_walk(sv.subrange(0, i as int)), enum_walk(sv[i as int]));
        }
        i = i + 1;
    }
    proof {
        lemma_subrange_all(sv);
    }
}

/// Adds the types of each error type in turn.
fn collect_errors(items: &Vec<ErrorDef>, registry: &mut TypeRegistry, type_list: &mut Vec<(u32, Type)>)
    requires
        walk_pre(old(registry)@, old(type_list)@, errors_walk(items@)),
    ensures
        walk_post(old(registry)@, old(type_list)@, final(registry)@, final(type_list)@, errors_walk(items@)),
    decreases items,
{
    let ghost reg0 = registry@;
    let ghost l0 = type_list@;
    let ghost sv = items@;
    proof {
        lemma_walk_empty(reg0, l0);
        assert(sv.subrange(0, 0) =~= Seq::<ErrorDef>::empty());
    }
    let mut i: usize = 0;
    while i < items.len()
        invariant
            i <= items.len(),
            sv == items@,
            walk_pre(reg0, l0, errors_walk(sv)),
            walk_post(reg0, l0, registry@, type_list@, errors_walk(sv.subrange(0, i as int))),
        decreases items.len() - i,
    {
        let ghost reg1 = registry@;
        let ghost l1 = type_list@;
        proof {
            lemma_errors_step(sv, i as int);
            lemma_errors_prefix(sv, i + 1);
            lemma_room(reg0, l0, reg1, l1, errors_walk(sv), errors_walk(sv.subrange(0, i as int)), error_walk(sv[i as int]));
        }
        collect_error(&items[i], registry, type_list);
        proof {
            lemma_walk_chain(reg0, l0, reg1, l1, registry@, type_list@, errors_walk(sv.subrange(0, i as int)), error_walk(sv[i as int]));
        }
        i = i + 1;
    }
    proof {
        lemma_subrange_all(sv);
    }
}


/// The registry after a whole walk from empty: the id of a type is its
/// position here.
pub open spec fn type_ids(w: Seq<TypeV>) -> Seq<TypeV> {
    reg_extend(Seq::empty(), w)
}

/// Every type a program mentions, each entry paired with its id, the
/// position at which the registry first met the type. Entries come in walk
/// order (structs, enums, functions, then error types), repeats included.
pub fn collect_program_types(program: &Program) -> (r: Vec<(u32, Type)>)
    requires
        program_walk(*program).len() < u32::MAX,
    ensures
        listed_types(r@) == program_walk(*program),
        registry_ok(type_ids(program_walk(*program)), r@),
{
    let mut registry = TypeRegistry::new();
    let mut type_list: Vec<(u32, Type)> = Vec::new();
    let ghost reg0 = registry@;
    let ghost l0 = type_list@;
    let ghost w1 = structs_walk(program.structs@);
    let ghost w2 = enums_walk(program.enums@);
    let ghost w3 = fns_walk(program.functions@);
    let ghost w4 = errors_walk(program.errors@);
    let ghost w = w1 + w2 + w3 + w4;
    assert(w == program_walk(*program));
    assert(registry_ok(reg0, l0));
    proof { lemma_room_shorter(reg0, l0, w, w1); }
    collect_structs(&program.structs, &mut registry, &mut type_list);
    let ghost reg1 = registry@;
    let ghost l1 = type_list@;
    proof { lemma_room(reg0, l0, reg1, l1, w, w1, w2); }
    collect_enums(&program.enums, &mut registry, &mut type_list);
    proof { lemma_walk_chain(reg0, l0, reg1, l1, registry@, type_list@, w1, w2); }
    let ghost reg2 = registry@;
    let ghost l2 = type_list@;
    proof { lemma_room(reg0, l0, reg2, l2, w, w1 + w2, w3); }
    collect_fns(&program.functions, &mut registry, &mut type_list);
    proof { lemma_walk_chain(reg0, l0, reg2, l2, registry@, type_list@, w1 + w2, w3); }
    let ghost reg3 = registry@;
    let ghost l3 = type_list@;
    proof { lemma_room(reg0, l0, reg3, l3, w, w1 + w2 + w3, w4); }
    collect_errors(&program.errors, &mut registry, &mut type_list);
    proof {
        lemma_walk_chain(reg0, l0, reg3, l3, registry@, type_list@, w1 + w2 + w3, w4);
        assert(listed_types(l0) =~= Seq::<TypeV>::empty());
        assert(listed_types(l0) + w =~= w);
    }
    type_list
}

/// A registry that met a walk from empty knows each type of the walk, and
/// only those, exactly once: ids are unique.
pub proof fn law_each_type_one_id(w: Seq<TypeV>)
    ensures
        type_ids(w).no_duplicates(),
        forall|t: TypeV| type_ids(w).contains(t) <==> w.contains(t),
    decreases w.len(),
{
    if w.len() > 0 {
        law_each_type_one_id(w.drop_last());
        let e = type_ids(w.drop_last());
        assert(type_ids(w) == reg_add(e, w.last()));
        assert forall|t: TypeV| type_ids(w).contains(t) <==> w.contains(t) by {
            if w.drop_last().contains(t) {
                let k = choose|k: int| 0 <= k < w.drop_last().len() && w.drop_last()[k] == t;
                assert(w[k] == t);
            }
            if w.contains(t) && t != w.last() {
                let k = choose|k: int| 0 <= k < w.len() && w[k] == t;
                assert(w.drop_last()[k] == t);
            }
            if !e.contains(w.last()) {
                assert(e.push(w.last())[e.len() as int] == w.last());
                if e.push(w.last()).contains(t) && t != w.last() {
                    let k = choose|k: int| 0 <= k < e.push(w.last()).len() && e.push(w.last())[k] == t;
                    assert(e[k] == t);
                }
                if e.contains(t) {
                    let k = choose|k: int| 0 <= k < e.len() && e[k] == t;
                    assert(e.push(w.last())[k] == t);
                }
            }
            assert(w[w.len() - 1] == w.last());
        }
        if !e.contains(w.last()) {
            assert(e.push(w.last()).no_duplicates()) by {
                assert forall|a: int, b: int| 0 <= a < e.len() + 1 && 0 <= b < e.len() + 1 && a != b
                    implies e.push(w.last())[a] != e.push(w.last())[b] by {
                    if a < e.len() && b < e.len() {
                    } else if a == e.len() {
                        assert(e.contains(e[b]));
                    } else {
                        assert(e.contains(e[a]));
                    }
                }
            }
        }
    } else {
        assert(type_ids(w) =~= Seq::<TypeV>::empty());
    }
}

/// In a listing kept by a registry, two entries share an id exactly when
/// they name the same type.
pub proof fn law_same_id_same_type(reg: Seq<TypeV>, l: Seq<(u32, Type)>, i: int, j: int)
    requires
        registry_ok(reg, l),
        0 <= i < l.len(),
        0 <= j < l.len(),
    ensures
        (l[i].0 == l[j].0) <==> (l[i].1@ == l[j].1@),
{
    assert(reg[l[i].0 as int] == l[i].1@);
    assert(reg[l[j].0 as int] == l[j].1@);
}

/// An entry of the listing as the table shows it: its id and its type.
pub open spec fn entries_view(l: Seq<(u32, Type)>) -> Seq<(u32, TypeV)> {
    l.map_values(|p: (u32, Type)| (p.0, p.1@))
}

/// Inserts an entry after every entry whose id is not larger.
pub open spec fn insert_by_id(s: Seq<(u32, TypeV)>, x: (u32, TypeV)) -> Seq<(u32, TypeV)>
    decreases s.len(),
{
    if s.len() == 0 || s.last().0 <= x.0 {
        s.push(x)
    } else {
        insert_by_id(s.drop_last(), x).push(s.last())
    }
}

/// The stable sort of entries by id.
pub open spec fn sort_by_id(s: Seq<(u32, TypeV)>) -> Seq<(u32, TypeV)>
    decreases s.len(),
{
    if s.len() == 0 {
        Seq::empty()
    } else {
        insert_by_id(sort_by_id(s.drop_last()), s.last())
    }
}

/// Pads a text with spaces on the left up to a width (as `{:w}` does for
/// numbers).
pub open spec fn pad_left(s: Seq<char>, width: nat) -> Seq<char> {
    if s.len() >= width { s } else { Seq::new((width - s.len()) as nat, |i: int| ' ') + s }
}

/// The table line of an entry: its id right-aligned in seven columns, then
/// the type.
pub open spec fn type_line(e: (u32, TypeV)) -> Seq<char> {
    pad_left(nat_text(e.0 as nat), 7) + " | "@ + type_text(e.1, true)
}

/// The lines `typelist` prints for a listing: a header, a rule, the
/// entries sorted by id, an empty line and the total.
pub open spec fn type_table(s: Seq<(u32, TypeV)>) -> Seq<Seq<char>> {
    seq!["Type ID | Type"@, "--------|------"@] + sort_by_id(s).map_values(|e: (u32, TypeV)| type_line(e))
        + seq![Seq::<char>::empty(), "Total types: "@ + nat_text(s.len())]
}

proof fn lemma_insert_by_id_at(s: Seq<(u32, TypeV)>, x: (u32, TypeV), p: int)
    requires
        0 <= p <= s.len(),
        forall|j: int| p <= j < s.len() ==> x.0 < (#[trigger] s[j]).0,
        p == 0 || s[p - 1].0 <= x.0,
    ensures
        insert_by_id(s, x) == s.insert(p, x),
    decreases s.len(),
{
    if s.len() == 0 {
        assert(s.push(x) =~= s.insert(p, x));
    } else if s.last().0 <= x.0 {
        assert(p == s.len());
        assert(s.push(x) =~= s.insert(p, x));
    } else {
        lemma_insert_by_id_at(s.drop_last(), x, p);
        assert(s.drop_last().insert(p, x).push(s.last()) =~= s.insert(p, x));
    }
}

/// The listing sorted by id, stably.
fn sorted_by_id(type_list: &Vec<(u32, Type)>) -> (r: Vec<(u32, Type)>)
    ensures
        entries_view(r@) == sort_by_id(entries_view(type_list@)),
{
    let ghost input = entries_view(type_list@);
    let mut out: Vec<(u32, Type)> = Vec::new();
    let mut i: usize = 0;
    assert(input.subrange(0, 0) =~= Seq::<(u32, TypeV)>::empty());
    assert(entries_view(out@) =~= Seq::<(u32, TypeV)>::empty());
    while i < type_list.len()
        invariant
            i <= type_list.len(),
            input == entries_view(type_list@),
            entries_view(out@) == sort_by_id(input.subrange(0, i as int)),
        decreases type_list.len() - i,
    {
        let x = (type_list[i].0, type_list[i].1.deep_clone());
        let ghost xv = (x.0, x.1@);
        assert(xv == input[i as int]);
        let ghost ov = entries_view(out@);
        let mut p: usize = out.len();
        while p > 0 && out[p - 1].0 > x.0
            invariant
                p <= out.len(),
                ov == entries_view(out@),
                ov.len() == out.len(),
                x.0 == xv.0,
                forall|j: int| p <= j < out.len() ==> xv.0 < (#[trigger] ov[j]).0,
            decreases p,
        {
            assert(ov[p - 1] == (out@[p - 1].0, out@[p - 1].1@));
            p = p - 1;
        }
        proof {
            if p > 0 {
                assert(ov[p - 1] == (out@[p - 1].0, out@[p - 1].1@));
            }
            lemma_insert_by_id_at(ov, xv, p as int);
            assert(input.subrange(0, i + 1).drop_last() =~= input.subrange(0, i as int));
            assert(input.subrange(0, i + 1).last() == xv);
        }
        out.insert(p, x);
        assert(entries_view(out@) =~= ov.insert(p as int, xv));
        i = i + 1;
    }
    assert(input.subrange(0, i as int) =~= input);
    out
}

fn push_padded_left(out: &mut String, n: u32, width: usize)
    ensures
        final(out)@ == old(out)@ + pad_left(nat_text(n as nat), width as nat),
{
    let ghost start = out@;
    let t = crate::text::usize_text(n as usize);
    let len = t.as_str().unicode_len();
    let mut k = len;
    while k < width
        invariant
            len == t@.len(),
            k == len || (len <= k && k <= width),
            out@ == start + Seq::new((k - len) as nat, |i: int| ' '),
        decreases width - k,
    {
        crate::text::push_char(out, ' ');
        k = k + 1;
        assert(out@ =~= start + Seq::new((k - len) as nat, |i: int| ' '));
    }
    crate::text::push_string(out, &t);
    if len >= width {
        assert(Seq::new((k - len) as nat, |i: int| ' ') =~= Seq::<char>::empty());
    }
    assert(out@ =~= start + pad_left(nat_text(n as nat), width as nat));
}

/// The lines of the type table for a listing.
pub fn type_list_lines(type_list: &Vec<(u32, Type)>) -> (r: Vec<String>)
    ensures
        crate::cmd::symbol::lines_view(r@) == type_table(entries_view(type_list@)),
{
    let sorted = sorted_by_id(type_list);
    let ghost sv = entries_view(sorted@);
    proof {
        law_sorted_is_permutation(entries_view(type_list@));
    }
    assert(sv.len() == type_list.len()) by {
        assert(sv.to_multiset().len() == entries_view(type_list@).to_multiset().len());
        sv.to_multiset_ensures();
        entries_view(type_list@).to_multiset_ensures();
    }
    let mut r: Vec<String> = Vec::new();
    r.push(owned("Type ID | Type"));
    r.push(owned("--------|------"));
    let mut i: usize = 0;
    while i < sorted.len()
        invariant
            i <= sorted.len(),
            sv == entries_view(sorted@),
            r@.len() == 2 + i,
            r@[0]@ == "Type ID | Type"@,
            r@[1]@ == "--------|------"@,
            forall|j: int| 0 <= j < i ==> #[trigger] r@[j + 2]@ == type_line(sv[j]),
        decreases sorted.len() - i,
    {
        let mut line = String::new();
        push_padded_left(&mut line, sorted[i].0, 7);
        push_str(&mut line, " | ");
        push_type_text(&mut line, &sorted[i].1, true);
        assert(sv[i as int] == (sorted@[i as int].0, sorted@[i as int].1@));
        assert(line@ =~= type_line(sv[i as int]));
        r.push(line);
        i = i + 1;
    }
    r.push(String::new());
    let mut t = owned("Total types: ");
    push_u64(&mut t, type_list.len() as u64);
    r.push(t);
    let ghost expected = type_table(entries_view(type_list@));
    assert(crate::cmd::symbol::lines_view(r@).len() == expected.len());
    assert forall|j: int| 0 <= j < expected.len() implies #[trigger] crate::cmd::symbol::lines_view(r@)[j] == expected[j] by {
        assert(crate::cmd::symbol::lines_view(r@)[j] == r@[j]@);
        if 2 <= j < 2 + sorted.len() {
            assert(r@[(j - 2) + 2]@ == type_line(sv[j - 2]));
        }
    }
    assert(crate::cmd::symbol::lines_view(r@) =~= expected);
    r
}

/// A listing sorted by id with each entry dropped whose id is that of the
/// entry before it.
pub open spec fn dedup_ids(s: Seq<(u32, TypeV)>) -> Seq<(u32, TypeV)>
    decreases s.len(),
{
    if s.len() == 0 {
        s
    } else {
        let d = dedup_ids(s.drop_last());
        if d.len() > 0 && d.last().0 == s.last().0 {
            d
        } else {
            d.push(s.last())
        }
    }
}

/// Drops each entry whose id is that of the entry before it.
fn dedup_by_id(s: &Vec<(u32, Type)>) -> (r: Vec<(u32, Type)>)
    ensures
        entries_view(r@) == dedup_ids(entries_view(s@)),
{
    let ghost sv = entries_view(s@);
    let mut r: Vec<(u32, Type)> = Vec::new();
    let mut i: usize = 0;
    assert(sv.subrange(0, 0) =~= Seq::<(u32, TypeV)>::empty());
    assert(entries_view(r@) =~= Seq::<(u32, TypeV)>::empty());
    while i < s.len()
        invariant
            i <= s.len(),
            sv == entries_view(s@),
            entries_view(r@) == dedup_ids(sv.subrange(0, i as int)),
        decreases s.len() - i,
    {
        let ghost pre = sv.subrange(0, i + 1);
        assert(pre.drop_last() =~= sv.subrange(0, i as int));
        assert(pre.last() == (s@[i as int].0, s@[i as int].1@));
        let n = r.len();
        let repeat = n > 0 && r[n - 1].0 == s[i].0;
        if !repeat {
            let ghost before = r@;
            r.push((s[i].0, s[i].1.deep_clone()));
            assert(entries_view(r@) =~= entries_view(before).push((s@[i as int].0, s@[i as int].1@)));
        } else {
            assert(entries_view(r@).last() == (r@[n - 1].0, r@[n - 1].1@));
        }
        i = i + 1;
    }
    assert(sv.subrange(0, i as int) =~= sv);
    r
}

/// The lines `typelist` prints for a program read at the level of its
/// syntax tree: every mentioned type once, with its id, sorted by id.
pub fn list_types_from_ast_program(program: &Program) -> (r: Vec<String>)
    requires
        program_walk(*program).len() < u32::MAX,
    ensures
        exists|l: Seq<(u32, Type)>| {
            &&& listed_types(l) == program_walk(*program)
            &&& registry_ok(type_ids(program_walk(*program)), l)
            &&& crate::cmd::symbol::lines_view(r@) == type_table(dedup_ids(sort_by_id(entries_view(l))))
        },
{
    let l = collect_program_types(program);
    let sorted = sorted_by_id(&l);
    let unique = dedup_by_id(&sorted);
    type_list_lines(&unique)
}

/// Ids are strictly increasing along a listing.
pub open spec fn ids_strictly_ascending(s: Seq<(u32, TypeV)>) -> bool {
    forall|i: int, j: int| 0 <= i < j < s.len() ==> (#[trigger] s[i]).0 < (#[trigger] s[j]).0
}

proof fn lemma_dedup_ids(s: Seq<(u32, TypeV)>)
    requires
        ids_ascending(s),
    ensures
        ids_strictly_ascending(dedup_ids(s)),
        s.len() > 0 ==> dedup_ids(s).len() > 0 && dedup_ids(s).last().0 == s.last().0,
        dedup_ids(s).len() <= s.len(),
    decreases s.len(),
{
    if s.len() > 0 {
        let t = s.drop_last();
        assert(ids_ascending(t)) by {
            assert forall|i: int, j: int| 0 <= i < j < t.len() implies (#[trigger] t[i]).0 <= (#[trigger] t[j]).0 by {
                assert(t[i] == s[i] && t[j] == s[j]);
            }
        }
        lemma_dedup_ids(t);
        let d = dedup_ids(t);
        if t.len() > 0 {
            assert(t.last() == s[s.len() - 2]);
            assert(s[s.len() - 2].0 <= s[s.len() - 1].0);
        }
        if !(d.len() > 0 && d.last().0 == s.last().0) {
            let e = d.push(s.last());
            assert forall|i: int, j: int| 0 <= i < j < e.len() implies (#[trigger] e[i]).0 < (#[trigger] e[j]).0 by {
                if j == d.len() {
                    assert(e[j] == s.last());
                    assert(e[i] == d[i]);
                    if i < d.len() - 1 {
                        assert(d[i].0 < d[d.len() - 1].0);
                    }
                } else {
                    assert(e[i] == d[i] && e[j] == d[j]);
                }
            }
        }
    }
}

/// The type table lists each id once, in strictly ascending order.
pub proof fn law_table_lists_each_id_once(s: Seq<(u32, TypeV)>)
    ensures
        ids_strictly_ascending(dedup_ids(sort_by_id(s))),
{
    law_table_ids_ascending(s);
    lemma_dedup_ids(sort_by_id(s));
}

proof fn lemma_insert_by_id_multiset(s: Seq<(u32, TypeV)>, x: (u32, TypeV))
    ensures
        insert_by_id(s, x).to_multiset() == s.to_multiset().insert(x),
    decreases s.len(),
{
    broadcast use vstd::seq_lib::to_multiset_build;
    if s.len() == 0 || s.last().0 <= x.0 {
    } else {
        lemma_insert_by_id_multiset(s.drop_last(), x);
        assert(s.drop_last().push(s.last()) =~= s);
        assert(insert_by_id(s, x).to_multiset() =~= s.to_multiset().insert(x));
    }
}

/// Sorting the type table loses and adds no entry.
pub proof fn law_sorted_is_permutation(s: Seq<(u32, TypeV)>)
    ensures
        sort_by_id(s).to_multiset() == s.to_multiset(),
    decreases s.len(),
{
    broadcast use vstd::seq_lib::to_multiset_build;
    if s.len() > 0 {
        law_sorted_is_permutation(s.drop_last());
        lemma_insert_by_id_multiset(sort_by_id(s.drop_last()), s.last());
        assert(s.drop_last().push(s.last()) =~= s);
    } else {
        assert(sort_by_id(s) =~= s);
    }
}

/// Whether entries are in ascending order of id.
pub open spec fn ids_ascending(s: Seq<(u32, TypeV)>) -> bool {
    forall|i: int, j: int| 0 <= i < j < s.len() ==> (#[trigger] s[i]).0 <= (#[trigger] s[j]).0
}

proof fn lemma_insert_by_id_sorted(s: Seq<(u32, TypeV)>, x: (u32, TypeV))
    requires
        ids_ascending(s),
    ensures
        ids_ascending(insert_by_id(s, x)),
        insert_by_id(s, x).len() == s.len() + 1,
        forall|k: int| 0 <= k < insert_by_id(s, x).len() ==> (#[trigger] insert_by_id(s, x)[k]).0 == x.0
            || exists|j: int| 0 <= j < s.len() && insert_by_id(s, x)[k].0 == s[j].0,
    decreases s.len(),
{
    let r = insert_by_id(s, x);
    if s.len() == 0 || s.last().0 <= x.0 {
        assert forall|k: int| 0 <= k < r.len() implies (#[trigger] r[k]).0 == x.0
            || exists|j: int| 0 <= j < s.len() && r[k].0 == s[j].0 by {
            if k < s.len() {
                assert(r[k] == s[k]);
            }
        }
        assert forall|i: int, j: int| 0 <= i < j < r.len() implies (#[trigger] r[i]).0 <= (#[trigger] r[j]).0 by {
            if j == s.len() {
                assert(r[i] == s[i]);
                assert(s[i].0 <= s[s.len() - 1].0 || i == s.len() - 1);
            } else {
                assert(r[i] == s[i] && r[j] == s[j]);
            }
        }
    } else {
        let sd = s.drop_last();
        assert(ids_ascending(sd)) by {
            assert forall|i: int, j: int| 0 <= i < j < sd.len() implies (#[trigger] sd[i]).0 <= (#[trigger] sd[j]).0 by {
                assert(sd[i] == s[i] && sd[j] == s[j]);
            }
        }
        lemma_insert_by_id_sorted(sd, x);
        let t = insert_by_id(sd, x);
        assert(r == t.push(s.last()));
        assert forall|k: int| 0 <= k < r.len() implies (#[trigger] r[k]).0 == x.0
            || exists|j: int| 0 <= j < s.len() && r[k].0 == s[j].0 by {
            if k == t.len() {
                assert(r[k] == s[s.len() - 1]);
            } else {
                assert(r[k] == t[k]);
                if t[k].0 != x.0 {
                    let j = choose|j: int| 0 <= j < sd.len() && t[k].0 == sd[j].0;
                    assert(sd[j] == s[j]);
                }
            }
        }
        assert forall|i: int, j: int| 0 <= i < j < r.len() implies (#[trigger] r[i]).0 <= (#[trigger] r[j]).0 by {
            if j == t.len() {
                assert(r[j] == s.last());
                assert(r[i] == t[i]);
                if t[i].0 != x.0 {
                    let k = choose|k: int| 0 <= k < sd.len() && t[i].0 == sd[k].0;
                    assert(sd[k] == s[k]);
                    assert(s[k].0 <= s[s.len() - 1].0);
                }
            } else {
                assert(r[j] == t[j] && r[i] == t[i]);
            }
        }
    }
}

/// The type table lists entries in ascending order of id.
pub proof fn law_table_ids_ascending(s: Seq<(u32, TypeV)>)
    ensures
        ids_ascending(sort_by_id(s)),
    decreases s.len(),
{
    if s.len() > 0 {
        law_table_ids_ascending(s.drop_last());
        lemma_insert_by_id_sorted(sort_by_id(s.drop_last()), s.last());
    }
}


/// Whether a type is concrete, not an instance of a generic type: every
/// custom type in it has no generic argument other than a generic parameter.
pub open spec fn concrete_type(t: TypeV) -> bool
    decreases t,
{
    match t {
        TypeV::Custom { generic_args, .. } => forall|i: int|
            0 <= i < generic_args.len() ==> (#[trigger] generic_args[i]) is GenericParam,
        TypeV::Function { params, return_type } => concrete_types(params) && concrete_type(*return_type),
        TypeV::Pointer(inner) => concrete_type(*inner),
        TypeV::Option(inner) => concrete_type(*inner),
        TypeV::Result(inner) => concrete_type(*inner),
        TypeV::Array { element_type, .. } => concrete_type(*element_type),
        TypeV::Tuple(ts) => concrete_types(ts),
        _ => true,
    }
}

/// Whether every type of a list is concrete.
pub open spec fn concrete_types(ts: Seq<TypeV>) -> bool
    decreases ts,
{
    if ts.len() == 0 {
        true
    } else {
        concrete_types(ts.drop_last()) && concrete_type(ts.last())
    }
}

/// Whether a type is concrete (see `concrete_type`).
#[verifier::loop_isolation(false)]
pub fn is_concrete_type(ty: &Type) -> (r: bool)
    ensures
        r == concrete_type(ty@),
    decreases ty,
{
    match ty {
        Type::Custom { generic_args, .. } => {
            let mut i: usize = 0;
            while i < generic_args.len()
                invariant
                    i <= generic_args.len(),
                    forall|k: int| 0 <= k < i ==> (#[trigger] types_view(generic_args@)[k]) is GenericParam,
                decreases generic_args.len() - i,
            {
                proof {
                    lemma_types_view(generic_args@);
                }
                if !matches!(generic_args[i], Type::GenericParam(_)) {
                    assert(!(types_view(generic_args@)[i as int] is GenericParam));
                    return false;
                }
                i = i + 1;
            }
            proof {
                lemma_types_view(generic_args@);
            }
            true
        },
        Type::Function { params, return_type } => {
            let ps = are_concrete_types(params);
            ps && is_concrete_type(return_type)
        },
        Type::Pointer(inner) | Type::Option(inner) | Type::Result(inner) => is_concrete_type(inner),
        Type::Array { element_type, .. } => is_concrete_type(element_type),
        Type::Tuple(types) => are_concrete_types(types),
        _ => true,
    }
}

/// Whether every type of a list is concrete.
fn are_concrete_types(ts: &Vec<Type>) -> (r: bool)
    ensures
        r == concrete_types(types_view(ts@)),
    decreases ts,
{
    let mut i: usize = 0;
    while i < ts.len()
        invariant
            i <= ts.len(),
            concrete_types(types_view(ts@.subrange(0, i as int))),
        decreases ts.len() - i,
    {
        proof {
            assert(decreases_to!(*ts => ts@));
            assert(decreases_to!(ts@ => ts@[i as int]));
        }
        let c = is_concrete_type(&ts[i]);
        proof {
            lemma_types_view(ts@.subrange(0, i + 1));
            lemma_types_view(ts@.subrange(0, i as int));
            assert(types_view(ts@.subrange(0, i + 1)).drop_last() =~= types_view(ts@.subrange(0, i as int)));
        }
        if !c {
            proof {
                lemma_types_view(ts@);
                if concrete_types(types_view(ts@)) {
                    lemma_concrete_types_prefix(types_view(ts@), i + 1);
                    assert(types_view(ts@).subrange(0, i + 1) =~= types_view(ts@.subrange(0, i + 1)));
                }
            }
            return false;
        }
        i = i + 1;
    }
    assert(ts@.subrange(0, i as int) =~= ts@);
    true
}

/// A list is concrete only if each of its prefixes is.
proof fn lemma_concrete_types_prefix(ts: Seq<TypeV>, n: int)
    requires
        0 <= n <= ts.len(),
        concrete_types(ts),
    ensures
        concrete_types(ts.subrange(0, n)),
    decreases ts.len(),
{
    if n < ts.len() {
        assert(ts.drop_last().subrange(0, n) =~= ts.subrange(0, n));
        lemma_concrete_types_prefix(ts.drop_last(), n);
    } else {
        assert(ts.subrange(0, n) =~= ts);
    }
}

} // verus!
