//! The LLVM types values of the language take, as the library models them,
//! and the conversions between them.

use vstd::prelude::*;
use crate::ast::{Type, TypeV, lemma_types_view, types_view};
use crate::text::str_eq;

verus! {

/// An LLVM type as code generation uses it: integers of a bit width,
/// floats, opaque pointers, literal structs, named structs and arrays.
#[derive(Debug)]
pub enum LType {
    Int(u32),
    F32,
    F64,
    Ptr,
    Struct(Vec<LType>),
    Named(String),
    Array(Box<LType>, u32),
}

/// The model of an [`LType`].
pub enum LTypeV {
    Int(u32),
    F32,
    F64,
    Ptr,
    Struct(Seq<LTypeV>),
    Named(Seq<char>),
    Array(Box<LTypeV>, u32),
}

pub open spec fn ltype_view(t: LType) -> LTypeV
    decreases t,
{
    match t {
        LType::Int(w) => LTypeV::Int(w),
        LType::F32 => LTypeV::F32,
        LType::F64 => LTypeV::F64,
        LType::Ptr => LTypeV::Ptr,
        LType::Struct(fs) => LTypeV::Struct(ltypes_view(fs@)),
        LType::Named(n) => LTypeV::Named(n@),
        LType::Array(e, n) => LTypeV::Array(Box::new(ltype_view(*e)), n),
    }
}

pub open spec fn ltypes_view(ts: Seq<LType>) -> Seq<LTypeV>
    decreases ts,
{
    if ts.len() == 0 {
        Seq::empty()
    } else {
        ltypes_view(ts.drop_last()).push(ltype_view(ts.last()))
    }
}

impl View for LType {
    type V = LTypeV;

    open spec fn view(&self) -> LTypeV {
        ltype_view(*self)
    }
}

/// Every integer type that a language type stands for is 1 to 64 bits wide.
pub proof fn lemma_ltype_of_int_width(t: TypeV, known: Seq<Seq<char>>)
    ensures
        ltype_of(t, known) matches LTypeV::Int(w) ==> 1 <= w <= 64,
{
}

pub(crate) proof fn lemma_ltypes_view(ts: Seq<LType>)
    ensures
        ltypes_view(ts).len() == ts.len(),
        forall|i: int| 0 <= i < ts.len() ==> #[trigger] ltypes_view(ts)[i] == ltype_view(ts[i]),
    decreases ts.len(),
{
    if ts.len() > 0 {
        lemma_ltypes_view(ts.drop_last());
        assert forall|i: int| 0 <= i < ts.len() implies #[trigger] ltypes_view(ts)[i] == ltype_view(ts[i]) by {
            if i < ts.len() - 1 {
                assert(ts.drop_last()[i] == ts[i]);
            }
        }
    }
}

/// The LLVM type of a language type; `known` names the structs whose LLVM
/// type has been declared (a custom type that is not known falls back to
/// `i64`).
pub open spec fn ltype_of(t: TypeV, known: Seq<Seq<char>>) -> LTypeV
    decreases t,
{
    match t {
        TypeV::I8 | TypeV::U8 => LTypeV::Int(8),
        TypeV::I16 | TypeV::U16 => LTypeV::Int(16),
        TypeV::I32 | TypeV::U32 => LTypeV::Int(32),
        TypeV::I64 | TypeV::U64 | TypeV::ImmInt => LTypeV::Int(64),
        TypeV::F32 => LTypeV::F32,
        TypeV::F64 | TypeV::ImmFloat => LTypeV::F64,
        TypeV::Bool => LTypeV::Int(1),
        TypeV::RawPtr | TypeV::Pointer(_) | TypeV::Function { .. } => LTypeV::Ptr,
        TypeV::SelfType | TypeV::Void | TypeV::Error | TypeV::GenericParam(_) => LTypeV::Int(64),
        TypeV::Option(inner) => LTypeV::Struct(seq![ltype_of(*inner, known), LTypeV::Int(1)]),
        TypeV::Result(inner) => LTypeV::Struct(seq![ltype_of(*inner, known), LTypeV::Int(1)]),
        TypeV::Tuple(ts) => LTypeV::Struct(ltypes_of(ts, known)),
        TypeV::Custom { name, .. } => if known.contains(name) { LTypeV::Named(name) } else { LTypeV::Int(64) },
        TypeV::Array { size, element_type } => match size {
            Some(n) => LTypeV::Array(Box::new(ltype_of(*element_type, known)), n as u32),
            None => LTypeV::Struct(seq![LTypeV::Ptr, LTypeV::Int(64)]),
        },
    }
}

/// The LLVM types that can be built without looking up a named struct:
/// integers of 1 to 64 bits, floats, pointers, and structs and arrays of
/// such types.
pub open spec fn buildable(t: LTypeV) -> bool
    decreases t,
{
    match t {
        LTypeV::Int(w) => 1 <= w <= 64,
        LTypeV::F32 | LTypeV::F64 | LTypeV::Ptr => true,
        LTypeV::Struct(fs) => all_buildable(fs),
        LTypeV::Named(_) => false,
        LTypeV::Array(e, _) => buildable(*e),
    }
}

/// Whether every type of a list is [`buildable`].
pub open spec fn all_buildable(ts: Seq<LTypeV>) -> bool
    decreases ts,
{
    if ts.len() == 0 {
        true
    } else {
        buildable(ts[0]) && all_buildable(ts.drop_first())
    }
}

pub proof fn lemma_all_buildable(ts: Seq<LTypeV>)
    ensures
        all_buildable(ts) <==> forall|i: int| 0 <= i < ts.len() ==> #[trigger] buildable(ts[i]),
    decreases ts.len(),
{
    if ts.len() > 0 {
        let rest = ts.drop_first();
        lemma_all_buildable(rest);
        assert forall|i: int| 0 <= i < rest.len() implies rest[i] == ts[i + 1] by {}
        if forall|i: int| 0 <= i < ts.len() ==> #[trigger] buildable(ts[i]) {
            assert(buildable(ts[0]));
            assert forall|i: int| 0 <= i < rest.len() implies #[trigger] buildable(rest[i]) by {
                assert(buildable(ts[i + 1]));
            }
            assert(all_buildable(ts));
        }
        if all_buildable(ts) {
            assert forall|i: int| 0 <= i < ts.len() implies #[trigger] buildable(ts[i]) by {
                if i > 0 {
                    assert(buildable(rest[i - 1]));
                }
            }
        }
    }
}

/// The LLVM types of a list of language types.
pub open spec fn ltypes_of(ts: Seq<TypeV>, known: Seq<Seq<char>>) -> Seq<LTypeV>
    decreases ts,
{
    if ts.len() == 0 {
        Seq::empty()
    } else {
        ltypes_of(ts.drop_last(), known).push(ltype_of(ts.last(), known))
    }
}

fn is_known(name: &String, known: &Vec<String>) -> (r: bool)
    ensures
        r == known@.map_values(|s: String| s@).contains(name@),
{
    let ghost kv = known@.map_values(|s: String| s@);
    let mut i: usize = 0;
    while i < known.len()
        invariant
            i <= known.len(),
            kv == known@.map_values(|s: String| s@),
            forall|j: int| 0 <= j < i ==> kv[j] != name@,
        decreases known.len() - i,
    {
        if str_eq(known[i].as_str(), name.as_str()) {
            assert(kv[i as int] == name@);
            return true;
        }
        i = i + 1;
    }
    false
}

/// The names of a list of strings.
pub open spec fn names_view(v: Seq<String>) -> Seq<Seq<char>> {
    v.map_values(|s: String| s@)
}

/// The LLVM type of a language type, given the names of the declared
/// structs.
pub fn lang_ltype(ty: &Type, known: &Vec<String>) -> (r: LType)
    ensures
        r@ == ltype_of(ty@, names_view(known@)),
    decreases ty,
{
    match ty {
        Type::I8 | Type::U8 => LType::Int(8),
        Type::I16 | Type::U16 => LType::Int(16),
        Type::I32 | Type::U32 => LType::Int(32),
        Type::I64 | Type::U64 | Type::ImmInt => LType::Int(64),
        Type::F32 => LType::F32,
        Type::F64 | Type::ImmFloat => LType::F64,
        Type::Bool => LType::Int(1),
        Type::RawPtr | Type::Pointer(_) | Type::Function { .. } => LType::Ptr,
        Type::SelfType | Type::Void | Type::Error | Type::GenericParam(_) => LType::Int(64),
        Type::Option(inner) => {
            let mut fs: Vec<LType> = Vec::new();
            fs.push(lang_ltype(inner, known));
            fs.push(LType::Int(1));
            let r = LType::Struct(fs);
            assert(ltypes_view(fs@) =~= seq![ltype_of(inner@, names_view(known@)), LTypeV::Int(1)]) by {
                lemma_ltypes_view(fs@);
            }
            r
        },
        Type::Result(inner) => {
            let mut fs: Vec<LType> = Vec::new();
            fs.push(lang_ltype(inner, known));
            fs.push(LType::Int(1));
            let r = LType::Struct(fs);
            assert(ltypes_view(fs@) =~= seq![ltype_of(inner@, names_view(known@)), LTypeV::Int(1)]) by {
                lemma_ltypes_view(fs@);
            }
            r
        },
        Type::Tuple(ts) => LType::Struct(lang_ltypes(ts, known)),
        Type::Custom { name, .. } => {
            if is_known(name, known) {
                LType::Named(name.clone())
            } else {
                LType::Int(64)
            }
        },
        Type::Array { size, element_type } => match size {
            Some(n) => LType::Array(Box::new(lang_ltype(element_type, known)), *n as u32),
            None => {
                let mut fs: Vec<LType> = Vec::new();
                fs.push(LType::Ptr);
                fs.push(LType::Int(64));
                let r = LType::Struct(fs);
                assert(ltypes_view(fs@) =~= seq![LTypeV::Ptr, LTypeV::Int(64)]) by {
                    lemma_ltypes_view(fs@);
                }
                r
            },
        },
    }
}

/// The LLVM types of a list of language types.
pub fn lang_ltypes(ts: &Vec<Type>, known: &Vec<String>) -> (r: Vec<LType>)
    ensures
        ltypes_view(r@) == ltypes_of(types_view(ts@), names_view(known@)),
    decreases ts,
{
    proof {
        lemma_types_view(ts@);
    }
    let ghost tv = types_view(ts@);
    let mut r: Vec<LType> = Vec::new();
    let mut i: usize = 0;
    assert(tv.subrange(0, 0) =~= Seq::<TypeV>::empty());
    while i < ts.len()
        invariant
            i <= ts.len(),
            tv == types_view(ts@),
            tv.len() == ts.len(),
            forall|j: int| 0 <= j < ts.len() ==> #[trigger] tv[j] == ts@[j]@,
            ltypes_view(r@) == ltypes_of(tv.subrange(0, i as int), names_view(known@)),
        decreases ts.len() - i,
    {
        let t = lang_ltype(&ts[i], known);
        let ghost before = r@;
        r.push(t);
        assert(r@.drop_last() =~= before);
        assert(tv.subrange(0, i + 1).drop_last() =~= tv.subrange(0, i as int));
        i = i + 1;
    }
    assert(tv.subrange(0, i as int) =~= tv);
    r
}

/// Structural equality of LLVM types.
pub fn ltype_equal(a: &LType, b: &LType) -> (r: bool)
    ensures
        r == (a@ == b@),
    decreases a,
{
    match (a, b) {
        (LType::Int(x), LType::Int(y)) => *x == *y,
        (LType::F32, LType::F32) => true,
        (LType::F64, LType::F64) => true,
        (LType::Ptr, LType::Ptr) => true,
        (LType::Struct(xs), LType::Struct(ys)) => ltypes_equal(xs, ys),
        (LType::Named(x), LType::Named(y)) => str_eq(x.as_str(), y.as_str()),
        (LType::Array(x, n), LType::Array(y, m)) => *n == *m && ltype_equal(x, y),
        _ => false,
    }
}

fn ltypes_equal(xs: &Vec<LType>, ys: &Vec<LType>) -> (r: bool)
    ensures
        r == (ltypes_view(xs@) == ltypes_view(ys@)),
    decreases xs,
{
    proof {
        lemma_ltypes_view(xs@);
        lemma_ltypes_view(ys@);
    }
    if xs.len() != ys.len() {
        return false;
    }
    let mut i: usize = 0;
    while i < xs.len()
        invariant
            i <= xs.len(),
            xs.len() == ys.len(),
            ltypes_view(xs@).len() == xs.len(),
            ltypes_view(ys@).len() == ys.len(),
            forall|j: int| 0 <= j < xs.len() ==> #[trigger] ltypes_view(xs@)[j] == ltype_view(xs@[j]),
            forall|j: int| 0 <= j < ys.len() ==> #[trigger] ltypes_view(ys@)[j] == ltype_view(ys@[j]),
            forall|j: int| 0 <= j < i ==> ltypes_view(xs@)[j] == ltypes_view(ys@)[j],
        decreases xs.len() - i,
    {
        if !ltype_equal(&xs[i], &ys[i]) {
            assert(ltypes_view(xs@)[i as int] != ltypes_view(ys@)[i as int]);
            return false;
        }
        i = i + 1;
    }
    assert(ltypes_view(xs@) =~= ltypes_view(ys@));
    true
}

/// A copy of an LLVM type.
pub fn ltype_clone(a: &LType) -> (r: LType)
    ensures
        r@ == a@,
    decreases a,
{
    match a {
        LType::Int(x) => LType::Int(*x),
        LType::F32 => LType::F32,
        LType::F64 => LType::F64,
        LType::Ptr => LType::Ptr,
        LType::Struct(xs) => LType::Struct(ltypes_clone(xs)),
        LType::Named(n) => LType::Named(n.clone()),
        LType::Array(e, n) => LType::Array(Box::new(ltype_clone(e)), *n),
    }
}

/// A copy of a list of LLVM types.
pub fn ltypes_clone(xs: &Vec<LType>) -> (r: Vec<LType>)
    ensures
        ltypes_view(r@) == ltypes_view(xs@),
    decreases xs,
{
    let mut r: Vec<LType> = Vec::new();
    let mut i: usize = 0;
    while i < xs.len()
        invariant
            i <= xs.len(),
            ltypes_view(r@) == ltypes_view(xs@.subrange(0, i as int)),
        decreases xs.len() - i,
    {
        let t = ltype_clone(&xs[i]);
        let ghost before = r@;
        r.push(t);
        assert(r@.drop_last() =~= before);
        assert(xs@.subrange(0, i + 1).drop_last() =~= xs@.subrange(0, i as int));
        i = i + 1;
    }
    assert(xs@.subrange(0, i as int) =~= xs@);
    r
}

/// How a value of one LLVM type is brought to another.
#[derive(Debug, Clone, Copy, PartialEq, Eq, Structural)]
pub enum Conversion {
    /// The value is used as it is.
    Keep,
    /// An integer is truncated or extended to another width.
    IntResize,
    /// A float is truncated or extended to another precision.
    FloatResize,
    /// An integer is converted to a float, read as unsigned.
    UnsignedToFloat,
    /// A float is converted to an integer, as unsigned.
    FloatToUnsigned,
}

/// Whether an LLVM type is a float type.
pub open spec fn is_float(t: LTypeV) -> bool {
    t is F32 || t is F64
}

/// The conversion that brings a value of type `from` to type `to`: none
/// when they agree, else between integers and floats as far as possible,
/// else none.
pub open spec fn conversion(from: LTypeV, to: LTypeV) -> Conversion {
    if from == to {
        Conversion::Keep
    } else if to is Int && from is Int {
        Conversion::IntResize
    } else if is_float(to) && is_float(from) {
        Conversion::FloatResize
    } else if is_float(to) && from is Int {
        Conversion::UnsignedToFloat
    } else if to is Int && is_float(from) {
        Conversion::FloatToUnsigned
    } else {
        Conversion::Keep
    }
}

/// The conversion that brings a value to another LLVM type.
pub fn conversion_between(from: &LType, to: &LType) -> (r: Conversion)
    ensures
        r == conversion(from@, to@),
{
    if ltype_equal(from, to) {
        return Conversion::Keep;
    }
    let from_int = matches!(from, LType::Int(_));
    let to_int = matches!(to, LType::Int(_));
    let from_float = matches!(from, LType::F32 | LType::F64);
    let to_float = matches!(to, LType::F32 | LType::F64);
    if to_int && from_int {
        Conversion::IntResize
    } else if to_float && from_float {
        Conversion::FloatResize
    } else if to_float && from_int {
        Conversion::UnsignedToFloat
    } else if to_int && from_float {
        Conversion::FloatToUnsigned
    } else {
        Conversion::Keep
    }
}

/// The language type of a value of an LLVM type: integers by width (other
/// widths read as `i64`), floats, pointers as raw pointers, literal
/// structs as tuples, arrays with their size; a named struct reads as the
/// tuple of its fields, as `structs` records them.
pub open spec fn lang_of_ltype(t: LTypeV, structs: Seq<(Seq<char>, Seq<LTypeV>)>) -> TypeV
    decreases structs.len(), t,
{
    match t {
        LTypeV::Int(w) => if w == 8 {
            TypeV::I8
        } else if w == 16 {
            TypeV::I16
        } else if w == 32 {
            TypeV::I32
        } else {
            TypeV::I64
        },
        LTypeV::F32 => TypeV::F32,
        LTypeV::F64 => TypeV::F64,
        LTypeV::Ptr => TypeV::RawPtr,
        LTypeV::Struct(fs) => TypeV::Tuple(langs_of_ltypes(fs, structs)),
        LTypeV::Named(n) => {
            let k = struct_index(structs, n);
            if 0 <= k < structs.len() {
                TypeV::Tuple(langs_of_ltypes(structs[k].1, structs.remove(k)))
            } else {
                TypeV::Tuple(Seq::empty())
            }
        },
        LTypeV::Array(e, n) => TypeV::Array { size: Some(n as usize), element_type: Box::new(lang_of_ltype(*e, structs)) },
    }
}

/// The language types of a list of LLVM types.
pub open spec fn langs_of_ltypes(ts: Seq<LTypeV>, structs: Seq<(Seq<char>, Seq<LTypeV>)>) -> Seq<TypeV>
    decreases structs.len(), ts,
{
    if ts.len() == 0 {
        Seq::empty()
    } else {
        langs_of_ltypes(ts.drop_last(), structs).push(lang_of_ltype(ts.last(), structs))
    }
}

/// The position of the last record of a named struct, or -1.
pub open spec fn struct_index(structs: Seq<(Seq<char>, Seq<LTypeV>)>, n: Seq<char>) -> int
    decreases structs.len(),
{
    if structs.len() == 0 {
        -1
    } else if structs.last().0 == n {
        structs.len() - 1
    } else {
        struct_index(structs.drop_last(), n)
    }
}

proof fn lemma_struct_index(structs: Seq<(Seq<char>, Seq<LTypeV>)>, n: Seq<char>)
    ensures
        -1 <= struct_index(structs, n) < structs.len(),
        struct_index(structs, n) >= 0 ==> structs[struct_index(structs, n)].0 == n,
        struct_index(structs, n) == -1 ==> forall|j: int| 0 <= j < structs.len() ==> structs[j].0 != n,
    decreases structs.len(),
{
    if structs.len() > 0 && structs.last().0 != n {
        lemma_struct_index(structs.drop_last(), n);
        if struct_index(structs.drop_last(), n) == -1 {
            assert forall|j: int| 0 <= j < structs.len() implies structs[j].0 != n by {
                if j < structs.len() - 1 {
                    assert(structs.drop_last()[j] == structs[j]);
                }
            }
        }
    }
}


/// The model of the record of declared struct bodies.
pub open spec fn struct_bodies_view(v: Seq<(String, Vec<LType>)>) -> Seq<(Seq<char>, Seq<LTypeV>)> {
    v.map_values(|p: (String, Vec<LType>)| (p.0@, ltypes_view(p.1@)))
}

fn find_struct(structs: &Vec<(String, Vec<LType>)>, name: &String) -> (r: Option<usize>)
    ensures
        r matches Some(k) ==> k as int == struct_index(struct_bodies_view(structs@), name@),
        r is None ==> struct_index(struct_bodies_view(structs@), name@) == -1,
{
    let ghost sv = struct_bodies_view(structs@);
    let mut i = structs.len();
    assert(sv.subrange(0, i as int) =~= sv);
    while i > 0
        invariant
            i <= structs.len(),
            sv == struct_bodies_view(structs@),
            struct_index(sv, name@) == struct_index(sv.subrange(0, i as int), name@),
        decreases i,
    {
        let ghost pre = sv.subrange(0, i as int);
        assert(pre.last() == sv[i - 1]);
        if str_eq(structs[i - 1].0.as_str(), name.as_str()) {
            return Some(i - 1);
        }
        assert(pre.drop_last() =~= sv.subrange(0, i - 1));
        i = i - 1;
    }
    None
}

fn without_entry(structs: &Vec<(String, Vec<LType>)>, k: usize) -> (r: Vec<(String, Vec<LType>)>)
    requires
        k < structs.len(),
    ensures
        struct_bodies_view(r@) == struct_bodies_view(structs@).remove(k as int),
{
    let ghost sv = struct_bodies_view(structs@);
    let mut r: Vec<(String, Vec<LType>)> = Vec::new();
    let mut i: usize = 0;
    while i < structs.len()
        invariant
            i <= structs.len(),
            k < structs.len(),
            sv == struct_bodies_view(structs@),
            struct_bodies_view(r@) == if i <= k { sv.subrange(0, i as int) } else { sv.subrange(0, k as int) + sv.subrange(k + 1, i as int) },
        decreases structs.len() - i,
    {
        if i != k {
            let e = (structs[i].0.clone(), ltypes_clone(&structs[i].1));
            let ghost before = r@;
            r.push(e);
            assert(struct_bodies_view(r@) =~= struct_bodies_view(before).push(sv[i as int]));
        }
        i = i + 1;
        assert(struct_bodies_view(r@) =~= if i <= k { sv.subrange(0, i as int) } else { sv.subrange(0, k as int) + sv.subrange(k + 1, i as int) });
    }
    assert(struct_bodies_view(r@) =~= sv.remove(k as int));
    r
}

/// The language types that the LLVM type they lower to names again:
/// signed integers, floats, the raw pointer, and fixed-size arrays of such
/// types whose length fits in 32 bits.
pub open spec fn lowers_back(t: TypeV) -> bool
    decreases t,
{
    match t {
        TypeV::I8 | TypeV::I16 | TypeV::I32 | TypeV::I64 | TypeV::F32 | TypeV::F64 | TypeV::RawPtr => true,
        TypeV::Array { size: Some(n), element_type } => n <= u32::MAX && lowers_back(*element_type),
        _ => false,
    }
}

/// Reading a lowered type back gives the type again, for the types that
/// lowering does not merge with others (unsigned integers, booleans,
/// options and structs lose their identity in LLVM).
pub proof fn law_lowering_read_back(t: TypeV, known: Seq<Seq<char>>, structs: Seq<(Seq<char>, Seq<LTypeV>)>)
    requires
        lowers_back(t),
    ensures
        lang_of_ltype(ltype_of(t, known), structs) == t,
    decreases t,
{
    match t {
        TypeV::Array { size: Some(n), element_type } => {
            law_lowering_read_back(*element_type, known, structs);
            assert((n as u32) as usize == n);
        },
        _ => {},
    }
}

/// The language type of a value of an LLVM type, given the record of the
/// declared struct bodies.
pub fn llvm_type_to_lang(t: &LType, structs: &Vec<(String, Vec<LType>)>) -> (r: Type)
    ensures
        r@ == lang_of_ltype(t@, struct_bodies_view(structs@)),
    decreases structs@.len(), t,
{
    match t {
        LType::Int(w) => {
            if *w == 8 {
                Type::I8
            } else if *w == 16 {
                Type::I16
            } else if *w == 32 {
                Type::I32
            } else {
                Type::I64
            }
        },
        LType::F32 => Type::F32,
        LType::F64 => Type::F64,
        LType::Ptr => Type::RawPtr,
        LType::Struct(fs) => Type::Tuple(llvm_types_to_lang(fs, structs)),
        LType::Named(n) => {
            proof {
                lemma_struct_index(struct_bodies_view(structs@), n@);
            }
            match find_struct(structs, n) {
                Some(k) => {
                    let rest = without_entry(structs, k);
                    assert(struct_bodies_view(structs@)[k as int].1 == ltypes_view(structs@[k as int].1@));
                    assert(rest@.len() == struct_bodies_view(rest@).len());
                    assert(rest@.len() < structs@.len());
                    Type::Tuple(llvm_types_to_lang(&structs[k].1, &rest))
                },
                None => {
                    let r = Type::Tuple(Vec::new());
                    assert(types_view(Seq::<Type>::empty()) =~= Seq::<TypeV>::empty());
                    r
                },
            }
        },
        LType::Array(e, n) => Type::Array { size: Some(*n as usize), element_type: Box::new(llvm_type_to_lang(e, structs)) },
    }
}

/// The language types of a list of LLVM types.
pub fn llvm_types_to_lang(ts: &Vec<LType>, structs: &Vec<(String, Vec<LType>)>) -> (r: Vec<Type>)
    ensures
        types_view(r@) == langs_of_ltypes(ltypes_view(ts@), struct_bodies_view(structs@)),
    decreases structs@.len(), ts,
{
    proof {
        lemma_ltypes_view(ts@);
    }
    let ghost tv = ltypes_view(ts@);
    let mut r: Vec<Type> = Vec::new();
    let mut i: usize = 0;
    assert(tv.subrange(0, 0) =~= Seq::<LTypeV>::empty());
    while i < ts.len()
        invariant
            i <= ts.len(),
            tv == ltypes_view(ts@),
            tv.len() == ts.len(),
            forall|j: int| 0 <= j < ts.len() ==> #[trigger] tv[j] == ts@[j]@,
            types_view(r@) == langs_of_ltypes(tv.subrange(0, i as int), struct_bodies_view(structs@)),
        decreases ts.len() - i,
    {
        let t = llvm_type_to_lang(&ts[i], structs);
        proof {
            crate::ast::lemma_types_view_push(r@, t);
        }
        r.push(t);
        assert(tv.subrange(0, i + 1).drop_last() =~= tv.subrange(0, i as int));
        i = i + 1;
    }
    assert(tv.subrange(0, i as int) =~= tv);
    r
}


/// The model of a list of types has the list's length.
pub proof fn lemma_ltypes_len(ts: Seq<LType>)
    ensures
        ltypes_view(ts).len() == ts.len(),
{
    lemma_ltypes_view(ts);
}

/// The model of a list of types holds the model of each.
pub proof fn lemma_ltypes_at(ts: Seq<LType>, i: int)
    requires
        0 <= i < ts.len(),
    ensures
        ltypes_view(ts)[i] == ltype_view(ts[i]),
{
    lemma_ltypes_view(ts);
}

} // verus!
