//! Abstract syntax tree of the Lang programming language: data types,
//! operators, declarations, expressions and statements.

use vstd::prelude::*;
use crate::text::{str_eq, owned, push_str, push_string};

verus! {

/// A data type of the language.
#[derive(Debug, PartialEq, Eq, Hash)]
pub enum Type {
    I8,
    I16,
    I32,
    I64,
    U8,
    U16,
    U32,
    U64,
    F32,
    F64,
    /// Immediate integer value (unresolved literal)
    ImmInt,
    /// Immediate float value (unresolved literal)
    ImmFloat,
    Bool,
    Void,
    /// Raw pointer type (opaque pointer, like C's `void*`)
    RawPtr,
    /// `Self` type (for struct methods)
    SelfType,
    /// Pointer type (e.g. `*i32`)
    Pointer(Box<Type>),
    /// Optional type (e.g. `?i32`)
    Option(Box<Type>),
    /// Tuple type (e.g. `(i32, i64)`)
    Tuple(Vec<Type>),
    /// Custom type (struct or enum)
    Custom {
        name: String,
        generic_args: Vec<Type>,
        is_exported: bool,
    },
    /// Generic type parameter
    GenericParam(String),
    /// Array type (e.g. `[3]u8`); a missing size makes it a slice
    Array {
        size: Option<usize>,
        element_type: Box<Type>,
    },
    /// Error type
    Error,
    /// Result type (e.g. `i32!`)
    Result(Box<Type>),
    /// Function type (e.g. `fn(i64, i64) i64`)
    Function {
        params: Vec<Type>,
        return_type: Box<Type>,
    },
}

/// The mathematical model of a [`Type`]: the same tree, with names held as
/// character sequences and type lists as sequences.
pub enum TypeV {
    I8,
    I16,
    I32,
    I64,
    U8,
    U16,
    U32,
    U64,
    F32,
    F64,
    ImmInt,
    ImmFloat,
    Bool,
    Void,
    RawPtr,
    SelfType,
    Pointer(Box<TypeV>),
    Option(Box<TypeV>),
    Tuple(Seq<TypeV>),
    Custom { name: Seq<char>, generic_args: Seq<TypeV>, is_exported: bool },
    GenericParam(Seq<char>),
    Array { size: Option<usize>, element_type: Box<TypeV> },
    Error,
    Result(Box<TypeV>),
    Function { params: Seq<TypeV>, return_type: Box<TypeV> },
}

/// The model of a type.
pub open spec fn type_view(t: Type) -> TypeV
    decreases t,
{
    match t {
        Type::I8 => TypeV::I8,
        Type::I16 => TypeV::I16,
        Type::I32 => TypeV::I32,
        Type::I64 => TypeV::I64,
        Type::U8 => TypeV::U8,
        Type::U16 => TypeV::U16,
        Type::U32 => TypeV::U32,
        Type::U64 => TypeV::U64,
        Type::F32 => TypeV::F32,
        Type::F64 => TypeV::F64,
        Type::ImmInt => TypeV::ImmInt,
        Type::ImmFloat => TypeV::ImmFloat,
        Type::Bool => TypeV::Bool,
        Type::Void => TypeV::Void,
        Type::RawPtr => TypeV::RawPtr,
        Type::SelfType => TypeV::SelfType,
        Type::Pointer(inner) => TypeV::Pointer(Box::new(type_view(*inner))),
        Type::Option(inner) => TypeV::Option(Box::new(type_view(*inner))),
        Type::Tuple(ts) => TypeV::Tuple(types_view(ts@)),
        Type::Custom { name, generic_args, is_exported } => TypeV::Custom {
            name: name@,
            generic_args: types_view(generic_args@),
            is_exported,
        },
        Type::GenericParam(name) => TypeV::GenericParam(name@),
        Type::Array { size, element_type } => TypeV::Array {
            size,
            element_type: Box::new(type_view(*element_type)),
        },
        Type::Error => TypeV::Error,
        Type::Result(inner) => TypeV::Result(Box::new(type_view(*inner))),
        Type::Function { params, return_type } => TypeV::Function {
            params: types_view(params@),
            return_type: Box::new(type_view(*return_type)),
        },
    }
}

/// The models of a sequence of types, in order.
pub open spec fn types_view(ts: Seq<Type>) -> Seq<TypeV>
    decreases ts,
{
    if ts.len() == 0 {
        Seq::empty()
    } else {
        seq![type_view(ts[0])] + types_view(ts.drop_first())
    }
}

impl View for Type {
    type V = TypeV;

    open spec fn view(&self) -> TypeV {
        type_view(*self)
    }
}

/// `types_view` keeps the length and maps each element to its model.
pub proof fn lemma_types_view(ts: Seq<Type>)
    ensures
        types_view(ts).len() == ts.len(),
        forall|i: int| 0 <= i < ts.len() ==> #[trigger] types_view(ts)[i] == type_view(ts[i]),
    decreases ts.len(),
{
    if ts.len() > 0 {
        lemma_types_view(ts.drop_first());
        assert forall|i: int| 0 <= i < ts.len() implies #[trigger] types_view(ts)[i] == type_view(ts[i]) by {
            if i > 0 {
                assert(ts.drop_first()[i - 1] == ts[i]);
            }
        }
    }
}

/// The models of two sequences agree exactly when they agree element by element.
pub proof fn lemma_types_view_push(ts: Seq<Type>, t: Type)
    ensures
        types_view(ts.push(t)) == types_view(ts).push(type_view(t)),
{
    lemma_types_view(ts);
    lemma_types_view(ts.push(t));
    assert(types_view(ts.push(t)) =~= types_view(ts).push(type_view(t)));
}

/// Whether a type model mentions a generic parameter anywhere.
pub open spec fn is_generic_v(t: TypeV) -> bool
    decreases t,
{
    match t {
        TypeV::GenericParam(_) => true,
        TypeV::Pointer(inner) => is_generic_v(*inner),
        TypeV::Option(inner) => is_generic_v(*inner),
        TypeV::Result(inner) => is_generic_v(*inner),
        TypeV::Array { element_type, .. } => is_generic_v(*element_type),
        TypeV::Tuple(ts) => any_generic_v(ts),
        TypeV::Custom { generic_args, .. } => any_generic_v(generic_args),
        TypeV::Function { params, return_type } => any_generic_v(params) || is_generic_v(*return_type),
        _ => false,
    }
}

/// Whether some type model of the sequence mentions a generic parameter.
pub open spec fn any_generic_v(ts: Seq<TypeV>) -> bool
    decreases ts,
{
    if ts.len() == 0 {
        false
    } else {
        is_generic_v(ts[0]) || any_generic_v(ts.drop_first())
    }
}

proof fn lemma_any_generic_v(ts: Seq<TypeV>)
    ensures
        any_generic_v(ts) == exists|i: int| 0 <= i < ts.len() && is_generic_v(#[trigger] ts[i]),
    decreases ts.len(),
{
    if ts.len() > 0 {
        lemma_any_generic_v(ts.drop_first());
        if is_generic_v(ts[0]) {
            assert(is_generic_v(ts[0]));
        }
        if exists|i: int| 0 <= i < ts.drop_first().len() && is_generic_v(#[trigger] ts.drop_first()[i]) {
            let i = choose|i: int| 0 <= i < ts.drop_first().len() && is_generic_v(#[trigger] ts.drop_first()[i]);
            assert(is_generic_v(ts[i + 1]));
        }
        if exists|i: int| 0 <= i < ts.len() && is_generic_v(#[trigger] ts[i]) {
            let i = choose|i: int| 0 <= i < ts.len() && is_generic_v(#[trigger] ts[i]);
            if i > 0 {
                assert(ts.drop_first()[i - 1] == ts[i]);
            }
        }
    }
}

/// Replaces `Self` inside a type model: the `SelfType` variant and any custom
/// type named `Self` become the named custom type with the given arguments.
pub open spec fn replace_self_v(t: TypeV, name: Seq<char>, args: Seq<TypeV>) -> TypeV
    decreases t,
{
    match t {
        TypeV::SelfType => TypeV::Custom { name: name, generic_args: args, is_exported: false },
        TypeV::Custom { name: n, generic_args: a, is_exported } => {
            if n == seq!['S', 'e', 'l', 'f'] {
                TypeV::Custom { name: name, generic_args: args, is_exported }
            } else {
                TypeV::Custom { name: n, generic_args: replace_self_all_v(a, name, args), is_exported }
            }
        },
        TypeV::Pointer(inner) => TypeV::Pointer(Box::new(replace_self_v(*inner, name, args))),
        TypeV::Option(inner) => TypeV::Option(Box::new(replace_self_v(*inner, name, args))),
        TypeV::Result(inner) => TypeV::Result(Box::new(replace_self_v(*inner, name, args))),
        TypeV::Tuple(ts) => TypeV::Tuple(replace_self_all_v(ts, name, args)),
        TypeV::Array { size, element_type } => TypeV::Array {
            size,
            element_type: Box::new(replace_self_v(*element_type, name, args)),
        },
        TypeV::Function { params, return_type } => TypeV::Function {
            params: replace_self_all_v(params, name, args),
            return_type: Box::new(replace_self_v(*return_type, name, args)),
        },
        _ => t,
    }
}

/// [`replace_self_v`] applied to each type model of a sequence.
pub open spec fn replace_self_all_v(ts: Seq<TypeV>, name: Seq<char>, args: Seq<TypeV>) -> Seq<TypeV>
    decreases ts,
{
    if ts.len() == 0 {
        Seq::empty()
    } else {
        seq![replace_self_v(ts[0], name, args)] + replace_self_all_v(ts.drop_first(), name, args)
    }
}

proof fn lemma_replace_self_all_v(ts: Seq<TypeV>, name: Seq<char>, args: Seq<TypeV>)
    ensures
        replace_self_all_v(ts, name, args).len() == ts.len(),
        forall|i: int| 0 <= i < ts.len() ==>
            #[trigger] replace_self_all_v(ts, name, args)[i] == replace_self_v(ts[i], name, args),
    decreases ts.len(),
{
    if ts.len() > 0 {
        lemma_replace_self_all_v(ts.drop_first(), name, args);
        assert forall|i: int| 0 <= i < ts.len() implies
            #[trigger] replace_self_all_v(ts, name, args)[i] == replace_self_v(ts[i], name, args) by {
            if i > 0 {
                assert(ts.drop_first()[i - 1] == ts[i]);
            }
        }
    }
}

/// Replacing `Self` twice is replacing it once: with a struct name other
/// than `Self` and generic arguments that hold no `Self` themselves (that
/// replacing leaves as they are), a second replacement changes nothing.
pub proof fn law_replace_self_idempotent(t: TypeV, name: Seq<char>, args: Seq<TypeV>)
    requires
        name != seq!['S', 'e', 'l', 'f'],
        replace_self_all_v(args, name, args) == args,
    ensures
        replace_self_v(replace_self_v(t, name, args), name, args) == replace_self_v(t, name, args),
    decreases t,
{
    match t {
        TypeV::Custom { name: n, generic_args: a, .. } => {
            if n != seq!['S', 'e', 'l', 'f'] {
                lemma_replace_self_all_idempotent(a, name, args);
            }
        },
        TypeV::Pointer(inner) => law_replace_self_idempotent(*inner, name, args),
        TypeV::Option(inner) => law_replace_self_idempotent(*inner, name, args),
        TypeV::Result(inner) => law_replace_self_idempotent(*inner, name, args),
        TypeV::Tuple(ts) => lemma_replace_self_all_idempotent(ts, name, args),
        TypeV::Array { element_type, .. } => law_replace_self_idempotent(*element_type, name, args),
        TypeV::Function { params, return_type } => {
            lemma_replace_self_all_idempotent(params, name, args);
            law_replace_self_idempotent(*return_type, name, args);
        },
        _ => {},
    }
}

proof fn lemma_replace_self_all_idempotent(ts: Seq<TypeV>, name: Seq<char>, args: Seq<TypeV>)
    requires
        name != seq!['S', 'e', 'l', 'f'],
        replace_self_all_v(args, name, args) == args,
    ensures
        replace_self_all_v(replace_self_all_v(ts, name, args), name, args) == replace_self_all_v(ts, name, args),
    decreases ts,
{
    let once = replace_self_all_v(ts, name, args);
    lemma_replace_self_all_v(ts, name, args);
    lemma_replace_self_all_v(once, name, args);
    assert forall|i: int| 0 <= i < ts.len() implies #[trigger] replace_self_all_v(once, name, args)[i] == once[i] by {
        assert(decreases_to!(ts => ts[i]));
        law_replace_self_idempotent(ts[i], name, args);
    }
    assert(replace_self_all_v(once, name, args) =~= once);
}

/// Whether a literal is accepted by `i64::from_str`: an optional `+` or `-`,
/// then one or more ASCII digits, with a value in the range of `i64`.
pub open spec fn parses_as_i64(s: Seq<char>) -> bool {
    match signed_literal_value(s) {
        Some(v) => i64::MIN <= v <= i64::MAX,
        None => false,
    }
}

/// Whether a literal is accepted by `u64::from_str`: an optional `+`, then
/// one or more ASCII digits, with a value in the range of `u64`.
pub open spec fn parses_as_u64(s: Seq<char>) -> bool {
    s.len() > 0 && s[0] != '-' && match signed_literal_value(s) {
        Some(v) => 0 <= v <= u64::MAX,
        None => false,
    }
}

/// Whether a character is an ASCII decimal digit.
pub open spec fn is_digit(c: char) -> bool {
    '0' <= c && c <= '9'
}

/// The value of a non-empty run of ASCII digits.
pub open spec fn digits_value(ds: Seq<char>) -> int
    decreases ds.len(),
{
    if ds.len() == 0 {
        0
    } else {
        digits_value(ds.drop_last()) * 10 + (ds.last() as int - '0' as int)
    }
}

/// The text of a literal after its optional leading sign.
pub open spec fn literal_digits(s: Seq<char>) -> Seq<char> {
    if s.len() > 0 && (s[0] == '-' || s[0] == '+') { s.drop_first() } else { s }
}

/// Whether every character of the text is an ASCII digit.
pub open spec fn all_digits(ds: Seq<char>) -> bool {
    forall|i: int| 0 <= i < ds.len() ==> is_digit(#[trigger] ds[i])
}

/// The value of an optional sign followed by one or more ASCII digits, or
/// `None` when the text has another shape.
pub open spec fn signed_literal_value(s: Seq<char>) -> Option<int> {
    let ds = literal_digits(s);
    if ds.len() > 0 && all_digits(ds) {
        Some(if s[0] == '-' { -digits_value(ds) } else { digits_value(ds) })
    } else {
        None
    }
}

proof fn lemma_digits_value_nonneg(ds: Seq<char>)
    requires
        forall|i: int| 0 <= i < ds.len() ==> is_digit(#[trigger] ds[i]),
    ensures
        digits_value(ds) >= 0,
    decreases ds.len(),
{
    if ds.len() > 0 {
        assert(is_digit(ds[ds.len() - 1]));
        lemma_digits_value_nonneg(ds.drop_last());
    }
}

/// Reads an optional sign and a run of ASCII digits; the magnitude saturates
/// just above `u64::MAX`, which is enough to decide both integer ranges.
fn scan_literal(cs: &Vec<char>) -> (r: Option<(bool, u128)>)
    ensures
        r is None <==> signed_literal_value(cs@) is None,
        r matches Some((neg, m)) ==> {
            let v = signed_literal_value(cs@)->0;
            let mag = if v < 0 { -v } else { v };
            &&& neg == (cs@[0] == '-')
            &&& (neg ==> v <= 0)
            &&& (!neg ==> v >= 0)
            &&& m <= 18446744073709551616u128
            &&& (m < 18446744073709551616u128 ==> m == mag)
            &&& (m == 18446744073709551616u128 ==> mag >= 18446744073709551616u128)
        },
{
    let n = cs.len();
    if n == 0 {
        return None;
    }
    let neg = cs[0] == '-';
    let signed = cs[0] == '-' || cs[0] == '+';
    let start: usize = if signed { 1 } else { 0 };
    let ghost ds = if signed { cs@.drop_first() } else { cs@ };
    if start >= n {
        return None;
    }
    let cap: u128 = 18446744073709551616u128;
    let mut m: u128 = 0;
    let mut i: usize = start;
    while i < n
        invariant
            n == cs.len(),
            start <= i <= n,
            start == (if signed { 1int } else { 0int }),
            ds == cs@.subrange(start as int, n as int),
            forall|k: int| 0 <= k < i - start ==> is_digit(#[trigger] ds[k]),
            cap == 18446744073709551616u128,
            n > 0,
            signed == (cs@[0] == '-' || cs@[0] == '+'),
            neg == (cs@[0] == '-'),
            ds == literal_digits(cs@),
            m <= cap,
            digits_value(ds.subrange(0, i - start)) >= 0,
            m < cap ==> m == digits_value(ds.subrange(0, i - start)),
            m == cap ==> digits_value(ds.subrange(0, i - start)) >= cap,
        decreases n - i,
    {
        let c = cs[i];
        if !('0' <= c && c <= '9') {
            assert(ds[i - start] == c);
            assert(!is_digit(ds[i - start]));
            assert(ds == literal_digits(cs@));
            assert(!all_digits(ds));
            return None;
        }
        let d: u128 = (c as u32 - '0' as u32) as u128;
        let ghost prev = ds.subrange(0, i - start);
        let ghost next = ds.subrange(0, i + 1 - start);
        assert(next.drop_last() =~= prev);
        assert(next.last() == c);
        if m == cap || m * 10 + d >= cap {
            m = cap;
        } else {
            m = m * 10 + d;
        }
        i = i + 1;
        assert(digits_value(next) == digits_value(prev) * 10 + d);
    }
    assert(ds.subrange(0, n - start) =~= ds);
    Some((neg, m))
}

/// Whether two type models are the same type (what the derived `==`
/// compares: names by their characters, lists element by element).
pub fn types_equal(a: &Type, b: &Type) -> (r: bool)
    ensures
        r == (a@ == b@),
    decreases a,
{
    match (a, b) {
        (Type::I8, Type::I8) => true,
        (Type::I16, Type::I16) => true,
        (Type::I32, Type::I32) => true,
        (Type::I64, Type::I64) => true,
        (Type::U8, Type::U8) => true,
        (Type::U16, Type::U16) => true,
        (Type::U32, Type::U32) => true,
        (Type::U64, Type::U64) => true,
        (Type::F32, Type::F32) => true,
        (Type::F64, Type::F64) => true,
        (Type::ImmInt, Type::ImmInt) => true,
        (Type::ImmFloat, Type::ImmFloat) => true,
        (Type::Bool, Type::Bool) => true,
        (Type::Void, Type::Void) => true,
        (Type::RawPtr, Type::RawPtr) => true,
        (Type::SelfType, Type::SelfType) => true,
        (Type::Error, Type::Error) => true,
        (Type::Pointer(x), Type::Pointer(y)) => types_equal(x, y),
        (Type::Option(x), Type::Option(y)) => types_equal(x, y),
        (Type::Result(x), Type::Result(y)) => types_equal(x, y),
        (Type::Tuple(xs), Type::Tuple(ys)) => type_lists_equal(xs, ys),
        (Type::GenericParam(x), Type::GenericParam(y)) => str_eq(x.as_str(), y.as_str()),
        (
            Type::Custom { name: n1, generic_args: a1, is_exported: e1 },
            Type::Custom { name: n2, generic_args: a2, is_exported: e2 },
        ) => {
            *e1 == *e2 && str_eq(n1.as_str(), n2.as_str()) && type_lists_equal(a1, a2)
        },
        (Type::Array { size: s1, element_type: t1 }, Type::Array { size: s2, element_type: t2 }) => {
            let same_size = match (s1, s2) {
                (Some(x), Some(y)) => *x == *y,
                (None, None) => true,
                _ => false,
            };
            same_size && types_equal(t1, t2)
        },
        (
            Type::Function { params: p1, return_type: r1 },
            Type::Function { params: p2, return_type: r2 },
        ) => type_lists_equal(p1, p2) && types_equal(r1, r2),
        _ => false,
    }
}

/// Whether two lists of types are the same, element by element.
pub fn type_lists_equal(a: &Vec<Type>, b: &Vec<Type>) -> (r: bool)
    ensures
        r == (types_view(a@) == types_view(b@)),
    decreases a,
{
    proof {
        lemma_types_view(a@);
        lemma_types_view(b@);
    }
    if a.len() != b.len() {
        return false;
    }
    let mut i: usize = 0;
    while i < a.len()
        invariant
            a.len() == b.len(),
            i <= a.len(),
            types_view(a@).len() == a.len(),
            types_view(b@).len() == b.len(),
            forall|j: int| 0 <= j < a.len() ==> #[trigger] types_view(a@)[j] == type_view(a@[j]),
            forall|j: int| 0 <= j < b.len() ==> #[trigger] types_view(b@)[j] == type_view(b@[j]),
            forall|j: int| 0 <= j < i ==> types_view(a@)[j] == types_view(b@)[j],
        decreases a.len() - i,
    {
        if !types_equal(&a[i], &b[i]) {
            assert(types_view(a@)[i as int] != types_view(b@)[i as int]);
            return false;
        }
        i = i + 1;
    }
    assert(types_view(a@) =~= types_view(b@));
    true
}

/// A copy of a list of types with the same models.
pub fn clone_types(ts: &Vec<Type>) -> (r: Vec<Type>)
    ensures
        types_view(r@) == types_view(ts@),
    decreases ts,
{
    let mut r: Vec<Type> = Vec::new();
    let mut i: usize = 0;
    proof {
        lemma_types_view(ts@);
    }
    while i < ts.len()
        invariant
            i <= ts.len(),
            types_view(ts@).len() == ts@.len(),
            forall|j: int| 0 <= j < ts@.len() ==> #[trigger] types_view(ts@)[j] == type_view(ts@[j]),
            types_view(r@) == types_view(ts@).subrange(0, i as int),
        decreases ts.len() - i,
    {
        let t = ts[i].deep_clone();
        proof {
            lemma_types_view_push(r@, t);
        }
        r.push(t);
        i = i + 1;
        assert(types_view(r@) =~= types_view(ts@).subrange(0, i as int));
    }
    assert(types_view(ts@).subrange(0, ts@.len() as int) =~= types_view(ts@));
    r
}

/// A copy of a slice of types with the same models.
pub fn clone_type_slice(ts: &[Type]) -> (r: Vec<Type>)
    ensures
        types_view(r@) == types_view(ts@),
{
    let mut r: Vec<Type> = Vec::new();
    let mut i: usize = 0;
    proof {
        lemma_types_view(ts@);
    }
    while i < ts.len()
        invariant
            i <= ts.len(),
            types_view(ts@).len() == ts@.len(),
            forall|j: int| 0 <= j < ts@.len() ==> #[trigger] types_view(ts@)[j] == type_view(ts@[j]),
            types_view(r@) == types_view(ts@).subrange(0, i as int),
        decreases ts.len() - i,
    {
        let t = ts[i].deep_clone();
        proof {
            lemma_types_view_push(r@, t);
        }
        r.push(t);
        i = i + 1;
        assert(types_view(r@) =~= types_view(ts@).subrange(0, i as int));
    }
    assert(types_view(ts@).subrange(0, ts@.len() as int) =~= types_view(ts@));
    r
}

impl Clone for Type {
    fn clone(&self) -> (r: Self)
        ensures
            r@ == self@,
    {
        self.deep_clone()
    }
}

impl Type {
    /// A copy of this type with the same model.
    pub fn deep_clone(&self) -> (r: Type)
        ensures
            r@ == self@,
        decreases self,
    {
        match self {
            Type::I8 => Type::I8,
            Type::I16 => Type::I16,
            Type::I32 => Type::I32,
            Type::I64 => Type::I64,
            Type::U8 => Type::U8,
            Type::U16 => Type::U16,
            Type::U32 => Type::U32,
            Type::U64 => Type::U64,
            Type::F32 => Type::F32,
            Type::F64 => Type::F64,
            Type::ImmInt => Type::ImmInt,
            Type::ImmFloat => Type::ImmFloat,
            Type::Bool => Type::Bool,
            Type::Void => Type::Void,
            Type::RawPtr => Type::RawPtr,
            Type::SelfType => Type::SelfType,
            Type::Error => Type::Error,
            Type::Pointer(inner) => Type::Pointer(Box::new(inner.deep_clone())),
            Type::Option(inner) => Type::Option(Box::new(inner.deep_clone())),
            Type::Result(inner) => Type::Result(Box::new(inner.deep_clone())),
            Type::Tuple(ts) => Type::Tuple(clone_types(ts)),
            Type::Custom { name, generic_args, is_exported } => Type::Custom {
                name: name.clone(),
                generic_args: clone_types(generic_args),
                is_exported: *is_exported,
            },
            Type::GenericParam(name) => Type::GenericParam(name.clone()),
            Type::Array { size, element_type } => Type::Array {
                size: *size,
                element_type: Box::new(element_type.deep_clone()),
            },
            Type::Function { params, return_type } => Type::Function {
                params: clone_types(params),
                return_type: Box::new(return_type.deep_clone()),
            },
        }
    }

    /// The default type of a numeric literal: `i64` when `i64::from_str`
    /// accepts it, else `u64` when `u64::from_str` accepts it, else `f64`.
    pub fn default_for_literal(literal: &str) -> (r: Type)
        ensures
            parses_as_i64(literal@) ==> r == Type::I64,
            !parses_as_i64(literal@) && parses_as_u64(literal@) ==> r == Type::U64,
            !parses_as_i64(literal@) && !parses_as_u64(literal@) ==> r == Type::F64,
    {
        let cs = crate::text::chars_of(literal);
        match scan_literal(&cs) {
            None => Type::F64,
            Some((neg, m)) => {
                let ghost v = signed_literal_value(cs@)->0;
                if neg {
                    if m <= 9223372036854775808u128 {
                        Type::I64
                    } else {
                        Type::F64
                    }
                } else if m <= 9223372036854775807u128 {
                    Type::I64
                } else if m <= 18446744073709551615u128 {
                    Type::U64
                } else {
                    Type::F64
                }
            },
        }
    }

    /// Whether this is one of the eight integer types.
    pub fn is_integer(&self) -> (r: bool)
        ensures
            r == (self is I8 || self is I16 || self is I32 || self is I64 || self is U8 || self is U16
                || self is U32 || self is U64),
    {
        matches!(self, Type::I8 | Type::I16 | Type::I32 | Type::I64 | Type::U8 | Type::U16 | Type::U32 | Type::U64)
    }

    /// Whether this is a signed integer type.
    pub fn is_signed_integer(&self) -> (r: bool)
        ensures
            r == (self is I8 || self is I16 || self is I32 || self is I64),
    {
        matches!(self, Type::I8 | Type::I16 | Type::I32 | Type::I64)
    }

    /// Whether this type is a generic parameter or contains one.
    pub fn is_generic(&self) -> (r: bool)
        ensures
            r == is_generic_v(self@),
        decreases self,
    {
        match self {
            Type::GenericParam(_) => true,
            Type::Pointer(inner) => inner.is_generic(),
            Type::Option(inner) => inner.is_generic(),
            Type::Result(inner) => inner.is_generic(),
            Type::Array { element_type, .. } => element_type.is_generic(),
            Type::Tuple(types) => any_generic(types),
            Type::Custom { generic_args, .. } => any_generic(generic_args),
            Type::Function { params, return_type } => any_generic(params) || return_type.is_generic(),
            _ => false,
        }
    }

    /// Whether this is a float type.
    pub fn is_float(&self) -> (r: bool)
        ensures
            r == (self is F32 || self is F64),
    {
        matches!(self, Type::F32 | Type::F64)
    }

    /// Whether an integer literal fits in this integer type.
    pub fn can_represent_int_literal(&self, value: i64) -> (r: bool)
        ensures
            r == match *self {
                Type::I8 => i8::MIN <= value <= i8::MAX,
                Type::I16 => i16::MIN <= value <= i16::MAX,
                Type::I32 => i32::MIN <= value <= i32::MAX,
                Type::I64 => true,
                Type::U8 => 0 <= value <= u8::MAX,
                Type::U16 => 0 <= value <= u16::MAX,
                Type::U32 => 0 <= value <= u32::MAX,
                Type::U64 => 0 <= value,
                _ => false,
            },
    {
        match self {
            Type::I8 => -128 <= value && value <= 127,
            Type::I16 => -32768 <= value && value <= 32767,
            Type::I32 => -2147483648 <= value && value <= 2147483647,
            Type::I64 => true,
            Type::U8 => 0 <= value && value <= 255,
            Type::U16 => 0 <= value && value <= 65535,
            Type::U32 => 0 <= value && value <= 4294967295,
            Type::U64 => value >= 0,
            _ => false,
        }
    }

    /// Replaces `Self` (the `Self` type and a custom type named `Self`) with
    /// the named struct type, without generic arguments.
    pub fn replace_self(&mut self, struct_name: &str)
        ensures
            final(self)@ == replace_self_v(old(self)@, struct_name@, Seq::empty()),
    {
        self.replace_self_with_args(struct_name, &[]);
        assert(types_view(Seq::<Type>::empty()) =~= Seq::<TypeV>::empty());
    }

    /// Replaces `Self` (the `Self` type and a custom type named `Self`) with
    /// the named struct type carrying the given generic arguments.
    pub fn replace_self_with_args(&mut self, struct_name: &str, generic_args: &[Type])
        ensures
            final(self)@ == replace_self_v(old(self)@, struct_name@, types_view(generic_args@)),
    {
        let r = self.self_replaced(struct_name, generic_args);
        *self = r;
    }

    /// The type with `Self` replaced, as [`Type::replace_self_with_args`] does in place.
    pub fn self_replaced(&self, struct_name: &str, generic_args: &[Type]) -> (r: Type)
        ensures
            r@ == replace_self_v(self@, struct_name@, types_view(generic_args@)),
        decreases self,
    {
        match self {
            Type::SelfType => {
                let n = owned(struct_name);
                let a = clone_type_slice(generic_args);
                let r = Type::Custom { name: n, generic_args: a, is_exported: false };
                assert(r@ == TypeV::Custom { name: struct_name@, generic_args: types_view(generic_args@), is_exported: false });
                assert(self@ == TypeV::SelfType);
                assert(replace_self_v(TypeV::SelfType, struct_name@, types_view(generic_args@)) == TypeV::Custom { name: struct_name@, generic_args: types_view(generic_args@), is_exported: false });
                r
            },
            Type::Custom { name, generic_args: args, is_exported } => {
                proof {
                    reveal_strlit("Self");
                    assert("Self"@ =~= seq!['S', 'e', 'l', 'f']);
                }
                assert(self@ == TypeV::Custom { name: name@, generic_args: types_view(args@), is_exported: *is_exported });
                if str_eq(name.as_str(), "Self") {
                    assert(name@ == seq!['S', 'e', 'l', 'f']);
                    let r = Type::Custom {
                        name: owned(struct_name),
                        generic_args: clone_type_slice(generic_args),
                        is_exported: *is_exported,
                    };
                    assert(r@ == TypeV::Custom { name: struct_name@, generic_args: types_view(generic_args@), is_exported: *is_exported });
                    r
                } else {
                    assert(name@ != seq!['S', 'e', 'l', 'f']);
                    let a = replaced_all(args, struct_name, generic_args);
                    let r = Type::Custom {
                        name: name.clone(),
                        generic_args: a,
                        is_exported: *is_exported,
                    };
                    assert(r@ == TypeV::Custom { name: name@, generic_args: types_view(a@), is_exported: *is_exported });
                    r
                }
            },
            Type::Pointer(inner) => Type::Pointer(Box::new(inner.self_replaced(struct_name, generic_args))),
            Type::Option(inner) => {
                let x = inner.self_replaced(struct_name, generic_args);
                let r = Type::Option(Box::new(x));
                assert(r@ == TypeV::Option(Box::new(x@)));
                r
            },
            Type::Result(inner) => Type::Result(Box::new(inner.self_replaced(struct_name, generic_args))),
            Type::Tuple(ts) => Type::Tuple(replaced_all(ts, struct_name, generic_args)),
            Type::Array { size, element_type } => Type::Array {
                size: *size,
                element_type: Box::new(element_type.self_replaced(struct_name, generic_args)),
            },
            Type::Function { params, return_type } => Type::Function {
                params: replaced_all(params, struct_name, generic_args),
                return_type: Box::new(return_type.self_replaced(struct_name, generic_args)),
            },
            _ => self.deep_clone(),
        }
    }

    /// Whether this is a custom (struct or enum) type.
    pub fn is_custom(&self) -> (r: bool)
        ensures
            r == (self is Custom),
    {
        matches!(self, Type::Custom { .. })
    }

    /// The name of a custom type.
    pub fn custom_name(&self) -> (r: Option<&String>)
        ensures
            match *self {
                Type::Custom { name, .. } => r == Some(&name),
                _ => r is None,
            },
    {
        match self {
            Type::Custom { name, .. } => Some(name),
            _ => None,
        }
    }

    /// Whether this is a result type (can return an error).
    pub fn is_result(&self) -> (r: bool)
        ensures
            r == (self is Result),
    {
        matches!(self, Type::Result(_))
    }

    /// The inner type of a result type.
    pub fn result_inner(&self) -> (r: Option<&Type>)
        ensures
            match *self {
                Type::Result(inner) => r == Some(&*inner),
                _ => r is None,
            },
    {
        match self {
            Type::Result(inner) => Some(&**inner),
            _ => None,
        }
    }

    /// Whether this is `void!` (a result type whose inner type is void).
    pub fn is_void_result(&self) -> (r: bool)
        ensures
            r == (self is Result && *self->Result_0 is Void),
    {
        match self {
            Type::Result(inner) => matches!(**inner, Type::Void),
            _ => false,
        }
    }
}

/// Whether some type of the list is generic.
fn any_generic(types: &Vec<Type>) -> (r: bool)
    ensures
        r == any_generic_v(types_view(types@)),
    decreases types,
{
    proof {
        lemma_types_view(types@);
        lemma_any_generic_v(types_view(types@));
    }
    let mut i: usize = 0;
    while i < types.len()
        invariant
            i <= types.len(),
            types_view(types@).len() == types.len(),
            forall|j: int| 0 <= j < types.len() ==> #[trigger] types_view(types@)[j] == type_view(types@[j]),
            forall|j: int| 0 <= j < i ==> !is_generic_v(#[trigger] types_view(types@)[j]),
            any_generic_v(types_view(types@)) == exists|k: int| 0 <= k < types_view(types@).len() && is_generic_v(#[trigger] types_view(types@)[k]),
        decreases types.len() - i,
    {
        if types[i].is_generic() {
            assert(types_view(types@)[i as int] == type_view(types@[i as int]));
            assert(is_generic_v(types_view(types@)[i as int]));
            assert(exists|k: int| 0 <= k < types_view(types@).len() && is_generic_v(#[trigger] types_view(types@)[k]));
            return true;
        }
        i = i + 1;
    }
    false
}

/// Each type of the list with `Self` replaced.
fn replaced_all(ts: &Vec<Type>, struct_name: &str, generic_args: &[Type]) -> (r: Vec<Type>)
    ensures
        types_view(r@) == replace_self_all_v(types_view(ts@), struct_name@, types_view(generic_args@)),
    decreases ts,
{
    proof {
        lemma_types_view(ts@);
        lemma_replace_self_all_v(types_view(ts@), struct_name@, types_view(generic_args@));
    }
    let ghost target = replace_self_all_v(types_view(ts@), struct_name@, types_view(generic_args@));
    let mut r: Vec<Type> = Vec::new();
    let mut i: usize = 0;
    while i < ts.len()
        invariant
            i <= ts.len(),
            types_view(ts@).len() == ts.len(),
            forall|j: int| 0 <= j < ts.len() ==> #[trigger] types_view(ts@)[j] == type_view(ts@[j]),
            target.len() == ts.len(),
            target == replace_self_all_v(types_view(ts@), struct_name@, types_view(generic_args@)),
            forall|j: int| 0 <= j < ts.len() ==>
                #[trigger] target[j] == replace_self_v(types_view(ts@)[j], struct_name@, types_view(generic_args@)),
            types_view(r@) == target.subrange(0, i as int),
        decreases ts.len() - i,
    {
        let t = ts[i].self_replaced(struct_name, generic_args);
        proof {
            lemma_types_view_push(r@, t);
        }
        r.push(t);
        i = i + 1;
        assert(types_view(r@) =~= target.subrange(0, i as int));
    }
    assert(target.subrange(0, ts.len() as int) =~= target);
    r
}

/// Binary operators.
#[derive(Debug, Clone, Copy, PartialEq, Eq, Structural)]
pub enum BinaryOp {
    Add,
    Sub,
    Mul,
    Div,
    Mod,
    Eq,
    Ne,
    Lt,
    Gt,
    Le,
    Ge,
    /// Logical and (`&&`)
    And,
    /// Logical or (`||`)
    Or,
    /// Range operator (`..`)
    Range,
    BitAnd,
    BitOr,
    BitXor,
    Shl,
    Shr,
}

/// The binding strength of a binary operator (higher binds tighter).
pub open spec fn precedence_of(op: BinaryOp) -> u8 {
    match op {
        BinaryOp::Or => 1,
        BinaryOp::And => 2,
        BinaryOp::BitOr => 3,
        BinaryOp::BitXor => 4,
        BinaryOp::BitAnd => 5,
        BinaryOp::Eq | BinaryOp::Ne => 6,
        BinaryOp::Lt | BinaryOp::Gt | BinaryOp::Le | BinaryOp::Ge => 7,
        BinaryOp::Shl | BinaryOp::Shr => 8,
        BinaryOp::Add | BinaryOp::Sub => 9,
        BinaryOp::Mul | BinaryOp::Div | BinaryOp::Mod => 10,
        BinaryOp::Range => 11,
    }
}

/// The source symbol of a binary operator.
pub open spec fn binary_symbol(op: BinaryOp) -> Seq<char> {
    match op {
        BinaryOp::Add => seq!['+'],
        BinaryOp::Sub => seq!['-'],
        BinaryOp::Mul => seq!['*'],
        BinaryOp::Div => seq!['/'],
        BinaryOp::Mod => seq!['%'],
        BinaryOp::Eq => seq!['=', '='],
        BinaryOp::Ne => seq!['!', '='],
        BinaryOp::Lt => seq!['<'],
        BinaryOp::Gt => seq!['>'],
        BinaryOp::Le => seq!['<', '='],
        BinaryOp::Ge => seq!['>', '='],
        BinaryOp::And => seq!['&', '&'],
        BinaryOp::Or => seq!['|', '|'],
        BinaryOp::Range => seq!['.', '.'],
        BinaryOp::BitAnd => seq!['&'],
        BinaryOp::BitOr => seq!['|'],
        BinaryOp::BitXor => seq!['^'],
        BinaryOp::Shl => seq!['<', '<'],
        BinaryOp::Shr => seq!['>', '>'],
    }
}

impl BinaryOp {
    /// The precedence of the operator (higher = binds tighter).
    pub fn precedence(self) -> (r: u8)
        ensures
            r == precedence_of(self),
    {
        match self {
            BinaryOp::Or => 1,
            BinaryOp::And => 2,
            BinaryOp::BitOr => 3,
            BinaryOp::BitXor => 4,
            BinaryOp::BitAnd => 5,
            BinaryOp::Eq | BinaryOp::Ne => 6,
            BinaryOp::Lt | BinaryOp::Gt | BinaryOp::Le | BinaryOp::Ge => 7,
            BinaryOp::Shl | BinaryOp::Shr => 8,
            BinaryOp::Add | BinaryOp::Sub => 9,
            BinaryOp::Mul | BinaryOp::Div | BinaryOp::Mod => 10,
            BinaryOp::Range => 11,
        }
    }

    /// The source symbol of the operator (what `Display` prints).
    pub fn symbol(self) -> (r: &'static str)
        ensures
            r@ == binary_symbol(self),
    {
        match self {
            BinaryOp::Add => { proof { reveal_strlit("+"); } "+" },
            BinaryOp::Sub => { proof { reveal_strlit("-"); } "-" },
            BinaryOp::Mul => { proof { reveal_strlit("*"); } "*" },
            BinaryOp::Div => { proof { reveal_strlit("/"); } "/" },
            BinaryOp::Mod => { proof { reveal_strlit("%"); } "%" },
            BinaryOp::Eq => { proof { reveal_strlit("=="); } "==" },
            BinaryOp::Ne => { proof { reveal_strlit("!="); } "!=" },
            BinaryOp::Lt => { proof { reveal_strlit("<"); } "<" },
            BinaryOp::Gt => { proof { reveal_strlit(">"); } ">" },
            BinaryOp::Le => { proof { reveal_strlit("<="); } "<=" },
            BinaryOp::Ge => { proof { reveal_strlit(">="); } ">=" },
            BinaryOp::And => { proof { reveal_strlit("&&"); } "&&" },
            BinaryOp::Or => { proof { reveal_strlit("||"); } "||" },
            BinaryOp::Range => { proof { reveal_strlit(".."); } ".." },
            BinaryOp::BitAnd => { proof { reveal_strlit("&"); } "&" },
            BinaryOp::BitOr => { proof { reveal_strlit("|"); } "|" },
            BinaryOp::BitXor => { proof { reveal_strlit("^"); } "^" },
            BinaryOp::Shl => { proof { reveal_strlit("<<"); } "<<" },
            BinaryOp::Shr => { proof { reveal_strlit(">>"); } ">>" },
        }
    }
}

/// Unary operators.
#[derive(Debug, Clone, Copy, PartialEq, Eq, Structural)]
pub enum UnaryOp {
    /// `-` (negation)
    Neg,
    /// `+` (positive)
    Pos,
    /// `!` (logical not)
    Not,
    /// `&` (reference)
    Ref,
}

/// The source symbol of a unary operator.
pub open spec fn unary_symbol(op: UnaryOp) -> Seq<char> {
    match op {
        UnaryOp::Neg => seq!['-'],
        UnaryOp::Pos => seq!['+'],
        UnaryOp::Not => seq!['!'],
        UnaryOp::Ref => seq!['&'],
    }
}

impl UnaryOp {
    /// The source symbol of the operator (what `Display` prints).
    pub fn symbol(self) -> (r: &'static str)
        ensures
            r@ == unary_symbol(self),
    {
        match self {
            UnaryOp::Neg => { proof { reveal_strlit("-"); } "-" },
            UnaryOp::Pos => { proof { reveal_strlit("+"); } "+" },
            UnaryOp::Not => { proof { reveal_strlit("!"); } "!" },
            UnaryOp::Ref => { proof { reveal_strlit("&"); } "&" },
        }
    }
}

/// Assignment operators.
#[derive(Debug, Clone, Copy, PartialEq, Eq, Structural)]
pub enum AssignOp {
    Assign,
    AddAssign,
    SubAssign,
    MulAssign,
    DivAssign,
    ModAssign,
    AndAssign,
    OrAssign,
    XorAssign,
    ShlAssign,
    ShrAssign,
}

/// Visibility modifier (`pub` keyword).
#[derive(Debug, Clone, Copy, PartialEq, Eq, Structural)]
pub enum Visibility {
    Private,
    Public,
}

impl Visibility {
    /// Whether the item carries the `pub` modifier.
    pub fn is_public(&self) -> (r: bool)
        ensures
            r == (*self == Visibility::Public),
    {
        matches!(self, Visibility::Public)
    }
}

/// Variable mutability (`var` or `const`).
#[derive(Debug, Clone, Copy, PartialEq, Eq, Structural)]
pub enum Mutability {
    /// mutable variable
    Var,
    /// immutable constant
    Const,
}

/// Kind of member access.
#[derive(Debug, Clone, Copy, PartialEq, Eq, Structural)]
pub enum MemberAccessKind {
    Unknown,
    /// `io.println`, `std.SomeType`
    Package,
    /// `point.x`
    StructField,
    /// `point.move()`
    StructMethod,
    /// `Color.Red`
    EnumMember,
    /// `Fail.NotFound`
    ErrorMember,
}

/// Struct field definition.
#[derive(Debug, Clone)]
pub struct StructField {
    pub name: String,
    pub ty: Type,
    pub visibility: Visibility,
}

/// Struct definition.
#[derive(Debug)]
pub struct StructDef {
    pub name: String,
    pub fields: Vec<StructField>,
    pub methods: Vec<FnDef>,
    pub interface_impls: Vec<InterfaceImpl>,
    pub visibility: Visibility,
    /// Generic type parameters (e.g. `T`, `U`)
    pub generic_params: Vec<String>,
    pub span: Span,
}

/// Interface definition.
#[derive(Debug)]
pub struct InterfaceDef {
    pub name: String,
    pub methods: Vec<FnDef>,
    /// Composed interfaces included by name.
    pub composed_interfaces: Vec<String>,
    pub visibility: Visibility,
    pub span: Span,
}

/// Interface implementation block inside a struct.
#[derive(Debug)]
pub struct InterfaceImpl {
    pub interface_name: String,
    pub methods: Vec<FnDef>,
    pub span: Span,
}

/// Enum variant.
#[derive(Debug, Clone)]
pub struct EnumVariant {
    pub name: String,
    pub associated_types: Vec<Type>,
    pub visibility: Visibility,
}

/// Enum definition.
#[derive(Debug)]
pub struct EnumDef {
    pub name: String,
    pub variants: Vec<EnumVariant>,
    pub methods: Vec<FnDef>,
    pub visibility: Visibility,
    /// Generic type parameters (e.g. `T`, `U`)
    pub generic_params: Vec<String>,
    pub span: Span,
}

/// Error variant.
#[derive(Debug, Clone)]
pub struct ErrorVariant {
    pub name: String,
    pub associated_types: Vec<Type>,
    pub visibility: Visibility,
}

/// Error definition.
#[derive(Debug, Clone)]
pub struct ErrorDef {
    pub name: String,
    pub variants: Vec<ErrorVariant>,
    pub visibility: Visibility,
    pub span: Span,
}

/// Switch case definition.
#[derive(Debug)]
pub struct SwitchCase {
    pub patterns: Vec<Expr>,
    /// Optional capture variable (e.g. `Enum.Variant => |payload| { ... }`)
    pub capture: Option<String>,
    pub body: Stmt,
    pub span: Span,
}

/// Position in source code.
#[derive(Debug, Clone, Copy, Default, PartialEq, Eq, Structural)]
pub struct Span {
    pub start: usize,
    pub end: usize,
}

/// A floating-point literal, held as the bit pattern of its `f64` value
/// together with the decimal text that `Display` gives for that value.
#[derive(Debug, Clone)]
pub struct FloatLit {
    pub bits: u64,
    pub text: String,
}

/// Expression node.
#[derive(Debug)]
pub enum Expr {
    /// Integer literal (i64)
    Int(i64, Span),
    /// Float literal (f64)
    Float(FloatLit, Span),
    /// Boolean literal
    Bool(bool, Span),
    /// String literal
    String(String, Span),
    /// Character literal
    Char(char, Span),
    /// Null literal
    Null(Span),
    /// Tuple literal (e.g. `(1, 2, 3)`)
    Tuple(Vec<Expr>, Span),
    /// Tuple index access (e.g. `variable.0`)
    TupleIndex {
        tuple: Box<Expr>,
        index: usize,
        span: Span,
    },
    /// Array/slice indexing or range access (e.g. `a[i]`, `a[i..j]`)
    Index {
        object: Box<Expr>,
        index: Box<Expr>,
        span: Span,
    },
    /// Identifier
    Ident(String, Span),
    /// Array literal, optionally typed by its element type (e.g. `[3]u8{1, 2, 3}`)
    Array(Vec<Expr>, Option<Type>, Span),
    /// Binary operation
    Binary {
        op: BinaryOp,
        left: Box<Expr>,
        right: Box<Expr>,
        span: Span,
    },
    /// Unary operation
    Unary {
        op: UnaryOp,
        expr: Box<Expr>,
        span: Span,
    },
    /// Function call
    Call {
        name: String,
        namespace: Option<String>,
        args: Vec<Expr>,
        /// Generic type arguments (e.g. `T` in `add<T>(v)`)
        generic_args: Vec<Type>,
        span: Span,
    },
    /// If expression
    If {
        condition: Box<Expr>,
        /// Optional capture variable (e.g. `if (opt) |data| { ... }`)
        capture: Option<String>,
        then_branch: Box<Expr>,
        else_branch: Box<Expr>,
        span: Span,
    },
    /// Block expression
    Block { stmts: Vec<Stmt>, span: Span },
    /// Member access (e.g. `Status.Todo` or `object.field`)
    MemberAccess {
        object: Box<Expr>,
        member: String,
        kind: MemberAccessKind,
        span: Span,
    },
    /// Struct literal (e.g. `Base{ name, age }`)
    Struct {
        name: String,
        fields: Vec<(String, Expr)>,
        /// Generic type arguments (e.g. `T` in `Compose<T>{...}`)
        generic_args: Vec<Type>,
        span: Span,
    },
    /// Try expression (e.g. `try some_function()`)
    Try { expr: Box<Expr>, span: Span },
    /// Catch expression (e.g. `expr catch |e| { ... }`)
    Catch {
        expr: Box<Expr>,
        /// Optional capture variable for the error
        error_var: Option<String>,
        body: Box<Expr>,
        span: Span,
    },
    /// Type cast (e.g. `i32(expr)`)
    Cast {
        target_type: Type,
        expr: Box<Expr>,
        span: Span,
    },
    /// Pointer dereference (e.g. `ptr.*`)
    Dereference {
        expr: Box<Expr>,
        span: Span,
    },
}

/// Statement node.
#[derive(Debug)]
pub enum Stmt {
    /// Expression statement
    Expr { expr: Expr, span: Span },
    /// Import statement with optional aliases
    Import {
        packages: Vec<(Option<String>, String)>,
        span: Span,
    },
    /// Variable declaration (`var` or `const`)
    Let {
        mutability: Mutability,
        name: String,
        /// For tuple destructuring: `Some(name)` binds, `None` ignores
        names: Option<Vec<Option<String>>>,
        ty: Option<Type>,
        value: Option<Expr>,
        visibility: Visibility,
        span: Span,
    },
    /// Assignment statement
    Assign {
        target: String,
        op: AssignOp,
        value: Expr,
        span: Span,
    },
    /// Return statement
    Return { value: Option<Expr>, span: Span },
    /// Block statement
    Block { stmts: Vec<Stmt>, span: Span },
    /// If statement
    If {
        condition: Expr,
        /// Optional capture variable
        capture: Option<String>,
        then_branch: Box<Stmt>,
        else_branch: Option<Box<Stmt>>,
        span: Span,
    },
    /// For loop
    For {
        /// Optional label (e.g. `outer: for ...`)
        label: Option<String>,
        /// Optional index or element variable
        var_name: Option<String>,
        iterable: Expr,
        /// Optional capture variable for iterators
        capture: Option<String>,
        /// Optional index variable for array iteration (e.g. `|k, v|`)
        index_var: Option<String>,
        body: Box<Stmt>,
        span: Span,
    },
    /// Switch statement
    Switch {
        condition: Expr,
        cases: Vec<SwitchCase>,
        span: Span,
    },
    /// Defer statement (runs on scope exit)
    Defer { stmt: Box<Stmt>, span: Span },
    /// `defer!` statement (runs only on error in a try)
    DeferBang { stmt: Box<Stmt>, span: Span },
    /// Break statement
    Break { label: Option<String>, span: Span },
    /// Continue statement
    Continue { label: Option<String>, span: Span },
}

/// Function definition.
#[derive(Debug)]
pub struct FnDef {
    pub name: String,
    pub visibility: Visibility,
    pub params: Vec<FnParam>,
    pub return_ty: Type,
    pub body: Vec<Stmt>,
    /// Generic type parameters (e.g. `T`, `U`)
    pub generic_params: Vec<String>,
    /// Interface constraints for generic params (e.g. `T: Service`)
    pub generic_constraints: Vec<(String, String)>,
    pub span: Span,
}

/// Function parameter.
#[derive(Debug, Clone)]
pub struct FnParam {
    pub name: String,
    pub ty: Type,
}

/// External C function declaration (FFI).
#[derive(Debug, Clone)]
pub struct ExternalFnDef {
    pub name: String,
    pub visibility: Visibility,
    pub params: Vec<FnParam>,
    pub return_ty: Type,
    pub span: Span,
}

/// Program root.
#[derive(Debug)]
pub struct Program {
    pub functions: Vec<FnDef>,
    pub external_functions: Vec<ExternalFnDef>,
    pub structs: Vec<StructDef>,
    pub interfaces: Vec<InterfaceDef>,
    pub enums: Vec<EnumDef>,
    pub errors: Vec<ErrorDef>,
    /// (alias, package name)
    pub imports: Vec<(Option<String>, String)>,
}

/// A span from its two offsets.
pub fn span(start: usize, end: usize) -> (r: Span)
    ensures
        r == (Span { start, end }),
{
    Span { start, end }
}

/// The text of a type: what `Display` prints when `listing` is false, and
/// the form the symbol and type listings print (immediate types spelled
/// `ImmInt` / `ImmFloat`) when it is true.
pub open spec fn type_text(t: TypeV, listing: bool) -> Seq<char>
    decreases t,
{
    match t {
        TypeV::I8 => "i8"@,
        TypeV::I16 => "i16"@,
        TypeV::I32 => "i32"@,
        TypeV::I64 => "i64"@,
        TypeV::U8 => "u8"@,
        TypeV::U16 => "u16"@,
        TypeV::U32 => "u32"@,
        TypeV::U64 => "u64"@,
        TypeV::F32 => "f32"@,
        TypeV::F64 => "f64"@,
        TypeV::ImmInt => if listing { "ImmInt"@ } else { "imm_int"@ },
        TypeV::ImmFloat => if listing { "ImmFloat"@ } else { "imm_float"@ },
        TypeV::Bool => "bool"@,
        TypeV::Void => "void"@,
        TypeV::RawPtr => "rawptr"@,
        TypeV::SelfType => "Self"@,
        TypeV::Pointer(inner) => "*"@ + type_text(*inner, listing),
        TypeV::Option(inner) => "?"@ + type_text(*inner, listing),
        TypeV::Tuple(ts) => "("@ + type_list_text(ts, listing) + ")"@,
        TypeV::Custom { name, generic_args, .. } => {
            if generic_args.len() == 0 {
                name
            } else {
                name + "<"@ + type_list_text(generic_args, listing) + ">"@
            }
        },
        TypeV::GenericParam(name) => name,
        TypeV::Array { size, element_type } => match size {
            Some(n) => "["@ + crate::text::nat_text(n as nat) + "]"@ + type_text(*element_type, listing),
            None => "[]"@ + type_text(*element_type, listing),
        },
        TypeV::Error => "error"@,
        TypeV::Result(inner) => type_text(*inner, listing) + "!"@,
        TypeV::Function { params, return_type } => {
            "fn("@ + type_list_text(params, listing) + ") "@ + type_text(*return_type, listing)
        },
    }
}

/// The texts of a list of types joined by `", "`.
pub open spec fn type_list_text(ts: Seq<TypeV>, listing: bool) -> Seq<char>
    decreases ts,
{
    if ts.len() == 0 {
        Seq::empty()
    } else if ts.len() == 1 {
        type_text(ts[0], listing)
    } else {
        type_list_text(ts.drop_last(), listing) + ", "@ + type_text(ts.last(), listing)
    }
}

/// Whether an immediate type (`ImmInt`, `ImmFloat`) occurs in a type.
pub open spec fn has_immediate(t: TypeV) -> bool
    decreases t,
{
    match t {
        TypeV::ImmInt | TypeV::ImmFloat => true,
        TypeV::Pointer(inner) => has_immediate(*inner),
        TypeV::Option(inner) => has_immediate(*inner),
        TypeV::Result(inner) => has_immediate(*inner),
        TypeV::Array { element_type, .. } => has_immediate(*element_type),
        TypeV::Tuple(ts) => exists|i: int| 0 <= i < ts.len() && has_immediate(#[trigger] ts[i]),
        TypeV::Custom { generic_args, .. } => exists|i: int| 0 <= i < generic_args.len() && has_immediate(
            #[trigger] generic_args[i],
        ),
        TypeV::Function { params, return_type } => (exists|i: int| 0 <= i < params.len() && has_immediate(
            #[trigger] params[i],
        )) || has_immediate(*return_type),
        _ => false,
    }
}

/// A type without immediate types reads the same in the listings as its
/// `Display` text.
pub proof fn law_listing_text_without_immediates(t: TypeV)
    requires
        !has_immediate(t),
    ensures
        type_text(t, true) == type_text(t, false),
    decreases t,
{
    match t {
        TypeV::Pointer(inner) => law_listing_text_without_immediates(*inner),
        TypeV::Option(inner) => law_listing_text_without_immediates(*inner),
        TypeV::Result(inner) => law_listing_text_without_immediates(*inner),
        TypeV::Array { element_type, .. } => law_listing_text_without_immediates(*element_type),
        TypeV::Tuple(ts) => lemma_list_text_without_immediates(ts),
        TypeV::Custom { generic_args, .. } => lemma_list_text_without_immediates(generic_args),
        TypeV::Function { params, return_type } => {
            lemma_list_text_without_immediates(params);
            law_listing_text_without_immediates(*return_type);
        },
        _ => {},
    }
}

/// [`law_listing_text_without_immediates`] for a list of types.
proof fn lemma_list_text_without_immediates(ts: Seq<TypeV>)
    requires
        forall|i: int| 0 <= i < ts.len() ==> !has_immediate(#[trigger] ts[i]),
    ensures
        type_list_text(ts, true) == type_list_text(ts, false),
    decreases ts,
{
    if ts.len() == 1 {
        law_listing_text_without_immediates(ts[0]);
    } else if ts.len() > 1 {
        lemma_list_text_without_immediates(ts.drop_last());
        law_listing_text_without_immediates(ts.last());
    }
}

/// Appends the text of a type (see [`type_text`]).
pub fn push_type_text(out: &mut String, t: &Type, listing: bool)
    ensures
        final(out)@ == old(out)@ + type_text(t@, listing),
    decreases t,
{
    let ghost start = out@;
    match t {
        Type::I8 => push_str(out, "i8"),
        Type::I16 => push_str(out, "i16"),
        Type::I32 => push_str(out, "i32"),
        Type::I64 => push_str(out, "i64"),
        Type::U8 => push_str(out, "u8"),
        Type::U16 => push_str(out, "u16"),
        Type::U32 => push_str(out, "u32"),
        Type::U64 => push_str(out, "u64"),
        Type::F32 => push_str(out, "f32"),
        Type::F64 => push_str(out, "f64"),
        Type::ImmInt => if listing { push_str(out, "ImmInt") } else { push_str(out, "imm_int") },
        Type::ImmFloat => if listing { push_str(out, "ImmFloat") } else { push_str(out, "imm_float") },
        Type::Bool => push_str(out, "bool"),
        Type::Void => push_str(out, "void"),
        Type::RawPtr => push_str(out, "rawptr"),
        Type::SelfType => push_str(out, "Self"),
        Type::Pointer(inner) => {
            push_str(out, "*");
            push_type_text(out, inner, listing);
            assert(out@ =~= start + type_text(t@, listing));
        },
        Type::Option(inner) => {
            push_str(out, "?");
            push_type_text(out, inner, listing);
            assert(out@ =~= start + type_text(t@, listing));
        },
        Type::Tuple(ts) => {
            push_str(out, "(");
            push_type_list_text(out, ts, listing);
            push_str(out, ")");
            assert(out@ =~= start + type_text(t@, listing));
        },
        Type::Custom { name, generic_args, .. } => {
            push_string(out, name);
            proof {
                lemma_types_view(generic_args@);
            }
            if generic_args.len() > 0 {
                push_str(out, "<");
                push_type_list_text(out, generic_args, listing);
                push_str(out, ">");
            }
            assert(out@ =~= start + type_text(t@, listing));
        },
        Type::GenericParam(name) => push_string(out, name),
        Type::Array { size, element_type } => {
            match size {
                Some(n) => {
                    push_str(out, "[");
                    crate::text::push_u64(out, *n as u64);
                    push_str(out, "]");
                },
                None => push_str(out, "[]"),
            }
            push_type_text(out, element_type, listing);
            assert(out@ =~= start + type_text(t@, listing));
        },
        Type::Error => push_str(out, "error"),
        Type::Result(inner) => {
            push_type_text(out, inner, listing);
            push_str(out, "!");
            assert(out@ =~= start + type_text(t@, listing));
        },
        Type::Function { params, return_type } => {
            push_str(out, "fn(");
            push_type_list_text(out, params, listing);
            push_str(out, ") ");
            push_type_text(out, return_type, listing);
            assert(out@ =~= start + type_text(t@, listing));
        },
    }
}

/// Appends the texts of a list of types joined by `", "`.
pub fn push_type_list_text(out: &mut String, ts: &Vec<Type>, listing: bool)
    ensures
        final(out)@ == old(out)@ + type_list_text(types_view(ts@), listing),
    decreases ts,
{
    proof {
        lemma_types_view(ts@);
    }
    let ghost start = out@;
    let ghost tv = types_view(ts@);
    let mut i: usize = 0;
    while i < ts.len()
        invariant
            i <= ts.len(),
            tv == types_view(ts@),
            tv.len() == ts.len(),
            forall|j: int| 0 <= j < ts.len() ==> #[trigger] tv[j] == type_view(ts@[j]),
            out@ == start + type_list_text(tv.subrange(0, i as int), listing),
        decreases ts.len() - i,
    {
        let ghost before = out@;
        if i > 0 {
            push_str(out, ", ");
        }
        push_type_text(out, &ts[i], listing);
        let ghost sub = tv.subrange(0, i + 1);
        assert(sub.drop_last() =~= tv.subrange(0, i as int));
        assert(sub.last() == tv[i as int]);
        if i == 0 {
            assert(tv.subrange(0, 0) =~= Seq::<TypeV>::empty());
        }
        i = i + 1;
        assert(out@ =~= start + type_list_text(tv.subrange(0, i as int), listing));
    }
    assert(tv.subrange(0, ts.len() as int) =~= tv);
}

impl Type {
    /// The text of the type, as `Display` prints it.
    pub fn text(&self) -> (r: String)
        ensures
            r@ == type_text(self@, false),
    {
        let mut out = String::new();
        push_type_text(&mut out, self, false);
        assert(out@ =~= type_text(self@, false));
        out
    }
}

} // verus!
