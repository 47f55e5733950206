//! Symbol names in the generated module: mangling, method symbols,
//! namespaces of imports, the parts of assignment targets and the targets
//! of calls.

use vstd::prelude::*;
use crate::ast::{Type, TypeV};
use crate::text::{chars_of, owned, push_char, push_str, push_string, str_eq};

verus! {

/// The symbol of a function of module `module`: `main` stays `main`, every
/// other function is prefixed by the module name and `_`.
pub open spec fn mangled(module: Seq<char>, name: Seq<char>, is_main: bool) -> Seq<char> {
    if is_main || name == "main"@ { "main"@ } else { module + "_"@ + name }
}

/// Mangles a function name for a module.
pub fn mangle_name(module_name: &str, name: &str, is_main: bool) -> (r: String)
    ensures
        r@ == mangled(module_name@, name@, is_main),
{
    if is_main || str_eq(name, "main") {
        owned("main")
    } else {
        let mut r = owned(module_name);
        push_str(&mut r, "_");
        push_str(&mut r, name);
        r
    }
}

/// The symbol of a struct method: the method's name when it already starts
/// with the struct's name and `_`, else that prefix added.
pub open spec fn method_symbol(struct_name: Seq<char>, method: Seq<char>) -> Seq<char> {
    let prefix = struct_name + "_"@;
    if prefix.len() <= method.len() && method.subrange(0, prefix.len() as int) == prefix {
        method
    } else {
        prefix + method
    }
}

/// The symbol of a struct method.
pub fn method_name(struct_name: &str, method: &str) -> (r: String)
    ensures
        r@ == method_symbol(struct_name@, method@),
{
    let mut prefix = owned(struct_name);
    push_str(&mut prefix, "_");
    let p = chars_of(prefix.as_str());
    let m = chars_of(method);
    let mut starts = false;
    if p.len() <= m.len() {
        let mut i: usize = 0;
        while i < p.len() && p[i] == m[i]
            invariant
                p.len() <= m.len(),
                i <= p.len(),
                forall|j: int| 0 <= j < i ==> p@[j] == m@[j],
            decreases p.len() - i,
        {
            i = i + 1;
        }
        starts = i == p.len();
        proof {
            if starts {
                assert(m@.subrange(0, p@.len() as int) =~= p@);
            } else {
                assert(p@[i as int] != m@[i as int]);
                assert(m@.subrange(0, p@.len() as int)[i as int] == m@[i as int]);
            }
        }
    }
    if starts {
        owned(method)
    } else {
        push_str(&mut prefix, method);
        prefix
    }
}

/// The text after the last `/`, or the whole text when it has none.
pub open spec fn last_component(s: Seq<char>) -> Seq<char>
    decreases s.len(),
{
    if s.len() == 0 {
        s
    } else if s.last() == '/' {
        Seq::empty()
    } else {
        last_component(s.drop_last()).push(s.last())
    }
}

/// The last `/`-separated component of a package path (`"utils/sub"` gives
/// `"sub"`).
pub fn package_module(package: &str) -> (r: String)
    ensures
        r@ == last_component(package@),
{
    let cs = chars_of(package);
    let mut start = cs.len();
    assert(cs@.subrange(0, start as int) =~= cs@);
    assert(last_component(cs@) + cs@.subrange(start as int, cs.len() as int) =~= last_component(cs@));
    while start > 0 && cs[start - 1] != '/'
        invariant
            start <= cs.len(),
            last_component(cs@) == last_component(cs@.subrange(0, start as int)) + cs@.subrange(
                start as int,
                cs.len() as int,
            ),
        decreases start,
    {
        let ghost pre = cs@.subrange(0, start as int);
        assert(pre.drop_last() =~= cs@.subrange(0, start - 1));
        assert(pre.last() == cs@[start - 1]);
        assert(last_component(pre) == last_component(cs@.subrange(0, start - 1)).push(cs@[start - 1]));
        assert(last_component(cs@.subrange(0, start - 1)).push(cs@[start - 1]) + cs@.subrange(start as int, cs.len() as int)
            =~= last_component(cs@.subrange(0, start - 1)) + cs@.subrange(start - 1, cs.len() as int));
        start = start - 1;
    }
    if start == 0 {
        assert(cs@.subrange(0, 0) =~= Seq::<char>::empty());
    } else {
        let ghost pre = cs@.subrange(0, start as int);
        assert(pre.last() == cs@[start - 1]);
    }
    let mut r = String::new();
    let mut i = start;
    while i < cs.len()
        invariant
            start <= i <= cs.len(),
            r@ == cs@.subrange(start as int, i as int),
        decreases cs.len() - i,
    {
        push_char(&mut r, cs[i]);
        i = i + 1;
        assert(r@ =~= cs@.subrange(start as int, i as int));
    }
    assert(last_component(cs@) =~= r@);
    r
}

/// The namespace an import is reached by: its alias, else the last
/// component of the package path.
pub open spec fn import_namespace(alias: Option<Seq<char>>, package: Seq<char>) -> Seq<char> {
    match alias {
        Some(a) => a,
        None => last_component(package),
    }
}

/// The namespace of an import.
pub fn namespace_of_import(alias: &Option<String>, package: &str) -> (r: String)
    ensures
        r@ == import_namespace(
            match alias {
                Some(a) => Some(a@),
                None => None,
            },
            package@,
        ),
{
    match alias {
        Some(a) => a.clone(),
        None => package_module(package),
    }
}

/// The parts of an assignment target (`a.b[0].*`): names, `[index]` parts
/// and `*` for a dereference, read from the front with `cur` the name
/// being read.
pub open spec fn target_parts(s: Seq<char>, cur: Seq<char>) -> Seq<Seq<char>>
    decreases s.len(),
{
    let flushed = if cur.len() > 0 { seq![cur] } else { Seq::empty() };
    if s.len() == 0 {
        flushed
    } else if s[0] == '.' {
        if s.len() >= 2 && s[1] == '*' {
            flushed + seq![seq!['*']] + target_parts(s.subrange(2, s.len() as int), Seq::empty())
        } else {
            flushed + target_parts(s.subrange(1, s.len() as int), Seq::empty())
        }
    } else if s[0] == '[' {
        let e = bracket_end(s, 1);
        proof {
            lemma_bracket_end(s, 1);
        }
        flushed + seq![seq!['['] + s.subrange(1, e) + seq![']']] + target_parts(
            s.subrange(if e < s.len() { e + 1 } else { e }, s.len() as int),
            Seq::empty(),
        )
    } else {
        target_parts(s.subrange(1, s.len() as int), cur.push(s[0]))
    }
}

/// The position of the first `]` at or after `i`, or the end of the text.
pub open spec fn bracket_end(s: Seq<char>, i: int) -> int
    decreases s.len() - i,
{
    if i >= s.len() {
        s.len() as int
    } else if s[i] == ']' {
        i
    } else {
        bracket_end(s, i + 1)
    }
}

/// Where the bracket search stops, and that it skips no `]`.
pub proof fn lemma_bracket_end(s: Seq<char>, i: int)
    requires
        0 <= i <= s.len(),
    ensures
        i <= bracket_end(s, i) <= s.len(),
        bracket_end(s, i) < s.len() ==> s[bracket_end(s, i)] == ']',
        forall|j: int| i <= j < bracket_end(s, i) ==> s[j] != ']',
    decreases s.len() - i,
{
    if i < s.len() && s[i] != ']' {
        lemma_bracket_end(s, i + 1);
    }
}

proof fn lemma_bracket_end_at(s: Seq<char>, i: int, j: int)
    requires
        0 <= i <= j <= s.len(),
        forall|k: int| i <= k < j ==> s[k] != ']',
        j == s.len() || s[j] == ']',
    ensures
        bracket_end(s, i) == j,
    decreases j - i,
{
    if i < j {
        lemma_bracket_end_at(s, i + 1, j);
    }
}

/// The model of a list of strings.
pub open spec fn parts_view(v: Seq<String>) -> Seq<Seq<char>> {
    v.map_values(|s: String| s@)
}

fn flush(parts: &mut Vec<String>, cur: &mut String)
    ensures
        parts_view(final(parts)@) == parts_view(old(parts)@) + if old(cur)@.len() > 0 {
            seq![old(cur)@]
        } else {
            Seq::<Seq<char>>::empty()
        },
        final(cur)@ == Seq::<char>::empty(),
{
    let ghost before = parts@;
    let ghost c = cur@;
    let n = cur.as_str().unicode_len();
    if n > 0 {
        let taken = cur.clone();
        parts.push(taken);
        assert(parts_view(parts@) =~= parts_view(before) + seq![c]);
    } else {
        assert(parts_view(parts@) =~= parts_view(before) + Seq::<Seq<char>>::empty());
    }
    *cur = String::new();
}

/// Splits an assignment target into its parts.
pub fn split_target(target: &str) -> (r: Vec<String>)
    ensures
        parts_view(r@) == target_parts(target@, Seq::empty()),
{
    let cs = chars_of(target);
    let ghost s = cs@;
    let n = cs.len();
    let mut parts: Vec<String> = Vec::new();
    let mut cur = String::new();
    let mut i: usize = 0;
    assert(s.subrange(0, n as int) =~= s);
    assert(parts_view(parts@) =~= Seq::<Seq<char>>::empty());
    while i < n
        invariant
            n == s.len(),
            s == cs@,
            i <= n,
            parts_view(parts@) + target_parts(s.subrange(i as int, n as int), cur@) == target_parts(s, Seq::empty()),
        decreases n - i,
    {
        let ghost rest = s.subrange(i as int, n as int);
        let ghost p0 = parts_view(parts@);
        let ghost c0 = cur@;
        let c = cs[i];
        let ghost fl = if c0.len() > 0 { seq![c0] } else { Seq::<Seq<char>>::empty() };
        if c == '.' {
            flush(&mut parts, &mut cur);
            let ghost p1 = parts_view(parts@);
            if i + 1 < n && cs[i + 1] == '*' {
                assert(rest[1] == '*');
                let star = owned("*");
                proof {
                    reveal_strlit("*");
                    assert(star@ =~= seq!['*']);
                }
                parts.push(star);
                proof {
                    assert(parts_view(parts@) =~= p1.push(seq!['*']));
                    assert(rest.subrange(2, rest.len() as int) =~= s.subrange(i + 2, n as int));
                    assert(target_parts(rest, c0) == fl + seq![seq!['*']] + target_parts(s.subrange(i + 2, n as int), Seq::empty()));
                    assert(p0 + target_parts(rest, c0) =~= parts_view(parts@) + target_parts(s.subrange(i + 2, n as int), cur@));
                }
                i = i + 2;
            } else {
                proof {
                    if i + 1 < n {
                        assert(rest[1] == cs@[i + 1]);
                    }
                    assert(rest.subrange(1, rest.len() as int) =~= s.subrange(i + 1, n as int));
                    assert(target_parts(rest, c0) == fl + target_parts(s.subrange(i + 1, n as int), Seq::empty()));
                    assert(p0 + target_parts(rest, c0) =~= parts_view(parts@) + target_parts(s.subrange(i + 1, n as int), cur@));
                }
                i = i + 1;
            }
        } else if c == '[' {
            flush(&mut parts, &mut cur);
            let ghost p1 = parts_view(parts@);
            let mut j = i + 1;
            let mut idx = owned("[");
            proof {
                reveal_strlit("[");
            }
            while j < n && cs[j] != ']'
                invariant
                    i < j <= n,
                    n == s.len(),
                    s == cs@,
                    forall|k: int| i + 1 <= k < j ==> s[k] != ']',
                    idx@ == seq!['['] + s.subrange(i + 1, j as int),
                decreases n - j,
            {
                push_char(&mut idx, cs[j]);
                j = j + 1;
                assert(idx@ =~= seq!['['] + s.subrange(i + 1, j as int));
            }
            push_char(&mut idx, ']');
            let ghost iv = idx@;
            parts.push(idx);
            proof {
                assert(parts_view(parts@) =~= p1.push(iv));
                let e: int = j - i;
                assert forall|k: int| 1 <= k < e implies rest[k] != ']' by {
                    assert(rest[k] == s[i + k]);
                }
                if j < n {
                    assert(rest[e] == s[j as int]);
                }
                lemma_bracket_end_at(rest, 1, e);
                assert(rest.subrange(1, e) =~= s.subrange(i + 1, j as int));
                let nx: int = if j < n { j + 1 } else { j as int };
                assert(rest.subrange(if e < rest.len() { e + 1 } else { e }, rest.len() as int) =~= s.subrange(nx as int, n as int));
                assert(iv =~= seq!['['] + rest.subrange(1, e) + seq![']']);
                assert(target_parts(rest, c0) == fl + seq![iv] + target_parts(s.subrange(nx, n as int), Seq::empty()));
                assert(p0 + target_parts(rest, c0) =~= parts_view(parts@) + target_parts(s.subrange(nx, n as int), cur@));
            }
            i = if j < n { j + 1 } else { j };
        } else {
            push_char(&mut cur, c);
            proof {
                assert(rest.subrange(1, rest.len() as int) =~= s.subrange(i + 1, n as int));
                assert(rest[0] == c);
            }
            i = i + 1;
        }
    }
    proof {
        assert(s.subrange(n as int, n as int) =~= Seq::<char>::empty());
    }
    let ghost p0 = parts_view(parts@);
    let ghost c0 = cur@;
    flush(&mut parts, &mut cur);
    assert(parts_view(parts@) =~= target_parts(s, Seq::empty()));
    parts
}

/// The model of an optional name.
pub open spec fn opt_view(o: Option<String>) -> Option<Seq<char>> {
    match o {
        Some(s) => Some(s@),
        None => None,
    }
}

/// Where a call goes, as far as the names decide it.
pub enum CallPlan {
    /// `io.println`, generated as a `printf` call.
    Println,
    /// A function with this symbol.
    Direct(String),
    /// A method with this symbol when the module has it, else a function
    /// pointer held in a field of the struct value.
    MethodOrField(String),
}

/// The model of a call plan.
pub enum CallPlanV {
    Println,
    Direct(Seq<char>),
    MethodOrField(Seq<char>),
}

impl View for CallPlan {
    type V = CallPlanV;

    open spec fn view(&self) -> CallPlanV {
        match self {
            CallPlan::Println => CallPlanV::Println,
            CallPlan::Direct(s) => CallPlanV::Direct(s@),
            CallPlan::MethodOrField(s) => CallPlanV::MethodOrField(s@),
        }
    }
}

/// The plan of a call `namespace.name(..)` or `name(..)`: `var_type` is
/// the type of the variable named like the namespace, if there is one, and
/// `package` the package imported under that namespace, if any.
pub open spec fn call_plan(
    module: Seq<char>,
    namespace: Option<Seq<char>>,
    name: Seq<char>,
    var_type: Option<TypeV>,
    package: Option<Seq<char>>,
) -> CallPlanV {
    match namespace {
        None => CallPlanV::Direct(mangled(module, name, false)),
        Some(ns) => match var_type {
            Some(TypeV::Custom { name: tname, .. }) => CallPlanV::MethodOrField(
                mangled(module, tname + "_"@ + name, false),
            ),
            Some(_) => {
                let actual = match package { Some(p) => p, None => ns };
                if actual == "io"@ && name == "println"@ {
                    CallPlanV::Println
                } else {
                    CallPlanV::Direct(actual + "_"@ + name)
                }
            },
            None => match package {
                Some(p) => if p == "io"@ && name == "println"@ {
                    CallPlanV::Println
                } else {
                    CallPlanV::Direct(p + "_"@ + name)
                },
                None => if ns == "io"@ && name == "println"@ {
                    CallPlanV::Println
                } else {
                    CallPlanV::Direct(mangled(module, ns + "_"@ + name, false))
                },
            },
        },
    }
}

fn joined(a: &str, b: &str) -> (r: String)
    ensures
        r@ == a@ + "_"@ + b@,
{
    let mut r = owned(a);
    push_str(&mut r, "_");
    push_str(&mut r, b);
    r
}

/// Plans a call.
pub fn plan_call(
    module_name: &str,
    namespace: &Option<String>,
    name: &str,
    var_type: Option<&Type>,
    package: &Option<String>,
) -> (r: CallPlan)
    ensures
        r@ == call_plan(
            module_name@,
            opt_view(*namespace),
            name@,
            match var_type {
                Some(t) => Some(t@),
                None => None,
            },
            opt_view(*package),
        ),
{
    match namespace {
        None => CallPlan::Direct(mangle_name(module_name, name, false)),
        Some(ns) => match var_type {
            Some(Type::Custom { name: tname, .. }) => {
                let m = joined(tname.as_str(), name);
                CallPlan::MethodOrField(mangle_name(module_name, m.as_str(), false))
            },
            Some(_) => {
                let actual: &String = match package {
                    Some(p) => p,
                    None => ns,
                };
                if str_eq(actual.as_str(), "io") && str_eq(name, "println") {
                    CallPlan::Println
                } else {
                    CallPlan::Direct(joined(actual.as_str(), name))
                }
            },
            None => match package {
                Some(p) => {
                    if str_eq(p.as_str(), "io") && str_eq(name, "println") {
                        CallPlan::Println
                    } else {
                        CallPlan::Direct(joined(p.as_str(), name))
                    }
                },
                None => {
                    if str_eq(ns.as_str(), "io") && str_eq(name, "println") {
                        CallPlan::Println
                    } else {
                        let m = joined(ns.as_str(), name);
                        CallPlan::Direct(mangle_name(module_name, m.as_str(), false))
                    }
                },
            },
        },
    }
}

} // verus!
