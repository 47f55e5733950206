//! The `symbol` command: lists the symbols of a program, filtered by kind
//! and by a name pattern, ordered by kind and then by name.

use vstd::prelude::*;
use crate::ast::{
    EnumDef, ErrorDef, FnDef, InterfaceDef, StructDef, Type, TypeV, Visibility, push_type_text,
    type_text, type_list_text, types_view,
};
use crate::seqs::{lemma_map_values_push, lemma_subrange_push, lemma_subrange_all};
use crate::text::{
    chars_of, contains_run, lowercase, owned, push_str, push_string, push_u64, seq_contains_run,
    str_eq, to_lowercase, nat_text,
};

verus! {

/// Kind of a symbol; the declaration order is the listing order.
#[derive(Debug, Clone, Copy, PartialEq, Eq, Structural, PartialOrd, Ord, Hash)]
pub enum SymbolKind {
    Struct,
    Interface,
    Function,
    Enum,
    Error,
    Const,
    All,
}

/// The position of a kind in the listing order.
pub open spec fn kind_rank(k: SymbolKind) -> int {
    match k {
        SymbolKind::Struct => 0,
        SymbolKind::Interface => 1,
        SymbolKind::Function => 2,
        SymbolKind::Enum => 3,
        SymbolKind::Error => 4,
        SymbolKind::Const => 5,
        SymbolKind::All => 6,
    }
}

fn rank(k: SymbolKind) -> (r: u8)
    ensures
        r == kind_rank(k),
{
    match k {
        SymbolKind::Struct => 0,
        SymbolKind::Interface => 1,
        SymbolKind::Function => 2,
        SymbolKind::Enum => 3,
        SymbolKind::Error => 4,
        SymbolKind::Const => 5,
        SymbolKind::All => 6,
    }
}

/// The kind a (lower-cased) word names.
pub open spec fn kind_named(word: Seq<char>) -> Option<SymbolKind> {
    if word == "struct"@ {
        Some(SymbolKind::Struct)
    } else if word == "interface"@ {
        Some(SymbolKind::Interface)
    } else if word == "fn"@ || word == "function"@ {
        Some(SymbolKind::Function)
    } else if word == "enum"@ {
        Some(SymbolKind::Enum)
    } else if word == "error"@ {
        Some(SymbolKind::Error)
    } else if word == "const"@ {
        Some(SymbolKind::Const)
    } else if word == "all"@ {
        Some(SymbolKind::All)
    } else {
        None
    }
}

/// The name a kind is shown with.
pub open spec fn kind_display(k: SymbolKind) -> Seq<char> {
    match k {
        SymbolKind::Struct => "struct"@,
        SymbolKind::Interface => "interface"@,
        SymbolKind::Function => "function"@,
        SymbolKind::Enum => "enum"@,
        SymbolKind::Error => "error"@,
        SymbolKind::Const => "const"@,
        SymbolKind::All => "all"@,
    }
}

/// Every kind's display name is lower-case ASCII and names that kind, so
/// [`SymbolKind::from_str`] reads back what [`SymbolKind::display_name`]
/// shows.
pub proof fn law_display_name_read_back(k: SymbolKind)
    ensures
        crate::text::all_ascii_lower(kind_display(k)),
        kind_named(kind_display(k)) == Some(k),
{
    reveal_strlit("struct");
    assert("struct"@ =~= seq!['s', 't', 'r', 'u', 'c', 't']);
    reveal_strlit("interface");
    assert("interface"@ =~= seq!['i', 'n', 't', 'e', 'r', 'f', 'a', 'c', 'e']);
    reveal_strlit("fn");
    assert("fn"@ =~= seq!['f', 'n']);
    reveal_strlit("function");
    assert("function"@ =~= seq!['f', 'u', 'n', 'c', 't', 'i', 'o', 'n']);
    reveal_strlit("enum");
    assert("enum"@ =~= seq!['e', 'n', 'u', 'm']);
    reveal_strlit("error");
    assert("error"@ =~= seq!['e', 'r', 'r', 'o', 'r']);
    reveal_strlit("const");
    assert("const"@ =~= seq!['c', 'o', 'n', 's', 't']);
    reveal_strlit("all");
    assert("all"@ =~= seq!['a', 'l', 'l']);
}

/// A text with its ASCII lower-case letters upper-cased.
pub open spec fn ascii_uppercase(s: Seq<char>) -> Seq<char> {
    s.map_values(|c: char| if 'a' <= c <= 'z' { ((c as u32) - 32) as char } else { c })
}

/// A kind's display name upper-cased is ASCII and, lower-cased again, names
/// that kind: [`SymbolKind::from_str`] reads back the upper-cased display
/// name too.
pub proof fn law_upper_display_name_read_back(k: SymbolKind)
    ensures
        crate::text::all_ascii(ascii_uppercase(kind_display(k))),
        kind_named(crate::text::ascii_lowercase(ascii_uppercase(kind_display(k)))) == Some(k),
{
    law_display_name_read_back(k);
    let d = kind_display(k);
    let u = ascii_uppercase(d);
    assert forall|i: int| 0 <= i < u.len() implies (#[trigger] u[i] as u32) < 0x80 by {
        assert('a' <= d[i] <= 'z');
    }
    assert(crate::text::ascii_lowercase(u) =~= d) by {
        assert forall|i: int| 0 <= i < d.len() implies #[trigger] crate::text::ascii_lowercase(u)[i] == d[i] by {
            assert('a' <= d[i] <= 'z');
        }
    }
}

impl SymbolKind {
    /// The kind named by a word, compared after lower-casing it.
    pub fn from_str(s: &str) -> (r: Option<SymbolKind>)
        ensures
            r == kind_named(lowercase(s@)),
            crate::text::all_ascii_lower(s@) ==> r == kind_named(s@),
            crate::text::all_ascii(s@) ==> r == kind_named(crate::text::ascii_lowercase(s@)),
    {
        let lower = to_lowercase(s);
        let w = lower.as_str();
        if str_eq(w, "struct") {
            Some(SymbolKind::Struct)
        } else if str_eq(w, "interface") {
            Some(SymbolKind::Interface)
        } else if str_eq(w, "fn") || str_eq(w, "function") {
            Some(SymbolKind::Function)
        } else if str_eq(w, "enum") {
            Some(SymbolKind::Enum)
        } else if str_eq(w, "error") {
            Some(SymbolKind::Error)
        } else if str_eq(w, "const") {
            Some(SymbolKind::Const)
        } else if str_eq(w, "all") {
            Some(SymbolKind::All)
        } else {
            None
        }
    }

    /// The name the kind is shown with.
    pub fn display_name(&self) -> (r: &'static str)
        ensures
            r@ == kind_display(*self),
    {
        match self {
            SymbolKind::Struct => "struct",
            SymbolKind::Interface => "interface",
            SymbolKind::Function => "function",
            SymbolKind::Enum => "enum",
            SymbolKind::Error => "error",
            SymbolKind::Const => "const",
            SymbolKind::All => "all",
        }
    }
}

/// A symbol of the listing.
#[derive(Debug)]
pub struct SymbolInfo {
    pub name: String,
    pub kind: SymbolKind,
    pub visibility: Visibility,
    pub type_info: String,
    pub location: String,
}

/// The model of a symbol.
pub struct SymbolInfoV {
    pub name: Seq<char>,
    pub kind: SymbolKind,
    pub visibility: Visibility,
    pub type_info: Seq<char>,
    pub location: Seq<char>,
}

impl View for SymbolInfo {
    type V = SymbolInfoV;

    open spec fn view(&self) -> SymbolInfoV {
        SymbolInfoV {
            name: self.name@,
            kind: self.kind,
            visibility: self.visibility,
            type_info: self.type_info@,
            location: self.location@,
        }
    }
}

/// The models of a sequence of symbols.
pub open spec fn symbols_view(s: Seq<SymbolInfo>) -> Seq<SymbolInfoV> {
    s.map_values(|x: SymbolInfo| x@)
}

/// A global variable of the analysed program as the symbol listing reads
/// it: its name, type, visibility and whether it is a constant.
pub struct GlobalSymbol {
    pub name: String,
    pub ty: Type,
    pub visibility: Visibility,
    pub is_const: bool,
}

/// The character sequences of a list of strings.
pub open spec fn strings_view(s: Seq<String>) -> Seq<Seq<char>> {
    s.map_values(|x: String| x@)
}

/// The names of enum variants.
pub open spec fn enum_variant_names(vs: Seq<crate::ast::EnumVariant>) -> Seq<Seq<char>> {
    vs.map_values(|v: crate::ast::EnumVariant| v.name@)
}

/// The names of error variants.
pub open spec fn error_variant_names(vs: Seq<crate::ast::ErrorVariant>) -> Seq<Seq<char>> {
    vs.map_values(|v: crate::ast::ErrorVariant| v.name@)
}

/// The listing texts of parameter types.
pub open spec fn param_type_texts(ps: Seq<crate::ast::FnParam>) -> Seq<Seq<char>> {
    ps.map_values(|p: crate::ast::FnParam| type_text(p.ty@, true))
}

/// The listing entries of structs.
pub open spec fn struct_entries(s: Seq<(String, StructDef)>) -> Seq<SymbolInfoV> {
    s.map_values(|p: (String, StructDef)| struct_entry(p))
}

/// The listing entries of interfaces.
pub open spec fn interface_entries(s: Seq<(String, InterfaceDef)>) -> Seq<SymbolInfoV> {
    s.map_values(|p: (String, InterfaceDef)| interface_entry(p))
}

/// The listing entries of enums.
pub open spec fn enum_entries(s: Seq<(String, EnumDef)>) -> Seq<SymbolInfoV> {
    s.map_values(|p: (String, EnumDef)| enum_entry(p))
}

/// The listing entries of error types.
pub open spec fn error_entries(s: Seq<(String, ErrorDef)>) -> Seq<SymbolInfoV> {
    s.map_values(|p: (String, ErrorDef)| error_entry(p))
}

/// The listing entries of functions.
pub open spec fn fn_entries(s: Seq<(String, FnDef)>) -> Seq<SymbolInfoV> {
    s.map_values(|p: (String, FnDef)| fn_entry(p))
}

/// The lines of a list of strings.
pub open spec fn lines_view(s: Seq<String>) -> Seq<Seq<char>> {
    s.map_values(|x: String| x@)
}

/// Texts joined by a separator.
pub open spec fn join_text(items: Seq<Seq<char>>, sep: Seq<char>) -> Seq<char>
    decreases items.len(),
{
    if items.len() == 0 {
        Seq::empty()
    } else if items.len() == 1 {
        items[0]
    } else {
        join_text(items.drop_last(), sep) + sep + items.last()
    }
}

proof fn lemma_join_step(items: Seq<Seq<char>>, sep: Seq<char>, i: int)
    requires
        0 <= i < items.len(),
    ensures
        join_text(items.subrange(0, i + 1), sep) == if i == 0 {
            items[0]
        } else {
            join_text(items.subrange(0, i), sep) + sep + items[i]
        },
{
    let s = items.subrange(0, i + 1);
    assert(s.drop_last() =~= items.subrange(0, i));
}

/// Appends texts joined by a separator.
pub(crate) fn push_joined(out: &mut String, items: &Vec<String>, sep: &str)
    ensures
        final(out)@ == old(out)@ + join_text(strings_view(items@), sep@),
{
    let ghost start = out@;
    let ghost views = strings_view(items@);
    let mut i: usize = 0;
    while i < items.len()
        invariant
            i <= items.len(),
            views == strings_view(items@),
            out@ == start + join_text(views.subrange(0, i as int), sep@),
        decreases items.len() - i,
    {
        if i > 0 {
            push_str(out, sep);
        }
        push_string(out, &items[i]);
        proof {
            lemma_join_step(views, sep@, i as int);
            if i == 0 {
                assert(views.subrange(0, 0) =~= Seq::<Seq<char>>::empty());
            }
        }
        i = i + 1;
        assert(out@ =~= start + join_text(views.subrange(0, i as int), sep@));
    }
    assert(views.subrange(0, items.len() as int) =~= views);
}

/// Wraps a joined list: empty when there are no items, else
/// `open + items + close`.
pub open spec fn wrapped_list(items: Seq<Seq<char>>, open: Seq<char>, close: Seq<char>) -> Seq<char> {
    if items.len() == 0 { Seq::empty() } else { open + join_text(items, ", "@) + close }
}

fn wrapped(items: &Vec<String>, open: &str, close: &str) -> (r: String)
    ensures
        r@ == wrapped_list(strings_view(items@), open@, close@),
{
    let mut r = String::new();
    if items.len() > 0 {
        push_str(&mut r, open);
        push_joined(&mut r, items, ", ");
        push_str(&mut r, close);
    }
    assert(r@ =~= wrapped_list(strings_view(items@), open@, close@));
    r
}

/// The names of functions.
pub open spec fn fn_names(fs: Seq<FnDef>) -> Seq<Seq<char>> {
    fs.map_values(|f: FnDef| f.name@)
}

fn names_of_fns(fs: &Vec<FnDef>) -> (r: Vec<String>)
    ensures
        strings_view(r@) == fn_names(fs@),
{
    let mut r: Vec<String> = Vec::new();
    let mut i: usize = 0;
    while i < fs.len()
        invariant
            i <= fs.len(),
            strings_view(r@) == fn_names(fs@.subrange(0, i as int)),
        decreases fs.len() - i,
    {
        let nm = fs[i].name.clone();
        proof {
            lemma_map_values_push(r@, nm, |x: String| x@);
            lemma_map_values_push(fs@.subrange(0, i as int), fs@[i as int], |f: FnDef| f.name@);
            lemma_subrange_push(fs@, i as int);
        }
        r.push(nm);
        i = i + 1;
    }
    assert(fs@.subrange(0, fs.len() as int) =~= fs@);
    r
}

/// The summary of a struct: its generic parameters as `<T, U>` (empty when
/// it has none).
pub open spec fn struct_info_text(def: StructDef) -> Seq<char> {
    wrapped_list(strings_view(def.generic_params@), "<"@, ">"@)
}

/// The summary of an interface: its method names as `{ a, b }`.
pub open spec fn interface_info_text(def: InterfaceDef) -> Seq<char> {
    wrapped_list(fn_names(def.methods@), "{ "@, " }"@)
}

/// The summary of an enum: its variant names as `{ A, B }`.
pub open spec fn enum_info_text(def: EnumDef) -> Seq<char> {
    wrapped_list(enum_variant_names(def.variants@), "{ "@, " }"@)
}

/// The summary of an error type: its variant names as `{ A, B }`.
pub open spec fn error_info_text(def: ErrorDef) -> Seq<char> {
    wrapped_list(error_variant_names(def.variants@), "{ "@, " }"@)
}

/// The signature of a function: `(T1, T2) -> R`.
pub open spec fn fn_info_text(def: FnDef) -> Seq<char> {
    "("@ + join_text(param_type_texts(def.params@), ", "@) + ") -> "@
        + type_text(def.return_ty@, true)
}

/// The summary of a struct.
pub fn format_struct_info(struct_def: &StructDef) -> (r: String)
    ensures
        r@ == struct_info_text(*struct_def),
{
    wrapped(&struct_def.generic_params, "<", ">")
}

/// The summary of an interface.
pub fn format_interface_info(interface_def: &InterfaceDef) -> (r: String)
    ensures
        r@ == interface_info_text(*interface_def),
{
    let names = names_of_fns(&interface_def.methods);
    wrapped(&names, "{ ", " }")
}

/// The summary of an enum.
pub fn format_enum_info(enum_def: &EnumDef) -> (r: String)
    ensures
        r@ == enum_info_text(*enum_def),
{
    let vs = &enum_def.variants;
    let mut names: Vec<String> = Vec::new();
    let mut i: usize = 0;
    while i < vs.len()
        invariant
            i <= vs.len(),
            strings_view(names@) == enum_variant_names(vs@.subrange(0, i as int)),
        decreases vs.len() - i,
    {
        let nm = vs[i].name.clone();
        proof {
            lemma_map_values_push(names@, nm, |x: String| x@);
            lemma_map_values_push(vs@.subrange(0, i as int), vs@[i as int], |v: crate::ast::EnumVariant| v.name@);
            lemma_subrange_push(vs@, i as int);
        }
        names.push(nm);
        i = i + 1;
    }
    assert(vs@.subrange(0, vs.len() as int) =~= vs@);
    wrapped(&names, "{ ", " }")
}

/// The summary of an error type.
pub fn format_error_info(error_def: &ErrorDef) -> (r: String)
    ensures
        r@ == error_info_text(*error_def),
{
    let vs = &error_def.variants;
    let mut names: Vec<String> = Vec::new();
    let mut i: usize = 0;
    while i < vs.len()
        invariant
            i <= vs.len(),
            strings_view(names@) == error_variant_names(vs@.subrange(0, i as int)),
        decreases vs.len() - i,
    {
        let nm = vs[i].name.clone();
        proof {
            lemma_map_values_push(names@, nm, |x: String| x@);
            lemma_map_values_push(vs@.subrange(0, i as int), vs@[i as int], |v: crate::ast::ErrorVariant| v.name@);
            lemma_subrange_push(vs@, i as int);
        }
        names.push(nm);
        i = i + 1;
    }
    assert(vs@.subrange(0, vs.len() as int) =~= vs@);
    wrapped(&names, "{ ", " }")
}

/// The signature of a function.
pub fn format_fn_info(fn_def: &FnDef) -> (r: String)
    ensures
        r@ == fn_info_text(*fn_def),
{
    let ps = &fn_def.params;
    let mut texts: Vec<String> = Vec::new();
    let mut i: usize = 0;
    while i < ps.len()
        invariant
            i <= ps.len(),
            strings_view(texts@) == param_type_texts(ps@.subrange(0, i as int)),
        decreases ps.len() - i,
    {
        let t = format_type(&ps[i].ty);
        proof {
            lemma_map_values_push(texts@, t, |x: String| x@);
            lemma_map_values_push(ps@.subrange(0, i as int), ps@[i as int], |p: crate::ast::FnParam| type_text(p.ty@, true));
            lemma_subrange_push(ps@, i as int);
        }
        texts.push(t);
        i = i + 1;
    }
    assert(ps@.subrange(0, ps.len() as int) =~= ps@);
    let mut r = owned("(");
    push_joined(&mut r, &texts, ", ");
    push_str(&mut r, ") -> ");
    push_type_text(&mut r, &fn_def.return_ty, true);
    r
}

/// A type as the listings print it.
pub fn format_type(ty: &Type) -> (r: String)
    ensures
        r@ == type_text(ty@, true),
{
    let mut r = String::new();
    push_type_text(&mut r, ty, true);
    assert(r@ =~= type_text(ty@, true));
    r
}

/// The listing entry of a struct.
pub open spec fn struct_entry(p: (String, StructDef)) -> SymbolInfoV {
    SymbolInfoV {
        name: p.0@,
        kind: SymbolKind::Struct,
        visibility: p.1.visibility,
        type_info: struct_info_text(p.1),
        location: "struct definition"@,
    }
}

/// The listing entry of an interface.
pub open spec fn interface_entry(p: (String, InterfaceDef)) -> SymbolInfoV {
    SymbolInfoV {
        name: p.0@,
        kind: SymbolKind::Interface,
        visibility: p.1.visibility,
        type_info: interface_info_text(p.1),
        location: "interface definition"@,
    }
}

/// The listing entry of an enum.
pub open spec fn enum_entry(p: (String, EnumDef)) -> SymbolInfoV {
    SymbolInfoV {
        name: p.0@,
        kind: SymbolKind::Enum,
        visibility: p.1.visibility,
        type_info: enum_info_text(p.1),
        location: "enum definition"@,
    }
}

/// The listing entry of an error type.
pub open spec fn error_entry(p: (String, ErrorDef)) -> SymbolInfoV {
    SymbolInfoV {
        name: p.0@,
        kind: SymbolKind::Error,
        visibility: p.1.visibility,
        type_info: error_info_text(p.1),
        location: "error definition"@,
    }
}

/// The listing entry of a function.
pub open spec fn fn_entry(p: (String, FnDef)) -> SymbolInfoV {
    SymbolInfoV {
        name: p.0@,
        kind: SymbolKind::Function,
        visibility: p.1.visibility,
        type_info: fn_info_text(p.1),
        location: "function definition"@,
    }
}

/// Whether a global is listed as a constant: it is constant and its type is
/// not a function, custom or error type (those are listed under their own
/// kinds).
pub open spec fn is_listed_const(g: GlobalSymbol) -> bool {
    g.is_const && !(g.ty is Function) && !(g.ty is Custom) && !(g.ty is Error)
}

/// The listing entry of a constant.
pub open spec fn const_entry(g: GlobalSymbol) -> SymbolInfoV {
    SymbolInfoV {
        name: g.name@,
        kind: SymbolKind::Const,
        visibility: g.visibility,
        type_info: type_text(g.ty@, true),
        location: "constant"@,
    }
}

/// The listing entries of the constants among the globals, in order.
pub open spec fn const_entries(gs: Seq<GlobalSymbol>) -> Seq<SymbolInfoV>
    decreases gs.len(),
{
    if gs.len() == 0 {
        Seq::empty()
    } else {
        let e = const_entries(gs.drop_last());
        if is_listed_const(gs.last()) { e.push(const_entry(gs.last())) } else { e }
    }
}

fn struct_symbols(structs: &Vec<(String, StructDef)>) -> (r: Vec<SymbolInfo>)
    ensures
        symbols_view(r@) == struct_entries(structs@),
{
    let mut r: Vec<SymbolInfo> = Vec::new();
    let mut i: usize = 0;
    while i < structs.len()
        invariant
            i <= structs.len(),
            symbols_view(r@) == struct_entries(structs@.subrange(0, i as int)),
        decreases structs.len() - i,
    {
        let (name, def) = &structs[i];
        let item = SymbolInfo {
            name: name.clone(),
            kind: SymbolKind::Struct,
            visibility: def.visibility,
            type_info: format_struct_info(def),
            location: owned("struct definition"),
        };
        proof {
            lemma_map_values_push(r@, item, |x: SymbolInfo| x@);
            lemma_map_values_push(structs@.subrange(0, i as int), structs@[i as int], |p: (String, StructDef)| struct_entry(p));
            lemma_subrange_push(structs@, i as int);
        }
        r.push(item);
        i = i + 1;
    }
    assert(structs@.subrange(0, structs.len() as int) =~= structs@);
    r
}

fn interface_symbols(interfaces: &Vec<(String, InterfaceDef)>) -> (r: Vec<SymbolInfo>)
    ensures
        symbols_view(r@) == interface_entries(interfaces@),
{
    let mut r: Vec<SymbolInfo> = Vec::new();
    let mut i: usize = 0;
    while i < interfaces.len()
        invariant
            i <= interfaces.len(),
            symbols_view(r@) == interface_entries(interfaces@.subrange(0, i as int)),
        decreases interfaces.len() - i,
    {
        let (name, def) = &interfaces[i];
        let item = SymbolInfo {
            name: name.clone(),
            kind: SymbolKind::Interface,
            visibility: def.visibility,
            type_info: format_interface_info(def),
            location: owned("interface definition"),
        };
        proof {
            lemma_map_values_push(r@, item, |x: SymbolInfo| x@);
            lemma_map_values_push(interfaces@.subrange(0, i as int), interfaces@[i as int], |p: (String, InterfaceDef)| interface_entry(p));
            lemma_subrange_push(interfaces@, i as int);
        }
        r.push(item);
        i = i + 1;
    }
    assert(interfaces@.subrange(0, interfaces.len() as int) =~= interfaces@);
    r
}

fn enum_symbols(enums: &Vec<(String, EnumDef)>) -> (r: Vec<SymbolInfo>)
    ensures
        symbols_view(r@) == enum_entries(enums@),
{
    let mut r: Vec<SymbolInfo> = Vec::new();
    let mut i: usize = 0;
    while i < enums.len()
        invariant
            i <= enums.len(),
            symbols_view(r@) == enum_entries(enums@.subrange(0, i as int)),
        decreases enums.len() - i,
    {
        let (name, def) = &enums[i];
        let item = SymbolInfo {
            name: name.clone(),
            kind: SymbolKind::Enum,
            visibility: def.visibility,
            type_info: format_enum_info(def),
            location: owned("enum definition"),
        };
        proof {
            lemma_map_values_push(r@, item, |x: SymbolInfo| x@);
            lemma_map_values_push(enums@.subrange(0, i as int), enums@[i as int], |p: (String, EnumDef)| enum_entry(p));
            lemma_subrange_push(enums@, i as int);
        }
        r.push(item);
        i = i + 1;
    }
    assert(enums@.subrange(0, enums.len() as int) =~= enums@);
    r
}

fn error_symbols(errors: &Vec<(String, ErrorDef)>) -> (r: Vec<SymbolInfo>)
    ensures
        symbols_view(r@) == error_entries(errors@),
{
    let mut r: Vec<SymbolInfo> = Vec::new();
    let mut i: usize = 0;
    while i < errors.len()
        invariant
            i <= errors.len(),
            symbols_view(r@) == error_entries(errors@.subrange(0, i as int)),
        decreases errors.len() - i,
    {
        let (name, def) = &errors[i];
        let item = SymbolInfo {
            name: name.clone(),
            kind: SymbolKind::Error,
            visibility: def.visibility,
            type_info: format_error_info(def),
            location: owned("error definition"),
        };
        proof {
            lemma_map_values_push(r@, item, |x: SymbolInfo| x@);
            lemma_map_values_push(errors@.subrange(0, i as int), errors@[i as int], |p: (String, ErrorDef)| error_entry(p));
            lemma_subrange_push(errors@, i as int);
        }
        r.push(item);
        i = i + 1;
    }
    assert(errors@.subrange(0, errors.len() as int) =~= errors@);
    r
}

fn fn_symbols(functions: &Vec<(String, FnDef)>) -> (r: Vec<SymbolInfo>)
    ensures
        symbols_view(r@) == fn_entries(functions@),
{
    let mut r: Vec<SymbolInfo> = Vec::new();
    let mut i: usize = 0;
    while i < functions.len()
        invariant
            i <= functions.len(),
            symbols_view(r@) == fn_entries(functions@.subrange(0, i as int)),
        decreases functions.len() - i,
    {
        let (name, def) = &functions[i];
        let item = SymbolInfo {
            name: name.clone(),
            kind: SymbolKind::Function,
            visibility: def.visibility,
            type_info: format_fn_info(def),
            location: owned("function definition"),
        };
        proof {
            lemma_map_values_push(r@, item, |x: SymbolInfo| x@);
            lemma_map_values_push(functions@.subrange(0, i as int), functions@[i as int], |p: (String, FnDef)| fn_entry(p));
            lemma_subrange_push(functions@, i as int);
        }
        r.push(item);
        i = i + 1;
    }
    assert(functions@.subrange(0, functions.len() as int) =~= functions@);
    r
}

fn const_symbols(globals: &Vec<GlobalSymbol>) -> (r: Vec<SymbolInfo>)
    ensures
        symbols_view(r@) == const_entries(globals@),
{
    let mut r: Vec<SymbolInfo> = Vec::new();
    let mut i: usize = 0;
    while i < globals.len()
        invariant
            i <= globals.len(),
            symbols_view(r@) == const_entries(globals@.subrange(0, i as int)),
        decreases globals.len() - i,
    {
        let g = &globals[i];
        let ghost before = globals@.subrange(0, i as int);
        assert(globals@.subrange(0, i + 1).drop_last() =~= before);
        let listed = g.is_const && !matches!(g.ty, Type::Function { .. }) && !matches!(g.ty, Type::Custom { .. })
            && !matches!(g.ty, Type::Error);
        if listed {
            r.push(SymbolInfo {
                name: g.name.clone(),
                kind: SymbolKind::Const,
                visibility: g.visibility,
                type_info: format_type(&g.ty),
                location: owned("constant"),
            });
            assert(symbols_view(r@) =~= const_entries(globals@.subrange(0, i + 1)));
        }
        i = i + 1;
    }
    assert(globals@.subrange(0, globals.len() as int) =~= globals@);
    r
}

/// The symbols of an analysed program, in this order: structs, interfaces,
/// enums, error types, functions (each in the order given), then the
/// constants among the top-level globals.
pub fn collect_symbols(
    structs: &Vec<(String, StructDef)>,
    interfaces: &Vec<(String, InterfaceDef)>,
    enums: &Vec<(String, EnumDef)>,
    errors: &Vec<(String, ErrorDef)>,
    functions: &Vec<(String, FnDef)>,
    globals: &Vec<GlobalSymbol>,
) -> (r: Vec<SymbolInfo>)
    ensures
        symbols_view(r@) == struct_entries(structs@)
            + interface_entries(interfaces@)
            + enum_entries(enums@)
            + error_entries(errors@)
            + fn_entries(functions@)
            + const_entries(globals@),
{
    let mut r = struct_symbols(structs);
    let mut b = interface_symbols(interfaces);
    r.append(&mut b);
    let mut c = enum_symbols(enums);
    r.append(&mut c);
    let mut d = error_symbols(errors);
    r.append(&mut d);
    let mut e = fn_symbols(functions);
    r.append(&mut e);
    let mut f = const_symbols(globals);
    r.append(&mut f);
    proof {
        let s1 = struct_entries(structs@);
        let s2 = interface_entries(interfaces@);
        let s3 = enum_entries(enums@);
        let s4 = error_entries(errors@);
        let s5 = fn_entries(functions@);
        let s6 = const_entries(globals@);
        assert(symbols_view(r@) =~= s1 + s2 + s3 + s4 + s5 + s6);
    }
    r
}

/// Whether `a` comes strictly before `b` in the order of `String`
/// comparison (lexicographic by character).
pub open spec fn lex_lt(a: Seq<char>, b: Seq<char>) -> bool
    decreases a.len(),
{
    if a.len() == 0 {
        b.len() > 0
    } else if b.len() == 0 {
        false
    } else if a[0] != b[0] {
        a[0] < b[0]
    } else {
        lex_lt(a.drop_first(), b.drop_first())
    }
}

/// Whether `a` and `b` agree on their first `i` characters and then `a`
/// ends while `b` goes on, or `a`'s next character is the smaller.
pub open spec fn first_difference_at(a: Seq<char>, b: Seq<char>, i: int) -> bool {
    &&& 0 <= i <= a.len()
    &&& i <= b.len()
    &&& a.subrange(0, i) == b.subrange(0, i)
    &&& ((i == a.len() && i < b.len()) || (i < a.len() && i < b.len() && a[i] < b[i]))
}

/// The order of names is the order of `String`: `a` comes first exactly
/// when, at the first position where the two differ, `a` has ended or has
/// the smaller character.
pub proof fn law_lex_lt_is_string_order(a: Seq<char>, b: Seq<char>)
    ensures
        lex_lt(a, b) <==> exists|i: int| first_difference_at(a, b, i),
    decreases a.len(),
{
    if a.len() == 0 {
        if b.len() > 0 {
            assert(first_difference_at(a, b, 0)) by {
                assert(a.subrange(0, 0) =~= b.subrange(0, 0));
            }
        }
    } else if b.len() == 0 {
    } else if a[0] != b[0] {
        if a[0] < b[0] {
            assert(first_difference_at(a, b, 0)) by {
                assert(a.subrange(0, 0) =~= b.subrange(0, 0));
            }
        }
        assert forall|i: int| first_difference_at(a, b, i) implies i == 0 by {
            if i > 0 {
                assert(a.subrange(0, i)[0] == b.subrange(0, i)[0]);
            }
        }
    } else {
        let a1 = a.drop_first();
        let b1 = b.drop_first();
        law_lex_lt_is_string_order(a1, b1);
        if lex_lt(a, b) {
            let j = choose|j: int| first_difference_at(a1, b1, j);
            assert(first_difference_at(a, b, j + 1)) by {
                assert forall|k: int| 0 <= k < j + 1 implies #[trigger] a.subrange(0, j + 1)[k] == b.subrange(0, j + 1)[k] by {
                    if k > 0 {
                        assert(a1.subrange(0, j)[k - 1] == b1.subrange(0, j)[k - 1]);
                    }
                }
                assert(a.subrange(0, j + 1) =~= b.subrange(0, j + 1));
            }
        }
        if exists|i: int| first_difference_at(a, b, i) {
            let i = choose|i: int| first_difference_at(a, b, i);
            assert(i > 0);
            assert(first_difference_at(a1, b1, i - 1)) by {
                assert forall|k: int| 0 <= k < i - 1 implies #[trigger] a1.subrange(0, i - 1)[k] == b1.subrange(0, i - 1)[k] by {
                    assert(a.subrange(0, i)[k + 1] == b.subrange(0, i)[k + 1]);
                }
                assert(a1.subrange(0, i - 1) =~= b1.subrange(0, i - 1));
            }
        }
    }
}

/// A proper prefix comes before the longer text, and never after it.
pub proof fn law_prefix_sorts_first(a: Seq<char>, b: Seq<char>)
    requires
        b.len() > 0,
    ensures
        lex_lt(a, a + b),
        !lex_lt(a + b, a),
{
    law_lex_lt_is_string_order(a, a + b);
    law_lex_lt_is_string_order(a + b, a);
    assert(first_difference_at(a, a + b, a.len() as int)) by {
        assert(a.subrange(0, a.len() as int) =~= (a + b).subrange(0, a.len() as int));
    }
    assert forall|i: int| !#[trigger] first_difference_at(a + b, a, i) by {
        if first_difference_at(a + b, a, i) {
            if i < a.len() {
                assert((a + b).subrange(0, i + 1)[i] == (a + b)[i]);
            }
        }
    }
}

/// Whether symbol `a` sorts strictly before symbol `b`: by kind, then by
/// name.
pub open spec fn symbol_lt(a: SymbolInfoV, b: SymbolInfoV) -> bool {
    kind_rank(a.kind) < kind_rank(b.kind) || (kind_rank(a.kind) == kind_rank(b.kind) && lex_lt(a.name, b.name))
}

/// Inserts a symbol after every symbol that does not sort after it.
pub open spec fn insert_sorted(s: Seq<SymbolInfoV>, x: SymbolInfoV) -> Seq<SymbolInfoV>
    decreases s.len(),
{
    if s.len() == 0 || !symbol_lt(x, s.last()) {
        s.push(x)
    } else {
        insert_sorted(s.drop_last(), x).push(s.last())
    }
}

/// The stable sort of symbols by kind, then name.
pub open spec fn sort_symbols(s: Seq<SymbolInfoV>) -> Seq<SymbolInfoV>
    decreases s.len(),
{
    if s.len() == 0 {
        Seq::empty()
    } else {
        insert_sorted(sort_symbols(s.drop_last()), s.last())
    }
}

/// The symbols whose kind the filter asks for: all of them when the list of
/// kinds is empty or holds `All`, else those whose kind is in the list.
pub open spec fn keep_kinds(s: Seq<SymbolInfoV>, kinds: Seq<SymbolKind>) -> Seq<SymbolInfoV>
    decreases s.len(),
{
    if kinds.len() == 0 || kinds.contains(SymbolKind::All) {
        s
    } else if s.len() == 0 {
        s
    } else {
        let e = keep_kinds(s.drop_last(), kinds);
        if kinds.contains(s.last().kind) { e.push(s.last()) } else { e }
    }
}

/// The symbols whose lower-cased name contains the lower-cased pattern.
pub open spec fn keep_matching(s: Seq<SymbolInfoV>, pattern: Option<Seq<char>>) -> Seq<SymbolInfoV>
    decreases s.len(),
{
    match pattern {
        None => s,
        Some(p) => if s.len() == 0 {
            s
        } else {
            let e = keep_matching(s.drop_last(), pattern);
            if seq_contains_run(lowercase(s.last().name), lowercase(p)) { e.push(s.last()) } else { e }
        },
    }
}

fn lex_less(a: &String, b: &String) -> (r: bool)
    ensures
        r == lex_lt(a@, b@),
{
    let ca = chars_of(a.as_str());
    let cb = chars_of(b.as_str());
    let mut i: usize = 0;
    assert(ca@.subrange(0, ca.len() as int) =~= ca@);
    assert(cb@.subrange(0, cb.len() as int) =~= cb@);
    while i < ca.len() && i < cb.len() && ca[i] == cb[i]
        invariant
            i <= ca.len(),
            i <= cb.len(),
            lex_lt(ca@, cb@) == lex_lt(ca@.subrange(i as int, ca.len() as int), cb@.subrange(i as int, cb.len() as int)),
        decreases ca.len() - i,
    {
        let ghost sa = ca@.subrange(i as int, ca.len() as int);
        let ghost sb = cb@.subrange(i as int, cb.len() as int);
        assert(sa.drop_first() =~= ca@.subrange(i + 1, ca.len() as int));
        assert(sb.drop_first() =~= cb@.subrange(i + 1, cb.len() as int));
        i = i + 1;
    }
    assert(ca@.subrange(0, ca.len() as int) =~= ca@);
    assert(cb@.subrange(0, cb.len() as int) =~= cb@);
    if i == ca.len() {
        i < cb.len()
    } else if i == cb.len() {
        false
    } else {
        let ghost sa = ca@.subrange(i as int, ca.len() as int);
        let ghost sb = cb@.subrange(i as int, cb.len() as int);
        assert(sa[0] == ca@[i as int] && sb[0] == cb@[i as int]);
        ca[i] < cb[i]
    }
}

fn symbol_less(a: &SymbolInfo, b: &SymbolInfo) -> (r: bool)
    ensures
        r == symbol_lt(a@, b@),
{
    let ra = rank(a.kind);
    let rb = rank(b.kind);
    ra < rb || (ra == rb && lex_less(&a.name, &b.name))
}

proof fn lemma_insert_sorted_at(s: Seq<SymbolInfoV>, x: SymbolInfoV, p: int)
    requires
        0 <= p <= s.len(),
        forall|j: int| p <= j < s.len() ==> symbol_lt(x, #[trigger] s[j]),
        p == 0 || !symbol_lt(x, s[p - 1]),
    ensures
        insert_sorted(s, x) == s.insert(p, x),
    decreases s.len(),
{
    if s.len() == 0 {
        assert(s.push(x) =~= s.insert(p, x));
    } else if !symbol_lt(x, s.last()) {
        assert(p == s.len());
        assert(s.push(x) =~= s.insert(p, x));
    } else {
        lemma_insert_sorted_at(s.drop_last(), x, p);
        assert(s.drop_last().insert(p, x).push(s.last()) =~= s.insert(p, x));
    }
}

/// Filters symbols by kind and by a name pattern (compared lower-cased),
/// then orders them by kind and name, keeping the given order among equal
/// keys.
pub fn filter_symbols(symbols: Vec<SymbolInfo>, kinds: &Vec<SymbolKind>, search_pattern: &Option<String>) -> (r: Vec<SymbolInfo>)
    ensures
        symbols_view(r@) == sort_symbols(
            keep_matching(
                keep_kinds(symbols_view(symbols@), kinds@),
                match search_pattern { Some(p) => Some(p@), None => None },
            ),
        ),
{
    let ghost pat = match search_pattern { Some(p) => Some(p@), None => None };
    let ghost input = symbols_view(symbols@);
    let ghost kept1 = keep_kinds(input, kinds@);
    let ghost kept2 = keep_matching(kept1, pat);
    let mut all_kinds = kinds.len() == 0;
    let mut k: usize = 0;
    while k < kinds.len()
        invariant
            k <= kinds.len(),
            all_kinds == (kinds.len() == 0 || exists|j: int| 0 <= j < k && kinds@[j] == SymbolKind::All),
        decreases kinds.len() - k,
    {
        if kinds[k] == SymbolKind::All {
            all_kinds = true;
        }
        k = k + 1;
    }
    assert(all_kinds == (kinds@.len() == 0 || kinds@.contains(SymbolKind::All)));
    let pattern_lower: Option<Vec<char>> = match search_pattern {
        Some(p) => {
            let l = to_lowercase(p.as_str());
            Some(chars_of(l.as_str()))
        },
        None => None,
    };
    let mut rest = symbols;
    let mut out: Vec<SymbolInfo> = Vec::new();
    let mut i: usize = 0;
    let n = rest.len();
    while rest.len() > 0
        invariant
            n == input.len(),
            i + rest.len() == n,
            symbols_view(rest@) == input.subrange(i as int, n as int),
            all_kinds == (kinds@.len() == 0 || kinds@.contains(SymbolKind::All)),
            kept1 == keep_kinds(input, kinds@),
            kept2 == keep_matching(kept1, pat),
            pat == match search_pattern { Some(p) => Some(p@), None => None },
            pattern_lower matches Some(pl) ==> pat matches Some(pv) && pl@ == lowercase(pv),
            pattern_lower is None ==> pat is None,
            symbols_view(out@) == sort_symbols(keep_matching(keep_kinds(input.subrange(0, i as int), kinds@), pat)),
        decreases rest.len(),
    {
        let ghost old_rest = rest@;
        assert(symbols_view(old_rest)[0] == old_rest[0]@);
        let x = rest.remove(0);
        let ghost xv = x@;
        assert(xv == input[i as int]);
        assert(rest@ =~= old_rest.subrange(1, old_rest.len() as int));
        assert(symbols_view(old_rest).len() == old_rest.len());
        assert(symbols_view(rest@).len() == rest@.len());
        assert forall|j: int| 0 <= j < rest@.len() implies #[trigger] symbols_view(rest@)[j] == input[i + 1 + j] by {
            assert(symbols_view(rest@)[j] == rest@[j]@);
            assert(rest@[j] == old_rest[j + 1]);
            assert(symbols_view(old_rest)[j + 1] == old_rest[j + 1]@);
        }
        assert(symbols_view(rest@) =~= input.subrange(i + 1, n as int));
        let ghost pre = input.subrange(0, i as int);
        let ghost post = input.subrange(0, i + 1);
        assert(post.drop_last() =~= pre);
        assert(post.last() == xv);
        let mut keep = true;
        if !all_kinds {
            let mut found = false;
            let mut j: usize = 0;
            while j < kinds.len()
                invariant
                    j <= kinds.len(),
                    found == exists|m: int| 0 <= m < j && kinds@[m] == x.kind,
                decreases kinds.len() - j,
            {
                if kinds[j] == x.kind {
                    found = true;
                }
                j = j + 1;
            }
            assert(found == kinds@.contains(x.kind));
            keep = found;
        }
        let ghost k1_pre = keep_kinds(pre, kinds@);
        let ghost k1_post = keep_kinds(post, kinds@);
        assert(k1_post == if keep { k1_pre.push(xv) } else { k1_pre }) by {
            if all_kinds {
                assert(k1_post == post);
                assert(k1_pre == pre);
            }
        }
        let ghost keep_kind = keep;
        if keep {
            match &pattern_lower {
                Some(pl) => {
                    let nl = to_lowercase(x.name.as_str());
                    let nc = chars_of(nl.as_str());
                    keep = contains_run(&nc, pl);
                },
                None => {},
            }
        }
        let ghost k2_pre = keep_matching(k1_pre, pat);
        let ghost k2_post = keep_matching(k1_post, pat);
        proof {
            if keep_kind {
                assert(k1_post.drop_last() =~= k1_pre);
                assert(k1_post.last() == xv);
                match pat {
                    None => {},
                    Some(pv) => {
                        assert(k2_post == (if seq_contains_run(lowercase(xv.name), lowercase(pv)) { k2_pre.push(xv) } else { k2_pre }));
                    },
                }
            }
            assert(k2_post == (if keep { k2_pre.push(xv) } else { k2_pre }));
            if keep {
                assert(k2_post.drop_last() =~= k2_pre);
                assert(sort_symbols(k2_post) == insert_sorted(sort_symbols(k2_pre), xv));
            }
        }
        if keep {
            let mut p = out.len();
            let ghost s = symbols_view(out@);
            while p > 0 && symbol_less(&x, &out[p - 1])
                invariant
                    p <= out.len(),
                    s == symbols_view(out@),
                    xv == x@,
                    forall|j: int| p <= j < out.len() ==> symbol_lt(xv, #[trigger] s[j]),
                decreases p,
            {
                assert(s[p - 1] == out@[p - 1]@);
                p = p - 1;
            }
            proof {
                if p > 0 {
                    assert(s[p - 1] == out@[p - 1]@);
                }
                lemma_insert_sorted_at(s, xv, p as int);
            }
            out.insert(p, x);
            assert(symbols_view(out@) =~= s.insert(p as int, xv));
        }
        i = i + 1;
    }
    assert(input.subrange(0, n as int) =~= input);
    out
}

/// Whether two symbols have the same sort key (kind and name).
pub open spec fn same_key(a: SymbolInfoV, b: SymbolInfoV) -> bool {
    kind_rank(a.kind) == kind_rank(b.kind) && a.name == b.name
}

/// Whether symbols are in listing order: no symbol sorts before one that
/// comes earlier.
pub open spec fn listing_sorted(s: Seq<SymbolInfoV>) -> bool {
    forall|i: int, j: int| 0 <= i < j < s.len() ==> !symbol_lt(#[trigger] s[j], #[trigger] s[i])
}

proof fn lemma_lex_irrefl(a: Seq<char>)
    ensures
        !lex_lt(a, a),
    decreases a.len(),
{
    if a.len() > 0 {
        lemma_lex_irrefl(a.drop_first());
    }
}

proof fn lemma_lex_trans(a: Seq<char>, b: Seq<char>, c: Seq<char>)
    requires
        lex_lt(a, b),
        lex_lt(b, c),
    ensures
        lex_lt(a, c),
    decreases a.len(),
{
    if a.len() > 0 && b.len() > 0 && c.len() > 0 && a[0] == b[0] && b[0] == c[0] {
        lemma_lex_trans(a.drop_first(), b.drop_first(), c.drop_first());
    }
}

proof fn lemma_lex_total(a: Seq<char>, b: Seq<char>)
    ensures
        lex_lt(a, b) || lex_lt(b, a) || a == b,
    decreases a.len(),
{
    if a.len() == 0 && b.len() == 0 {
        assert(a =~= b);
    } else if a.len() > 0 && b.len() > 0 && a[0] == b[0] {
        lemma_lex_total(a.drop_first(), b.drop_first());
        if a.drop_first() == b.drop_first() {
            assert(a =~= b) by {
                assert forall|k: int| 0 <= k < a.len() implies a[k] == b[k] by {
                    if k > 0 {
                        assert(a[k] == a.drop_first()[k - 1]);
                        assert(b[k] == b.drop_first()[k - 1]);
                    }
                }
            }
        }
    } else if a.len() > 0 && b.len() > 0 {
    }
}

proof fn lemma_symbol_lt_trans(a: SymbolInfoV, b: SymbolInfoV, c: SymbolInfoV)
    requires
        symbol_lt(a, b),
        symbol_lt(b, c),
    ensures
        symbol_lt(a, c),
{
    if kind_rank(a.kind) == kind_rank(b.kind) && kind_rank(b.kind) == kind_rank(c.kind) {
        lemma_lex_trans(a.name, b.name, c.name);
    }
}

proof fn lemma_symbol_lt_irrefl(a: SymbolInfoV)
    ensures
        !symbol_lt(a, a),
{
    lemma_lex_irrefl(a.name);
}

proof fn lemma_symbol_lt_total(a: SymbolInfoV, b: SymbolInfoV)
    ensures
        symbol_lt(a, b) || symbol_lt(b, a) || same_key(a, b),
{
    lemma_lex_total(a.name, b.name);
}

/// "Does not sort before" is transitive.
proof fn lemma_not_lt_trans(a: SymbolInfoV, b: SymbolInfoV, c: SymbolInfoV)
    requires
        !symbol_lt(a, b),
        !symbol_lt(b, c),
    ensures
        !symbol_lt(a, c),
{
    if symbol_lt(a, c) {
        lemma_symbol_lt_total(b, c);
        if symbol_lt(c, b) {
            lemma_symbol_lt_trans(a, c, b);
        }
    }
}

proof fn lemma_insert_sorted_contents(s: Seq<SymbolInfoV>, x: SymbolInfoV)
    ensures
        insert_sorted(s, x).len() == s.len() + 1,
        forall|k: int| 0 <= k < insert_sorted(s, x).len() ==> #[trigger] insert_sorted(s, x)[k] == x
            || exists|j: int| 0 <= j < s.len() && insert_sorted(s, x)[k] == s[j],
    decreases s.len(),
{
    if s.len() == 0 || !symbol_lt(x, s.last()) {
        assert forall|k: int| 0 <= k < insert_sorted(s, x).len() implies #[trigger] insert_sorted(s, x)[k] == x
            || exists|j: int| 0 <= j < s.len() && insert_sorted(s, x)[k] == s[j] by {
            if k < s.len() {
                assert(insert_sorted(s, x)[k] == s[k]);
            }
        }
    } else {
        let t = insert_sorted(s.drop_last(), x);
        lemma_insert_sorted_contents(s.drop_last(), x);
        assert forall|k: int| 0 <= k < insert_sorted(s, x).len() implies #[trigger] insert_sorted(s, x)[k] == x
            || exists|j: int| 0 <= j < s.len() && insert_sorted(s, x)[k] == s[j] by {
            if k == t.len() {
                assert(insert_sorted(s, x)[k] == s[s.len() - 1]);
            } else {
                assert(insert_sorted(s, x)[k] == t[k]);
                if t[k] != x {
                    let j = choose|j: int| 0 <= j < s.drop_last().len() && t[k] == s.drop_last()[j];
                    assert(s.drop_last()[j] == s[j]);
                }
            }
        }
    }
}

proof fn lemma_insert_sorted_sorted(s: Seq<SymbolInfoV>, x: SymbolInfoV)
    requires
        listing_sorted(s),
    ensures
        listing_sorted(insert_sorted(s, x)),
    decreases s.len(),
{
    let r = insert_sorted(s, x);
    if s.len() == 0 || !symbol_lt(x, s.last()) {
        assert forall|i: int, j: int| 0 <= i < j < r.len() implies !symbol_lt(#[trigger] r[j], #[trigger] r[i]) by {
            if j == s.len() {
                assert(r[j] == x);
                assert(r[i] == s[i]);
                if i < s.len() - 1 {
                    assert(!symbol_lt(s[s.len() - 1], s[i]));
                    lemma_not_lt_trans(x, s[s.len() - 1], s[i]);
                }
            } else {
                assert(r[j] == s[j] && r[i] == s[i]);
            }
        }
    } else {
        let sd = s.drop_last();
        let last = s.last();
        assert(listing_sorted(sd)) by {
            assert forall|i: int, j: int| 0 <= i < j < sd.len() implies !symbol_lt(#[trigger] sd[j], #[trigger] sd[i]) by {
                assert(sd[i] == s[i] && sd[j] == s[j]);
            }
        }
        lemma_insert_sorted_sorted(sd, x);
        lemma_insert_sorted_contents(sd, x);
        let t = insert_sorted(sd, x);
        assert(r == t.push(last));
        assert forall|i: int, j: int| 0 <= i < j < r.len() implies !symbol_lt(#[trigger] r[j], #[trigger] r[i]) by {
            if j == t.len() {
                assert(r[j] == last);
                assert(r[i] == t[i]);
                if t[i] == x {
                    if symbol_lt(last, x) {
                        lemma_symbol_lt_trans(x, last, x);
                        lemma_symbol_lt_irrefl(x);
                    }
                } else {
                    let k = choose|k: int| 0 <= k < sd.len() && t[i] == sd[k];
                    assert(sd[k] == s[k]);
                    assert(!symbol_lt(s[s.len() - 1], s[k]));
                }
            } else {
                assert(r[j] == t[j] && r[i] == t[i]);
            }
        }
    }
}

proof fn lemma_insert_sorted_multiset(s: Seq<SymbolInfoV>, x: SymbolInfoV)
    ensures
        insert_sorted(s, x).to_multiset() == s.to_multiset().insert(x),
    decreases s.len(),
{
    broadcast use vstd::seq_lib::to_multiset_build;
    if s.len() == 0 || !symbol_lt(x, s.last()) {
    } else {
        lemma_insert_sorted_multiset(s.drop_last(), x);
        assert(s.drop_last().push(s.last()) =~= s);
        assert(insert_sorted(s, x).to_multiset() =~= s.to_multiset().insert(x));
    }
}

/// The symbol listing is in order: after sorting, no symbol sorts (by kind,
/// then name) before a symbol listed earlier.
pub proof fn law_sorted_listing(s: Seq<SymbolInfoV>)
    ensures
        listing_sorted(sort_symbols(s)),
    decreases s.len(),
{
    if s.len() > 0 {
        law_sorted_listing(s.drop_last());
        lemma_insert_sorted_sorted(sort_symbols(s.drop_last()), s.last());
    }
}

/// Sorting the listing neither loses nor adds symbols: the sorted listing
/// holds the same symbols, each as often.
pub proof fn law_listing_is_permutation(s: Seq<SymbolInfoV>)
    ensures
        sort_symbols(s).to_multiset() == s.to_multiset(),
    decreases s.len(),
{
    broadcast use vstd::seq_lib::to_multiset_build;
    if s.len() > 0 {
        law_listing_is_permutation(s.drop_last());
        lemma_insert_sorted_multiset(sort_symbols(s.drop_last()), s.last());
        assert(s.drop_last().push(s.last()) =~= s);
    } else {
        assert(sort_symbols(s) =~= s);
    }
}

/// Pads a text with spaces on the right up to a width (as `{:w}` does for
/// strings).
pub open spec fn pad_right(s: Seq<char>, width: nat) -> Seq<char> {
    if s.len() >= width { s } else { s + Seq::new((width - s.len()) as nat, |i: int| ' ') }
}

fn push_padded(out: &mut String, s: &str, width: usize)
    ensures
        final(out)@ == old(out)@ + pad_right(s@, width as nat),
{
    let ghost start = out@;
    let n = s.unicode_len();
    push_str(out, s);
    let mut k = n;
    while k < width
        invariant
            n == s@.len(),
            k == n || (n <= k && k <= width),
            out@ == start + s@ + Seq::new((k - n) as nat, |i: int| ' '),
        decreases width - k,
    {
        crate::text::push_char(out, ' ');
        k = k + 1;
        assert(out@ =~= start + s@ + Seq::new((k - n) as nat, |i: int| ' '));
    }
    if n >= width {
        assert(Seq::new((k - n) as nat, |i: int| ' ') =~= Seq::<char>::empty());
    }
    assert(out@ =~= start + pad_right(s@, width as nat));
}

/// The word shown for a visibility.
pub open spec fn visibility_word(v: Visibility) -> Seq<char> {
    match v {
        Visibility::Public => "public"@,
        Visibility::Private => "private"@,
    }
}

/// The table line of a symbol: kind (padded to 10), visibility (padded to
/// 12), name and type summary.
pub open spec fn symbol_line(s: SymbolInfoV) -> Seq<char> {
    pad_right(kind_display(s.kind), 10) + " | "@ + pad_right(visibility_word(s.visibility), 12) + " | "@ + s.name
        + " "@ + s.type_info
}

/// The table lines of symbols.
pub open spec fn symbol_lines(s: Seq<SymbolInfoV>) -> Seq<Seq<char>> {
    s.map_values(|x: SymbolInfoV| symbol_line(x))
}

/// The lines `lang symbol` prints: a header, a rule, one line per symbol, an
/// empty line and the total.
pub open spec fn symbol_table(s: Seq<SymbolInfoV>) -> Seq<Seq<char>> {
    seq![
        pad_right("Kind"@, 10) + " | "@ + pad_right("Visibility"@, 12) + " | "@ + "Name (Type)"@,
        "------------|--------------|------------------------------------------------"@,
    ] + symbol_lines(s) + seq![Seq::<char>::empty(), "Total symbols: "@ + nat_text(s.len())]
}

/// The lines of the symbol table.
pub fn symbol_table_lines(symbols: &Vec<SymbolInfo>) -> (r: Vec<String>)
    ensures
        lines_view(r@) == symbol_table(symbols_view(symbols@)),
{
    let ghost sv = symbols_view(symbols@);
    let mut r: Vec<String> = Vec::new();
    let mut h = String::new();
    push_padded(&mut h, "Kind", 10);
    push_str(&mut h, " | ");
    push_padded(&mut h, "Visibility", 12);
    push_str(&mut h, " | ");
    push_str(&mut h, "Name (Type)");
    r.push(h);
    r.push(owned("------------|--------------|------------------------------------------------"));
    let mut i: usize = 0;
    while i < symbols.len()
        invariant
            i <= symbols.len(),
            sv == symbols_view(symbols@),
            r@.len() == 2 + i,
            r@[0]@ == pad_right("Kind"@, 10) + " | "@ + pad_right("Visibility"@, 12) + " | "@ + "Name (Type)"@,
            r@[1]@ == "------------|--------------|------------------------------------------------"@,
            forall|j: int| 0 <= j < i ==> #[trigger] r@[j + 2]@ == symbol_line(sv[j]),
        decreases symbols.len() - i,
    {
        let s = &symbols[i];
        let mut line = String::new();
        push_padded(&mut line, s.kind.display_name(), 10);
        push_str(&mut line, " | ");
        let vis = match s.visibility {
            Visibility::Public => "public",
            Visibility::Private => "private",
        };
        push_padded(&mut line, vis, 12);
        push_str(&mut line, " | ");
        push_string(&mut line, &s.name);
        push_str(&mut line, " ");
        push_string(&mut line, &s.type_info);
        assert(line@ =~= symbol_line(sv[i as int]));
        r.push(line);
        i = i + 1;
    }
    r.push(String::new());
    let mut t = owned("Total symbols: ");
    push_u64(&mut t, symbols.len() as u64);
    r.push(t);
    let ghost expected = symbol_table(sv);
    assert(lines_view(r@).len() == expected.len());
    assert forall|j: int| 0 <= j < expected.len() implies #[trigger] lines_view(r@)[j] == expected[j] by {
        assert(lines_view(r@)[j] == r@[j]@);
        if 2 <= j < 2 + symbols.len() {
            assert(r@[(j - 2) + 2]@ == symbol_line(sv[j - 2]));
            assert(symbol_lines(sv)[j - 2] == symbol_line(sv[j - 2]));
        }
    }
    assert(lines_view(r@) =~= symbol_table(sv));
    r
}

} // verus!
