//! Format strings of `io.println`: `{}`-style placeholders and backslash
//! escapes rewritten into a `printf` format, with the kind of argument each
//! placeholder takes.

use vstd::prelude::*;
use crate::text::{chars_of, push_char, push_str};

verus! {

/// How a `printf` argument is passed.
#[derive(Debug, Clone, Copy, PartialEq, Eq, Structural)]
pub enum PrintfArgKind {
    String,
    Integer,
    Float,
    Boolean,
}

/// The position of the first `}` at or after `i`, or the end of the text.
pub open spec fn brace_end(s: Seq<char>, i: int) -> int
    decreases s.len() - i,
{
    if i >= s.len() || s[i] == '}' { if i >= s.len() { s.len() as int } else { i } } else { brace_end(s, i + 1) }
}

/// The `printf` text of a placeholder, and the kind of argument it takes
/// (none for an unknown placeholder, which is kept as written). `extended`
/// admits the upper-case hex (`X`) and boolean (`b`) placeholders.
pub open spec fn placeholder_piece(ph: Seq<char>, extended: bool) -> (Seq<char>, Option<PrintfArgKind>) {
    if ph == seq!['s'] {
        ("%s"@, Some(PrintfArgKind::String))
    } else if ph == seq!['d'] {
        ("%lld"@, Some(PrintfArgKind::Integer))
    } else if ph == seq!['f'] {
        ("%f"@, Some(PrintfArgKind::Float))
    } else if ph == seq!['x'] {
        ("%llx"@, Some(PrintfArgKind::Integer))
    } else if extended && ph == seq!['X'] {
        ("%llX"@, Some(PrintfArgKind::Integer))
    } else if extended && ph == seq!['b'] {
        ("%s"@, Some(PrintfArgKind::Boolean))
    } else if ph.len() == 0 {
        ("%lld"@, Some(PrintfArgKind::Integer))
    } else {
        (seq!['{'] + ph + seq!['}'], None)
    }
}

/// The two readings of placeholders agree on every placeholder the plain
/// one knows: the extended reading only adds placeholders.
pub proof fn law_extended_placeholders_agree(ph: Seq<char>)
    requires
        placeholder_piece(ph, false).1 is Some,
    ensures
        placeholder_piece(ph, true) == placeholder_piece(ph, false),
{
}

/// A placeholder's `printf` conversion fits the argument it takes: an
/// integer is passed as `long long` and converted by the placeholder's own
/// letter (`d` for `{}`), a string or boolean by `%s`, a float by `%f`; an
/// unknown placeholder is kept as written.
pub proof fn law_placeholder_conversion(ph: Seq<char>, extended: bool)
    ensures
        placeholder_piece(ph, extended).1 == Some(PrintfArgKind::Integer) ==> placeholder_piece(ph, extended).0 == "%ll"@ + (
        if ph.len() == 0 {
            seq!['d']
        } else {
            ph
        }),
        placeholder_piece(ph, extended).1 == Some(PrintfArgKind::String) ==> placeholder_piece(ph, extended).0 == "%s"@,
        placeholder_piece(ph, extended).1 == Some(PrintfArgKind::Boolean) ==> placeholder_piece(ph, extended).0 == "%s"@,
        placeholder_piece(ph, extended).1 == Some(PrintfArgKind::Float) ==> placeholder_piece(ph, extended).0 == "%"@ + ph,
        placeholder_piece(ph, extended).1 is None ==> placeholder_piece(ph, extended).0 == seq!['{'] + ph + seq!['}'],
        ph == seq!['d'] || ph == seq!['x'] ==> placeholder_piece(ph, extended).1 == Some(PrintfArgKind::Integer),
        ph == seq!['s'] ==> placeholder_piece(ph, extended).1 == Some(PrintfArgKind::String),
        ph == seq!['f'] ==> placeholder_piece(ph, extended).1 == Some(PrintfArgKind::Float),
{
    reveal_strlit("%ll");
    reveal_strlit("%lld");
    reveal_strlit("%llx");
    reveal_strlit("%llX");
    reveal_strlit("%s");
    reveal_strlit("%f");
    reveal_strlit("%");
    assert("%lld"@ =~= "%ll"@ + seq!['d']);
    assert("%llx"@ =~= "%ll"@ + seq!['x']);
    assert("%llX"@ =~= "%ll"@ + seq!['X']);
    assert("%f"@ =~= "%"@ + seq!['f']);
    assert(seq!['s'][0] == 's' && seq!['d'][0] == 'd' && seq!['f'][0] == 'f' && seq!['x'][0] == 'x' && seq!['X'][0] == 'X'
        && seq!['b'][0] == 'b');
    if ph == seq!['s'] {
    } else if ph == seq!['d'] {
        assert("%ll"@ + ph =~= "%lld"@);
    } else if ph == seq!['f'] {
        assert("%"@ + ph =~= "%f"@);
    } else if ph == seq!['x'] {
        assert("%ll"@ + ph =~= "%llx"@);
    } else if extended && ph == seq!['X'] {
        assert("%ll"@ + ph =~= "%llX"@);
    } else if extended && ph == seq!['b'] {
    } else if ph.len() == 0 {
    } else {
    }
}

/// The character a backslash escape stands for, if it is one of `\n`,
/// `\t`, `\\` and `\"`.
pub open spec fn escaped(c: char) -> Option<char> {
    if c == 'n' {
        Some('\n')
    } else if c == 't' {
        Some('\t')
    } else if c == '\\' {
        Some('\\')
    } else if c == '"' {
        Some('"')
    } else {
        None
    }
}

/// One step of the scan at the start of `s`: the text it produces, the
/// argument kind it consumes, and how many characters it reads.
pub open spec fn format_step(s: Seq<char>, extended: bool) -> (Seq<char>, Option<PrintfArgKind>, int) {
    if s[0] == '{' {
        let e = brace_end(s, 1);
        let piece = placeholder_piece(s.subrange(1, e), extended);
        (piece.0, piece.1, if e < s.len() { e + 1 } else { e })
    } else if s[0] == '\\' && s.len() >= 2 && escaped(s[1]) is Some {
        (seq![escaped(s[1])->0], None, 2)
    } else {
        (seq![s[0]], None, 1)
    }
}

/// The `printf` text of a format string, before the final newline.
pub open spec fn format_text(s: Seq<char>, extended: bool) -> Seq<char>
    decreases s.len(),
{
    if s.len() == 0 {
        Seq::empty()
    } else {
        let st = format_step(s, extended);
        if 0 < st.2 <= s.len() {
            st.0 + format_text(s.subrange(st.2, s.len() as int), extended)
        } else {
            Seq::empty()
        }
    }
}

/// The argument kinds of the known placeholders of a format string, in
/// order.
pub open spec fn format_kinds(s: Seq<char>, extended: bool) -> Seq<PrintfArgKind>
    decreases s.len(),
{
    if s.len() == 0 {
        Seq::empty()
    } else {
        let st = format_step(s, extended);
        if 0 < st.2 <= s.len() {
            (match st.1 {
                Some(k) => seq![k],
                None => Seq::empty(),
            }) + format_kinds(s.subrange(st.2, s.len() as int), extended)
        } else {
            Seq::empty()
        }
    }
}

/// Plain text passes through: a format string without braces and without
/// backslashes is its own `printf` text and takes no arguments.
pub proof fn law_plain_text_passes_through(s: Seq<char>, extended: bool)
    requires
        forall|i: int| 0 <= i < s.len() ==> #[trigger] s[i] != '{' && s[i] != '\\',
    ensures
        format_text(s, extended) == s,
        format_kinds(s, extended) == Seq::<PrintfArgKind>::empty(),
    decreases s.len(),
{
    if s.len() > 0 {
        let rest = s.subrange(1, s.len() as int);
        assert forall|i: int| 0 <= i < rest.len() implies #[trigger] rest[i] != '{' && rest[i] != '\\' by {
            assert(rest[i] == s[i + 1]);
        }
        law_plain_text_passes_through(rest, extended);
        assert(s[0] != '{' && s[0] != '\\');
        assert(seq![s[0]] + rest =~= s);
        assert(Seq::<PrintfArgKind>::empty() + Seq::<PrintfArgKind>::empty() =~= Seq::<PrintfArgKind>::empty());
    }
}

proof fn lemma_brace_end(s: Seq<char>, i: int)
    requires
        0 <= i <= s.len(),
    ensures
        i <= brace_end(s, i) <= s.len(),
        brace_end(s, i) < s.len() ==> s[brace_end(s, i)] == '}',
        forall|j: int| i <= j < brace_end(s, i) ==> s[j] != '}',
    decreases s.len() - i,
{
    if i < s.len() && s[i] != '}' {
        lemma_brace_end(s, i + 1);
    }
}

proof fn lemma_step_bounds(s: Seq<char>, extended: bool)
    requires
        s.len() > 0,
    ensures
        0 < format_step(s, extended).2 <= s.len(),
{
    if s[0] == '{' {
        lemma_brace_end(s, 1);
    }
}

fn placeholder_is(ph: &Vec<char>, c: char) -> (r: bool)
    ensures
        r == (ph@ == seq![c]),
{
    if ph.len() == 1 {
        assert(ph@ =~= seq![ph@[0]]);
        ph[0] == c
    } else {
        false
    }
}

/// The placeholder's `printf` text and argument kind.
fn placeholder_pieces(ph: &Vec<char>, out: &mut String, extended: bool) -> (r: Option<PrintfArgKind>)
    ensures
        final(out)@ == old(out)@ + placeholder_piece(ph@, extended).0,
        r == placeholder_piece(ph@, extended).1,
{
    if placeholder_is(ph, 's') {
        push_str(out, "%s");
        Some(PrintfArgKind::String)
    } else if placeholder_is(ph, 'd') {
        push_str(out, "%lld");
        Some(PrintfArgKind::Integer)
    } else if placeholder_is(ph, 'f') {
        push_str(out, "%f");
        Some(PrintfArgKind::Float)
    } else if placeholder_is(ph, 'x') {
        push_str(out, "%llx");
        Some(PrintfArgKind::Integer)
    } else if extended && placeholder_is(ph, 'X') {
        push_str(out, "%llX");
        Some(PrintfArgKind::Integer)
    } else if extended && placeholder_is(ph, 'b') {
        push_str(out, "%s");
        Some(PrintfArgKind::Boolean)
    } else if ph.len() == 0 {
        push_str(out, "%lld");
        Some(PrintfArgKind::Integer)
    } else {
        let ghost start = out@;
        push_char(out, '{');
        let mut k: usize = 0;
        while k < ph.len()
            invariant
                k <= ph.len(),
                out@ == start + seq!['{'] + ph@.subrange(0, k as int),
            decreases ph.len() - k,
        {
            push_char(out, ph[k]);
            k = k + 1;
            assert(out@ =~= start + seq!['{'] + ph@.subrange(0, k as int));
        }
        push_char(out, '}');
        assert(out@ =~= start + (seq!['{'] + ph@ + seq!['}']));
        None
    }
}

/// Rewrites a format string for `printf` (placeholders `{s}`, `{d}`, `{f}`,
/// `{x}`, `{}`, and with `extended` also `{X}` and `{b}`; escapes `\n`,
/// `\t`, `\\`, `\"`; a newline at the end) and pairs the first `num_args`
/// known placeholders with the argument positions `0, 1, ...`.
pub fn scan_format(format_str: &str, num_args: usize, extended: bool) -> (r: (String, Vec<(usize, PrintfArgKind)>))
    ensures
        r.0@ == format_text(format_str@, extended) + seq!['\n'],
        r.1@.len() == if format_kinds(format_str@, extended).len() < num_args {
            format_kinds(format_str@, extended).len()
        } else {
            num_args as nat
        },
        forall|j: int| 0 <= j < r.1@.len() ==> #[trigger] r.1@[j] == (j as usize, format_kinds(format_str@, extended)[j]),
{
    let cs = chars_of(format_str);
    let ghost s = cs@;
    let n = cs.len();
    let mut out = String::new();
    let mut specs: Vec<(usize, PrintfArgKind)> = Vec::new();
    let ghost mut kinds: Seq<PrintfArgKind> = Seq::empty();
    let mut i: usize = 0;
    assert(s.subrange(0, n as int) =~= s);
    assert(out@ =~= Seq::<char>::empty());
    while i < n
        invariant
            n == s.len(),
            s == cs@,
            s == format_str@,
            i <= n,
            out@ + format_text(s.subrange(i as int, n as int), extended) == format_text(s, extended),
            kinds + format_kinds(s.subrange(i as int, n as int), extended) == format_kinds(s, extended),
            specs@.len() == if kinds.len() < num_args { kinds.len() } else { num_args as nat },
            forall|j: int| 0 <= j < specs@.len() ==> #[trigger] specs@[j] == (j as usize, kinds[j]),
        decreases n - i,
    {
        let ghost rest = s.subrange(i as int, n as int);
        let ghost st = format_step(rest, extended);
        proof {
            lemma_step_bounds(rest, extended);
        }
        let ghost out0 = out@;
        let ghost kinds0 = kinds;
        let mut next = i + 1;
        let mut kind: Option<PrintfArgKind> = None;
        if cs[i] == '{' {
            let mut j = i + 1;
            while j < n && cs[j] != '}'
                invariant
                    i < j <= n,
                    n == s.len(),
                    s == cs@,
                    cs@[i as int] == '{',
                    forall|k: int| i + 1 <= k < j ==> s[k] != '}',
                decreases n - j,
            {
                j = j + 1;
            }
            let mut ph: Vec<char> = Vec::new();
            let mut k = i + 1;
            while k < j
                invariant
                    i + 1 <= k <= j,
                    j <= n,
                    n == s.len(),
                    s == cs@,
                    ph@ == s.subrange(i + 1, k as int),
                decreases j - k,
            {
                ph.push(cs[k]);
                k = k + 1;
                assert(ph@ =~= s.subrange(i + 1, k as int));
            }
            proof {
                lemma_brace_end(rest, 1);
                assert(brace_end(rest, 1) == j - i) by {
                    let e = brace_end(rest, 1);
                    assert forall|k: int| 1 <= k < j - i implies rest[k] != '}' by {
                        assert(rest[k] == s[i + k]);
                    }
                    if e < j - i {
                        assert(rest[e] == s[i + e]);
                    }
                    if j < n {
                        assert(rest[j - i] == s[j as int]);
                    }
                }
                assert(rest.subrange(1, j - i) =~= ph@);
            }
            kind = placeholder_pieces(&ph, &mut out, extended);
            next = if j < n { j + 1 } else { j };
        } else if cs[i] == '\\' && i + 1 < n && (cs[i + 1] == 'n' || cs[i + 1] == 't' || cs[i + 1] == '\\' || cs[i + 1] == '"') {
            let c = cs[i + 1];
            let e = if c == 'n' { '\n' } else if c == 't' { '\t' } else { c };
            assert(rest[1] == c);
            push_char(&mut out, e);
            next = i + 2;
        } else {
            assert(rest[0] == cs@[i as int]);
            if cs[i] == '\\' && i + 1 < n {
                assert(rest[1] == cs@[i + 1]);
            }
            push_char(&mut out, cs[i]);
        }
        proof {
            assert(next - i == st.2);
            assert(out@ == out0 + st.0);
            assert(kind == st.1);
            assert(rest.subrange(st.2, rest.len() as int) =~= s.subrange(next as int, n as int));
            assert(format_text(rest, extended) == st.0 + format_text(s.subrange(next as int, n as int), extended));
            assert(out0 + (st.0 + format_text(s.subrange(next as int, n as int), extended))
                =~= out@ + format_text(s.subrange(next as int, n as int), extended));
        }
        match kind {
            Some(k) => {
                if specs.len() < num_args {
                    specs.push((specs.len(), k));
                }
                proof {
                    kinds = kinds.push(k);
                    assert(kinds0 + (seq![k] + format_kinds(s.subrange(next as int, n as int), extended))
                        =~= kinds + format_kinds(s.subrange(next as int, n as int), extended));
                }
            },
            None => {
                proof {
                    assert(kinds0 + (Seq::<PrintfArgKind>::empty() + format_kinds(s.subrange(next as int, n as int), extended))
                        =~= kinds + format_kinds(s.subrange(next as int, n as int), extended));
                }
            },
        }
        assert forall|j: int| 0 <= j < specs@.len() implies #[trigger] specs@[j] == (j as usize, kinds[j]) by {
            if j < kinds0.len() && j < specs@.len() - 1 {
            }
        }
        i = next;
    }
    assert(s.subrange(n as int, n as int) =~= Seq::<char>::empty());
    assert(kinds + Seq::<PrintfArgKind>::empty() =~= kinds);
    assert(out@ + Seq::<char>::empty() =~= out@);
    push_char(&mut out, '\n');
    assert(out@ =~= format_text(s, extended) + seq!['\n']);
    (out, specs)
}

/// The `printf` rewrite of an `io.println` format string read from the
/// high-level representation: placeholders `{s}`, `{d}`, `{f}`, `{x}`,
/// `{X}`, `{b}` and `{}`.
pub fn parse_hir_format_string(format_str: &str, num_args: usize) -> (r: (String, Vec<(usize, PrintfArgKind)>))
    ensures
        r.0@ == format_text(format_str@, true) + seq!['\n'],
        r.1@.len() == if format_kinds(format_str@, true).len() < num_args {
            format_kinds(format_str@, true).len()
        } else {
            num_args as nat
        },
        forall|j: int| 0 <= j < r.1@.len() ==> #[trigger] r.1@[j] == (j as usize, format_kinds(format_str@, true)[j]),
{
    scan_format(format_str, num_args, true)
}

/// The `printf` rewrite of an `io.println` format string read from the
/// syntax tree: placeholders `{s}`, `{d}`, `{f}`, `{x}` and `{}`.
pub fn parse_format_string(format_str: &str, num_args: usize) -> (r: (String, Vec<(usize, PrintfArgKind)>))
    ensures
        r.0@ == format_text(format_str@, false) + seq!['\n'],
        r.1@.len() == if format_kinds(format_str@, false).len() < num_args {
            format_kinds(format_str@, false).len()
        } else {
            num_args as nat
        },
        forall|j: int| 0 <= j < r.1@.len() ==> #[trigger] r.1@[j] == (j as usize, format_kinds(format_str@, false)[j]),
{
    scan_format(format_str, num_args, false)
}

} // verus!
