//! The import rewriter.
//!
//! Source text is processed line by line. A line of the single-line form
//! `import { names } from "ns/..."` (with either quote kind, an optional
//! trailing semicolon, and surrounding whitespace) is rewritten into a
//! local destructuring binding against the sandbox module lookup function;
//! every other line passes through unchanged. The rewrite is purely
//! syntactic and best-effort: a malformed import line is left as it is and
//! surfaces as an error at evaluation time, never at rewrite time.

use vstd::prelude::*;

use crate::text::{
    find_from, find_from_exec, find_quote_from, find_quote_from_exec, is_quote, is_ws, is_ws_char,
    join_with, lemma_find_from, lemma_join_split, lemma_split_first_newline,
    lemma_split_lines_nonempty, lemma_split_no_newline, skip_ws, skip_ws_exec, split_lines,
    trim_exec, trim_spec,
};

verus! {

/// Deterministic parse of one line against the import form. On a match it
/// yields the trimmed name list between the braces and the trimmed
/// namespace between the quotes; the namespace must begin with the
/// reserved module prefix `ns/` and continue with at least one character.
pub open spec fn parse_import(line: Seq<char>) -> Option<(Seq<char>, Seq<char>)> {
    let i0: int = skip_ws(line, 0);
    if i0 + 6 <= line.len() && line.subrange(i0, i0 + 6) == "import"@ && i0 + 6 < line.len()
        && is_ws(line[i0 + 6]) {
        let i2: int = skip_ws(line, i0 + 6);
        if i2 < line.len() && line[i2] == '{' {
            let j: int = find_from(line, i2 + 1, '}');
            if j < line.len() && j > i2 + 1 {
                if j + 1 < line.len() && is_ws(line[j + 1]) {
                    let i4: int = skip_ws(line, j + 1);
                    if i4 + 4 <= line.len() && line.subrange(i4, i4 + 4) == "from"@ && i4 + 4
                        < line.len() && is_ws(line[i4 + 4]) {
                        let i6: int = skip_ws(line, i4 + 4);
                        if i6 < line.len() && is_quote(line[i6]) {
                            let q: int = find_quote_from(line, i6 + 1);
                            if q < line.len() && q - i6 >= 5 && line.subrange(i6 + 1, i6 + 4)
                                == "ns/"@ {
                                let i8: int = if q + 1 < line.len() && line[q + 1] == ';' {
                                    q + 2
                                } else {
                                    q + 1
                                };
                                if skip_ws(line, i8) == line.len() {
                                    Some(
                                        (
                                            trim_spec(line.subrange(i2 + 1, j)),
                                            trim_spec(line.subrange(i6 + 1, q)),
                                        ),
                                    )
                                } else {
                                    None
                                }
                            } else {
                                None
                            }
                        } else {
                            None
                        }
                    } else {
                        None
                    }
                } else {
                    None
                }
            } else {
                None
            }
        } else {
            None
        }
    } else {
        None
    }
}

/// One line after rewriting: an import line becomes a destructuring
/// binding from the module lookup function, any other line is unchanged.
pub open spec fn rewrite_line_spec(line: Seq<char>) -> Seq<char> {
    match parse_import(line) {
        Some(p) => "const {"@ + p.0 + "} = __nsImport('"@ + p.1 + "');"@,
        None => line,
    }
}

/// A whole source after rewriting: each line rewritten, the line structure
/// kept exactly.
pub open spec fn rewrite_source_spec(s: Seq<char>) -> Seq<char> {
    join_with(split_lines(s).map_values(|l: Seq<char>| rewrite_line_spec(l)), seq!['\n'])
}

/// A source that is a single line rewrites as that line does.
pub proof fn lemma_rewrite_single_line(s: Seq<char>)
    requires
        forall|k: int| 0 <= k < s.len() ==> s[k] != '\n',
    ensures
        rewrite_source_spec(s) == rewrite_line_spec(s),
{
    lemma_split_no_newline(s);
    let f = |l: Seq<char>| rewrite_line_spec(l);
    assert(split_lines(s).map_values(f) =~= seq![rewrite_line_spec(s)]);
}

/// A source whose first line feed stands at `j` rewrites as its first line
/// followed by a line feed and the rewrite of the rest.
pub proof fn lemma_rewrite_split(s: Seq<char>, j: int)
    requires
        0 <= j < s.len(),
        s[j] == '\n',
        forall|k: int| 0 <= k < j ==> s[k] != '\n',
    ensures
        rewrite_source_spec(s) == rewrite_line_spec(s.subrange(0, j)) + seq!['\n']
            + rewrite_source_spec(s.subrange(j + 1, s.len() as int)),
{
    lemma_split_first_newline(s, j);
    let t = s.subrange(j + 1, s.len() as int);
    lemma_split_lines_nonempty(t);
    let f = |l: Seq<char>| rewrite_line_spec(l);
    let parts = split_lines(s).map_values(f);
    assert(parts =~= seq![rewrite_line_spec(s.subrange(0, j))] + split_lines(t).map_values(f));
    assert(parts.drop_first() =~= split_lines(t).map_values(f));
    assert(parts.len() >= 2);
    assert(join_with(parts, seq!['\n']) == parts[0] + seq!['\n'] + join_with(
        parts.drop_first(),
        seq!['\n'],
    ));
}

/// A source none of whose lines is an import statement is returned
/// unchanged by the rewriter.
pub proof fn lemma_rewrite_no_imports(s: Seq<char>)
    requires
        forall|i: int|
            0 <= i < split_lines(s).len() ==> parse_import(#[trigger] split_lines(s)[i]) is None,
    ensures
        rewrite_source_spec(s) == s,
{
    let f = |l: Seq<char>| rewrite_line_spec(l);
    assert(split_lines(s).map_values(f) =~= split_lines(s));
    lemma_join_split(s);
}

/// Whether `line` holds the word `import` at position `i`.
fn has_import_at(line: &str, i: usize) -> (b: bool)
    requires
        i + 6 <= line@.len(),
        line@.len() <= usize::MAX,
    ensures
        b == (line@.subrange(i as int, i as int + 6) == "import"@),
{
    let c0 = line.get_char(i);
    let c1 = line.get_char(i + 1);
    let c2 = line.get_char(i + 2);
    let c3 = line.get_char(i + 3);
    let c4 = line.get_char(i + 4);
    let c5 = line.get_char(i + 5);
    let b = c0 == 'i' && c1 == 'm' && c2 == 'p' && c3 == 'o' && c4 == 'r' && c5 == 't';
    proof {
        reveal_strlit("import");
        let sub = line@.subrange(i as int, i as int + 6);
        assert(sub[0] == c0 && sub[1] == c1 && sub[2] == c2 && sub[3] == c3 && sub[4] == c4
            && sub[5] == c5);
        if b {
            assert(sub =~= "import"@);
        } else {
            assert(sub != "import"@);
        }
    }
    b
}

/// Whether `line` holds the word `from` at position `i`.
fn has_from_at(line: &str, i: usize) -> (b: bool)
    requires
        i + 4 <= line@.len(),
        line@.len() <= usize::MAX,
    ensures
        b == (line@.subrange(i as int, i as int + 4) == "from"@),
{
    let c0 = line.get_char(i);
    let c1 = line.get_char(i + 1);
    let c2 = line.get_char(i + 2);
    let c3 = line.get_char(i + 3);
    let b = c0 == 'f' && c1 == 'r' && c2 == 'o' && c3 == 'm';
    proof {
        reveal_strlit("from");
        let sub = line@.subrange(i as int, i as int + 4);
        assert(sub[0] == c0 && sub[1] == c1 && sub[2] == c2 && sub[3] == c3);
        if b {
            assert(sub =~= "from"@);
        } else {
            assert(sub != "from"@);
        }
    }
    b
}

/// Whether `line` holds the reserved module prefix `ns/` at position `i`.
fn has_ns_prefix_at(line: &str, i: usize) -> (b: bool)
    requires
        i + 3 <= line@.len(),
        line@.len() <= usize::MAX,
    ensures
        b == (line@.subrange(i as int, i as int + 3) == "ns/"@),
{
    let c0 = line.get_char(i);
    let c1 = line.get_char(i + 1);
    let c2 = line.get_char(i + 2);
    let b = c0 == 'n' && c1 == 's' && c2 == '/';
    proof {
        reveal_strlit("ns/");
        let sub = line@.subrange(i as int, i as int + 3);
        assert(sub[0] == c0 && sub[1] == c1 && sub[2] == c2);
        if b {
            assert(sub =~= "ns/"@);
        } else {
            assert(sub != "ns/"@);
        }
    }
    b
}

/// Parse one line against the import form, yielding the trimmed name list
/// and the trimmed namespace on a match.
pub fn parse_import_exec(line: &str) -> (r: Option<(String, String)>)
    ensures
        r is Some <==> parse_import(line@) is Some,
        r matches Some(p) ==> parse_import(line@) matches Some(q) && p.0@ == q.0 && p.1@ == q.1,
{
    let n = line.unicode_len();
    let i0 = skip_ws_exec(line, 0);
    if n < 6 || i0 > n - 6 {
        return None;
    }
    if !has_import_at(line, i0) {
        return None;
    }
    if !(i0 + 6 < n) {
        return None;
    }
    if !is_ws_char(line.get_char(i0 + 6)) {
        return None;
    }
    let i2 = skip_ws_exec(line, i0 + 6);
    if !(i2 < n) {
        return None;
    }
    if !(line.get_char(i2) == '{') {
        return None;
    }
    let j = find_from_exec(line, i2 + 1, '}');
    if !(j < n && j > i2 + 1) {
        return None;
    }
    if !(j + 1 < n) {
        return None;
    }
    if !is_ws_char(line.get_char(j + 1)) {
        return None;
    }
    let i4 = skip_ws_exec(line, j + 1);
    if n < 4 || i4 > n - 4 {
        return None;
    }
    if !has_from_at(line, i4) {
        return None;
    }
    if !(i4 + 4 < n) {
        return None;
    }
    if !is_ws_char(line.get_char(i4 + 4)) {
        return None;
    }
    let i6 = skip_ws_exec(line, i4 + 4);
    if !(i6 < n) {
        return None;
    }
    let qc = line.get_char(i6);
    if !(qc == '"' || qc == '\'') {
        return None;
    }
    let q = find_quote_from_exec(line, i6 + 1);
    if !(q < n) {
        return None;
    }
    if q - i6 < 5 {
        return None;
    }
    if !has_ns_prefix_at(line, i6 + 1) {
        return None;
    }
    let i8 = if q + 1 < n && line.get_char(q + 1) == ';' {
        q + 2
    } else {
        q + 1
    };
    let e = skip_ws_exec(line, i8);
    if !(e == n) {
        return None;
    }
    let names_s = line.substring_char(i2 + 1, j);
    let ns_s = line.substring_char(i6 + 1, q);
    let names_t = trim_exec(names_s);
    let ns_t = trim_exec(ns_s);
    Some((String::from_str(names_t), String::from_str(ns_t)))
}

/// Rewrite one line: an import line becomes a destructuring binding from
/// the module lookup function, any other line is returned unchanged.
pub fn rewrite_line(line: &str) -> (r: String)
    ensures
        r@ == rewrite_line_spec(line@),
{
    match parse_import_exec(line) {
        Some((names, ns)) => {
            let mut out = String::from_str("const {");
            out.append(names.as_str());
            out.append("} = __nsImport('");
            out.append(ns.as_str());
            out.append("');");
            proof {
                assert(out@ =~= rewrite_line_spec(line@));
            }
            out
        },
        None => String::from_str(line),
    }
}

/// Rewrite a whole source, line by line, keeping the line structure.
pub fn rewrite_imports(source: &str) -> (r: String)
    ensures
        r@ == rewrite_source_spec(source@),
{
    let mut out = String::new();
    let mut rest: &str = source;
    let mut rest_len: usize = rest.unicode_len();
    loop
        invariant
            rest_len == rest@.len(),
            rewrite_source_spec(source@) == out@ + rewrite_source_spec(rest@),
        decreases rest_len,
    {
        let j = find_from_exec(rest, 0, '\n');
        proof {
            lemma_find_from(rest@, 0, '\n');
        }
        if j < rest_len {
            let line = rest.substring_char(0, j);
            let rl = rewrite_line(line);
            let ghost pre = out@;
            out.append(rl.as_str());
            out.append("\n");
            proof {
                reveal_strlit("\n");
                assert("\n"@ =~= seq!['\n']);
                lemma_rewrite_split(rest@, j as int);
            }
            let tail = rest.substring_char(j + 1, rest_len);
            proof {
                assert(out@ + rewrite_source_spec(tail@) =~= pre + rewrite_source_spec(rest@));
            }
            rest = tail;
            rest_len = rest_len - (j + 1);
        } else {
            let rl = rewrite_line(rest);
            proof {
                lemma_rewrite_single_line(rest@);
            }
            out.append(rl.as_str());
            return out;
        }
    }
}

} // verus!
