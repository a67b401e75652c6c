//! Character-sequence utilities shared by the import rewriter and the
//! report assembly: whitespace scanning, trimming, searching, splitting a
//! source into lines and joining parts back together.

use vstd::prelude::*;

verus! {

/// The whitespace characters recognized inside a single line: space, tab,
/// carriage return, vertical tab and form feed. A line never contains a
/// line feed, since sources are split at line feeds first.
pub open spec fn is_ws(c: char) -> bool {
    c == ' ' || c == '\t' || c == '\r' || c == '\u{b}' || c == '\u{c}'
}

/// First index at or after `i` holding a non-whitespace character, or the
/// length of `s` if there is none.
pub open spec fn skip_ws(s: Seq<char>, i: int) -> int
    decreases s.len() - i when 0 <= i <= s.len()
{
    if i < s.len() && is_ws(s[i]) {
        skip_ws(s, i + 1)
    } else {
        i
    }
}

/// First index at or after `i` holding the character `c`, or the length of
/// `s` if there is none.
pub open spec fn find_from(s: Seq<char>, i: int, c: char) -> int
    decreases s.len() - i when 0 <= i <= s.len()
{
    if i < s.len() {
        if s[i] == c {
            i
        } else {
            find_from(s, i + 1, c)
        }
    } else {
        i
    }
}

pub proof fn lemma_find_from(s: Seq<char>, i: int, c: char)
    requires
        0 <= i <= s.len(),
    ensures
        i <= find_from(s, i, c) <= s.len(),
        forall|k: int| i <= k < find_from(s, i, c) ==> s[k] != c,
        find_from(s, i, c) < s.len() ==> s[find_from(s, i, c)] == c,
    decreases s.len() - i,
{
    if i < s.len() && s[i] != c {
        lemma_find_from(s, i + 1, c);
    }
}

/// A string-literal quote character of the import syntax.
pub open spec fn is_quote(c: char) -> bool {
    c == '"' || c == '\''
}

/// First index at or after `i` holding either quote character, or the
/// length of `s` if there is none.
pub open spec fn find_quote_from(s: Seq<char>, i: int) -> int
    decreases s.len() - i when 0 <= i <= s.len()
{
    if i < s.len() {
        if is_quote(s[i]) {
            i
        } else {
            find_quote_from(s, i + 1)
        }
    } else {
        i
    }
}

/// Start of the maximal whitespace suffix of `s`: the smallest index such
/// that everything from it on is whitespace.
pub open spec fn ws_suffix_start(s: Seq<char>) -> int
    decreases s.len()
{
    if s.len() > 0 && is_ws(s.last()) {
        ws_suffix_start(s.drop_last())
    } else {
        s.len() as int
    }
}

/// `s` with leading and trailing whitespace removed.
pub open spec fn trim_spec(s: Seq<char>) -> Seq<char> {
    let a: int = skip_ws(s, 0);
    let b: int = ws_suffix_start(s);
    if a < b {
        s.subrange(a, b)
    } else {
        Seq::empty()
    }
}

/// The parts joined with `sep` between consecutive parts.
pub open spec fn join_with(parts: Seq<Seq<char>>, sep: Seq<char>) -> Seq<char>
    decreases parts.len()
{
    if parts.len() == 0 {
        Seq::empty()
    } else if parts.len() == 1 {
        parts[0]
    } else {
        parts[0] + sep + join_with(parts.drop_first(), sep)
    }
}

/// Appending one more part extends the join by the separator and the
/// part, except into an empty join.
pub proof fn lemma_join_with_push(p: Seq<Seq<char>>, x: Seq<char>, sep: Seq<char>)
    ensures
        join_with(p.push(x), sep) == if p.len() == 0 {
            x
        } else {
            join_with(p, sep) + sep + x
        },
    decreases p.len(),
{
    if p.len() == 0 {
        assert(p.push(x) =~= seq![x]);
    } else if p.len() == 1 {
        assert(p.push(x).drop_first() =~= seq![x]);
        assert((p.push(x))[0] == p[0]);
        assert(join_with(seq![x], sep) == x);
        assert(join_with(p.push(x), sep) == p[0] + sep + x);
        assert(join_with(p, sep) == p[0]);
        assert(join_with(p.push(x), sep) =~= join_with(p, sep) + sep + x);
    } else {
        assert(p.push(x).drop_first() =~= p.drop_first().push(x));
        lemma_join_with_push(p.drop_first(), x, sep);
        assert((p.push(x))[0] == p[0]);
        assert(join_with(p.push(x), sep) == p[0] + sep + join_with(p.drop_first().push(x), sep));
        assert(join_with(p.drop_first().push(x), sep) == join_with(p.drop_first(), sep) + sep + x);
        assert(join_with(p, sep) == p[0] + sep + join_with(p.drop_first(), sep));
        assert(join_with(p.push(x), sep) =~= join_with(p, sep) + sep + x);
    }
}

/// Concatenation of all the parts, in order.
pub open spec fn concat_all(parts: Seq<Seq<char>>) -> Seq<char>
    decreases parts.len()
{
    if parts.len() == 0 {
        Seq::empty()
    } else {
        parts[0] + concat_all(parts.drop_first())
    }
}

/// `s` split at line feeds. A source of `n` line feeds has exactly `n + 1`
/// lines, empty lines included; no line contains a line feed.
pub open spec fn split_lines(s: Seq<char>) -> Seq<Seq<char>>
    decreases s.len()
{
    if s.len() == 0 {
        seq![Seq::<char>::empty()]
    } else if s[0] == '\n' {
        seq![Seq::<char>::empty()] + split_lines(s.drop_first())
    } else {
        let r = split_lines(s.drop_first());
        r.update(0, seq![s[0]] + r[0])
    }
}

pub proof fn lemma_split_lines_nonempty(s: Seq<char>)
    ensures
        split_lines(s).len() >= 1,
    decreases s.len(),
{
    if s.len() > 0 {
        lemma_split_lines_nonempty(s.drop_first());
    }
}

/// Splitting at line feeds and joining with a line feed gives the source
/// back unchanged.
pub proof fn lemma_join_split(s: Seq<char>)
    ensures
        join_with(split_lines(s), seq!['\n']) == s,
    decreases s.len(),
{
    if s.len() == 0 {
        assert(join_with(split_lines(s), seq!['\n']) =~= s);
    } else if s[0] == '\n' {
        lemma_join_split(s.drop_first());
        lemma_split_lines_nonempty(s.drop_first());
        let parts = split_lines(s);
        assert(parts.drop_first() =~= split_lines(s.drop_first()));
        assert(join_with(parts, seq!['\n']) =~= s);
    } else {
        lemma_join_split(s.drop_first());
        lemma_split_lines_nonempty(s.drop_first());
        let r = split_lines(s.drop_first());
        let parts = split_lines(s);
        assert(parts == r.update(0, seq![s[0]] + r[0]));
        if r.len() == 1 {
            assert(join_with(parts, seq!['\n']) =~= s);
        } else {
            assert(parts.drop_first() =~= r.drop_first());
            assert(join_with(parts, seq!['\n']) == parts[0] + seq!['\n'] + join_with(
                parts.drop_first(),
                seq!['\n'],
            ));
            assert(join_with(r, seq!['\n']) == r[0] + seq!['\n'] + join_with(
                r.drop_first(),
                seq!['\n'],
            ));
            assert(join_with(parts, seq!['\n']) =~= seq![s[0]] + join_with(r, seq!['\n']));
            assert(join_with(parts, seq!['\n']) =~= s);
        }
    }
}

/// A source without a line feed is a single line.
pub proof fn lemma_split_no_newline(s: Seq<char>)
    requires
        forall|k: int| 0 <= k < s.len() ==> s[k] != '\n',
    ensures
        split_lines(s) == seq![s],
    decreases s.len(),
{
    if s.len() == 0 {
        assert(split_lines(s) =~~= seq![s]);
    } else {
        assert(forall|k: int| 0 <= k < s.len() - 1 ==> s.drop_first()[k] == s[k + 1]);
        lemma_split_no_newline(s.drop_first());
        let r = split_lines(s.drop_first());
        assert(r == seq![s.drop_first()]);
        assert(seq![s[0]] + s.drop_first() =~= s);
        assert(split_lines(s) =~~= seq![s]);
    }
}

/// A source whose first line feed stands at `j` splits into the line before
/// it followed by the lines of what comes after it.
pub proof fn lemma_split_first_newline(s: Seq<char>, j: int)
    requires
        0 <= j < s.len(),
        s[j] == '\n',
        forall|k: int| 0 <= k < j ==> s[k] != '\n',
    ensures
        split_lines(s) == seq![s.subrange(0, j)] + split_lines(s.subrange(j + 1, s.len() as int)),
    decreases j,
{
    if j == 0 {
        assert(s.drop_first() =~= s.subrange(1, s.len() as int));
        assert(s.subrange(0, 0) =~= Seq::<char>::empty());
        assert(split_lines(s) =~~= seq![s.subrange(0, j)] + split_lines(
            s.subrange(j + 1, s.len() as int),
        ));
    } else {
        let t = s.drop_first();
        assert(forall|k: int| 0 <= k < t.len() ==> t[k] == s[k + 1]);
        lemma_split_first_newline(t, j - 1);
        let r = split_lines(t);
        lemma_split_lines_nonempty(t.subrange(j, t.len() as int));
        assert(r == seq![t.subrange(0, j - 1)] + split_lines(t.subrange(j, t.len() as int)));
        assert(t.subrange(j, t.len() as int) =~= s.subrange(j + 1, s.len() as int));
        assert(seq![s[0]] + t.subrange(0, j - 1) =~= s.subrange(0, j));
        assert(split_lines(s) == r.update(0, seq![s[0]] + r[0]));
        assert(split_lines(s) =~~= seq![s.subrange(0, j)] + split_lines(
            s.subrange(j + 1, s.len() as int),
        ));
    }
}

/// Whether `c` counts as whitespace within a line.
pub fn is_ws_char(c: char) -> (b: bool)
    ensures
        b == is_ws(c),
{
    c == ' ' || c == '\t' || c == '\r' || c == '\u{b}' || c == '\u{c}'
}

/// First index at or after `i` holding a non-whitespace character.
pub fn skip_ws_exec(s: &str, i: usize) -> (j: usize)
    requires
        i <= s@.len(),
    ensures
        j == skip_ws(s@, i as int),
        i <= j <= s@.len(),
{
    let n = s.unicode_len();
    let mut j = i;
    loop
        invariant
            i <= j <= n,
            n == s@.len(),
            skip_ws(s@, i as int) == skip_ws(s@, j as int),
        decreases n - j,
    {
        if j < n && is_ws_char(s.get_char(j)) {
            assert(skip_ws(s@, j as int) == skip_ws(s@, j + 1));
            j = j + 1;
        } else {
            assert(skip_ws(s@, j as int) == j);
            return j;
        }
    }
}

/// First index at or after `i` holding `c`, or the length of `s`.
pub fn find_from_exec(s: &str, i: usize, c: char) -> (j: usize)
    requires
        i <= s@.len(),
    ensures
        j == find_from(s@, i as int, c),
        i <= j <= s@.len(),
{
    let n = s.unicode_len();
    let mut j = i;
    loop
        invariant
            i <= j <= n,
            n == s@.len(),
            find_from(s@, i as int, c) == find_from(s@, j as int, c),
        decreases n - j,
    {
        if j < n {
            if s.get_char(j) == c {
                assert(find_from(s@, j as int, c) == j);
                return j;
            }
            assert(find_from(s@, j as int, c) == find_from(s@, j + 1, c));
            j = j + 1;
        } else {
            assert(find_from(s@, j as int, c) == j);
            return j;
        }
    }
}

/// First index at or after `i` holding either quote character.
pub fn find_quote_from_exec(s: &str, i: usize) -> (j: usize)
    requires
        i <= s@.len(),
    ensures
        j == find_quote_from(s@, i as int),
        i <= j <= s@.len(),
{
    let n = s.unicode_len();
    let mut j = i;
    loop
        invariant
            i <= j <= n,
            n == s@.len(),
            find_quote_from(s@, i as int) == find_quote_from(s@, j as int),
        decreases n - j,
    {
        if j < n {
            let c = s.get_char(j);
            if c == '"' || c == '\'' {
                assert(find_quote_from(s@, j as int) == j);
                return j;
            }
            assert(find_quote_from(s@, j as int) == find_quote_from(s@, j + 1));
            j = j + 1;
        } else {
            assert(find_quote_from(s@, j as int) == j);
            return j;
        }
    }
}

/// `s` with leading and trailing whitespace removed.
pub fn trim_exec(s: &str) -> (r: &str)
    ensures
        r@ == trim_spec(s@),
{
    let n = s.unicode_len();
    let a = skip_ws_exec(s, 0);
    let mut b = n;
    proof {
        assert(s@.subrange(0, n as int) =~= s@);
    }
    while b > 0 && is_ws_char(s.get_char(b - 1))
        invariant
            0 <= b <= n,
            n == s@.len(),
            ws_suffix_start(s@) == ws_suffix_start(s@.subrange(0, b as int)),
        decreases b,
    {
        proof {
            let p = s@.subrange(0, b as int);
            assert(p.last() == s@[b - 1]);
            assert(p.drop_last() =~= s@.subrange(0, b - 1));
        }
        b = b - 1;
    }
    proof {
        let p = s@.subrange(0, b as int);
        if b > 0 {
            assert(p.last() == s@[b - 1]);
            assert(!is_ws(p.last()));
        }
        assert(ws_suffix_start(p) == p.len());
        assert(ws_suffix_start(s@) == b);
    }
    if a < b {
        let r = s.substring_char(a, b);
        assert(r@ == trim_spec(s@));
        r
    } else {
        let r = s.substring_char(0, 0);
        assert(r@ =~= trim_spec(s@));
        r
    }
}

} // verus!
