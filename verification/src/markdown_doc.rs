//! Splitting a markdown document into frontmatter and body.
//!
//! A delimiter line is a line that, after trailing whitespace is removed,
//! consists solely of three or more dashes.  The first delimiter line opens
//! the frontmatter (which begins on the following line) and the second one
//! closes it (the body begins on the line after that).  With fewer than two
//! delimiter lines the whole input is body and the frontmatter is empty.
//! Later delimiter lines are ordinary body content.

use vstd::prelude::*;

use crate::text::{
    is_blank_char, is_blank_exec, trim_end_spec, trim_end_substring, trim_spec, trim_substring,
};

verus! {

/// A document split into its frontmatter block and its body.
#[derive(Debug)]
pub struct MarkdownDoc {
    pub frontmatter: String,
    pub body: String,
}

/// The end of the line that contains position `i`: the first position at or
/// after `i` that holds a line feed, or the end of the text.
pub open spec fn line_end(t: Seq<char>, i: int) -> int
    decreases t.len() - i,
    when 0 <= i <= t.len()
{
    if i >= t.len() {
        t.len() as int
    } else if t[i] == '\n' {
        i
    } else {
        line_end(t, i + 1)
    }
}

/// The start of the line after the one that contains position `i`.
pub open spec fn next_line(t: Seq<char>, i: int) -> int {
    if line_end(t, i) >= t.len() {
        t.len() as int
    } else {
        line_end(t, i) + 1
    }
}

/// The line that starts at position `i`, without its line feed.
pub open spec fn line_at(t: Seq<char>, i: int) -> Seq<char> {
    t.subrange(i, line_end(t, i))
}

/// Three or more characters, all of them dashes.
pub open spec fn is_dash_run(s: Seq<char>) -> bool {
    s.len() >= 3 && forall|i: int| 0 <= i < s.len() ==> s[i] == '-'
}

/// A delimiter line: solely dashes, three or more, once trailing whitespace
/// is removed.
pub open spec fn is_delim_line(line: Seq<char>) -> bool {
    is_dash_run(trim_end_spec(line))
}

/// The start of the first delimiter line at or after the line start `i`.
pub open spec fn find_delim(t: Seq<char>, i: int) -> Option<int>
    decreases t.len() - i,
    when 0 <= i <= t.len()
    via find_delim_decreases
{
    if i >= t.len() {
        Option::None
    } else if is_delim_line(line_at(t, i)) {
        Option::Some(i)
    } else {
        find_delim(t, next_line(t, i))
    }
}

#[via_fn]
proof fn find_delim_decreases(t: Seq<char>, i: int) {
    if 0 <= i <= t.len() {
        lemma_line_end_bounds(t, i);
    }
}

/// How many delimiter lines start at or after the line start `i`.
pub open spec fn delim_count(t: Seq<char>, i: int) -> nat
    decreases t.len() - i,
    when 0 <= i <= t.len()
    via delim_count_decreases
{
    if i >= t.len() {
        0
    } else {
        (if is_delim_line(line_at(t, i)) {
            1nat
        } else {
            0nat
        }) + delim_count(t, next_line(t, i))
    }
}

#[via_fn]
proof fn delim_count_decreases(t: Seq<char>, i: int) {
    if 0 <= i <= t.len() {
        lemma_line_end_bounds(t, i);
    }
}

/// The frontmatter and body of a document: the frontmatter sits between the
/// first two delimiter lines and loses its trailing whitespace; the body is
/// everything after the second delimiter line, trimmed on both sides.  With
/// fewer than two delimiter lines the frontmatter is empty and the body is
/// the whole input, trimmed.
pub open spec fn split_doc(t: Seq<char>) -> (Seq<char>, Seq<char>) {
    match find_delim(t, 0) {
        Option::None => (Seq::<char>::empty(), trim_spec(t)),
        Option::Some(d1) => {
            let fs = next_line(t, d1);
            match find_delim(t, fs) {
                Option::None => (Seq::<char>::empty(), trim_spec(t)),
                Option::Some(d2) => (
                    trim_end_spec(t.subrange(fs, d2)),
                    trim_spec(t.subrange(next_line(t, d2), t.len() as int)),
                ),
            }
        },
    }
}

/// Position `i`'s line ends no earlier than `i`, no later than the text, at
/// a line feed if not at the end, and crosses no line feed on the way.
pub proof fn lemma_line_end_bounds(t: Seq<char>, i: int)
    requires
        0 <= i <= t.len(),
    ensures
        i <= line_end(t, i) <= t.len(),
        line_end(t, i) < t.len() ==> t[line_end(t, i)] == '\n',
        forall|k: int| i <= k < line_end(t, i) ==> t[k] != '\n',
    decreases t.len() - i,
{
    if i < t.len() && t[i] != '\n' {
        lemma_line_end_bounds(t, i + 1);
    }
}

/// What `find_delim` returns: `None` means no delimiter line remains, and a
/// hit is a delimiter line whose predecessors since `i` are not.
pub proof fn lemma_find_delim_props(t: Seq<char>, i: int)
    requires
        0 <= i <= t.len(),
    ensures
        match find_delim(t, i) {
            Option::None => delim_count(t, i) == 0,
            Option::Some(d) => i <= d < t.len() && is_delim_line(line_at(t, d)) && delim_count(
                t,
                i,
            ) == 1 + delim_count(t, next_line(t, d)),
        },
    decreases t.len() - i,
{
    if i < t.len() {
        lemma_line_end_bounds(t, i);
        if !is_delim_line(line_at(t, i)) {
            lemma_find_delim_props(t, next_line(t, i));
        }
    }
}

/// With at most one delimiter line, the frontmatter is empty and the body is
/// the whole input, trimmed.
pub proof fn lemma_few_delims_whole_body(t: Seq<char>)
    requires
        delim_count(t, 0) <= 1,
    ensures
        split_doc(t).0 == Seq::<char>::empty(),
        split_doc(t).1 == trim_spec(t),
{
    lemma_find_delim_props(t, 0);
    match find_delim(t, 0) {
        Option::None => {},
        Option::Some(d1) => {
            lemma_line_end_bounds(t, d1);
            lemma_find_delim_props(t, next_line(t, d1));
            match find_delim(t, next_line(t, d1)) {
                Option::None => {},
                Option::Some(_) => {
                    assert(delim_count(t, 0) >= 2);
                },
            }
        },
    }
}

/// With two or more delimiter lines, only the first pair delimits the
/// frontmatter: it sits between the first two, and the body is the text
/// after the second one, verbatim but for trimming, whatever dash-only
/// lines it still holds.
pub proof fn lemma_first_pair_delimits(t: Seq<char>)
    requires
        delim_count(t, 0) >= 2,
    ensures
        ({
            let d1 = find_delim(t, 0)->0;
            let fs = next_line(t, d1);
            let d2 = find_delim(t, fs)->0;
            &&& find_delim(t, 0) is Some
            &&& find_delim(t, fs) is Some
            &&& split_doc(t).0 == trim_end_spec(t.subrange(fs, d2))
            &&& split_doc(t).1 == trim_spec(t.subrange(next_line(t, d2), t.len() as int))
        }),
{
    lemma_find_delim_props(t, 0);
    let d1 = find_delim(t, 0)->0;
    lemma_line_end_bounds(t, d1);
    lemma_find_delim_props(t, next_line(t, d1));
}

/// The end of the line that starts at `i`, by a forward scan.
fn line_end_exec(s: &str, i: usize) -> (r: usize)
    requires
        i <= s@.len(),
    ensures
        r as int == line_end(s@, i as int),
        i <= r <= s@.len(),
{
    let n = s.unicode_len();
    let mut j = i;
    while j < n && s.get_char(j) != '\n'
        invariant
            i <= j <= n,
            n == s@.len(),
            line_end(s@, i as int) == line_end(s@, j as int),
        decreases n - j,
    {
        assert(line_end(s@, j as int) == line_end(s@, j + 1));
        j = j + 1;
    }
    proof {
        lemma_line_end_bounds(s@, i as int);
    }
    j
}

/// Whether the line `[a, b)` of `s` is a delimiter line.
fn is_delim_exec(s: &str, a: usize, b: usize) -> (r: bool)
    requires
        a <= b <= s@.len(),
    ensures
        r == is_delim_line(s@.subrange(a as int, b as int)),
{
    let mut e = b;
    while e > a && is_blank_exec(s.get_char(e - 1))
        invariant
            a <= e <= b <= s@.len(),
            forall|k: int| e <= k < b ==> is_blank_char(s@[k]),
        decreases e,
    {
        e = e - 1;
    }
    proof {
        let line = s@.subrange(a as int, b as int);
        crate::text::lemma_trim_end_at(line, e - a);
        assert(line.subrange(0, e - a) =~= s@.subrange(a as int, e as int));
    }
    if e - a < 3 {
        assert(!is_dash_run(s@.subrange(a as int, e as int)));
        return false;
    }
    let mut k = a;
    while k < e
        invariant
            a <= k <= e <= s@.len(),
            e - a >= 3,
            forall|j: int| a <= j < k ==> s@[j] == '-',
            trim_end_spec(s@.subrange(a as int, b as int)) == s@.subrange(a as int, e as int),
            is_delim_line(s@.subrange(a as int, b as int)) == is_dash_run(
                s@.subrange(a as int, e as int),
            ),
        decreases e - k,
    {
        if s.get_char(k) != '-' {
            assert(s@.subrange(a as int, e as int)[k - a] != '-');
            assert(!is_dash_run(s@.subrange(a as int, e as int)));
            return false;
        }
        k = k + 1;
    }
    assert forall|j: int| 0 <= j < e - a implies s@.subrange(a as int, e as int)[j] == '-' by {
        assert(s@[a + j] == '-');
    }
    assert(is_dash_run(s@.subrange(a as int, e as int)));
    true
}

/// The start of the first delimiter line at or after `i`, by a line-by-line
/// scan.
fn find_delim_exec(s: &str, i: usize) -> (r: Option<usize>)
    requires
        i <= s@.len(),
    ensures
        match r {
            Option::Some(d) => find_delim(s@, i as int) == Option::Some(d as int) && i <= d
                < s@.len(),
            Option::None => find_delim(s@, i as int) is None,
        },
{
    let n = s.unicode_len();
    let mut j = i;
    loop
        invariant
            i <= j <= n,
            n == s@.len(),
            find_delim(s@, i as int) == find_delim(s@, j as int),
        decreases n - j,
    {
        if j >= n {
            return None;
        }
        let le = line_end_exec(s, j);
        if is_delim_exec(s, j, le) {
            assert(find_delim(s@, j as int) == Option::Some(j as int));
            return Some(j);
        }
        proof {
            lemma_line_end_bounds(s@, j as int);
            assert(find_delim(s@, j as int) == find_delim(s@, next_line(s@, j as int)));
        }
        let nx = if le >= n {
            n
        } else {
            le + 1
        };
        assert(nx as int == next_line(s@, j as int));
        j = nx;
    }
}

/// The start of the line after the line that starts at `i`.
fn next_line_exec(s: &str, i: usize) -> (r: usize)
    requires
        i <= s@.len(),
    ensures
        r as int == next_line(s@, i as int),
        i <= r <= s@.len(),
{
    let n = s.unicode_len();
    let le = line_end_exec(s, i);
    if le >= n {
        n
    } else {
        le + 1
    }
}

impl MarkdownDoc {
    /// Splits a markdown document on its first two delimiter lines: the
    /// frontmatter sits between them, kept verbatim but for trailing
    /// whitespace, and the body is everything after the second, trimmed.
    /// With fewer than two delimiter lines the frontmatter is empty and the
    /// body is the whole input, trimmed.
    pub fn parse(markdown: &str) -> (doc: MarkdownDoc)
        ensures
            doc.frontmatter@ == split_doc(markdown@).0,
            doc.body@ == split_doc(markdown@).1,
    {
        let n = markdown.unicode_len();
        if let Some(d1) = find_delim_exec(markdown, 0) {
            let fs = next_line_exec(markdown, d1);
            if let Some(d2) = find_delim_exec(markdown, fs) {
                proof {
                    lemma_find_delim_props(markdown@, fs as int);
                }
                let fm = trim_end_substring(markdown, fs, d2);
                let ns = next_line_exec(markdown, d2);
                let body = trim_substring(markdown, ns, n);
                return MarkdownDoc { frontmatter: fm, body };
            }
            let body = trim_substring(markdown, 0, n);
            proof {
                assert(markdown@.subrange(0, n as int) =~= markdown@);
            }
            return MarkdownDoc { frontmatter: String::new(), body };
        }
        let body = trim_substring(markdown, 0, n);
        proof {
            assert(markdown@.subrange(0, n as int) =~= markdown@);
        }
        MarkdownDoc { frontmatter: String::new(), body }
    }
}

} // verus!
