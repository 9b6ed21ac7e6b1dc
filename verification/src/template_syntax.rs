//! The template subset this library renders: plain text plus interpolations
//! of the form `{{ NAME }}` or `{{ NAME | filter }}`, where the filters are
//! the four case filters.  Statements (`{%`), comments (`{#`), literals,
//! operators and every other engine construct are outside the subset and
//! are refused before the engine ever sees them.
//!
//! The restriction is what lets the render wrappers be trusted: within this
//! subset the engine only looks names up and applies this library's
//! filters, so rendering terminates and cannot panic, which an unrestricted
//! template could break (unchecked modulo arithmetic, non-finite float
//! results, self-recursive macros).

use vstd::prelude::*;

verus! {

/// An ASCII letter or underscore: the start of a name.
pub open spec fn ident_start_char(c: char) -> bool {
    let u = c as u32;
    (0x61 <= u && u <= 0x7A) || (0x41 <= u && u <= 0x5A) || u == 0x5F
}

/// An ASCII letter, digit or underscore: a later character of a name.
pub open spec fn ident_char(c: char) -> bool {
    ident_start_char(c) || {
        let u = c as u32;
        0x30 <= u && u <= 0x39
    }
}

/// The whitespace the engine allows inside an interpolation.
pub open spec fn space_char(c: char) -> bool {
    c == ' ' || c == '\t' || c == '\r' || c == '\n'
}

/// The first index at or after `i`, up to `b`, that is not whitespace.
pub open spec fn skip_spaces(t: Seq<char>, i: int, b: int) -> int
    decreases b - i,
    when 0 <= i <= b <= t.len()
{
    if i >= b {
        b
    } else if space_char(t[i]) {
        skip_spaces(t, i + 1, b)
    } else {
        i
    }
}

/// The first index at or after `i`, up to `b`, that is not a name
/// character.
pub open spec fn ident_run_end(t: Seq<char>, i: int, b: int) -> int
    decreases b - i,
    when 0 <= i <= b <= t.len()
{
    if i >= b {
        b
    } else if ident_char(t[i]) {
        ident_run_end(t, i + 1, b)
    } else {
        i
    }
}

/// `skip_spaces` stays within its bounds.
pub proof fn lemma_skip_spaces_bounds(t: Seq<char>, i: int, b: int)
    requires
        0 <= i <= b <= t.len(),
    ensures
        i <= skip_spaces(t, i, b) <= b,
    decreases b - i,
{
    if i < b && space_char(t[i]) {
        lemma_skip_spaces_bounds(t, i + 1, b);
    }
}

/// `ident_run_end` stays within its bounds.
pub proof fn lemma_ident_run_end_bounds(t: Seq<char>, i: int, b: int)
    requires
        0 <= i <= b <= t.len(),
    ensures
        i <= ident_run_end(t, i, b) <= b,
    decreases b - i,
{
    if i < b && ident_char(t[i]) {
        lemma_ident_run_end_bounds(t, i + 1, b);
    }
}

/// One of the four case filter names.
pub open spec fn is_case_filter_name(s: Seq<char>) -> bool {
    s == "kebab"@ || s == "pascal"@ || s == "camel"@ || s == "snake"@
}

/// A chain of zero or more `| filter` applications, each naming a case
/// filter, with optional whitespace, filling `[i, b)` exactly.
pub open spec fn filters_ok(t: Seq<char>, i: int, b: int) -> bool
    decreases b - i,
    when 0 <= i <= b <= t.len()
    via filters_ok_decreases
{
    let j = skip_spaces(t, i, b);
    if j >= b {
        true
    } else if t[j] == '|' {
        let k = skip_spaces(t, j + 1, b);
        if k >= b || !ident_start_char(t[k]) {
            false
        } else {
            let e = ident_run_end(t, k + 1, b);
            is_case_filter_name(t.subrange(k, e)) && filters_ok(t, e, b)
        }
    } else {
        false
    }
}

#[via_fn]
proof fn filters_ok_decreases(t: Seq<char>, i: int, b: int) {
    if 0 <= i <= b <= t.len() {
        lemma_skip_spaces_bounds(t, i, b);
        let j = skip_spaces(t, i, b);
        if j < b && t[j] == '|' {
            lemma_skip_spaces_bounds(t, j + 1, b);
            let k = skip_spaces(t, j + 1, b);
            if k < b {
                lemma_ident_run_end_bounds(t, k + 1, b);
            }
        }
    }
}

/// A supported interpolation interior over `[a, b)`: one name, then a chain
/// of case filters.
pub open spec fn interp_ok(t: Seq<char>, a: int, b: int) -> bool {
    let i = skip_spaces(t, a, b);
    if i >= b || !ident_start_char(t[i]) {
        false
    } else {
        filters_ok(t, ident_run_end(t, i + 1, b), b)
    }
}

/// The start of the first `}}` at or after `i`, or `-1` when there is none.
pub open spec fn region_close(t: Seq<char>, i: int) -> int
    decreases t.len() - i,
    when 0 <= i <= t.len()
{
    if i + 1 >= t.len() {
        -1
    } else if t[i] == '}' && t[i + 1] == '}' {
        i
    } else {
        region_close(t, i + 1)
    }
}

/// `region_close` finds `}}` within the text or nothing.
pub proof fn lemma_region_close_bounds(t: Seq<char>, i: int)
    requires
        0 <= i <= t.len(),
    ensures
        region_close(t, i) == -1 || (i <= region_close(t, i) && region_close(t, i) + 2 <= t.len()),
    decreases t.len() - i,
{
    if i + 1 < t.len() && !(t[i] == '}' && t[i + 1] == '}') {
        lemma_region_close_bounds(t, i + 1);
    }
}

/// The text from `i` on is within the supported subset: no statement or
/// comment opener, and every `{{` opens a closed interpolation whose
/// interior is a name with case filters.
pub open spec fn supported_from(t: Seq<char>, i: int) -> bool
    decreases t.len() - i,
    when 0 <= i <= t.len()
    via supported_from_decreases
{
    if i >= t.len() {
        true
    } else if t[i] == '{' && i + 1 < t.len() && (t[i + 1] == '%' || t[i + 1] == '#') {
        false
    } else if t[i] == '{' && i + 1 < t.len() && t[i + 1] == '{' {
        let c = region_close(t, i + 2);
        if c < 0 {
            false
        } else {
            interp_ok(t, i + 2, c) && supported_from(t, c + 2)
        }
    } else {
        supported_from(t, i + 1)
    }
}

#[via_fn]
proof fn supported_from_decreases(t: Seq<char>, i: int) {
    if 0 <= i <= t.len() && i < t.len() {
        if t[i] == '{' && i + 1 < t.len() && t[i + 1] == '{' {
            lemma_region_close_bounds(t, i + 2);
        }
    }
}

/// The whole text is within the supported subset.
pub open spec fn supported_template(t: Seq<char>) -> bool {
    supported_from(t, 0)
}

/// The message reported for a template outside the supported subset.
pub open spec fn unsupported_template_message() -> Seq<char> {
    "unsupported template syntax: only {{ NAME }} interpolations with the kebab, pascal, camel and snake filters are available"@
}

/// The message reported for a template outside the supported subset.
pub fn unsupported_template_text() -> (r: String)
    ensures
        r@ == unsupported_template_message(),
{
    String::from_str(
        "unsupported template syntax: only {{ NAME }} interpolations with the kebab, pascal, camel and snake filters are available",
    )
}

/// Whether the character starts a name.
fn ident_start_exec(c: char) -> (r: bool)
    ensures
        r == ident_start_char(c),
{
    let u = c as u32;
    (0x61 <= u && u <= 0x7A) || (0x41 <= u && u <= 0x5A) || u == 0x5F
}

/// Whether the character continues a name.
fn ident_char_exec(c: char) -> (r: bool)
    ensures
        r == ident_char(c),
{
    let u = c as u32;
    ident_start_exec(c) || (0x30 <= u && u <= 0x39)
}

/// Whether the character is interpolation whitespace.
fn space_exec(c: char) -> (r: bool)
    ensures
        r == space_char(c),
{
    c == ' ' || c == '\t' || c == '\r' || c == '\n'
}

/// The first non-whitespace index in `[i, b)`, by a forward scan.
fn skip_spaces_exec(s: &str, i: usize, b: usize) -> (r: usize)
    requires
        i <= b <= s@.len(),
    ensures
        r as int == skip_spaces(s@, i as int, b as int),
        i <= r <= b,
{
    let mut j = i;
    while j < b && space_exec(s.get_char(j))
        invariant
            i <= j <= b <= s@.len(),
            skip_spaces(s@, i as int, b as int) == skip_spaces(s@, j as int, b as int),
        decreases b - j,
    {
        j = j + 1;
    }
    j
}

/// The first non-name-character index in `[i, b)`, by a forward scan.
fn ident_run_end_exec(s: &str, i: usize, b: usize) -> (r: usize)
    requires
        i <= b <= s@.len(),
    ensures
        r as int == ident_run_end(s@, i as int, b as int),
        i <= r <= b,
{
    let mut j = i;
    while j < b && ident_char_exec(s.get_char(j))
        invariant
            i <= j <= b <= s@.len(),
            ident_run_end(s@, i as int, b as int) == ident_run_end(s@, j as int, b as int),
        decreases b - j,
    {
        j = j + 1;
    }
    j
}

/// Whether `s@.subrange(k, e)` is one of the four case filter names.
fn case_filter_name_exec(s: &str, k: usize, e: usize) -> (r: bool)
    requires
        k <= e <= s@.len(),
    ensures
        r == is_case_filter_name(s@.subrange(k as int, e as int)),
{
    let sub = s.substring_char(k, e);
    let n = e - k;
    proof {
        reveal_strlit("kebab");
        reveal_strlit("pascal");
        reveal_strlit("camel");
        reveal_strlit("snake");
    }
    if n == 5 && sub.get_char(0) == 'k' && sub.get_char(1) == 'e' && sub.get_char(2) == 'b'
        && sub.get_char(3) == 'a' && sub.get_char(4) == 'b' {
        proof {
            assert(sub@ =~= "kebab"@);
        }
        return true;
    }
    if n == 6 && sub.get_char(0) == 'p' && sub.get_char(1) == 'a' && sub.get_char(2) == 's'
        && sub.get_char(3) == 'c' && sub.get_char(4) == 'a' && sub.get_char(5) == 'l' {
        proof {
            assert(sub@ =~= "pascal"@);
        }
        return true;
    }
    if n == 5 && sub.get_char(0) == 'c' && sub.get_char(1) == 'a' && sub.get_char(2) == 'm'
        && sub.get_char(3) == 'e' && sub.get_char(4) == 'l' {
        proof {
            assert(sub@ =~= "camel"@);
        }
        return true;
    }
    if n == 5 && sub.get_char(0) == 's' && sub.get_char(1) == 'n' && sub.get_char(2) == 'a'
        && sub.get_char(3) == 'k' && sub.get_char(4) == 'e' {
        proof {
            assert(sub@ =~= "snake"@);
        }
        return true;
    }
    proof {
        if is_case_filter_name(sub@) {
            assert(false);
        }
    }
    false
}

/// Whether `[i, b)` is a chain of case filter applications, by a scan.
fn filters_ok_exec(s: &str, i: usize, b: usize) -> (r: bool)
    requires
        i <= b <= s@.len(),
    ensures
        r == filters_ok(s@, i as int, b as int),
{
    let mut cur = i;
    loop
        invariant
            i <= cur <= b <= s@.len(),
            filters_ok(s@, i as int, b as int) == filters_ok(s@, cur as int, b as int),
        decreases b - cur,
    {
        let j = skip_spaces_exec(s, cur, b);
        if j >= b {
            return true;
        }
        if s.get_char(j) != '|' {
            return false;
        }
        let k = skip_spaces_exec(s, j + 1, b);
        if k >= b || !ident_start_exec(s.get_char(k)) {
            return false;
        }
        let e = ident_run_end_exec(s, k + 1, b);
        if !case_filter_name_exec(s, k, e) {
            return false;
        }
        assert(filters_ok(s@, cur as int, b as int) == filters_ok(s@, e as int, b as int));
        cur = e;
    }
}

/// Whether `[a, b)` is a supported interpolation interior.
fn interp_ok_exec(s: &str, a: usize, b: usize) -> (r: bool)
    requires
        a <= b <= s@.len(),
    ensures
        r == interp_ok(s@, a as int, b as int),
{
    let i = skip_spaces_exec(s, a, b);
    if i >= b || !ident_start_exec(s.get_char(i)) {
        return false;
    }
    let e = ident_run_end_exec(s, i + 1, b);
    filters_ok_exec(s, e, b)
}

/// The start of the first `}}` at or after `i`, by a forward scan.
fn region_close_exec(s: &str, i: usize) -> (r: Option<usize>)
    requires
        i <= s@.len(),
    ensures
        match r {
            Option::Some(c) => region_close(s@, i as int) == c as int && i <= c && c + 2
                <= s@.len(),
            Option::None => region_close(s@, i as int) == -1,
        },
{
    let n = s.unicode_len();
    let mut j = i;
    loop
        invariant
            i <= j <= n,
            n == s@.len(),
            region_close(s@, i as int) == region_close(s@, j as int),
        decreases n - j,
    {
        if n - j < 2 {
            return None;
        }
        if s.get_char(j) == '}' && s.get_char(j + 1) == '}' {
            return Some(j);
        }
        j = j + 1;
    }
}

/// Whether the whole text lies within the supported template subset.
pub fn template_supported(s: &str) -> (r: bool)
    ensures
        r == supported_template(s@),
{
    let n = s.unicode_len();
    let mut i: usize = 0;
    loop
        invariant
            i <= n,
            n == s@.len(),
            supported_template(s@) == supported_from(s@, i as int),
        decreases n - i,
    {
        if i >= n {
            return true;
        }
        if s.get_char(i) == '{' && i + 1 < n {
            let next = s.get_char(i + 1);
            if next == '%' || next == '#' {
                return false;
            }
            if next == '{' {
                match region_close_exec(s, i + 2) {
                    Option::None => {
                        return false;
                    },
                    Option::Some(c) => {
                        if !interp_ok_exec(s, i + 2, c) {
                            return false;
                        }
                        assert(supported_from(s@, i as int) == supported_from(s@, c + 2));
                        i = c + 2;
                        continue;
                    },
                }
            }
        }
        assert(supported_from(s@, i as int) == supported_from(s@, i + 1));
        i = i + 1;
    }
}

} // verus!
