//! Whitespace trimming over character sequences: the specification-level
//! trimming functions and the executable helpers that produce trimmed
//! substrings of a `&str`.

use vstd::prelude::*;

verus! {

/// The whitespace characters recognised when trimming and when testing
/// delimiter lines: the Unicode `White_Space` set, exactly as
/// `char::is_whitespace` recognises it.
pub open spec fn is_blank_char(c: char) -> bool {
    let u = c as u32;
    u == 0x09 || u == 0x0A || u == 0x0B || u == 0x0C || u == 0x0D || u == 0x20 || u == 0x85 || u
        == 0xA0 || u == 0x1680 || (0x2000 <= u && u <= 0x200A) || u == 0x2028 || u == 0x2029 || u
        == 0x202F || u == 0x205F || u == 0x3000
}

/// `s` with trailing whitespace removed.
pub open spec fn trim_end_spec(s: Seq<char>) -> Seq<char>
    decreases s.len(),
{
    if s.len() > 0 && is_blank_char(s.last()) {
        trim_end_spec(s.drop_last())
    } else {
        s
    }
}

/// `s` with leading whitespace removed.
pub open spec fn trim_start_spec(s: Seq<char>) -> Seq<char>
    decreases s.len(),
{
    if s.len() > 0 && is_blank_char(s.first()) {
        trim_start_spec(s.drop_first())
    } else {
        s
    }
}

/// `s` with both leading and trailing whitespace removed.
pub open spec fn trim_spec(s: Seq<char>) -> Seq<char> {
    trim_start_spec(trim_end_spec(s))
}

/// Every character of `s` is whitespace.
pub open spec fn all_blank(s: Seq<char>) -> bool {
    forall|i: int| 0 <= i < s.len() ==> is_blank_char(s[i])
}

/// Trimming trailing whitespace cuts `s` exactly at an index `end` below
/// which the last character is not whitespace and above which everything is.
pub proof fn lemma_trim_end_at(s: Seq<char>, end: int)
    requires
        0 <= end <= s.len(),
        forall|k: int| end <= k < s.len() ==> is_blank_char(s[k]),
        end == 0 || !is_blank_char(s[end - 1]),
    ensures
        trim_end_spec(s) == s.subrange(0, end),
    decreases s.len(),
{
    if end < s.len() {
        assert(is_blank_char(s.last()));
        lemma_trim_end_at(s.drop_last(), end);
        assert(s.drop_last().subrange(0, end) =~= s.subrange(0, end));
    } else {
        if s.len() == 0 {
            assert(trim_end_spec(s) =~= s.subrange(0, 0));
        } else {
            assert(!is_blank_char(s.last()));
            assert(trim_end_spec(s) == s);
            assert(s =~= s.subrange(0, end));
        }
    }
}

/// Trimming leading whitespace cuts `s` exactly at an index `start` below
/// which everything is whitespace and at which the character is not.
pub proof fn lemma_trim_start_at(s: Seq<char>, start: int)
    requires
        0 <= start <= s.len(),
        forall|k: int| 0 <= k < start ==> is_blank_char(s[k]),
        start == s.len() || !is_blank_char(s[start]),
    ensures
        trim_start_spec(s) == s.subrange(start, s.len() as int),
    decreases s.len(),
{
    if start > 0 {
        assert(is_blank_char(s.first()));
        lemma_trim_start_at(s.drop_first(), start - 1);
        assert(s.drop_first().subrange(start - 1, s.drop_first().len() as int) =~= s.subrange(
            start,
            s.len() as int,
        ));
    } else {
        if s.len() == 0 || !is_blank_char(s.first()) {
            assert(s =~= s.subrange(0, s.len() as int));
        } else {
            assert(false);
        }
    }
}

/// Everything of `s` from `e` on is whitespace.
pub open spec fn blank_from(s: Seq<char>, e: int) -> bool {
    forall|k: int| e <= k < s.len() ==> is_blank_char(s[k])
}

/// A blank sequence trims to the empty sequence, and vice versa.
pub proof fn lemma_all_blank_trim(s: Seq<char>)
    ensures
        all_blank(s) <==> trim_spec(s).len() == 0,
    decreases s.len(),
{
    if all_blank(s) {
        lemma_trim_end_at(s, 0);
        assert(s.subrange(0, 0).len() == 0);
        assert(trim_start_spec(Seq::<char>::empty()).len() == 0);
        assert(trim_end_spec(s) =~= Seq::<char>::empty());
    } else {
        let w = choose|i: int| 0 <= i < s.len() && !is_blank_char(s[i]);
        assert(exists|e: int|
            w < e <= s.len() && !is_blank_char(s[e - 1]) && #[trigger] blank_from(s, e)) by {
            lemma_last_non_blank(s, w);
        }
        let e = choose|e: int|
            w < e <= s.len() && !is_blank_char(s[e - 1]) && #[trigger] blank_from(s, e);
        lemma_trim_end_at(s, e);
        let t = s.subrange(0, e);
        assert(!is_blank_char(t[e - 1]));
        assert(trim_start_spec(t).len() > 0) by {
            lemma_trim_start_keeps_non_blank(t);
        }
    }
}

/// If `s` has a non-blank character at or after `w`, there is a last one.
proof fn lemma_last_non_blank(s: Seq<char>, w: int)
    requires
        0 <= w < s.len(),
        !is_blank_char(s[w]),
    ensures
        exists|e: int|
            w < e <= s.len() && !is_blank_char(s[e - 1]) && #[trigger] blank_from(s, e),
    decreases s.len(),
{
    if is_blank_char(s.last()) {
        lemma_last_non_blank(s.drop_last(), w);
        let e = choose|e: int|
            w < e <= s.drop_last().len() && !is_blank_char(s.drop_last()[e - 1])
                && #[trigger] blank_from(s.drop_last(), e);
        assert forall|k: int| e <= k < s.len() implies is_blank_char(s[k]) by {
            if k < s.len() - 1 {
                assert(s.drop_last()[k] == s[k]);
            }
        }
        assert(s.drop_last()[e - 1] == s[e - 1]);
        assert(w < e <= s.len() && !is_blank_char(s[e - 1]) && blank_from(s, e));
    } else {
        let e = s.len() as int;
        assert(w < e <= s.len() && !is_blank_char(s[e - 1]) && blank_from(s, e));
    }
}

/// A sequence whose first trimmed character is not blank keeps at least that
/// character when leading whitespace is trimmed.
proof fn lemma_trim_start_keeps_non_blank(s: Seq<char>)
    requires
        s.len() > 0,
        !is_blank_char(s.last()),
    ensures
        trim_start_spec(s).len() > 0,
    decreases s.len(),
{
    if is_blank_char(s.first()) {
        assert(s.drop_first().last() == s.last());
        lemma_trim_start_keeps_non_blank(s.drop_first());
    }
}

/// Whether the character is treated as whitespace.
pub fn is_blank_exec(c: char) -> (r: bool)
    ensures
        r == is_blank_char(c),
{
    let u = c as u32;
    u == 0x09 || u == 0x0A || u == 0x0B || u == 0x0C || u == 0x0D || u == 0x20 || u == 0x85 || u
        == 0xA0 || u == 0x1680 || (0x2000 <= u && u <= 0x200A) || u == 0x2028 || u == 0x2029 || u
        == 0x202F || u == 0x205F || u == 0x3000
}

/// The end of the whitespace-trimmed tail of `s@.subrange(from, to)`: the
/// smallest index `e` such that everything in `[e, to)` is whitespace.
fn scan_trim_end(s: &str, from: usize, to: usize) -> (e: usize)
    requires
        from <= to <= s@.len(),
    ensures
        from <= e <= to,
        forall|k: int| e <= k < to ==> is_blank_char(s@[k]),
        e == from || !is_blank_char(s@[e - 1]),
{
    let mut e = to;
    while e > from && is_blank_exec(s.get_char(e - 1))
        invariant
            from <= e <= to <= s@.len(),
            forall|k: int| e <= k < to ==> is_blank_char(s@[k]),
        decreases e,
    {
        e = e - 1;
    }
    e
}

/// The start of the whitespace-trimmed head of `s@.subrange(from, to)`: the
/// largest index `b` such that everything in `[from, b)` is whitespace.
fn scan_trim_start(s: &str, from: usize, to: usize) -> (b: usize)
    requires
        from <= to <= s@.len(),
    ensures
        from <= b <= to,
        forall|k: int| from <= k < b ==> is_blank_char(s@[k]),
        b == to || !is_blank_char(s@[b as int]),
{
    let mut b = from;
    while b < to && is_blank_exec(s.get_char(b))
        invariant
            from <= b <= to <= s@.len(),
            forall|k: int| from <= k < b ==> is_blank_char(s@[k]),
        decreases to - b,
    {
        b = b + 1;
    }
    b
}

/// `s@.subrange(from, to)` with trailing whitespace removed, as an owned
/// string.
pub fn trim_end_substring(s: &str, from: usize, to: usize) -> (r: String)
    requires
        from <= to <= s@.len(),
    ensures
        r@ == trim_end_spec(s@.subrange(from as int, to as int)),
{
    let e = scan_trim_end(s, from, to);
    let sub = s.substring_char(from, e);
    proof {
        let whole = s@.subrange(from as int, to as int);
        lemma_trim_end_at(whole, e - from);
        assert(whole.subrange(0, e - from) =~= s@.subrange(from as int, e as int));
    }
    sub.to_owned()
}

/// `s@.subrange(from, to)` with leading and trailing whitespace removed, as
/// an owned string.
pub fn trim_substring(s: &str, from: usize, to: usize) -> (r: String)
    requires
        from <= to <= s@.len(),
    ensures
        r@ == trim_spec(s@.subrange(from as int, to as int)),
{
    let e = scan_trim_end(s, from, to);
    let b = scan_trim_start(s, from, e);
    let sub = s.substring_char(b, e);
    proof {
        let whole = s@.subrange(from as int, to as int);
        lemma_trim_end_at(whole, e - from);
        assert(whole.subrange(0, e - from) =~= s@.subrange(from as int, e as int));
        let tail_trimmed = s@.subrange(from as int, e as int);
        lemma_trim_start_at(tail_trimmed, b - from);
        assert(tail_trimmed.subrange(b - from, tail_trimmed.len() as int) =~= s@.subrange(
            b as int,
            e as int,
        ));
    }
    sub.to_owned()
}

/// Whether `s` consists of whitespace only — equivalently, whether it
/// trims to the empty string.
pub fn is_blank_str(s: &str) -> (r: bool)
    ensures
        r == all_blank(s@),
        r == (trim_spec(s@).len() == 0),
{
    proof {
        lemma_all_blank_trim(s@);
    }
    let n = s.unicode_len();
    let b = scan_trim_start(s, 0, n);
    b == n
}

/// The views of a sequence of strings.
pub open spec fn views_of(v: Seq<String>) -> Seq<Seq<char>> {
    v.map_values(|s: String| s@)
}

/// The views of a sequence of optional strings.
pub open spec fn opt_views(v: Seq<Option<String>>) -> Seq<Option<Seq<char>>> {
    v.map_values(
        |o: Option<String>|
            match o {
                Option::Some(s) => Option::Some(s@),
                Option::None => Option::None,
            },
    )
}

} // verus!
