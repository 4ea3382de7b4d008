//! Character-level text helpers shared by the line and payload grammars.
//!
//! Both grammars split on the first occurrences of `;`, and the line grammar
//! strips trailing whitespace from the payload field. Whitespace here is the
//! set of characters with the Unicode `White_Space` property, the set that
//! `char::is_whitespace` recognizes.

use vstd::prelude::*;

verus! {

/// Whether `c` has the Unicode `White_Space` property.
pub open spec fn is_ws_char(c: char) -> bool {
    c == '\t' || c == '\n' || c == '\u{000B}' || c == '\u{000C}' || c == '\r' || c == ' ' || c
        == '\u{0085}' || c == '\u{00A0}' || c == '\u{1680}' || ('\u{2000}' <= c && c <= '\u{200A}')
        || c == '\u{2028}' || c == '\u{2029}' || c == '\u{202F}' || c == '\u{205F}' || c
        == '\u{3000}'
}

/// Decides the Unicode `White_Space` property.
pub fn is_whitespace_char(c: char) -> (r: bool)
    ensures
        r == is_ws_char(c),
{
    c == '\t' || c == '\n' || c == '\u{000B}' || c == '\u{000C}' || c == '\r' || c == ' ' || c
        == '\u{0085}' || c == '\u{00A0}' || c == '\u{1680}' || ('\u{2000}' <= c && c <= '\u{200A}')
        || c == '\u{2028}' || c == '\u{2029}' || c == '\u{202F}' || c == '\u{205F}' || c
        == '\u{3000}'
}

/// The position of the first occurrence of `c` in `s` at or after `from`.
pub open spec fn find_from(s: Seq<char>, c: char, from: int) -> Option<int>
    decreases s.len() - from,
{
    if from < 0 || from >= s.len() {
        None
    } else if s[from] == c {
        Some(from)
    } else {
        find_from(s, c, from + 1)
    }
}

/// A found position lies between `from` and the end of `s`, holds `c`, and
/// nothing before it (at or after `from`) does; `None` means no position at
/// or after `from` holds `c`.
pub proof fn lemma_find_from_bounds(s: Seq<char>, c: char, from: int)
    requires
        0 <= from,
    ensures
        find_from(s, c, from) matches Some(i) ==> from <= i < s.len() && s[i] == c && forall|j: int|
            from <= j < i ==> s[j] != c,
        find_from(s, c, from) is None ==> forall|j: int| from <= j < s.len() ==> s[j] != c,
    decreases s.len() - from,
{
    if from < s.len() && s[from] != c {
        lemma_find_from_bounds(s, c, from + 1);
    }
}

/// The converse: a position that holds `c` with none earlier is what the
/// search finds.
pub proof fn lemma_find_from_exact(s: Seq<char>, c: char, from: int, i: int)
    requires
        0 <= from <= i < s.len(),
        s[i] == c,
        forall|j: int| from <= j < i ==> s[j] != c,
    ensures
        find_from(s, c, from) == Some(i),
    decreases i - from,
{
    if from < i {
        lemma_find_from_exact(s, c, from + 1, i);
    }
}

/// A search over characters none of which is `c` finds nothing.
pub proof fn lemma_find_from_none(s: Seq<char>, c: char, from: int)
    requires
        0 <= from,
        forall|j: int| from <= j < s.len() ==> s[j] != c,
    ensures
        find_from(s, c, from) is None,
    decreases s.len() - from,
{
    if from < s.len() {
        lemma_find_from_none(s, c, from + 1);
    }
}

/// Finds the first occurrence of `c` in `s` at or after `from`.
pub fn find_char(s: &str, c: char, from: usize) -> (r: Option<usize>)
    requires
        from <= s@.len(),
    ensures
        match r {
            Some(i) => find_from(s@, c, from as int) == Some(i as int),
            None => find_from(s@, c, from as int) is None,
        },
{
    let n = s.unicode_len();
    let mut i = from;
    while i < n
        invariant
            from <= i <= n,
            n == s@.len(),
            forall|j: int| from <= j < i ==> s@[j] != c,
        decreases n - i,
    {
        if s.get_char(i) == c {
            proof {
                lemma_find_from_exact(s@, c, from as int, i as int);
            }
            return Some(i);
        }
        i = i + 1;
    }
    proof {
        lemma_find_from_none(s@, c, from as int);
    }
    None
}

/// `s` without its trailing whitespace.
pub open spec fn trim_end_spec(s: Seq<char>) -> Seq<char>
    decreases s.len(),
{
    if s.len() > 0 && is_ws_char(s.last()) {
        trim_end_spec(s.drop_last())
    } else {
        s
    }
}

/// Trimming a string whose last character is not whitespace changes nothing.
pub proof fn lemma_trim_end_noop(s: Seq<char>)
    requires
        s.len() == 0 || !is_ws_char(s.last()),
    ensures
        trim_end_spec(s) == s,
{
}

/// Trimming strips one trailing whitespace character and then the rest.
pub proof fn lemma_trim_end_push_ws(s: Seq<char>, c: char)
    requires
        is_ws_char(c),
    ensures
        trim_end_spec(s.push(c)) == trim_end_spec(s),
{
    assert(s.push(c).drop_last() =~= s);
}

/// Returns `s` with all trailing whitespace removed, as `str::trim_end`
/// returns it.
pub fn trim_end(s: &str) -> (r: &str)
    ensures
        r@ == trim_end_spec(s@),
{
    let n = s.unicode_len();
    let mut k = n;
    proof {
        assert(s@.subrange(0, n as int) =~= s@);
    }
    while k > 0 && is_whitespace_char(s.get_char(k - 1))
        invariant
            0 <= k <= n,
            n == s@.len(),
            trim_end_spec(s@) == trim_end_spec(s@.subrange(0, k as int)),
        decreases k,
    {
        proof {
            let t = s@.subrange(0, k as int);
            assert(t.drop_last() =~= s@.subrange(0, k as int - 1));
        }
        k = k - 1;
    }
    proof {
        assert(s@.subrange(0, n as int) =~= s@);
        let t = s@.subrange(0, k as int);
        assert(t.len() == 0 || !is_ws_char(t.last()));
    }
    s.substring_char(0, k)
}

} // verus!
