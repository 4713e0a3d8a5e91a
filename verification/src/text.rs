//! Character-level helpers on strings: appending, splitting on a separator,
//! suffix tests and upper-casing.

use vstd::prelude::*;

verus! {

/// Appends one character to a `String` with std's `String::push`, which the
/// documentation describes as appending the given char to the end of the string.
#[verifier::external_body]
pub(crate) fn push_char(s: &mut String, c: char)
    ensures
        final(s)@ == old(s)@.push(c),
{
    s.push(c);
}

/// The pieces of `s` between occurrences of `sep`, as `str::split` with a
/// char pattern yields them: one more piece than there are separators, empty
/// pieces included.
pub open spec fn split_on(s: Seq<char>, sep: char) -> Seq<Seq<char>>
    decreases s.len(),
{
    if s.len() == 0 {
        seq![Seq::<char>::empty()]
    } else {
        let prev = split_on(s.drop_last(), sep);
        if s.last() == sep {
            prev.push(Seq::<char>::empty())
        } else {
            prev.update(prev.len() - 1, prev.last().push(s.last()))
        }
    }
}

/// The pieces glued back together with `sep` between neighbours.
pub open spec fn join_with(parts: Seq<Seq<char>>, sep: char) -> Seq<char>
    decreases parts.len(),
{
    if parts.len() == 0 {
        Seq::<char>::empty()
    } else if parts.len() == 1 {
        parts[0]
    } else {
        join_with(parts.drop_last(), sep).push(sep) + parts.last()
    }
}

/// Splitting always yields at least one piece.
pub proof fn lemma_split_nonempty(s: Seq<char>, sep: char)
    ensures
        split_on(s, sep).len() >= 1,
    decreases s.len(),
{
    if s.len() > 0 {
        lemma_split_nonempty(s.drop_last(), sep);
    }
}

/// Splitting on `sep` and joining the pieces with `sep` gives back the text,
/// and no piece contains the separator.
pub proof fn lemma_join_split(s: Seq<char>, sep: char)
    ensures
        join_with(split_on(s, sep), sep) == s,
        forall|i: int, j: int|
            0 <= i < split_on(s, sep).len() && 0 <= j < split_on(s, sep)[i].len()
                ==> split_on(s, sep)[i][j] != sep,
    decreases s.len(),
{
    if s.len() > 0 {
        let t = s.drop_last();
        lemma_join_split(t, sep);
        lemma_split_nonempty(t, sep);
        let prev = split_on(t, sep);
        if s.last() == sep {
            let cur = prev.push(Seq::<char>::empty());
            assert(cur.drop_last() =~= prev);
            assert(join_with(cur, sep) =~= s);
        } else {
            let cur = prev.update(prev.len() - 1, prev.last().push(s.last()));
            if prev.len() == 1 {
                assert(join_with(prev, sep) == prev[0]);
                assert(cur[0] == prev[0].push(s.last()));
                assert(join_with(cur, sep) == cur[0]);
                assert(s =~= t.push(s.last()));
            } else {
                let head = join_with(prev.drop_last(), sep).push(sep);
                assert(cur.drop_last() =~= prev.drop_last());
                assert(join_with(prev, sep) == head + prev.last());
                assert(join_with(cur, sep) == head + prev.last().push(s.last()));
                assert(head + prev.last().push(s.last()) =~= (head + prev.last()).push(s.last()));
                assert(s =~= t.push(s.last()));
            }
        }
    }
}

/// Splits `text` on every occurrence of `sep`, as `text.split(sep).collect()`.
pub fn split_on_char(text: &str, sep: char) -> (parts: Vec<String>)
    ensures
        parts@.map_values(|p: String| p@) == split_on(text@, sep),
{
    let n = text.unicode_len();
    let mut parts: Vec<String> = Vec::new();
    let mut cur = String::new();
    let mut i: usize = 0;
    while i < n
        invariant
            n == text@.len(),
            i <= n,
            parts@.map_values(|p: String| p@).push(cur@) == split_on(text@.take(i as int), sep),
        decreases n - i,
    {
        let c = text.get_char(i);
        proof {
            let t = text@.take(i + 1);
            assert(t.drop_last() =~= text@.take(i as int));
            lemma_split_nonempty(text@.take(i as int), sep);
        }
        if c == sep {
            let ghost before = parts@;
            let done = cur;
            parts.push(done);
            cur = String::new();
            assert(parts@.map_values(|p: String| p@) =~= before.map_values(|p: String| p@).push(done@));
        } else {
            push_char(&mut cur, c);
        }
        i = i + 1;
        assert(parts@.map_values(|p: String| p@).push(cur@) =~= split_on(text@.take(i as int), sep));
    }
    parts.push(cur);
    assert(text@.take(n as int) =~= text@);
    assert(parts@.map_values(|p: String| p@) =~= split_on(text@, sep));
    parts
}

} // verus!

verus! {

/// `s` ends with `suffix`.
pub open spec fn has_suffix(s: Seq<char>, suffix: Seq<char>) -> bool {
    suffix.len() <= s.len() && s.subrange(s.len() - suffix.len(), s.len() as int) == suffix
}

/// Whether `s` ends with `suffix`, compared character by character.
pub fn ends_with(s: &str, suffix: &str) -> (res: bool)
    ensures
        res == has_suffix(s@, suffix@),
{
    let n = s.unicode_len();
    let m = suffix.unicode_len();
    if m > n {
        return false;
    }
    let off = n - m;
    let mut i: usize = 0;
    while i < m
        invariant
            n == s@.len(),
            m == suffix@.len(),
            off == n - m,
            i <= m,
            forall|j: int| 0 <= j < i ==> s@[off + j] == suffix@[j],
        decreases m - i,
    {
        if s.get_char(off + i) != suffix.get_char(i) {
            assert(s@.subrange(off as int, n as int)[i as int] != suffix@[i as int]);
            return false;
        }
        i = i + 1;
    }
    assert(s@.subrange(off as int, n as int) =~= suffix@);
    true
}

/// Whether two strings hold the same characters.
pub fn same_text(a: &str, b: &str) -> (res: bool)
    ensures
        res == (a@ == b@),
{
    if a.unicode_len() != b.unicode_len() {
        return false;
    }
    let r = ends_with(a, b);
    assert(a@.subrange(0, a@.len() as int) =~= a@);
    r
}

/// Every character of `s` is ASCII.
pub open spec fn ascii_text(s: Seq<char>) -> bool {
    forall|i: int| 0 <= i < s.len() ==> (s[i] as u32) < 128
}

/// An ASCII lower-case letter as its upper-case letter; any other character
/// unchanged.
pub open spec fn ascii_upper_char(c: char) -> char {
    if 'a' <= c <= 'z' {
        ((c as u32) - 32) as char
    } else {
        c
    }
}

/// An ASCII upper-case letter as its lower-case letter; any other character
/// unchanged.
pub open spec fn ascii_lower_char(c: char) -> char {
    if 'A' <= c <= 'Z' {
        ((c as u32) + 32) as char
    } else {
        c
    }
}

/// Each ASCII letter of `s` in upper case.
pub open spec fn ascii_upper(s: Seq<char>) -> Seq<char> {
    s.map_values(|c: char| ascii_upper_char(c))
}

/// Each ASCII letter of `s` in lower case.
pub open spec fn ascii_lower(s: Seq<char>) -> Seq<char> {
    s.map_values(|c: char| ascii_lower_char(c))
}

/// Upper-casing an ASCII text gives the same result whatever the case of its
/// letters: from the text itself, from its lower-case form, and from its
/// upper-case form; all three forms are ASCII.
pub proof fn lemma_ascii_case_folding(s: Seq<char>)
    requires
        ascii_text(s),
    ensures
        ascii_text(ascii_lower(s)),
        ascii_text(ascii_upper(s)),
        ascii_upper(ascii_lower(s)) == ascii_upper(s),
        ascii_upper(ascii_upper(s)) == ascii_upper(s),
{
    assert(ascii_upper(ascii_lower(s)) =~= ascii_upper(s));
    assert(ascii_upper(ascii_upper(s)) =~= ascii_upper(s));
}

/// What `str::to_uppercase` returns for a text: the Unicode upper-case
/// mapping of each character, which may change the length of the text.
pub uninterp spec fn uppercase_of(s: Seq<char>) -> Seq<char>;

/// Upper-cases a text with std's `str::to_uppercase`; its result depends on
/// the characters of the text alone, and is named `uppercase_of`. The
/// Unicode upper-case mapping that std follows sends the ASCII letters `a`
/// to `z` to `A` to `Z` and leaves every other ASCII character as it is, so
/// for ASCII text the result is stated in full.
#[verifier::external_body]
pub(crate) fn to_uppercase(s: &str) -> (res: String)
    ensures
        res@ == uppercase_of(s@),
        ascii_text(s@) ==> res@ == ascii_upper(s@),
{
    s.to_uppercase()
}

} // verus!
