//! Character-level text operations used by the data readers, each proved
//! against a short specification over `Seq<char>`.
use vstd::prelude::*;

use crate::outside::{push_char, str_to_lowercase, str_to_uppercase, unicode_lowercase, unicode_uppercase};

verus! {

// ---------------------------------------------------------------------------
// Specifications
// ---------------------------------------------------------------------------

/// The characters that carry the Unicode `White_Space` property, which is
/// what `char::is_whitespace` and `str::trim` use.
pub open spec fn is_ws(c: char) -> bool {
    let u = c as u32;
    ||| 0x9 <= u <= 0xd
    ||| u == 0x20
    ||| u == 0x85
    ||| u == 0xa0
    ||| u == 0x1680
    ||| 0x2000 <= u <= 0x200a
    ||| u == 0x2028
    ||| u == 0x2029
    ||| u == 0x202f
    ||| u == 0x205f
    ||| u == 0x3000
}

/// `s` begins with `p`.
pub open spec fn starts_with(s: Seq<char>, p: Seq<char>) -> bool {
    p.len() <= s.len() && s.take(p.len() as int) == p
}

/// `s` ends with `p`.
pub open spec fn ends_with(s: Seq<char>, p: Seq<char>) -> bool {
    p.len() <= s.len() && s.skip(s.len() - p.len()) == p
}

/// `p` occurs somewhere in `s` (the empty pattern occurs everywhere).
pub open spec fn contains_seq(s: Seq<char>, p: Seq<char>) -> bool
    decreases s.len(),
{
    starts_with(s, p) || (s.len() > 0 && contains_seq(s.drop_first(), p))
}

/// `s` without the suffix `p`, when it has it.
pub open spec fn strip_suffix(s: Seq<char>, p: Seq<char>) -> Option<Seq<char>> {
    if ends_with(s, p) {
        Some(s.take(s.len() - p.len()))
    } else {
        None
    }
}

/// `s` with every leading `c` removed.
pub open spec fn trim_start_char(s: Seq<char>, c: char) -> Seq<char>
    decreases s.len(),
{
    if s.len() > 0 && s[0] == c {
        trim_start_char(s.drop_first(), c)
    } else {
        s
    }
}

/// `s` with every trailing `c` removed.
pub open spec fn trim_end_char(s: Seq<char>, c: char) -> Seq<char>
    decreases s.len(),
{
    if s.len() > 0 && s.last() == c {
        trim_end_char(s.drop_last(), c)
    } else {
        s
    }
}

/// `s` with its leading white space removed.
pub open spec fn trim_start_ws(s: Seq<char>) -> Seq<char>
    decreases s.len(),
{
    if s.len() > 0 && is_ws(s[0]) {
        trim_start_ws(s.drop_first())
    } else {
        s
    }
}

/// `s` with its trailing white space removed.
pub open spec fn trim_end_ws(s: Seq<char>) -> Seq<char>
    decreases s.len(),
{
    if s.len() > 0 && is_ws(s.last()) {
        trim_end_ws(s.drop_last())
    } else {
        s
    }
}

/// `s` with white space removed at both ends, as `str::trim` does.
pub open spec fn trim_ws(s: Seq<char>) -> Seq<char> {
    trim_end_ws(trim_start_ws(s))
}

/// The position of the first `c` in `s`.
pub open spec fn find_char(s: Seq<char>, c: char) -> Option<int>
    decreases s.len(),
{
    if s.len() == 0 {
        None
    } else if s[0] == c {
        Some(0)
    } else {
        match find_char(s.drop_first(), c) {
            Some(i) => Some(i + 1),
            None => None,
        }
    }
}

/// The pieces of `s` between the occurrences of `sep`, as `str::split`
/// with a one-character pattern gives them: there is always one piece more
/// than there are separators.
pub open spec fn split_char(s: Seq<char>, sep: char) -> Seq<Seq<char>>
    decreases s.len(),
{
    if s.len() == 0 {
        seq![Seq::<char>::empty()]
    } else {
        let init = split_char(s.drop_last(), sep);
        if s.last() == sep {
            init.push(Seq::<char>::empty())
        } else {
            init.update(init.len() - 1, init.last().push(s.last()))
        }
    }
}

/// `s` with the non-overlapping occurrences of `from`, taken left to right,
/// each replaced by `to`, as `str::replace` does.
pub open spec fn replace_seq(s: Seq<char>, from: Seq<char>, to: Seq<char>) -> Seq<char>
    decreases s.len(),
{
    if from.len() == 0 || s.len() == 0 {
        s
    } else if starts_with(s, from) {
        to + replace_seq(s.skip(from.len() as int), from, to)
    } else {
        seq![s[0]] + replace_seq(s.drop_first(), from, to)
    }
}

// ---------------------------------------------------------------------------
// Lemmas
// ---------------------------------------------------------------------------

/// Every piece of a split is non-overlapping with the separator, and the
/// split is never empty.
pub proof fn lemma_split_nonempty(s: Seq<char>, sep: char)
    ensures
        split_char(s, sep).len() >= 1,
    decreases s.len(),
{
    if s.len() > 0 {
        lemma_split_nonempty(s.drop_last(), sep);
    }
}

/// A split of text without the separator has the text as its only piece.
pub proof fn lemma_split_no_sep(s: Seq<char>, sep: char)
    requires
        forall|i: int| 0 <= i < s.len() ==> s[i] != sep,
    ensures
        split_char(s, sep) == seq![s],
    decreases s.len(),
{
    if s.len() > 0 {
        let t = s.drop_last();
        assert forall|i: int| 0 <= i < t.len() implies t[i] != sep by {
            assert(t[i] == s[i]);
        }
        lemma_split_no_sep(t, sep);
        assert(s.last() == s[s.len() - 1]);
        assert(t.push(s.last()) =~= s);
        assert(seq![t].update(0, t.push(s.last())) =~= seq![s]);
    } else {
        assert(s =~= Seq::<char>::empty());
    }
}

// ---------------------------------------------------------------------------
// Conversions
// ---------------------------------------------------------------------------

/// The characters of `s`.
pub fn chars_of(s: &str) -> (v: Vec<char>)
    ensures
        v@ == s@,
{
    let mut v: Vec<char> = Vec::new();
    for c in it: s.chars()
        invariant
            v@ == it.seq().take(it.index() as int),
    {
        v.push(c);
    }
    proof {
        vstd::string::axiom_spec_iter(s);
    }
    v
}

/// The characters `v[lo..hi]`.
pub fn copy_range(v: &[char], lo: usize, hi: usize) -> (r: Vec<char>)
    requires
        lo <= hi <= v@.len(),
    ensures
        r@ == v@.subrange(lo as int, hi as int),
{
    let mut r: Vec<char> = Vec::new();
    let mut i: usize = lo;
    while i < hi
        invariant
            lo <= i <= hi <= v@.len(),
            r@ == v@.subrange(lo as int, i as int),
        decreases hi - i,
    {
        r.push(v[i]);
        assert(v@.subrange(lo as int, i as int).push(v@[i as int]) =~= v@.subrange(lo as int, i + 1));
        i = i + 1;
    }
    r
}

/// The string made of the characters `v[lo..hi]`.
pub fn string_of_range(v: &[char], lo: usize, hi: usize) -> (s: String)
    requires
        lo <= hi <= v@.len(),
    ensures
        s@ == v@.subrange(lo as int, hi as int),
{
    let mut s = String::new();
    let mut i: usize = lo;
    while i < hi
        invariant
            lo <= i <= hi <= v@.len(),
            s@ == v@.subrange(lo as int, i as int),
        decreases hi - i,
    {
        push_char(&mut s, v[i]);
        assert(v@.subrange(lo as int, i as int).push(v@[i as int]) =~= v@.subrange(lo as int, i + 1));
        i = i + 1;
    }
    s
}

/// The string made of the characters `v`.
pub fn string_of(v: &[char]) -> (s: String)
    ensures
        s@ == v@,
{
    let s = string_of_range(v, 0, v.len());
    assert(v@.subrange(0, v@.len() as int) =~= v@);
    s
}

/// The upper-case form of `s`.
pub fn to_upper(s: &str) -> (r: String)
    ensures
        r@ == unicode_uppercase(s@),
{
    str_to_uppercase(s)
}

/// The lower-case form of `s`.
pub fn to_lower(s: &str) -> (r: String)
    ensures
        r@ == unicode_lowercase(s@),
{
    str_to_lowercase(s)
}

// ---------------------------------------------------------------------------
// Queries
// ---------------------------------------------------------------------------

/// Whether `v[at..]` begins with `p`.
pub fn starts_with_at(v: &[char], at: usize, p: &[char]) -> (b: bool)
    requires
        at <= v@.len(),
    ensures
        b == starts_with(v@.skip(at as int), p@),
{
    if p.len() > v.len() - at {
        return false;
    }
    let mut j: usize = 0;
    while j < p.len()
        invariant
            at <= v@.len(),
            at + p.len() <= v.len(),
            j <= p@.len(),
            forall|k: int| 0 <= k < j ==> v@[at + k] == p@[k],
        decreases p.len() - j,
    {
        if v[at + j] != p[j] {
            assert(v@.skip(at as int).take(p@.len() as int)[j as int] != p@[j as int]);
            return false;
        }
        j = j + 1;
    }
    assert(v@.skip(at as int).take(p@.len() as int) =~= p@);
    true
}

/// Whether `v` contains `p`.
pub fn contains_chars(v: &[char], p: &[char]) -> (b: bool)
    ensures
        b == contains_seq(v@, p@),
{
    let mut i: usize = 0;
    assert(v@.skip(0) =~= v@);
    while i <= v.len()
        invariant
            i <= v@.len() + 1,
            contains_seq(v@, p@) == (i <= v@.len() && contains_seq(v@.skip(i as int), p@)),
        decreases v.len() + 1 - i,
    {
        if starts_with_at(v, i, p) {
            return true;
        }
        if i == v.len() {
            return false;
        }
        assert(v@.skip(i as int).drop_first() =~= v@.skip(i + 1));
        i = i + 1;
    }
    false
}

/// Whether `s` contains `p`, as `str::contains` answers.
pub fn str_contains(s: &str, p: &str) -> (b: bool)
    ensures
        b == contains_seq(s@, p@),
{
    let v = chars_of(s);
    let w = chars_of(p);
    contains_chars(&v, &w)
}

/// Whether the characters `v` are exactly the single character `c`.
pub fn is_single(v: &[char], c: char) -> (b: bool)
    ensures
        b == (v@ == seq![c]),
{
    if v.len() == 1 && v[0] == c {
        assert(v@ =~= seq![c]);
        true
    } else {
        false
    }
}

/// The position of the first `c` in `v`.
pub fn find(v: &[char], c: char) -> (r: Option<usize>)
    ensures
        match r {
            Some(i) => find_char(v@, c) == Some(i as int) && i < v@.len() && v@[i as int] == c,
            None => find_char(v@, c) is None,
        },
{
    let mut i: usize = 0;
    assert(v@.skip(0) =~= v@);
    while i < v.len()
        invariant
            i <= v@.len(),
            forall|k: int| 0 <= k < i ==> v@[k] != c,
            find_char(v@, c) == (match find_char(v@.skip(i as int), c) {
                Some(j) => Some(j + i),
                None => None::<int>,
            }),
        decreases v.len() - i,
    {
        if v[i] == c {
            return Some(i);
        }
        assert(v@.skip(i as int).drop_first() =~= v@.skip(i + 1));
        i = i + 1;
    }
    None
}

// ---------------------------------------------------------------------------
// Transformations
// ---------------------------------------------------------------------------

/// `v` with its leading `c` characters removed.
pub fn trim_start_matches(v: &[char], c: char) -> (r: Vec<char>)
    ensures
        r@ == trim_start_char(v@, c),
{
    let mut i: usize = 0;
    assert(v@.skip(0) =~= v@);
    while i < v.len() && v[i] == c
        invariant
            i <= v@.len(),
            trim_start_char(v@, c) == trim_start_char(v@.skip(i as int), c),
        decreases v.len() - i,
    {
        assert(v@.skip(i as int).drop_first() =~= v@.skip(i + 1));
        i = i + 1;
    }
    let r = copy_range(v, i, v.len());
    assert(r@ =~= v@.skip(i as int));
    r
}

/// `v` with its trailing `c` characters removed.
pub fn trim_end_matches(v: &[char], c: char) -> (r: Vec<char>)
    ensures
        r@ == trim_end_char(v@, c),
{
    let mut n: usize = v.len();
    assert(v@.take(n as int) =~= v@);
    while n > 0 && v[n - 1] == c
        invariant
            n <= v@.len(),
            trim_end_char(v@, c) == trim_end_char(v@.take(n as int), c),
        decreases n,
    {
        assert(v@.take(n as int).drop_last() =~= v@.take(n - 1));
        n = n - 1;
    }
    let r = copy_range(v, 0, n);
    assert(r@ =~= v@.take(n as int));
    r
}

/// `v` with white space removed at both ends.
pub fn trim(v: &[char]) -> (r: Vec<char>)
    ensures
        r@ == trim_ws(v@),
{
    let mut i: usize = 0;
    assert(v@.skip(0) =~= v@);
    while i < v.len() && is_whitespace(v[i])
        invariant
            i <= v@.len(),
            trim_start_ws(v@) == trim_start_ws(v@.skip(i as int)),
        decreases v.len() - i,
    {
        assert(v@.skip(i as int).drop_first() =~= v@.skip(i + 1));
        i = i + 1;
    }
    let ghost start = v@.skip(i as int);
    assert(trim_start_ws(v@) == start);
    let mut n: usize = v.len();
    assert(start =~= v@.subrange(i as int, n as int));
    while n > i && is_whitespace(v[n - 1])
        invariant
            i <= n <= v@.len(),
            start == v@.skip(i as int),
            trim_end_ws(start) == trim_end_ws(v@.subrange(i as int, n as int)),
        decreases n,
    {
        assert(v@.subrange(i as int, n as int).drop_last() =~= v@.subrange(i as int, n - 1));
        n = n - 1;
    }
    assert(start =~= v@.subrange(i as int, v@.len() as int));
    copy_range(v, i, n)
}

/// Whether `c` is white space.
pub fn is_whitespace(c: char) -> (b: bool)
    ensures
        b == is_ws(c),
{
    let u = c as u32;
    (0x9 <= u && u <= 0xd) || u == 0x20 || u == 0x85 || u == 0xa0 || u == 0x1680 || (0x2000 <= u && u
        <= 0x200a) || u == 0x2028 || u == 0x2029 || u == 0x202f || u == 0x205f || u == 0x3000
}

/// The pieces of `v` between occurrences of `sep`.
pub fn split(v: &[char], sep: char) -> (parts: Vec<Vec<char>>)
    ensures
        parts@.len() == split_char(v@, sep).len(),
        forall|k: int| 0 <= k < parts@.len() ==> #[trigger] parts@[k]@ == split_char(v@, sep)[k],
{
    let mut parts: Vec<Vec<char>> = Vec::new();
    let mut cur: Vec<char> = Vec::new();
    let mut i: usize = 0;
    proof {
        assert(v@.take(0) =~= Seq::<char>::empty());
    }
    while i < v.len()
        invariant
            i <= v@.len(),
            parts@.len() + 1 == split_char(v@.take(i as int), sep).len(),
            forall|k: int| 0 <= k < parts@.len() ==> #[trigger] parts@[k]@ == split_char(v@.take(i as int), sep)[k],
            cur@ == split_char(v@.take(i as int), sep).last(),
        decreases v.len() - i,
    {
        let c = v[i];
        assert(v@.take(i + 1).drop_last() =~= v@.take(i as int));
        assert(v@.take(i + 1).last() == c);
        if c == sep {
            parts.push(cur);
            cur = Vec::new();
        } else {
            cur.push(c);
        }
        i = i + 1;
    }
    assert(v@.take(v@.len() as int) =~= v@);
    parts.push(cur);
    parts
}

/// `v` with every non-overlapping occurrence of `from` replaced by `to`.
pub fn replace(v: &[char], from: &[char], to: &[char]) -> (r: Vec<char>)
    requires
        from@.len() > 0,
    ensures
        r@ == replace_seq(v@, from@, to@),
{
    let mut out: Vec<char> = Vec::new();
    let mut i: usize = 0;
    assert(v@.skip(0) =~= v@);
    assert(out@ + v@ =~= v@);
    while i < v.len()
        invariant
            i <= v@.len(),
            from@.len() > 0,
            replace_seq(v@, from@, to@) == out@ + replace_seq(v@.skip(i as int), from@, to@),
        decreases v.len() - i,
    {
        let ghost rest = v@.skip(i as int);
        if starts_with_at(v, i, from) {
            let mut j: usize = 0;
            let ghost before = out@;
            while j < to.len()
                invariant
                    j <= to@.len(),
                    out@ == before + to@.take(j as int),
                decreases to.len() - j,
            {
                out.push(to[j]);
                assert(to@.take(j as int).push(to@[j as int]) =~= to@.take(j + 1));
                j = j + 1;
            }
            assert(to@.take(to@.len() as int) =~= to@);
            assert(rest.skip(from@.len() as int) =~= v@.skip(i + from@.len()));
            assert(out@ + replace_seq(v@.skip(i + from@.len()), from@, to@) =~= before + (to@
                + replace_seq(rest.skip(from@.len() as int), from@, to@)));
            i = i + from.len();
        } else {
            let ghost before = out@;
            out.push(v[i]);
            assert(rest.drop_first() =~= v@.skip(i + 1));
            assert(out@ + replace_seq(v@.skip(i + 1), from@, to@) =~= before + (seq![rest[0]]
                + replace_seq(rest.drop_first(), from@, to@)));
            i = i + 1;
        }
    }
    assert(v@.skip(i as int) =~= Seq::<char>::empty());
    assert(out@ + Seq::<char>::empty() =~= out@);
    out
}

/// `v` without the suffix `p`, when it ends with it.
pub fn strip_suffix_chars(v: &[char], p: &[char]) -> (r: Option<Vec<char>>)
    ensures
        match r {
            Some(w) => strip_suffix(v@, p@) == Some(w@),
            None => strip_suffix(v@, p@) is None,
        },
{
    if p.len() > v.len() {
        return None;
    }
    let at = v.len() - p.len();
    if starts_with_at(v, at, p) {
        assert(v@.skip(at as int).take(p@.len() as int) =~= v@.skip(at as int));
        let w = copy_range(v, 0, at);
        assert(w@ =~= v@.take(at as int));
        Some(w)
    } else {
        assert(v@.skip(at as int).take(p@.len() as int) =~= v@.skip(at as int));
        None
    }
}

} // verus!

verus! {

/// `v` with white space removed at its end.
pub fn trim_end(v: &[char]) -> (r: Vec<char>)
    ensures
        r@ == trim_end_ws(v@),
{
    let mut n: usize = v.len();
    assert(v@.take(n as int) =~= v@);
    while n > 0 && is_whitespace(v[n - 1])
        invariant
            n <= v@.len(),
            trim_end_ws(v@) == trim_end_ws(v@.take(n as int)),
        decreases n,
    {
        assert(v@.take(n as int).drop_last() =~= v@.take(n - 1));
        n = n - 1;
    }
    let r = copy_range(v, 0, n);
    assert(r@ =~= v@.take(n as int));
    r
}

} // verus!

verus! {

/// The first `c` of `s` is at `k` when `s[k]` is `c` and no character
/// before it is; there is none when no character of `s` is `c`.
pub proof fn lemma_find_char_at(s: Seq<char>, c: char, k: int)
    requires
        0 <= k <= s.len(),
        forall|m: int| 0 <= m < k ==> s[m] != c,
    ensures
        k < s.len() && s[k] == c ==> find_char(s, c) == Some(k),
        k == s.len() ==> find_char(s, c) is None,
    decreases k,
{
    if k > 0 {
        lemma_find_char_at(s.drop_first(), c, k - 1);
    } else if s.len() > 0 {
    }
}

/// `s` with every `<...>` tag removed: each `<` up to the first `>` after
/// it, scanning left to right, as the pattern `<[^>]*>` replaces them.
pub open spec fn strip_tags(s: Seq<char>) -> Seq<char>
    decreases s.len(),
{
    if s.len() == 0 {
        Seq::empty()
    } else if s[0] == '<' && find_char(s.drop_first(), '>') is Some {
        let j = find_char(s.drop_first(), '>')->0;
        if 0 <= j && j + 2 <= s.len() {
            strip_tags(s.skip(j + 2))
        } else {
            Seq::empty()
        }
    } else {
        seq![s[0]] + strip_tags(s.drop_first())
    }
}

/// Text with line breaks written as "<br>" turned into new lines and every
/// other tag removed.
pub open spec fn spec_remove_html_tags(s: Seq<char>) -> Seq<char> {
    strip_tags(replace_seq(s, "<br>"@, seq!['\n']))
}

/// `text` with "<br>" turned into a new line and every tag removed.
pub fn remove_html_tags_regex(text: &str) -> (r: String)
    ensures
        r@ == spec_remove_html_tags(text@),
{
    let v = chars_of(text);
    let from = chars_of("<br>");
    proof {
        reveal_strlit("<br>");
    }
    let to = vec!['\n'];
    let b = replace(&v, &from, &to);
    assert(to@ =~= seq!['\n']);
    let n = b.len();
    let mut out: Vec<char> = Vec::new();
    let mut i: usize = 0;
    assert(b@.skip(0) =~= b@);
    while i < n
        invariant
            n == b@.len(),
            i <= n,
            strip_tags(b@) == out@ + strip_tags(b@.skip(i as int)),
        decreases n - i,
    {
        let ghost s = b@.skip(i as int);
        assert(s[0] == b@[i as int]);
        if b[i] == '<' {
            let mut j: usize = i + 1;
            while j < n && b[j] != '>'
                invariant
                    n == b@.len(),
                    i < j <= n,
                    forall|m: int| i < m < j ==> b@[m] != '>',
                decreases n - j,
            {
                j = j + 1;
            }
            proof {
                let t = s.drop_first();
                assert(t =~= b@.skip(i + 1));
                assert forall|m: int| 0 <= m < j - i - 1 implies t[m] != '>' by {
                    assert(t[m] == b@[i + 1 + m]);
                }
                lemma_find_char_at(t, '>', j - i - 1);
            }
            if j < n {
                assert(s.skip(j - i + 1) =~= b@.skip(j + 1));
                i = j + 1;
            } else {
                out.push('<');
                assert(s.drop_first() =~= b@.skip(i + 1));
                assert(out@ + strip_tags(b@.skip(i + 1)) =~= out@.drop_last() + (seq!['<'] + strip_tags(b@.skip(i + 1))));
                i = i + 1;
            }
        } else {
            let ghost before = out@;
            out.push(b[i]);
            assert(s.drop_first() =~= b@.skip(i + 1));
            assert(out@ + strip_tags(b@.skip(i + 1)) =~= before + (seq![b@[i as int]] + strip_tags(b@.skip(i + 1))));
            i = i + 1;
        }
    }
    assert(b@.skip(i as int) =~= Seq::<char>::empty());
    assert(out@ + Seq::<char>::empty() =~= out@);
    string_of(&out)
}

} // verus!

verus! {

/// No `<` of `s` has a `>` after it: no tag is left in `s`.
pub open spec fn has_no_tag(s: Seq<char>) -> bool {
    forall|i: int, j: int| 0 <= i < j < s.len() && s[i] == '<' ==> s[j] != '>'
}

/// There is no first `c` exactly when `c` does not occur.
pub proof fn lemma_find_char_none(s: Seq<char>, c: char)
    ensures
        find_char(s, c) is None <==> !s.contains(c),
        find_char(s, c) matches Some(k) ==> 0 <= k < s.len() && s[k] == c,
    decreases s.len(),
{
    if s.len() > 0 {
        lemma_find_char_none(s.drop_first(), c);
        if s.drop_first().contains(c) {
            let k = choose|k: int| 0 <= k < s.drop_first().len() && s.drop_first()[k] == c;
            assert(s[k + 1] == c);
        }
        if s.contains(c) && s[0] != c {
            let k = choose|k: int| 0 <= k < s.len() && s[k] == c;
            assert(s.drop_first()[k - 1] == c);
        }
    }
}

/// Removing tags adds no character.
pub proof fn lemma_strip_tags_chars(s: Seq<char>, c: char)
    ensures
        !s.contains(c) ==> !strip_tags(s).contains(c),
    decreases s.len(),
{
    if s.len() > 0 && !s.contains(c) {
        if s[0] == '<' && find_char(s.drop_first(), '>') is Some {
            let j = find_char(s.drop_first(), '>')->0;
            lemma_find_char_none(s.drop_first(), '>');
            if 0 <= j && j + 2 <= s.len() {
                lemma_strip_tags_chars(s.skip(j + 2), c);
                let t = s.skip(j + 2);
                assert forall|k: int| 0 <= k < t.len() implies #[trigger] t[k] != c by {
                    assert(t[k] == s[k + j + 2]);
                }
            }
        } else {
            lemma_strip_tags_chars(s.drop_first(), c);
            let t = s.drop_first();
            assert forall|k: int| 0 <= k < t.len() implies #[trigger] t[k] != c by {
                assert(t[k] == s[k + 1]);
            }
            let r = strip_tags(s.drop_first());
            let o = seq![s[0]] + r;
            assert forall|k: int| 0 <= k < o.len() implies #[trigger] o[k] != c by {
                if k > 0 {
                    assert(o[k] == r[k - 1]);
                }
            }
        }
    }
}

/// Removing tags leaves no tag.
pub proof fn law_strip_tags_leaves_no_tag(s: Seq<char>)
    ensures
        has_no_tag(strip_tags(s)),
    decreases s.len(),
{
    if s.len() > 0 {
        if s[0] == '<' && find_char(s.drop_first(), '>') is Some {
            let j = find_char(s.drop_first(), '>')->0;
            if 0 <= j && j + 2 <= s.len() {
                law_strip_tags_leaves_no_tag(s.skip(j + 2));
            }
        } else {
            let rest = s.drop_first();
            law_strip_tags_leaves_no_tag(rest);
            let r = strip_tags(rest);
            let out = seq![s[0]] + r;
            if s[0] == '<' {
                lemma_find_char_none(rest, '>');
                lemma_strip_tags_chars(rest, '>');
            }
            assert forall|i: int, j: int| 0 <= i < j < out.len() && out[i] == '<' implies out[j] != '>' by {
                assert(out[j] == r[j - 1]);
                if i > 0 {
                    assert(out[i] == r[i - 1]);
                } else {
                    assert(!r.contains('>'));
                }
            }
        }
    }
}

/// Text without tags is left as it is.
pub proof fn lemma_strip_tags_of_untagged(t: Seq<char>)
    requires
        has_no_tag(t),
    ensures
        strip_tags(t) == t,
    decreases t.len(),
{
    if t.len() > 0 {
        let rest = t.drop_first();
        assert(has_no_tag(rest)) by {
            assert forall|i: int, j: int| 0 <= i < j < rest.len() && rest[i] == '<' implies rest[j] != '>' by {
                assert(t[i + 1] == rest[i] && t[j + 1] == rest[j]);
            }
        }
        lemma_strip_tags_of_untagged(rest);
        if t[0] == '<' {
            assert(!rest.contains('>')) by {
                if rest.contains('>') {
                    let k = choose|k: int| 0 <= k < rest.len() && rest[k] == '>';
                    assert(t[k + 1] == '>');
                }
            }
            lemma_find_char_none(rest, '>');
        }
        assert(seq![t[0]] + rest =~= t);
    }
}

/// Removing tags twice removes no more than once.
pub proof fn law_strip_tags_idempotent(s: Seq<char>)
    ensures
        strip_tags(strip_tags(s)) == strip_tags(s),
{
    law_strip_tags_leaves_no_tag(s);
    lemma_strip_tags_of_untagged(strip_tags(s));
}

} // verus!

verus! {

/// Removing tags never lengthens the text.
pub proof fn lemma_strip_tags_len(s: Seq<char>)
    ensures
        strip_tags(s).len() <= s.len(),
    decreases s.len(),
{
    if s.len() > 0 {
        if s[0] == '<' && find_char(s.drop_first(), '>') is Some {
            let j = find_char(s.drop_first(), '>')->0;
            if 0 <= j && j + 2 <= s.len() {
                lemma_strip_tags_len(s.skip(j + 2));
            }
        } else {
            lemma_strip_tags_len(s.drop_first());
        }
    }
}

/// Replacing a pattern by one no longer than it never lengthens the text.
pub proof fn lemma_replace_not_longer(s: Seq<char>, from: Seq<char>, to: Seq<char>)
    requires
        to.len() <= from.len(),
    ensures
        replace_seq(s, from, to).len() <= s.len(),
    decreases s.len(),
{
    if from.len() > 0 && s.len() > 0 {
        if starts_with(s, from) {
            lemma_replace_not_longer(s.skip(from.len() as int), from, to);
        } else {
            lemma_replace_not_longer(s.drop_first(), from, to);
        }
    }
}

/// A pattern that is itself a tag, from `<` to `>`, does not occur in text
/// without tags, so replacing it changes nothing.
pub proof fn lemma_replace_tag_in_untagged(s: Seq<char>, from: Seq<char>, to: Seq<char>)
    requires
        has_no_tag(s),
        from.len() >= 2,
        from[0] == '<',
        from[from.len() - 1] == '>',
    ensures
        replace_seq(s, from, to) == s,
    decreases s.len(),
{
    if s.len() > 0 {
        if starts_with(s, from) {
            assert(s[0] == s.take(from.len() as int)[0]);
            assert(s[from.len() - 1] == s.take(from.len() as int)[from.len() - 1]);
        } else {
            let rest = s.drop_first();
            assert(has_no_tag(rest)) by {
                assert forall|i: int, j: int| 0 <= i < j < rest.len() && rest[i] == '<' implies rest[j] != '>' by {
                    assert(s[i + 1] == rest[i] && s[j + 1] == rest[j]);
                }
            }
            lemma_replace_tag_in_untagged(rest, from, to);
            assert(seq![s[0]] + rest =~= s);
        }
    }
}

/// Text without a `<` has no occurrence of a pattern that starts with one.
pub proof fn lemma_replace_without_lt(s: Seq<char>, from: Seq<char>, to: Seq<char>)
    requires
        !s.contains('<'),
        from.len() >= 1,
        from[0] == '<',
    ensures
        replace_seq(s, from, to) == s,
    decreases s.len(),
{
    if s.len() > 0 {
        if starts_with(s, from) {
            assert(s[0] == s.take(from.len() as int)[0]);
        } else {
            let rest = s.drop_first();
            assert(!rest.contains('<')) by {
                if rest.contains('<') {
                    let k = choose|k: int| 0 <= k < rest.len() && rest[k] == '<';
                    assert(s[k + 1] == '<');
                }
            }
            lemma_replace_without_lt(rest, from, to);
            assert(seq![s[0]] + rest =~= s);
        }
    }
}

/// What removing tags and line breaks gives back: no tag is left in it, it
/// is no longer than the text, doing it again changes nothing, and text
/// without a `<` comes back as it was.
pub proof fn law_remove_html_tags(s: Seq<char>)
    ensures
        has_no_tag(spec_remove_html_tags(s)),
        spec_remove_html_tags(s).len() <= s.len(),
        spec_remove_html_tags(spec_remove_html_tags(s)) == spec_remove_html_tags(s),
        !s.contains('<') ==> spec_remove_html_tags(s) == s,
{
    reveal_strlit("<br>");
    let br = "<br>"@;
    let nl = seq!['\n'];
    let b = replace_seq(s, br, nl);
    let r = strip_tags(b);
    law_strip_tags_leaves_no_tag(b);
    lemma_replace_not_longer(s, br, nl);
    lemma_strip_tags_len(b);
    lemma_replace_tag_in_untagged(r, br, nl);
    lemma_strip_tags_of_untagged(r);
    if !s.contains('<') {
        lemma_replace_without_lt(s, br, nl);
        assert(has_no_tag(s));
        lemma_strip_tags_of_untagged(s);
    }
}

} // verus!

verus! {

/// Splitting text joined by a separator splits each side apart: the pieces
/// of the left side, then those of the right side.
pub proof fn lemma_split_concat(p: Seq<char>, q: Seq<char>, sep: char)
    ensures
        split_char(p + seq![sep] + q, sep) == split_char(p, sep) + split_char(q, sep),
    decreases q.len(),
{
    let s = p + seq![sep] + q;
    lemma_split_nonempty(p, sep);
    if q.len() == 0 {
        assert(s.drop_last() =~= p);
        assert(s.last() == sep);
        assert(split_char(q, sep) == seq![Seq::<char>::empty()]);
        assert(split_char(s, sep) =~= split_char(p, sep) + split_char(q, sep));
    } else {
        let q1 = q.drop_last();
        lemma_split_concat(p, q1, sep);
        lemma_split_nonempty(q1, sep);
        assert(s.drop_last() =~= p + seq![sep] + q1);
        assert(s.last() == q.last());
        let a = split_char(p, sep);
        let b = split_char(q1, sep);
        if q.last() == sep {
            assert(split_char(s, sep) =~= a + b.push(Seq::<char>::empty()));
        } else {
            let ab = a + b;
            assert(ab.last() == b.last());
            assert(ab.update(ab.len() - 1, ab.last().push(s.last())) =~= a + b.update(
                b.len() - 1,
                b.last().push(q.last()),
            ));
        }
    }
}

} // verus!
