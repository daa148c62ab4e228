//! Character-level helpers on strings.

use vstd::prelude::*;

verus! {

/// The characters of `s`, in order.
pub fn chars_of(s: &str) -> (v: Vec<char>)
    ensures
        v@ == s@,
{
    let mut v: Vec<char> = Vec::new();
    for c in it: s.chars()
        invariant
            v@ == it.seq().take(it.index()),
    {
        v.push(c);
    }
    v
}

/// Appends one character to a string.
/// Trusted: `String::push` appends `c` at the end of `s`, as its
/// documentation says.
#[verifier::external_body]
pub(crate) fn push_char_to(s: &mut String, c: char)
    ensures
        final(s)@ == old(s)@.push(c),
{
    s.push(c);
}

/// The string made of the characters of `v`, in order.
pub fn string_from_chars(v: &Vec<char>) -> (s: String)
    ensures
        s@ == v@,
{
    let mut s = String::new();
    for i in 0..v.len()
        invariant
            s@ == v@.take(i as int),
    {
        push_char_to(&mut s, v[i]);
        assert(v@.take(i + 1) == v@.take(i as int).push(v@[i as int]));
    }
    s
}

/// Whether two character sequences are the same.
pub fn chars_equal(a: &Vec<char>, b: &Vec<char>) -> (r: bool)
    ensures
        r == (a@ == b@),
{
    if a.len() != b.len() {
        return false;
    }
    for i in 0..a.len()
        invariant
            a@.len() == b@.len(),
            forall|j: int| 0 <= j < i ==> a@[j] == b@[j],
    {
        if a[i] != b[i] {
            return false;
        }
    }
    assert(a@ =~= b@);
    true
}

/// Whether the text of `s` is the text of `lit`.
pub fn str_equals(s: &str, lit: &str) -> (r: bool)
    ensures
        r == (s@ == lit@),
{
    let a = chars_of(s);
    let b = chars_of(lit);
    chars_equal(&a, &b)
}

/// Unicode `White_Space` characters: what `char::is_whitespace` accepts.
pub open spec fn is_white_space(c: char) -> bool {
    ||| '\u{9}' <= c <= '\u{d}'
    ||| c == ' '
    ||| c == '\u{85}'
    ||| c == '\u{a0}'
    ||| c == '\u{1680}'
    ||| '\u{2000}' <= c <= '\u{200a}'
    ||| c == '\u{2028}'
    ||| c == '\u{2029}'
    ||| c == '\u{202f}'
    ||| c == '\u{205f}'
    ||| c == '\u{3000}'
}

/// `s` without its leading white space.
pub open spec fn trim_start(s: Seq<char>) -> Seq<char>
    decreases s.len(),
{
    if s.len() > 0 && is_white_space(s[0]) {
        trim_start(s.drop_first())
    } else {
        s
    }
}

/// `s` without its trailing white space.
pub open spec fn trim_end(s: Seq<char>) -> Seq<char>
    decreases s.len(),
{
    if s.len() > 0 && is_white_space(s.last()) {
        trim_end(s.drop_last())
    } else {
        s
    }
}

/// `s` without leading and trailing white space.
pub open spec fn trim(s: Seq<char>) -> Seq<char> {
    trim_end(trim_start(s))
}

/// Whether `c` is white space.
pub fn is_white_space_char(c: char) -> (r: bool)
    ensures
        r == is_white_space(c),
{
    ('\u{9}' <= c && c <= '\u{d}') || c == ' ' || c == '\u{85}' || c == '\u{a0}' || c
        == '\u{1680}' || ('\u{2000}' <= c && c <= '\u{200a}') || c == '\u{2028}' || c
        == '\u{2029}' || c == '\u{202f}' || c == '\u{205f}' || c == '\u{3000}'
}

/// The characters of `v` without leading and trailing white space.
pub fn trim_chars(v: &Vec<char>) -> (r: Vec<char>)
    ensures
        r@ == trim(v@),
{
    let n = v.len();
    let mut i: usize = 0;
    assert(v@.skip(0) =~= v@);
    while i < n && is_white_space_char(v[i])
        invariant
            n == v@.len(),
            i <= n,
            trim_start(v@) == trim_start(v@.skip(i as int)),
        decreases n - i,
    {
        assert(v@.skip(i as int).drop_first() =~= v@.skip(i + 1));
        i = i + 1;
    }
    assert(trim_start(v@) == v@.skip(i as int));
    let mut j: usize = n;
    assert(v@.subrange(i as int, n as int) =~= v@.skip(i as int));
    while j > i && is_white_space_char(v[j - 1])
        invariant
            n == v@.len(),
            i <= j <= n,
            trim(v@) == trim_end(v@.subrange(i as int, j as int)),
        decreases j - i,
    {
        assert(v@.subrange(i as int, j as int).drop_last() =~= v@.subrange(i as int, j - 1));
        j = j - 1;
    }
    let mut r: Vec<char> = Vec::new();
    let mut k: usize = i;
    while k < j
        invariant
            n == v@.len(),
            i <= k <= j <= n,
            r@ == v@.subrange(i as int, k as int),
        decreases j - k,
    {
        r.push(v[k]);
        assert(v@.subrange(i as int, k + 1) =~= v@.subrange(i as int, k as int).push(v@[k as int]));
        k = k + 1;
    }
    r
}

/// What trimming leaves alone: nothing at either end is white space.
pub open spec fn is_trimmed(t: Seq<char>) -> bool {
    t.len() == 0 || (!is_white_space(t[0]) && !is_white_space(t.last()))
}

proof fn lemma_trim_start_shape(s: Seq<char>)
    ensures
        trim_start(s).len() == 0 || !is_white_space(trim_start(s)[0]),
    decreases s.len(),
{
    if s.len() > 0 && is_white_space(s[0]) {
        lemma_trim_start_shape(s.drop_first());
    }
}

proof fn lemma_trim_end_prefix(s: Seq<char>)
    ensures
        trim_end(s) =~= s.take(trim_end(s).len() as int),
        trim_end(s).len() <= s.len(),
        trim_end(s).len() == 0 || !is_white_space(trim_end(s).last()),
    decreases s.len(),
{
    if s.len() > 0 && is_white_space(s.last()) {
        lemma_trim_end_prefix(s.drop_last());
    }
}

/// Trimming yields text with no white space at either end.
pub proof fn lemma_trim_is_trimmed(s: Seq<char>)
    ensures
        is_trimmed(trim(s)),
{
    lemma_trim_start_shape(s);
    lemma_trim_end_prefix(trim_start(s));
}

/// Trimming twice is trimming once.
pub proof fn lemma_trim_idempotent(s: Seq<char>)
    ensures
        trim(trim(s)) == trim(s),
{
    lemma_trim_is_trimmed(s);
    let t = trim(s);
    if t.len() > 0 {
        assert(trim_start(t) == t);
        assert(trim_end(t) == t);
    }
}

proof fn lemma_trim_start_skips(s: Seq<char>) -> (n: int)
    ensures
        0 <= n <= s.len(),
        trim_start(s) == s.skip(n),
        forall|k: int| 0 <= k < n ==> is_white_space(#[trigger] s[k]),
    decreases s.len(),
{
    if s.len() > 0 && is_white_space(s[0]) {
        let r = s.drop_first();
        let m = lemma_trim_start_skips(r);
        assert(s.skip(m + 1) =~= r.skip(m));
        assert forall|k: int| 0 <= k < m + 1 implies is_white_space(#[trigger] s[k]) by {
            if k > 0 {
                assert(s[k] == r[k - 1]);
            }
        }
        m + 1
    } else {
        assert(s.skip(0) =~= s);
        0
    }
}

proof fn lemma_trim_end_takes(s: Seq<char>) -> (n: int)
    ensures
        0 <= n <= s.len(),
        trim_end(s) == s.take(n),
        forall|k: int| n <= k < s.len() ==> is_white_space(#[trigger] s[k]),
    decreases s.len(),
{
    if s.len() > 0 && is_white_space(s.last()) {
        let r = s.drop_last();
        let m = lemma_trim_end_takes(r);
        assert(s.take(m) =~= r.take(m));
        assert forall|k: int| m <= k < s.len() implies is_white_space(#[trigger] s[k]) by {
            if k < s.len() - 1 {
                assert(s[k] == r[k]);
            }
        }
        m
    } else {
        assert(s.take(s.len() as int) =~= s);
        s.len() as int
    }
}

/// Trimming cuts white space only: what is left is a stretch of the text,
/// and everything cut before or after it is white space. Spaces, tabs,
/// line feeds and carriage returns are white space; letters, digits,
/// underscores and dots are not.
pub proof fn lemma_trim_cuts_white_space_only(s: Seq<char>)
    ensures
        exists|i: int, j: int|
            0 <= i <= j <= s.len() && trim(s) == s.subrange(i, j) && (forall|k: int|
                0 <= k < i ==> is_white_space(#[trigger] s[k])) && (forall|k: int|
                j <= k < s.len() ==> is_white_space(#[trigger] s[k])),
        is_white_space(' ') && is_white_space('\t') && is_white_space('\n') && is_white_space(
            '\r',
        ),
        forall|c: char|
            ('a' <= c <= 'z' || 'A' <= c <= 'Z' || '0' <= c <= '9' || c == '_' || c == '.')
                ==> !#[trigger] is_white_space(c),
{
    let i = lemma_trim_start_skips(s);
    let t = trim_start(s);
    let n = lemma_trim_end_takes(t);
    let j = i + n;
    assert(trim(s) =~= s.subrange(i, j));
    assert forall|k: int| j <= k < s.len() implies is_white_space(#[trigger] s[k]) by {
        assert(s[k] == t[k - i]);
    }
}

/// The texts of a sequence of strings.
pub open spec fn string_views(parts: Seq<String>) -> Seq<Seq<char>> {
    parts.map_values(|p: String| p@)
}

/// The pieces of `s` between line feeds, as `str::split("\n")` yields them:
/// always at least one piece, and an empty one after a final line feed.
pub open spec fn split_lines_spec(s: Seq<char>) -> Seq<Seq<char>>
    decreases s.len(),
{
    if s.len() == 0 {
        seq![Seq::<char>::empty()]
    } else {
        let prev = split_lines_spec(s.drop_last());
        if s.last() == '\n' {
            prev.push(Seq::<char>::empty())
        } else {
            prev.update(prev.len() - 1, prev.last().push(s.last()))
        }
    }
}

/// The pieces joined back with line feeds between them.
pub open spec fn join_lines(parts: Seq<Seq<char>>) -> Seq<char>
    decreases parts.len(),
{
    if parts.len() == 0 {
        Seq::<char>::empty()
    } else if parts.len() == 1 {
        parts[0]
    } else {
        join_lines(parts.drop_last()) + seq!['\n'] + parts.last()
    }
}

proof fn lemma_split_lines_nonempty(s: Seq<char>)
    ensures
        split_lines_spec(s).len() >= 1,
    decreases s.len(),
{
    if s.len() > 0 {
        lemma_split_lines_nonempty(s.drop_last());
    }
}

/// Splitting at line feeds and joining the pieces with line feeds gives the
/// text back, and no piece holds a line feed.
pub proof fn lemma_split_join(s: Seq<char>)
    ensures
        split_lines_spec(s).len() >= 1,
        join_lines(split_lines_spec(s)) == s,
        forall|k: int|
            0 <= k < split_lines_spec(s).len() ==> !(#[trigger] split_lines_spec(s)[k]).contains(
                '\n',
            ),
    decreases s.len(),
{
    lemma_split_lines_nonempty(s);
    if s.len() > 0 {
        let t = s.drop_last();
        lemma_split_join(t);
        let prev = split_lines_spec(t);
        if s.last() == '\n' {
            let cur = split_lines_spec(s);
            assert(cur.drop_last() =~= prev);
            assert(s =~= t + seq!['\n'] + Seq::<char>::empty());
            assert forall|k: int| 0 <= k < cur.len() implies !(#[trigger] cur[k]).contains('\n') by {
                if k < prev.len() {
                    assert(cur[k] == prev[k]);
                } else {
                    assert(cur[k] =~= Seq::<char>::empty());
                }
            }
        } else {
            let cur = split_lines_spec(s);
            let last = prev.last().push(s.last());
            assert(cur.len() == prev.len());
            if prev.len() == 1 {
                assert(s =~= prev[0].push(s.last()));
            } else {
                assert(cur.drop_last() =~= prev.drop_last());
                assert(t == join_lines(prev.drop_last()) + seq!['\n'] + prev.last());
                assert(s =~= t.push(s.last()));
                assert(s =~= join_lines(prev.drop_last()) + seq!['\n'] + last);
            }
            assert forall|k: int| 0 <= k < cur.len() implies !(#[trigger] cur[k]).contains('\n') by {
                if k < prev.len() - 1 {
                    assert(cur[k] == prev[k]);
                } else {
                    assert(cur[k] == last);
                    assert(!prev[k].contains('\n'));
                    if last.contains('\n') {
                        let w = choose|w: int| 0 <= w < last.len() && last[w] == '\n';
                        assert(prev[k].contains('\n') || w == last.len() - 1);
                        if w < last.len() - 1 {
                            assert(prev[k][w] == '\n');
                        }
                    }
                }
            }
        }
    }
}

/// The pieces of `s` between line feeds (`s.split("\n")`).
pub fn split_lines(s: &str) -> (parts: Vec<String>)
    ensures
        string_views(parts@) == split_lines_spec(s@),
{
    let v = chars_of(s);
    let mut parts: Vec<String> = Vec::new();
    let mut cur: Vec<char> = Vec::new();
    assert(v@.take(0) =~= Seq::<char>::empty());
    assert(string_views(parts@).push(cur@) =~= split_lines_spec(v@.take(0)));
    for i in 0..v.len()
        invariant
            v@ == s@,
            string_views(parts@).push(cur@) == split_lines_spec(v@.take(i as int)),
    {
        proof {
            lemma_split_lines_nonempty(v@.take(i as int));
        }
        assert(v@.take(i + 1).drop_last() =~= v@.take(i as int));
        let ghost before = parts@;
        if v[i] == '\n' {
            let piece = string_from_chars(&cur);
            parts.push(piece);
            cur = Vec::new();
            assert(string_views(parts@) =~= string_views(before).push(piece@));
            assert(string_views(parts@).push(cur@) =~= split_lines_spec(v@.take(i + 1)));
        } else {
            cur.push(v[i]);
            assert(string_views(parts@).push(cur@) =~= split_lines_spec(v@.take(i + 1)));
        }
    }
    assert(v@.take(v@.len() as int) =~= v@);
    let ghost before = parts@;
    let piece = string_from_chars(&cur);
    parts.push(piece);
    assert(string_views(parts@) =~= string_views(before).push(piece@));
    parts
}

} // verus!
