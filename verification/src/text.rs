//! Character-level text utilities with specifications over `Seq<char>`.
use vstd::prelude::*;

verus! {

/// Appends one character to a string.
///
/// Calls `String::push`, which the standard library documents as appending the
/// given `char` to the end of the string.
#[verifier::external_body]
pub(crate) fn push_char(s: &mut String, c: char)
    ensures
        final(s)@ == old(s)@.push(c),
{
    s.push(c);
}

/// The characters of a string slice, in order.
pub fn chars_of(s: &str) -> (v: Vec<char>)
    ensures
        v@ == s@,
{
    let mut v: Vec<char> = Vec::new();
    let mut it = s.chars();
    loop
        invariant
            v@ + vstd::std_specs::iter::IteratorSpec::remaining(&it) == s@,
            vstd::std_specs::iter::IteratorSpec::decrease(&it) is Some,
        ensures
            v@ == s@,
        decreases vstd::std_specs::iter::IteratorSpec::decrease(&it)->0,
    {
        match it.next() {
            Some(c) => {
                v.push(c);
            },
            None => {
                break;
            },
        }
    }
    v
}

/// A string holding exactly the given characters.
pub fn string_of(v: &[char]) -> (s: String)
    ensures
        s@ == v@,
{
    let mut s = String::new();
    let mut i: usize = 0;
    while i < v.len()
        invariant
            0 <= i <= v@.len(),
            s@ == v@.subrange(0, i as int),
        decreases v@.len() - i,
    {
        push_char(&mut s, v[i]);
        assert(v@.subrange(0, i + 1) =~= v@.subrange(0, i as int).push(v@[i as int]));
        i += 1;
    }
    assert(v@.subrange(0, v@.len() as int) =~= v@);
    s
}

} // verus!

verus! {

// ---------------------------------------------------------------------------
// Whitespace and trimming
// ---------------------------------------------------------------------------

/// The characters with the Unicode `White_Space` property, which is what
/// `char::is_whitespace` tests.
pub open spec fn is_ws(c: char) -> bool {
    ||| ('\u{9}' <= c && c <= '\u{d}')
    ||| c == ' '
    ||| c == '\u{85}'
    ||| c == '\u{a0}'
    ||| c == '\u{1680}'
    ||| ('\u{2000}' <= c && c <= '\u{200a}')
    ||| c == '\u{2028}'
    ||| c == '\u{2029}'
    ||| c == '\u{202f}'
    ||| c == '\u{205f}'
    ||| c == '\u{3000}'
}

pub fn is_whitespace(c: char) -> (b: bool)
    ensures
        b == is_ws(c),
{
    ('\u{9}' <= c && c <= '\u{d}') || c == ' ' || c == '\u{85}' || c == '\u{a0}' || c == '\u{1680}'
        || ('\u{2000}' <= c && c <= '\u{200a}') || c == '\u{2028}' || c == '\u{2029}' || c
        == '\u{202f}' || c == '\u{205f}' || c == '\u{3000}'
}

/// Number of whitespace characters at the start of `s`.
pub open spec fn leading_ws(s: Seq<char>) -> nat
    decreases s.len(),
{
    if s.len() > 0 && is_ws(s[0]) {
        1 + leading_ws(s.drop_first())
    } else {
        0
    }
}

/// Number of whitespace characters at the end of `s`.
pub open spec fn trailing_ws(s: Seq<char>) -> nat
    decreases s.len(),
{
    if s.len() > 0 && is_ws(s.last()) {
        1 + trailing_ws(s.drop_last())
    } else {
        0
    }
}

pub proof fn lemma_leading_ws(s: Seq<char>)
    ensures
        leading_ws(s) <= s.len(),
        forall|i: int| 0 <= i < leading_ws(s) ==> is_ws(#[trigger] s[i]),
        leading_ws(s) < s.len() ==> !is_ws(s[leading_ws(s) as int]),
    decreases s.len(),
{
    if s.len() > 0 && is_ws(s[0]) {
        lemma_leading_ws(s.drop_first());
        assert forall|i: int| 0 <= i < leading_ws(s) implies is_ws(#[trigger] s[i]) by {
            if i > 0 {
                assert(s[i] == s.drop_first()[i - 1]);
            }
        }
    }
}

pub proof fn lemma_trailing_ws(s: Seq<char>)
    ensures
        trailing_ws(s) <= s.len(),
        forall|i: int| s.len() - trailing_ws(s) <= i < s.len() ==> is_ws(#[trigger] s[i]),
        trailing_ws(s) < s.len() ==> !is_ws(s[s.len() - trailing_ws(s) - 1]),
    decreases s.len(),
{
    if s.len() > 0 && is_ws(s.last()) {
        lemma_trailing_ws(s.drop_last());
        assert forall|i: int| s.len() - trailing_ws(s) <= i < s.len() implies is_ws(
            #[trigger] s[i],
        ) by {
            if i < s.len() - 1 {
                assert(s[i] == s.drop_last()[i]);
            }
        }
    }
}

/// `s` without its leading whitespace (`str::trim_start`).
pub open spec fn trim_start(s: Seq<char>) -> Seq<char> {
    s.skip(leading_ws(s) as int)
}

/// `s` without its trailing whitespace (`str::trim_end`).
pub open spec fn trim_end(s: Seq<char>) -> Seq<char> {
    s.take(s.len() - trailing_ws(s))
}

/// `s` without leading and trailing whitespace (`str::trim`).
pub open spec fn trim(s: Seq<char>) -> Seq<char> {
    trim_end(trim_start(s))
}

/// Index of the first non-whitespace character of `v[a..b]`, or `b`.
pub fn skip_ws_forward(v: &[char], a: usize, b: usize) -> (r: usize)
    requires
        a <= b <= v@.len(),
    ensures
        r == a + leading_ws(v@.subrange(a as int, b as int)),
        a <= r <= b,
{
    let mut i = a;
    proof {
        lemma_leading_ws(v@.subrange(a as int, b as int));
    }
    while i < b && is_whitespace(v[i])
        invariant
            a <= i <= b <= v@.len(),
            leading_ws(v@.subrange(a as int, b as int)) == (i - a) + leading_ws(
                v@.subrange(i as int, b as int),
            ),
        decreases b - i,
    {
        assert(v@.subrange(i as int, b as int).drop_first() =~= v@.subrange(i + 1, b as int));
        i += 1;
    }
    i
}

/// One past the last non-whitespace character of `v[a..b]`, or `a`.
pub fn skip_ws_backward(v: &[char], a: usize, b: usize) -> (r: usize)
    requires
        a <= b <= v@.len(),
    ensures
        r == b - trailing_ws(v@.subrange(a as int, b as int)),
        a <= r <= b,
{
    let mut j = b;
    proof {
        lemma_trailing_ws(v@.subrange(a as int, b as int));
    }
    while j > a && is_whitespace(v[j - 1])
        invariant
            a <= j <= b <= v@.len(),
            trailing_ws(v@.subrange(a as int, b as int)) == (b - j) + trailing_ws(
                v@.subrange(a as int, j as int),
            ),
        decreases j - a,
    {
        assert(v@.subrange(a as int, j as int).drop_last() =~= v@.subrange(a as int, j - 1));
        j -= 1;
    }
    j
}

/// Bounds `(a, b)` such that `v[a..b]` is `v` trimmed.
pub fn trim_bounds(v: &[char]) -> (r: (usize, usize))
    ensures
        r.0 <= r.1 <= v@.len(),
        v@.subrange(r.0 as int, r.1 as int) == trim(v@),
        v@.subrange(r.0 as int, v@.len() as int) == trim_start(v@),
{
    let a = skip_ws_forward(v, 0, v.len());
    assert(v@.subrange(0, v@.len() as int) =~= v@);
    let b = skip_ws_backward(v, a, v.len());
    proof {
        let t = trim_start(v@);
        assert(t =~= v@.subrange(a as int, v@.len() as int));
        assert(trim(v@) =~= v@.subrange(a as int, b as int));
    }
    (a, b)
}

/// A copy of `v[a..b]`.
pub fn copy_range(v: &[char], a: usize, b: usize) -> (r: Vec<char>)
    requires
        a <= b <= v@.len(),
    ensures
        r@ == v@.subrange(a as int, b as int),
{
    let mut r: Vec<char> = Vec::new();
    let mut i = a;
    while i < b
        invariant
            a <= i <= b <= v@.len(),
            r@ == v@.subrange(a as int, i as int),
        decreases b - i,
    {
        r.push(v[i]);
        assert(v@.subrange(a as int, i + 1) =~= v@.subrange(a as int, i as int).push(v@[i as int]));
        i += 1;
    }
    r
}

/// `v` trimmed of leading and trailing whitespace.
pub fn trim_chars(v: &[char]) -> (r: Vec<char>)
    ensures
        r@ == trim(v@),
{
    let (a, b) = trim_bounds(v);
    copy_range(v, a, b)
}

/// `v` trimmed of leading whitespace.
pub fn trim_start_chars(v: &[char]) -> (r: Vec<char>)
    ensures
        r@ == trim_start(v@),
{
    let (a, _b) = trim_bounds(v);
    copy_range(v, a, v.len())
}

// ---------------------------------------------------------------------------
// Prefixes, substrings, characters
// ---------------------------------------------------------------------------

/// `p` occurs in `s` at position `i`.
pub open spec fn occurs_at(s: Seq<char>, p: Seq<char>, i: int) -> bool {
    0 <= i && i + p.len() <= s.len() && s.subrange(i, i + p.len()) == p
}

/// `s` starts with `p` (`str::starts_with`).
pub open spec fn has_prefix(s: Seq<char>, p: Seq<char>) -> bool {
    occurs_at(s, p, 0)
}

/// `p` occurs somewhere in `s` (`str::contains` with a string pattern).
pub open spec fn contains_seq(s: Seq<char>, p: Seq<char>) -> bool {
    exists|i: int| #[trigger] occurs_at(s, p, i)
}

pub fn matches_at(v: &[char], i: usize, p: &[char]) -> (b: bool)
    ensures
        b == occurs_at(v@, p@, i as int),
{
    if i > v.len() || p.len() > v.len() - i {
        return false;
    }
    let mut k: usize = 0;
    let vlen = v.len();
    while k < p.len()
        invariant
            vlen == v@.len(),
            i + p@.len() <= v@.len(),
            0 <= k <= p@.len(),
            forall|j: int| 0 <= j < k ==> v@[i + j] == p@[j],
        decreases p@.len() - k,
    {
        if v[i + k] != p[k] {
            assert(v@.subrange(i as int, i + p@.len())[k as int] != p@[k as int]);
            return false;
        }
        k += 1;
    }
    assert(v@.subrange(i as int, i + p@.len()) =~= p@);
    true
}

pub fn starts_with(v: &[char], p: &[char]) -> (b: bool)
    ensures
        b == has_prefix(v@, p@),
{
    matches_at(v, 0, p)
}

pub fn contains(v: &[char], p: &[char]) -> (b: bool)
    ensures
        b == contains_seq(v@, p@),
{
    if p.len() > v.len() {
        assert forall|i: int| !#[trigger] occurs_at(v@, p@, i) by {}
        return false;
    }
    let last = v.len() - p.len();
    let mut i: usize = 0;
    loop
        invariant
            p@.len() <= v@.len(),
            last == v@.len() - p@.len(),
            0 <= i <= last,
            forall|j: int| 0 <= j < i ==> !#[trigger] occurs_at(v@, p@, j),
        decreases last - i,
    {
        if matches_at(v, i, p) {
            return true;
        }
        if i == last {
            assert forall|j: int| !#[trigger] occurs_at(v@, p@, j) by {}
            return false;
        }
        i += 1;
    }
}

pub fn contains_char(v: &[char], c: char) -> (b: bool)
    ensures
        b == v@.contains(c),
{
    let mut i: usize = 0;
    while i < v.len()
        invariant
            0 <= i <= v@.len(),
            forall|j: int| 0 <= j < i ==> v@[j] != c,
        decreases v@.len() - i,
    {
        if v[i] == c {
            return true;
        }
        i += 1;
    }
    false
}

/// Index of the first `c` in `s`, or -1.
pub open spec fn find_char(s: Seq<char>, c: char) -> int
    decreases s.len(),
{
    if s.len() == 0 {
        -1
    } else if s[0] == c {
        0
    } else {
        let r = find_char(s.drop_first(), c);
        if r < 0 {
            -1
        } else {
            r + 1
        }
    }
}

pub proof fn lemma_find_char(s: Seq<char>, c: char)
    ensures
        -1 <= find_char(s, c) < s.len(),
        find_char(s, c) == -1 <==> !s.contains(c),
        find_char(s, c) >= 0 ==> s[find_char(s, c)] == c,
        forall|i: int| 0 <= i < find_char(s, c) ==> s[i] != c,
        find_char(s, c) == -1 ==> forall|i: int| 0 <= i < s.len() ==> s[i] != c,
    decreases s.len(),
{
    if s.len() > 0 && s[0] != c {
        lemma_find_char(s.drop_first(), c);
        let r = find_char(s.drop_first(), c);
        assert forall|i: int| 0 <= i < find_char(s, c) implies s[i] != c by {
            if i > 0 {
                assert(s[i] == s.drop_first()[i - 1]);
            }
        }
        if r < 0 {
            assert forall|i: int| 0 <= i < s.len() implies s[i] != c by {
                if i > 0 {
                    assert(s[i] == s.drop_first()[i - 1]);
                }
            }
        } else {
            assert(s[r + 1] == s.drop_first()[r]);
        }
    }
}

/// The first index `i >= start` with `v[i] == c`, related to `find_char` of the rest.
pub fn find_char_from(v: &[char], start: usize, c: char) -> (r: Option<usize>)
    requires
        start <= v@.len(),
    ensures
        match r {
            Some(i) => start <= i < v@.len() && find_char(v@.skip(start as int), c) == i - start,
            None => find_char(v@.skip(start as int), c) == -1,
        },
{
    let mut i = start;
    while i < v.len()
        invariant
            start <= i <= v@.len(),
            forall|j: int| start <= j < i ==> v@[j] != c,
        decreases v@.len() - i,
    {
        if v[i] == c {
            proof {
                let t = v@.skip(start as int);
                lemma_find_char(t, c);
                assert(t[i - start] == c);
                let r = find_char(t, c);
                if r >= 0 && r < i - start {
                    assert(t[r] == v@[start + r]);
                }
            }
            return Some(i);
        }
        i += 1;
    }
    proof {
        let t = v@.skip(start as int);
        lemma_find_char(t, c);
        let r = find_char(t, c);
        if r >= 0 {
            assert(t[r] == v@[start + r]);
        }
    }
    None
}

// ---------------------------------------------------------------------------
// Splitting
// ---------------------------------------------------------------------------

/// `str::split(c)`: the pieces of `s` between occurrences of `c`.
pub open spec fn split_char(s: Seq<char>, c: char) -> Seq<Seq<char>>
    decreases s.len(),
{
    let i = find_char(s, c);
    if i < 0 || i >= s.len() {
        seq![s]
    } else {
        seq![s.take(i)] + split_char(s.skip(i + 1), c)
    }
}

/// `str::splitn(n, c)`: at most `n` pieces, the last holding the rest of `s`.
pub open spec fn splitn_char(s: Seq<char>, n: nat, c: char) -> Seq<Seq<char>>
    decreases n,
{
    if n == 0 {
        seq![]
    } else if n == 1 {
        seq![s]
    } else {
        let i = find_char(s, c);
        if i < 0 || i >= s.len() {
            seq![s]
        } else {
            seq![s.take(i)] + splitn_char(s.skip(i + 1), (n - 1) as nat, c)
        }
    }
}

/// `str::split_once(c)`.
pub open spec fn split_once(s: Seq<char>, c: char) -> Option<(Seq<char>, Seq<char>)> {
    let i = find_char(s, c);
    if i < 0 {
        None
    } else {
        Some((s.take(i), s.skip(i + 1)))
    }
}

pub proof fn lemma_split_char_nonempty(s: Seq<char>, c: char)
    ensures
        split_char(s, c).len() >= 1,
    decreases s.len(),
{
    let i = find_char(s, c);
    if !(i < 0 || i >= s.len()) {
        lemma_split_char_nonempty(s.skip(i + 1), c);
    }
}

pub open spec fn views_of(v: Seq<Vec<char>>) -> Seq<Seq<char>> {
    v.map_values(|x: Vec<char>| x@)
}

pub proof fn lemma_views_push(v: Seq<Vec<char>>, x: Vec<char>)
    ensures
        views_of(v.push(x)) == views_of(v).push(x@),
{
    assert(views_of(v.push(x)) =~= views_of(v).push(x@));
}

/// `str::split(c)` on characters.
pub fn split_chars(v: &[char], c: char) -> (r: Vec<Vec<char>>)
    ensures
        views_of(r@) == split_char(v@, c),
{
    let mut r: Vec<Vec<char>> = Vec::new();
    let mut start: usize = 0;
    assert(v@.skip(0) =~= v@);
    loop
        invariant
            start <= v@.len(),
            views_of(r@) + split_char(v@.skip(start as int), c) == split_char(v@, c),
        decreases v@.len() - start,
    {
        let ghost t = v@.skip(start as int);
        proof {
            lemma_find_char(t, c);
        }
        let vlen = v.len();
        match find_char_from(v, start, c) {
            Some(i) => {
                let piece = copy_range(v, start, i);
                proof {
                    assert(t.take(i - start) =~= v@.subrange(start as int, i as int));
                    assert(t.skip(i - start + 1) =~= v@.skip(i + 1));
                    lemma_views_push(r@, piece);
                    assert(split_char(t, c) == seq![piece@] + split_char(v@.skip(i + 1), c));
                    assert(views_of(r@.push(piece)) + split_char(v@.skip(i + 1), c) =~= views_of(
                        r@,
                    ) + split_char(t, c));
                }
                r.push(piece);
                start = i + 1;
            },
            None => {
                let piece = copy_range(v, start, v.len());
                proof {
                    assert(piece@ =~= t);
                    lemma_views_push(r@, piece);
                    assert(views_of(r@.push(piece)) =~= views_of(r@) + split_char(t, c));
                }
                r.push(piece);
                return r;
            },
        }
    }
}

/// `str::splitn(n, c)` on characters.
pub fn splitn_chars(v: &[char], n: usize, c: char) -> (r: Vec<Vec<char>>)
    ensures
        views_of(r@) == splitn_char(v@, n as nat, c),
{
    let mut r: Vec<Vec<char>> = Vec::new();
    if n == 0 {
        assert(views_of(r@) =~= splitn_char(v@, 0, c));
        return r;
    }
    let mut start: usize = 0;
    let mut left: usize = n;
    assert(v@.skip(0) =~= v@);
    loop
        invariant
            start <= v@.len(),
            1 <= left <= n,
            views_of(r@) + splitn_char(v@.skip(start as int), left as nat, c) == splitn_char(
                v@,
                n as nat,
                c,
            ),
        decreases left,
    {
        let ghost t = v@.skip(start as int);
        proof {
            lemma_find_char(t, c);
        }
        if left == 1 {
            let piece = copy_range(v, start, v.len());
            proof {
                assert(piece@ =~= t);
                lemma_views_push(r@, piece);
                assert(views_of(r@.push(piece)) =~= views_of(r@) + splitn_char(t, 1, c));
            }
            r.push(piece);
            return r;
        }
        let vlen = v.len();
        match find_char_from(v, start, c) {
            Some(i) => {
                let piece = copy_range(v, start, i);
                proof {
                    assert(t.take(i - start) =~= v@.subrange(start as int, i as int));
                    assert(t.skip(i - start + 1) =~= v@.skip(i + 1));
                    lemma_views_push(r@, piece);
                    assert(splitn_char(t, left as nat, c) == seq![piece@] + splitn_char(
                        v@.skip(i + 1),
                        (left - 1) as nat,
                        c,
                    ));
                    assert(views_of(r@.push(piece)) + splitn_char(
                        v@.skip(i + 1),
                        (left - 1) as nat,
                        c,
                    ) =~= views_of(r@) + splitn_char(t, left as nat, c));
                }
                r.push(piece);
                start = i + 1;
                left = left - 1;
            },
            None => {
                let piece = copy_range(v, start, v.len());
                proof {
                    assert(piece@ =~= t);
                    lemma_views_push(r@, piece);
                    assert(views_of(r@.push(piece)) =~= views_of(r@) + splitn_char(
                        t,
                        left as nat,
                        c,
                    ));
                }
                r.push(piece);
                return r;
            },
        }
    }
}

/// `str::split_once(c)` on characters.
pub fn split_once_chars(v: &[char], c: char) -> (r: Option<(Vec<char>, Vec<char>)>)
    ensures
        match r {
            Some((a, b)) => split_once(v@, c) == Some((a@, b@)),
            None => split_once(v@, c) is None,
        },
{
    assert(v@.skip(0) =~= v@);
    let vlen = v.len();
    match find_char_from(v, 0, c) {
        Some(i) => {
            let a = copy_range(v, 0, i);
            let b = copy_range(v, i + 1, v.len());
            assert(a@ =~= v@.take(i as int));
            assert(b@ =~= v@.skip(i + 1));
            Some((a, b))
        },
        None => None,
    }
}

} // verus!

verus! {

// ---------------------------------------------------------------------------
// Lines, words, joining
// ---------------------------------------------------------------------------

/// A line with one trailing carriage return removed.
pub open spec fn strip_cr(l: Seq<char>) -> Seq<char> {
    if l.len() > 0 && l.last() == '\r' {
        l.drop_last()
    } else {
        l
    }
}

/// `str::lines`: pieces between `\n`, each piece that ended in `\n` losing one
/// trailing `\r`, and no final empty line.
pub open spec fn lines_of(s: Seq<char>) -> Seq<Seq<char>> {
    let parts = split_char(s, '\n');
    if parts.len() == 0 {
        seq![]
    } else {
        let body = parts.take(parts.len() - 1).map_values(|l: Seq<char>| strip_cr(l));
        let last = parts[parts.len() - 1];
        if last.len() == 0 {
            body
        } else {
            body.push(last)
        }
    }
}

pub fn strip_cr_chars(v: Vec<char>) -> (r: Vec<char>)
    ensures
        r@ == strip_cr(v@),
{
    let mut v = v;
    if v.len() > 0 && v[v.len() - 1] == '\r' {
        v.pop();
    }
    v
}

/// `str::lines` on characters.
pub fn lines_chars(v: &[char]) -> (r: Vec<Vec<char>>)
    ensures
        views_of(r@) == lines_of(v@),
{
    let parts = split_chars(v, '\n');
    proof {
        lemma_split_char_nonempty(v@, '\n');
    }
    let n = parts.len();
    let mut r: Vec<Vec<char>> = Vec::new();
    let mut i: usize = 0;
    let ghost ps = split_char(v@, '\n');
    while i + 1 < n
        invariant
            n == parts@.len(),
            n >= 1,
            views_of(parts@) == ps,
            0 <= i <= n - 1,
            views_of(r@) =~= ps.take(i as int).map_values(|l: Seq<char>| strip_cr(l)),
        decreases n - i,
    {
        let line = strip_cr_chars(parts[i].clone());
        proof {
            assert(parts@[i as int]@ == ps[i as int]);
            lemma_views_push(r@, line);
            assert(ps.take(i + 1).map_values(|l: Seq<char>| strip_cr(l)) =~= ps.take(
                i as int,
            ).map_values(|l: Seq<char>| strip_cr(l)).push(strip_cr(ps[i as int])));
        }
        r.push(line);
        i += 1;
    }
    let last = parts[n - 1].clone();
    assert(last@ == ps[n - 1]);
    if last.len() > 0 {
        proof {
            lemma_views_push(r@, last);
        }
        r.push(last);
    }
    r
}

/// Number of non-whitespace characters at the start of `s`.
pub open spec fn non_ws_prefix(s: Seq<char>) -> nat
    decreases s.len(),
{
    if s.len() > 0 && !is_ws(s[0]) {
        1 + non_ws_prefix(s.drop_first())
    } else {
        0
    }
}

pub proof fn lemma_non_ws_prefix(s: Seq<char>)
    ensures
        non_ws_prefix(s) <= s.len(),
        s.len() > 0 && !is_ws(s[0]) ==> non_ws_prefix(s) >= 1,
    decreases s.len(),
{
    if s.len() > 0 && !is_ws(s[0]) {
        lemma_non_ws_prefix(s.drop_first());
    }
}

/// `str::split_whitespace`: the maximal runs of non-whitespace characters.
pub open spec fn words(s: Seq<char>) -> Seq<Seq<char>>
    decreases s.len(),
{
    let t = trim_start(s);
    let k = non_ws_prefix(t);
    if t.len() == 0 || k == 0 || t.len() > s.len() || k > t.len() {
        seq![]
    } else {
        seq![t.take(k as int)] + words(t.skip(k as int))
    }
}

/// `str::split_whitespace` on characters.
pub fn words_chars(v: &[char]) -> (r: Vec<Vec<char>>)
    ensures
        views_of(r@) == words(v@),
{
    let mut r: Vec<Vec<char>> = Vec::new();
    let n = v.len();
    let mut i: usize = 0;
    assert(v@.skip(0) =~= v@);
    loop
        invariant
            n == v@.len(),
            i <= n,
            views_of(r@) + words(v@.skip(i as int)) == words(v@),
        decreases n - i,
    {
        let ghost s = v@.skip(i as int);
        assert(s =~= v@.subrange(i as int, n as int));
        let a = skip_ws_forward(v, i, n);
        proof {
            lemma_leading_ws(s);
            assert(trim_start(s) =~= v@.subrange(a as int, n as int));
        }
        if a == n {
            assert(words(s) =~= Seq::<Seq<char>>::empty());
            assert(views_of(r@) =~= views_of(r@) + words(s));
            return r;
        }
        let mut b = a;
        while b < n && !is_whitespace(v[b])
            invariant
                a <= b <= n == v@.len(),
                non_ws_prefix(v@.subrange(a as int, n as int)) == (b - a) + non_ws_prefix(
                    v@.subrange(b as int, n as int),
                ),
            decreases n - b,
        {
            assert(v@.subrange(b as int, n as int).drop_first() =~= v@.subrange(
                b + 1,
                n as int,
            ));
            b += 1;
        }
        let piece = copy_range(v, a, b);
        proof {
            let t = trim_start(s);
            lemma_non_ws_prefix(t);
            assert(non_ws_prefix(v@.subrange(b as int, n as int)) == 0);
            assert(t.take(b - a) =~= piece@);
            assert(t.skip(b - a) =~= v@.skip(b as int));
            assert(words(s) == seq![piece@] + words(v@.skip(b as int)));
            lemma_views_push(r@, piece);
            assert(views_of(r@.push(piece)) + words(v@.skip(b as int)) =~= views_of(r@) + words(
                s,
            ));
        }
        r.push(piece);
        i = b;
    }
}

/// The pieces of `ps` joined with `sep` between them (`[T]::join`).
pub open spec fn join(ps: Seq<Seq<char>>, sep: Seq<char>) -> Seq<char>
    decreases ps.len(),
{
    if ps.len() == 0 {
        seq![]
    } else if ps.len() == 1 {
        ps[0]
    } else {
        join(ps.drop_last(), sep) + sep + ps.last()
    }
}

pub fn extend_chars(out: &mut Vec<char>, v: &[char])
    ensures
        final(out)@ == old(out)@ + v@,
{
    let mut i: usize = 0;
    while i < v.len()
        invariant
            0 <= i <= v@.len(),
            out@ == old(out)@ + v@.subrange(0, i as int),
        decreases v@.len() - i,
    {
        out.push(v[i]);
        assert(v@.subrange(0, i + 1) =~= v@.subrange(0, i as int).push(v@[i as int]));
        i += 1;
    }
    assert(v@.subrange(0, v@.len() as int) =~= v@);
}

/// Joins `ps[from..]` with `sep`.
pub fn join_chars(ps: &[Vec<char>], from: usize, sep: &[char]) -> (r: Vec<char>)
    requires
        from <= ps@.len(),
    ensures
        r@ == join(views_of(ps@.skip(from as int)), sep@),
{
    let mut r: Vec<char> = Vec::new();
    let mut i = from;
    let n = ps.len();
    while i < n
        invariant
            from <= i <= n == ps@.len(),
            r@ == join(views_of(ps@.subrange(from as int, i as int)), sep@),
        decreases n - i,
    {
        let ghost prev = views_of(ps@.subrange(from as int, i as int));
        let ghost next = views_of(ps@.subrange(from as int, i + 1));
        assert(next =~= prev.push(ps@[i as int]@));
        assert(next.drop_last() =~= prev);
        if i > from {
            extend_chars(&mut r, sep);
        }
        extend_chars(&mut r, ps[i].as_slice());
        i += 1;
    }
    assert(ps@.subrange(from as int, n as int) =~= ps@.skip(from as int));
    r
}

// ---------------------------------------------------------------------------
// ASCII case
// ---------------------------------------------------------------------------

pub open spec fn ascii_lower(c: char) -> char {
    if 'A' <= c && c <= 'Z' {
        ((c as u32) + 32) as char
    } else {
        c
    }
}

pub open spec fn ascii_lower_seq(s: Seq<char>) -> Seq<char> {
    s.map_values(|c: char| ascii_lower(c))
}

pub open spec fn ascii_upper(c: char) -> char {
    if 'a' <= c && c <= 'z' {
        ((c as u32) - 32) as char
    } else {
        c
    }
}

pub open spec fn ascii_upper_seq(s: Seq<char>) -> Seq<char> {
    s.map_values(|c: char| ascii_upper(c))
}

/// Every character is ASCII.
pub open spec fn all_ascii(s: Seq<char>) -> bool {
    forall|i: int| 0 <= i < s.len() ==> (#[trigger] s[i] as u32) < 128
}

/// `str::eq_ignore_ascii_case`.
pub open spec fn eq_ignore_ascii_case(a: Seq<char>, b: Seq<char>) -> bool {
    ascii_lower_seq(a) == ascii_lower_seq(b)
}

pub fn to_ascii_lower_char(c: char) -> (r: char)
    ensures
        r == ascii_lower(c),
{
    if 'A' <= c && c <= 'Z' {
        let u = c as u32;
        let b = u as u8;
        assert(b == u) by (bit_vector)
            requires
                65 <= u <= 90,
                b == u as u8,
        ;
        (b + 32) as char
    } else {
        c
    }
}

/// `str::to_ascii_lowercase` on characters.
pub fn ascii_lower_chars(v: &[char]) -> (r: Vec<char>)
    ensures
        r@ == ascii_lower_seq(v@),
{
    let mut r: Vec<char> = Vec::new();
    let mut i: usize = 0;
    while i < v.len()
        invariant
            0 <= i <= v@.len(),
            r@ =~= ascii_lower_seq(v@.subrange(0, i as int)),
        decreases v@.len() - i,
    {
        r.push(to_ascii_lower_char(v[i]));
        i += 1;
    }
    assert(v@.subrange(0, v@.len() as int) =~= v@);
    r
}

pub fn eq_ignore_ascii_case_chars(a: &[char], b: &[char]) -> (r: bool)
    ensures
        r == eq_ignore_ascii_case(a@, b@),
{
    if a.len() != b.len() {
        assert(ascii_lower_seq(a@).len() != ascii_lower_seq(b@).len());
        return false;
    }
    let mut i: usize = 0;
    while i < a.len()
        invariant
            a@.len() == b@.len(),
            0 <= i <= a@.len(),
            forall|j: int| 0 <= j < i ==> ascii_lower(a@[j]) == ascii_lower(b@[j]),
        decreases a@.len() - i,
    {
        if to_ascii_lower_char(a[i]) != to_ascii_lower_char(b[i]) {
            assert(ascii_lower_seq(a@)[i as int] != ascii_lower_seq(b@)[i as int]);
            return false;
        }
        i += 1;
    }
    assert(ascii_lower_seq(a@) =~= ascii_lower_seq(b@));
    true
}

} // verus!

verus! {

/// Appends the characters of `s` to `out`.
pub fn push_str(out: &mut Vec<char>, s: &str)
    ensures
        final(out)@ == old(out)@ + s@,
{
    let cs = chars_of(s);
    extend_chars(out, cs.as_slice());
}

// ---------------------------------------------------------------------------
// Numbers as text
// ---------------------------------------------------------------------------

pub open spec fn digit_char(d: nat) -> char {
    (48 + d) as char
}

/// Decimal digits of `n` without leading zeros (`n.to_string()` for unsigned integers).
pub open spec fn decimal(n: nat) -> Seq<char>
    decreases n,
{
    if n < 10 {
        seq![digit_char(n)]
    } else {
        decimal(n / 10).push(digit_char(n % 10))
    }
}

/// Text of a signed integer: a minus sign before the digits of its magnitude.
pub open spec fn signed_decimal(v: int) -> Seq<char> {
    if v < 0 {
        seq!['-'] + decimal((-v) as nat)
    } else {
        decimal(v as nat)
    }
}

pub fn u64_digits(n: u64) -> (r: Vec<char>)
    ensures
        r@ == decimal(n as nat),
{
    let mut m = n;
    let mut acc: Vec<char> = Vec::new();
    while m >= 10
        invariant
            decimal(n as nat) == decimal(m as nat) + acc@,
        decreases m,
    {
        let d = (m % 10) as u8;
        let c = (48u8 + d) as char;
        assert(decimal(m as nat) == decimal((m / 10) as nat).push(digit_char((m % 10) as nat)));
        let ghost before = acc@;
        acc.insert(0, c);
        assert(acc@ =~= seq![c] + before);
        assert(decimal(m as nat) + before =~= decimal((m / 10) as nat) + acc@);
        m = m / 10;
    }
    let c = (48u8 + m as u8) as char;
    acc.insert(0, c);
    acc
}

} // verus!

verus! {

pub fn i64_digits(v: i64) -> (r: Vec<char>)
    ensures
        r@ == signed_decimal(v as int),
{
    if v < 0 {
        let mag: u64 = (0i128 - v as i128) as u64;
        let digits = u64_digits(mag);
        let mut r: Vec<char> = Vec::new();
        r.push('-');
        extend_chars(&mut r, digits.as_slice());
        assert(r@ =~= seq!['-'] + decimal((-v) as nat));
        r
    } else {
        u64_digits(v as u64)
    }
}

pub open spec fn hex_char(d: nat) -> char {
    if d < 10 {
        digit_char(d)
    } else {
        (87 + d) as char
    }
}

/// The last `n` lowercase hexadecimal digits of `v`, most significant first.
pub open spec fn hex_digits(v: nat, n: nat) -> Seq<char>
    decreases n,
{
    if n == 0 {
        seq![]
    } else {
        hex_digits(v / 16, (n - 1) as nat).push(hex_char(v % 16))
    }
}

/// `format!("{:08x}", v)`: eight lowercase hexadecimal digits.
pub fn hex8(v: u32) -> (r: Vec<char>)
    ensures
        r@ == hex_digits(v as nat, 8),
{
    let mut m = v;
    let mut k: usize = 0;
    let mut acc: Vec<char> = Vec::new();
    while k < 8
        invariant
            0 <= k <= 8,
            hex_digits(v as nat, 8) == hex_digits(m as nat, (8 - k) as nat) + acc@,
        decreases 8 - k,
    {
        let d = (m % 16) as u8;
        let c = if d < 10 {
            (48u8 + d) as char
        } else {
            (87u8 + d) as char
        };
        assert(c == hex_char((m % 16) as nat));
        let ghost before = acc@;
        acc.insert(0, c);
        assert(acc@ =~= seq![c] + before);
        assert(hex_digits(m as nat, (8 - k) as nat) == hex_digits(
            (m / 16) as nat,
            (8 - k - 1) as nat,
        ).push(c));
        assert(hex_digits(m as nat, (8 - k) as nat) + before =~= hex_digits(
            (m / 16) as nat,
            (8 - k - 1) as nat,
        ) + acc@);
        m = m / 16;
        k += 1;
    }
    assert(hex_digits(m as nat, 0) =~= Seq::<char>::empty());
    assert(acc@ =~= hex_digits(m as nat, 0) + acc@);
    acc
}

pub open spec fn is_digit(c: char) -> bool {
    '0' <= c && c <= '9'
}

/// Value of a run of decimal digits.
pub open spec fn digits_value(s: Seq<char>) -> nat
    decreases s.len(),
{
    if s.len() == 0 {
        0
    } else {
        digits_value(s.drop_last()) * 10 + ((s.last() as u32) - 48) as nat
    }
}

/// `s.parse::<u32>()`: an optional `+`, then one or more decimal digits whose
/// value fits in 32 bits.
pub open spec fn all_digits(d: Seq<char>) -> bool {
    forall|i: int| 0 <= i < d.len() ==> is_digit(#[trigger] d[i])
}

/// The digit part of a number: `s` without one leading `+`.
pub open spec fn unsigned_digit_part(s: Seq<char>) -> Seq<char> {
    if s.len() > 0 && s[0] == '+' {
        s.drop_first()
    } else {
        s
    }
}

pub open spec fn parse_u32(s: Seq<char>) -> Option<u32> {
    let d = unsigned_digit_part(s);
    if d.len() > 0 && all_digits(d) && digits_value(d) <= u32::MAX {
        Some(digits_value(d) as u32)
    } else {
        None
    }
}

pub fn parse_u32_chars(v: &[char]) -> (r: Option<u32>)
    ensures
        r == parse_u32(v@),
{
    let n = v.len();
    let start: usize = if n > 0 && v[0] == '+' {
        1
    } else {
        0
    };
    let ghost d = unsigned_digit_part(v@);
    assert(d =~= v@.skip(start as int));
    if start == n {
        return None;
    }
    let mut acc: u64 = 0;
    let mut over = false;
    let mut i = start;
    while i < n
        invariant
            start <= i <= n == v@.len(),
            d == v@.skip(start as int),
            d == unsigned_digit_part(v@),
            forall|j: int| start <= j < i ==> is_digit(#[trigger] v@[j]),
            !over ==> acc as nat == digits_value(v@.subrange(start as int, i as int)) && acc
                <= u32::MAX,
            over ==> digits_value(v@.subrange(start as int, i as int)) > u32::MAX,
        decreases n - i,
    {
        let c = v[i];
        if !('0' <= c && c <= '9') {
            assert(d[i - start] == c);
            assert(!is_digit(d[i - start]));
            assert(!all_digits(d));
            return None;
        }
        let dv = (c as u32 - 48) as u64;
        let ghost pre = v@.subrange(start as int, i as int);
        let ghost nxt = v@.subrange(start as int, i + 1);
        assert(nxt.drop_last() =~= pre);
        assert(digits_value(nxt) == digits_value(pre) * 10 + dv);
        if !over {
            acc = acc * 10 + dv;
            if acc > 0xffff_ffff {
                over = true;
            }
        } else {
            assert(digits_value(pre) * 10 + dv >= digits_value(pre)) by (nonlinear_arith);
        }
        i += 1;
    }
    assert(v@.subrange(start as int, n as int) =~= d);
    if over {
        None
    } else {
        Some(acc as u32)
    }
}

// ---------------------------------------------------------------------------
// Replacing
// ---------------------------------------------------------------------------

/// `str::replace(from, to)` for a non-empty pattern: each non-overlapping
/// occurrence of `from`, scanning left to right, replaced by `to`.
pub open spec fn replace_all(s: Seq<char>, from: Seq<char>, to: Seq<char>) -> Seq<char>
    decreases s.len(),
{
    if from.len() == 0 || s.len() == 0 {
        s
    } else if occurs_at(s, from, 0) {
        to + replace_all(s.skip(from.len() as int), from, to)
    } else {
        seq![s[0]] + replace_all(s.drop_first(), from, to)
    }
}

pub fn replace_chars(v: &[char], from: &[char], to: &[char]) -> (r: Vec<char>)
    requires
        from@.len() > 0,
    ensures
        r@ == replace_all(v@, from@, to@),
{
    let mut r: Vec<char> = Vec::new();
    let n = v.len();
    let mut i: usize = 0;
    assert(v@.skip(0) =~= v@);
    while i < n
        invariant
            i <= n == v@.len(),
            from@.len() > 0,
            r@ + replace_all(v@.skip(i as int), from@, to@) == replace_all(v@, from@, to@),
        decreases n - i,
    {
        let ghost s = v@.skip(i as int);
        if matches_at(v, i, from) {
            assert(occurs_at(s, from@, 0)) by {
                assert(s.subrange(0, from@.len() as int) =~= v@.subrange(
                    i as int,
                    i + from@.len(),
                ));
            }
            assert(s.skip(from@.len() as int) =~= v@.skip(i + from@.len()));
            let ghost before = r@;
            extend_chars(&mut r, to);
            assert(before + replace_all(s, from@, to@) =~= r@ + replace_all(
                v@.skip(i + from@.len()),
                from@,
                to@,
            ));
            i = i + from.len();
        } else {
            assert(!occurs_at(s, from@, 0)) by {
                if occurs_at(s, from@, 0) {
                    assert(s.subrange(0, from@.len() as int) =~= v@.subrange(
                        i as int,
                        i + from@.len(),
                    ));
                }
            }
            assert(s.drop_first() =~= v@.skip(i + 1));
            let ghost before = r@;
            r.push(v[i]);
            assert(before + replace_all(s, from@, to@) =~= r@ + replace_all(
                v@.skip(i + 1),
                from@,
                to@,
            ));
            i += 1;
        }
    }
    assert(replace_all(v@.skip(n as int), from@, to@) =~= Seq::<char>::empty());
    assert(r@ =~= r@ + replace_all(v@.skip(n as int), from@, to@));
    r
}

// ---------------------------------------------------------------------------
// Unicode case mapping
// ---------------------------------------------------------------------------

/// What `str::to_lowercase` returns for a string with the given characters.
pub uninterp spec fn unicode_lowercase(s: Seq<char>) -> Seq<char>;

/// What `str::to_uppercase` returns for a string with the given characters.
pub uninterp spec fn unicode_uppercase(s: Seq<char>) -> Seq<char>;

/// Calls `str::to_lowercase`. Unicode case mapping depends only on the
/// characters of its argument; the mapping is named `unicode_lowercase`
/// and stated only for ASCII text, where Unicode lowers `A`..`Z` to
/// `a`..`z` and keeps every other character (as the documentation's
/// `"HELLO"` example shows). Beyond ASCII it is not stated.
#[verifier::external_body]
pub(crate) fn to_lowercase(s: &str) -> (r: String)
    ensures
        r@ == unicode_lowercase(s@),
        all_ascii(s@) ==> r@ == ascii_lower_seq(s@),
{
    s.to_lowercase()
}

/// Calls `str::to_uppercase`. As with `to_lowercase`, the mapping is named
/// by `unicode_uppercase` and stated only for ASCII text, where `a`..`z`
/// become `A`..`Z` and every other character stays.
#[verifier::external_body]
pub(crate) fn to_uppercase(s: &str) -> (r: String)
    ensures
        r@ == unicode_uppercase(s@),
        all_ascii(s@) ==> r@ == ascii_upper_seq(s@),
{
    s.to_uppercase()
}

} // verus!

verus! {

/// `a` followed by `b`.
pub fn cat(a: &str, b: &str) -> (r: String)
    ensures
        r@ == a@ + b@,
{
    let mut s = a.to_owned();
    s.append(b);
    s
}

/// `a`, `b` and `c` in order.
pub fn cat3(a: &str, b: &str, c: &str) -> (r: String)
    ensures
        r@ == a@ + b@ + c@,
{
    let mut s = a.to_owned();
    s.append(b);
    s.append(c);
    s
}

/// The trimmed text of `s` (`str::trim`).
pub fn trim_str(s: &str) -> (r: String)
    ensures
        r@ == trim(s@),
{
    let v = chars_of(s);
    let t = trim_chars(v.as_slice());
    string_of(t.as_slice())
}

/// The decimal text of `n`.
pub fn u64_to_string(n: u64) -> (r: String)
    ensures
        r@ == decimal(n as nat),
{
    let d = u64_digits(n);
    string_of(d.as_slice())
}

/// The decimal text of `v`, with a minus sign when negative.
pub fn i64_to_string(v: i64) -> (r: String)
    ensures
        r@ == signed_decimal(v as int),
{
    let d = i64_digits(v);
    string_of(d.as_slice())
}

} // verus!

verus! {

// ---------------------------------------------------------------------------
// UTF-8 byte lengths
// ---------------------------------------------------------------------------

/// Number of bytes of `c` in UTF-8.
pub open spec fn utf8_width(c: char) -> nat {
    if (c as u32) < 0x80 {
        1
    } else if (c as u32) < 0x800 {
        2
    } else if (c as u32) < 0x10000 {
        3
    } else {
        4
    }
}

/// Number of bytes of `s` in UTF-8 (`str::len`).
pub open spec fn utf8_len(s: Seq<char>) -> nat
    decreases s.len(),
{
    if s.len() == 0 {
        0
    } else {
        utf8_len(s.drop_last()) + utf8_width(s.last())
    }
}

/// `b` bytes into `s` fall between two characters.
pub open spec fn is_char_boundary(s: Seq<char>, b: nat) -> bool {
    exists|k: int| 0 <= k <= s.len() && #[trigger] utf8_len(s.take(k)) == b
}

/// The characters of the first `b` bytes of `s` (`&s[..b]`), where `b` is a
/// character boundary.
pub open spec fn byte_prefix(s: Seq<char>, b: nat) -> Seq<char> {
    s.take(choose|k: int| 0 <= k <= s.len() && #[trigger] utf8_len(s.take(k)) == b)
}

/// Longer prefixes take more bytes.
pub proof fn lemma_utf8_len_prefix_strict(s: Seq<char>, j: int, i: int)
    requires
        0 <= j < i <= s.len(),
    ensures
        utf8_len(s.take(j)) < utf8_len(s.take(i)),
    decreases i,
{
    assert(s.take(i).drop_last() =~= s.take(i - 1));
    if j < i - 1 {
        lemma_utf8_len_prefix_strict(s, j, i - 1);
    }
}

fn utf8_width_of(c: char) -> (r: usize)
    ensures
        r == utf8_width(c),
{
    let u = c as u32;
    if u < 0x80 {
        1
    } else if u < 0x800 {
        2
    } else if u < 0x10000 {
        3
    } else {
        4
    }
}

/// How many characters of `v` make up its first `b` bytes: `Some(k)` with
/// `v[..k]` exactly `b` bytes long, or `None` when `v` is shorter than `b`
/// bytes. `b` must fall on a character boundary where `v` is long enough.
pub fn byte_prefix_len(v: &[char], b: usize) -> (r: Option<usize>)
    requires
        b <= usize::MAX - 4,
        utf8_len(v@) >= b ==> is_char_boundary(v@, b as nat),
    ensures
        match r {
            Some(k) => utf8_len(v@) >= b && k <= v@.len() && v@.take(k as int) == byte_prefix(v@, b as nat),
            None => utf8_len(v@) < b,
        },
{
    let mut i: usize = 0;
    let mut acc: usize = 0;
    while i < v.len() && acc < b
        invariant
            0 <= i <= v@.len(),
            acc == utf8_len(v@.take(i as int)),
            acc <= b + 4,
            b <= usize::MAX - 4,
            i > 0 ==> utf8_len(v@.take(i - 1)) < b,
            utf8_len(v@) >= b ==> is_char_boundary(v@, b as nat),
        decreases v@.len() - i,
    {
        assert(v@.take(i + 1).drop_last() =~= v@.take(i as int));
        assert(v@.take(i + 1).last() == v@[i as int]);
        acc = acc + utf8_width_of(v[i]);
        i += 1;
    }
    if acc < b {
        assert(v@.take(i as int) =~= v@);
        return None;
    }
    if i < v.len() {
        proof {
            lemma_utf8_len_prefix_strict(v@, i as int, v@.len() as int);
        }
    }
    assert(v@.take(v@.len() as int) =~= v@);
    let ghost k = choose|k: int| 0 <= k <= v@.len() && #[trigger] utf8_len(v@.take(k)) == b;
    proof {
        if k < i {
            if k < i - 1 {
                lemma_utf8_len_prefix_strict(v@, k, i - 1);
            }
        } else if k > i {
            lemma_utf8_len_prefix_strict(v@, i as int, k);
        }
    }
    Some(i)
}

} // verus!

verus! {

/// Trimming twice is trimming once.
pub proof fn lemma_trim_idempotent(s: Seq<char>)
    ensures
        trim(trim(s)) == trim(s),
{
    let u = trim_start(s);
    let t = trim(s);
    lemma_leading_ws(s);
    lemma_trailing_ws(u);
    assert(t == u.take(u.len() - trailing_ws(u)));
    if t.len() > 0 {
        assert(t[0] == s[leading_ws(s) as int]);
        assert(leading_ws(t) == 0);
        assert(t.last() == u[u.len() - trailing_ws(u) - 1]);
        assert(trailing_ws(t) == 0);
    } else {
        assert(leading_ws(t) == 0);
        assert(trailing_ws(t) == 0);
    }
    assert(trim_start(t) =~= t);
    assert(trim(t) =~= t);
}

} // verus!
