//! Verified text primitives: whitespace trimming, substring search,
//! line splitting, and decimal rendering.  Everything the scanner and the
//! report generators do to strings is built from the functions here.

use vstd::prelude::*;

verus! {

// ---------------------------------------------------------------------------
// Characters
// ---------------------------------------------------------------------------

/// The Unicode `White_Space` characters, the set `str::trim` removes.
pub open spec fn is_space_char(c: char) -> bool {
    c == ' ' || c == '\t' || c == '\n' || c == '\r' || c == '\u{000B}' || c == '\u{000C}'
        || c == '\u{0085}' || c == '\u{00A0}' || c == '\u{1680}' || c == '\u{2000}'
        || c == '\u{2001}' || c == '\u{2002}' || c == '\u{2003}' || c == '\u{2004}'
        || c == '\u{2005}' || c == '\u{2006}' || c == '\u{2007}' || c == '\u{2008}'
        || c == '\u{2009}' || c == '\u{200A}' || c == '\u{2028}' || c == '\u{2029}'
        || c == '\u{202F}' || c == '\u{205F}' || c == '\u{3000}'
}

pub fn is_space(c: char) -> (r: bool)
    ensures
        r == is_space_char(c),
{
    c == ' ' || c == '\t' || c == '\n' || c == '\r' || c == '\u{000B}' || c == '\u{000C}'
        || c == '\u{0085}' || c == '\u{00A0}' || c == '\u{1680}' || c == '\u{2000}'
        || c == '\u{2001}' || c == '\u{2002}' || c == '\u{2003}' || c == '\u{2004}'
        || c == '\u{2005}' || c == '\u{2006}' || c == '\u{2007}' || c == '\u{2008}'
        || c == '\u{2009}' || c == '\u{200A}' || c == '\u{2028}' || c == '\u{2029}'
        || c == '\u{202F}' || c == '\u{205F}' || c == '\u{3000}'
}

// ---------------------------------------------------------------------------
// Trimming
// ---------------------------------------------------------------------------

pub open spec fn trim_front(s: Seq<char>) -> Seq<char>
    decreases s.len(),
{
    if s.len() > 0 && is_space_char(s[0]) {
        trim_front(s.skip(1))
    } else {
        s
    }
}

pub open spec fn trim_back(s: Seq<char>) -> Seq<char>
    decreases s.len(),
{
    if s.len() > 0 && is_space_char(s.last()) {
        trim_back(s.drop_last())
    } else {
        s
    }
}

/// What `str::trim` returns: the text with leading and trailing
/// whitespace removed.
pub open spec fn spec_trim(s: Seq<char>) -> Seq<char> {
    trim_back(trim_front(s))
}

proof fn lemma_trim_front_skip(s: Seq<char>, i: int)
    requires
        0 <= i <= s.len(),
        forall|j: int| 0 <= j < i ==> is_space_char(s[j]),
    ensures
        trim_front(s) == trim_front(s.skip(i)),
    decreases i,
{
    if i > 0 {
        assert(is_space_char(s[0]));
        assert(s.skip(1).skip(i - 1) =~= s.skip(i));
        assert(forall|j: int| 0 <= j < i - 1 ==> is_space_char(s.skip(1)[j]));
        lemma_trim_front_skip(s.skip(1), i - 1);
    } else {
        assert(s.skip(0) =~= s);
    }
}

proof fn lemma_trim_back_take(s: Seq<char>, k: int)
    requires
        0 <= k <= s.len(),
        forall|j: int| k <= j < s.len() ==> is_space_char(s[j]),
        k == 0 || !is_space_char(s[k - 1]),
    ensures
        trim_back(s) == s.take(k),
    decreases s.len() - k,
{
    if k < s.len() {
        assert(is_space_char(s.last()));
        lemma_trim_back_take(s.drop_last(), k);
        assert(s.drop_last().take(k) =~= s.take(k));
    } else {
        assert(s.take(k) =~= s);
        if s.len() > 0 {
            assert(!is_space_char(s.last()));
        }
    }
}

/// `str::trim`, verified against `spec_trim`.
pub fn trim_slice<'a>(s: &'a str) -> (r: &'a str)
    ensures
        r@ == spec_trim(s@),
{
    let n = s.unicode_len();
    let mut a: usize = 0;
    while a < n && is_space(s.get_char(a))
        invariant
            0 <= a <= n,
            n == s@.len(),
            forall|j: int| 0 <= j < a ==> is_space_char(s@[j]),
        decreases n - a,
    {
        a = a + 1;
    }
    let mut b: usize = n;
    while b > a && is_space(s.get_char(b - 1))
        invariant
            a <= b <= n,
            n == s@.len(),
            forall|j: int| b <= j < n ==> is_space_char(s@[j]),
        decreases b,
    {
        b = b - 1;
    }
    proof {
        lemma_trim_front_skip(s@, a as int);
        let t = s@.skip(a as int);
        if a < n {
            assert(t[0] == s@[a as int]);
            assert(trim_front(t) == t);
        } else {
            assert(t =~= Seq::<char>::empty());
            assert(trim_front(t) == t);
        }
        assert(forall|j: int| b - a <= j < t.len() ==> is_space_char(#[trigger] t[j]));
        if b > a {
            assert(t[b - a - 1] == s@[b - 1]);
        }
        lemma_trim_back_take(t, b - a);
        assert(t.take(b - a) =~= s@.subrange(a as int, b as int));
    }
    s.substring_char(a, b)
}

// ---------------------------------------------------------------------------
// Substring search
// ---------------------------------------------------------------------------

/// `needle` occurs in `hay` starting at index `i`.
pub open spec fn match_at(hay: Seq<char>, needle: Seq<char>, i: int) -> bool {
    0 <= i && i + needle.len() <= hay.len() && hay.subrange(i, i + needle.len()) == needle
}

/// `needle` occurs somewhere in `hay`: what `str::contains` tests.
pub open spec fn contains_sub(hay: Seq<char>, needle: Seq<char>) -> bool {
    exists|i: int| match_at(hay, needle, i)
}

/// Index of the first occurrence of `needle` in `hay`, or -1 when there is
/// none: what `str::find` returns.
pub open spec fn find_sub(hay: Seq<char>, needle: Seq<char>) -> int
    decreases hay.len(),
{
    if match_at(hay, needle, 0) {
        0
    } else if hay.len() == 0 {
        -1
    } else {
        let r = find_sub(hay.skip(1), needle);
        if r < 0 {
            -1
        } else {
            r + 1
        }
    }
}

proof fn lemma_match_at_shift(hay: Seq<char>, needle: Seq<char>, i: int)
    requires
        hay.len() > 0,
        0 <= i,
    ensures
        match_at(hay.skip(1), needle, i) == match_at(hay, needle, i + 1),
{
    if i + 1 + needle.len() <= hay.len() {
        assert(hay.skip(1).subrange(i, i + needle.len() as int) =~= hay.subrange(
            i + 1,
            i + 1 + needle.len(),
        ));
    }
}

pub proof fn lemma_find_sub(hay: Seq<char>, needle: Seq<char>)
    ensures
        find_sub(hay, needle) >= 0 ==> match_at(hay, needle, find_sub(hay, needle)) && (forall|
            j: int,
        |
            0 <= j < find_sub(hay, needle) ==> !match_at(hay, needle, j)),
        find_sub(hay, needle) < 0 ==> !contains_sub(hay, needle),
    decreases hay.len(),
{
    if match_at(hay, needle, 0) {
    } else if hay.len() == 0 {
        assert forall|i: int| !match_at(hay, needle, i) by {}
    } else {
        lemma_find_sub(hay.skip(1), needle);
        let r = find_sub(hay.skip(1), needle);
        assert forall|i: int| 0 <= i implies match_at(hay.skip(1), needle, i) == match_at(
            hay,
            needle,
            i + 1,
        ) by {
            lemma_match_at_shift(hay, needle, i);
        }
        if r < 0 {
            assert forall|j: int| !match_at(hay, needle, j) by {
                if j > 0 {
                    assert(!match_at(hay.skip(1), needle, j - 1));
                }
            }
        } else {
            assert(match_at(hay, needle, r + 1));
            assert forall|j: int| 0 <= j < r + 1 implies !match_at(hay, needle, j) by {
                if j > 0 {
                    assert(!match_at(hay.skip(1), needle, j - 1));
                }
            }
        }
    }
}

/// `str::find` for a substring pattern, verified against `find_sub`.
pub fn str_find(hay: &str, needle: &str) -> (r: Option<usize>)
    ensures
        match r {
            Some(i) => i == find_sub(hay@, needle@),
            None => find_sub(hay@, needle@) == -1 && !contains_sub(hay@, needle@),
        },
{
    proof {
        lemma_find_sub(hay@, needle@);
    }
    let hn = hay.unicode_len();
    let nn = needle.unicode_len();
    if nn > hn {
        proof {
            assert forall|i: int| !match_at(hay@, needle@, i) by {}
        }
        return None;
    }
    if nn == 0 {
        proof {
            assert(hay@.subrange(0, 0) =~= needle@);
            assert(match_at(hay@, needle@, 0));
        }
        return Some(0);
    }
    let mut i: usize = 0;
    while i <= hn - nn
        invariant
            hn == hay@.len(),
            nn == needle@.len(),
            1 <= nn <= hn,
            0 <= i <= hn - nn + 1,
            forall|j: int| 0 <= j < i ==> !match_at(hay@, needle@, j),
        decreases hn - nn - i + 1,
    {
        let mut j: usize = 0;
        let mut matched = true;
        while j < nn
            invariant
                hn == hay@.len(),
                nn == needle@.len(),
                i + nn <= hn,
                0 <= j <= nn,
                matched ==> forall|k: int| 0 <= k < j ==> hay@[i + k] == needle@[k],
                !matched ==> !match_at(hay@, needle@, i as int),
            decreases nn - j,
        {
            if hay.get_char(i + j) != needle.get_char(j) {
                proof {
                    if match_at(hay@, needle@, i as int) {
                        assert(hay@.subrange(i as int, i + nn as int)[j as int] == needle@[j as int]);
                    }
                }
                matched = false;
                j = nn;
            } else {
                j = j + 1;
            }
        }
        if matched {
            proof {
                assert(hay@.subrange(i as int, i + nn as int) =~= needle@);
                assert(match_at(hay@, needle@, i as int));
                lemma_find_sub(hay@, needle@);
                let f = find_sub(hay@, needle@);
                assert(contains_sub(hay@, needle@)) by {
                    assert(match_at(hay@, needle@, i as int));
                }
                assert(f >= 0);
                if f < i {
                    assert(!match_at(hay@, needle@, f));
                    assert(false);
                }
                if f > i {
                    assert(!match_at(hay@, needle@, i as int));
                    assert(false);
                }
            }
            return Some(i);
        }
        i = i + 1;
    }
    proof {
        assert forall|j: int| !match_at(hay@, needle@, j) by {
            if 0 <= j && j + nn <= hn {
                assert(!match_at(hay@, needle@, j));
            }
        }
    }
    None
}

/// `str::contains`, verified against `contains_sub`.
pub fn str_contains(hay: &str, needle: &str) -> (r: bool)
    ensures
        r == contains_sub(hay@, needle@),
{
    proof {
        lemma_find_sub(hay@, needle@);
    }
    match str_find(hay, needle) {
        Some(_) => true,
        None => false,
    }
}

/// `str::starts_with`, verified against `match_at` position 0.
pub fn str_starts_with(s: &str, prefix: &str) -> (r: bool)
    ensures
        r == match_at(s@, prefix@, 0),
{
    let sn = s.unicode_len();
    let pn = prefix.unicode_len();
    if pn > sn {
        return false;
    }
    let mut j: usize = 0;
    while j < pn
        invariant
            sn == s@.len(),
            pn == prefix@.len(),
            pn <= sn,
            0 <= j <= pn,
            forall|k: int| 0 <= k < j ==> s@[k] == prefix@[k],
        decreases pn - j,
    {
        if s.get_char(j) != prefix.get_char(j) {
            proof {
                if match_at(s@, prefix@, 0) {
                    assert(s@.subrange(0, pn as int)[j as int] == prefix@[j as int]);
                }
            }
            return false;
        }
        j = j + 1;
    }
    proof {
        assert(s@.subrange(0, pn as int) =~= prefix@);
    }
    true
}

/// Every sequence occurs in itself.
pub proof fn lemma_contains_self(x: Seq<char>)
    ensures
        contains_sub(x, x),
{
    assert(x.subrange(0, x.len() as int) =~= x);
    assert(match_at(x, x, 0));
}

/// An occurrence in the left part of a concatenation is an occurrence in
/// the whole.
pub proof fn lemma_contains_concat_left(a: Seq<char>, b: Seq<char>, x: Seq<char>)
    requires
        contains_sub(a, x),
    ensures
        contains_sub(a + b, x),
{
    let i = choose|i: int| match_at(a, x, i);
    assert((a + b).subrange(i, i + x.len() as int) =~= a.subrange(i, i + x.len() as int));
    assert(match_at(a + b, x, i));
}

/// An occurrence in the right part of a concatenation is an occurrence in
/// the whole.
pub proof fn lemma_contains_concat_right(a: Seq<char>, b: Seq<char>, x: Seq<char>)
    requires
        contains_sub(b, x),
    ensures
        contains_sub(a + b, x),
{
    let i = choose|i: int| match_at(b, x, i);
    assert((a + b).subrange(a.len() + i, a.len() + i + x.len() as int) =~= b.subrange(
        i,
        i + x.len() as int,
    ));
    assert(match_at(a + b, x, a.len() + i));
}

/// The text up to (and excluding) the first `//`, or all of it when there
/// is no line comment: rule 5 of the line classifier.
pub open spec fn spec_strip_comment(l: Seq<char>) -> Seq<char> {
    let f = find_sub(l, "//"@);
    if f >= 0 {
        l.take(f)
    } else {
        l
    }
}

/// Removes a trailing `//...` line comment, verified against
/// `spec_strip_comment`.
pub fn strip_line_comment<'a>(l: &'a str) -> (r: &'a str)
    ensures
        r@ == spec_strip_comment(l@),
{
    proof {
        lemma_find_sub(l@, "//"@);
    }
    match str_find(l, "//") {
        Some(i) => {
            proof {
                assert(l@.take(i as int) =~= l@.subrange(0, i as int));
            }
            l.substring_char(0, i)
        },
        None => l,
    }
}

/// `c` occurs in `s`.
pub open spec fn contains_char(s: Seq<char>, c: char) -> bool {
    exists|i: int| 0 <= i < s.len() && s[i] == c
}

/// `str::contains` for a single character, verified against
/// `contains_char`.
pub fn str_contains_char(s: &str, c: char) -> (r: bool)
    ensures
        r == contains_char(s@, c),
{
    let n = s.unicode_len();
    let mut i: usize = 0;
    while i < n
        invariant
            n == s@.len(),
            0 <= i <= n,
            forall|j: int| 0 <= j < i ==> s@[j] != c,
        decreases n - i,
    {
        if s.get_char(i) == c {
            return true;
        }
        i = i + 1;
    }
    false
}

// ---------------------------------------------------------------------------
// Line splitting
// ---------------------------------------------------------------------------

/// Index of the first occurrence of `c` in `s`, or -1.
pub open spec fn find_char(s: Seq<char>, c: char) -> int
    decreases s.len(),
{
    if s.len() == 0 {
        -1
    } else if s[0] == c {
        0
    } else {
        let r = find_char(s.skip(1), c);
        if r < 0 {
            -1
        } else {
            r + 1
        }
    }
}

pub proof fn lemma_find_char(s: Seq<char>, c: char)
    ensures
        find_char(s, c) >= 0 ==> 0 <= find_char(s, c) < s.len() && s[find_char(s, c)] == c && (
        forall|j: int| 0 <= j < find_char(s, c) ==> s[j] != c),
        find_char(s, c) < 0 ==> forall|j: int| 0 <= j < s.len() ==> s[j] != c,
    decreases s.len(),
{
    if s.len() == 0 {
    } else if s[0] == c {
    } else {
        lemma_find_char(s.skip(1), c);
        let t = s.skip(1);
        let r = find_char(t, c);
        assert(forall|j: int| 0 <= j < t.len() ==> t[j] == s[j + 1]);
        if r >= 0 {
            assert(s[r + 1] == t[r]);
            assert forall|j: int| 0 <= j < r + 1 implies s[j] != c by {
                if j > 0 {
                    assert(t[j - 1] != c);
                }
            }
        } else {
            assert forall|j: int| 0 <= j < s.len() implies s[j] != c by {
                if j > 0 {
                    assert(t[j - 1] != c);
                }
            }
        }
    }
}

/// A line segment with one trailing carriage return removed: how
/// `str::lines` treats a segment that ended in `\r\n`.
pub open spec fn strip_cr(t: Seq<char>) -> Seq<char> {
    if t.len() > 0 && t.last() == '\r' {
        t.drop_last()
    } else {
        t
    }
}

/// What `str::lines` yields: segments split at `\n`, each with a trailing
/// `\r` removed; a final empty segment is not a line.
pub open spec fn spec_lines(s: Seq<char>) -> Seq<Seq<char>>
    decreases s.len(),
{
    if s.len() == 0 {
        seq![]
    } else {
        let f = find_char(s, '\n');
        if 0 <= f < s.len() {
            seq![strip_cr(s.take(f))] + spec_lines(s.skip(f + 1))
        } else {
            seq![s]
        }
    }
}

/// `str::lines` collected into a vector, verified against `spec_lines`.
pub fn split_lines(s: &str) -> (r: Vec<String>)
    ensures
        r.deep_view() == spec_lines(s@),
{
    let n = s.unicode_len();
    let mut r: Vec<String> = Vec::new();
    let mut pos: usize = 0;
    proof {
        assert(s@.skip(0) =~= s@);
        assert(r.deep_view() =~= Seq::<Seq<char>>::empty());
    }
    while pos < n
        invariant
            n == s@.len(),
            0 <= pos <= n,
            r.deep_view() + spec_lines(s@.skip(pos as int)) =~= spec_lines(s@),
        decreases n - pos,
    {
        let ghost t = s@.skip(pos as int);
        let mut j: usize = pos;
        while j < n && s.get_char(j) != '\n'
            invariant
                n == s@.len(),
                pos <= j <= n,
                forall|k: int| pos <= k < j ==> s@[k] != '\n',
            decreases n - j,
        {
            j = j + 1;
        }
        proof {
            lemma_find_char(t, '\n');
            assert(forall|k: int| 0 <= k < j - pos ==> t[k] == s@[pos + k] && s@[pos + k] != '\n');
            if j < n {
                assert(t[j - pos] == s@[j as int]);
                assert(t[j - pos] == '\n');
                // the first newline of the remainder is at j - pos
                let f = find_char(t, '\n');
                assert(f >= 0) by {
                    if f < 0 {
                        assert(t[j - pos] != '\n');
                    }
                }
                assert(f == j - pos) by {
                    if f < j - pos {
                        assert(t[f] == '\n');
                    }
                    if f > j - pos {
                        assert(t[j - pos] != '\n');
                    }
                }
            } else {
                let f = find_char(t, '\n');
                if f >= 0 {
                    assert(t[f] == '\n');
                    assert(t[f] == s@[pos + f]);
                    assert(false);
                }
            }
        }
        if j < n {
            // a newline ends this line; drop a carriage return before it
            let end = if j > pos && s.get_char(j - 1) == '\r' {
                j - 1
            } else {
                j
            };
            let line = s.substring_char(pos, end);
            proof {
                assert(t.take(j - pos) =~= s@.subrange(pos as int, j as int));
                assert(strip_cr(t.take(j - pos)) =~= s@.subrange(pos as int, end as int));
            }
            let owned = line.to_owned();
            r.push(owned);
            proof {
                assert(t.skip(j - pos + 1) =~= s@.skip(j + 1));
                assert(r.deep_view() =~= r.deep_view().drop_last().push(s@.subrange(
                    pos as int,
                    end as int,
                )));
                assert(r.deep_view() + spec_lines(s@.skip(j + 1)) =~= spec_lines(s@));
            }
            pos = j + 1;
        } else {
            // no further newline: the rest is the last line
            let line = s.substring_char(pos, n);
            proof {
                assert(t =~= s@.subrange(pos as int, n as int));
                assert(spec_lines(t) =~= seq![t]);
            }
            let owned = line.to_owned();
            r.push(owned);
            proof {
                assert(r.deep_view() =~= r.deep_view().drop_last().push(t));
                assert(s@.skip(n as int) =~= Seq::<char>::empty());
                assert(r.deep_view() + spec_lines(s@.skip(n as int)) =~= spec_lines(s@));
            }
            pos = n;
        }
    }
    proof {
        assert(s@.skip(pos as int) =~= Seq::<char>::empty());
        assert(r.deep_view() + spec_lines(s@.skip(pos as int)) =~= r.deep_view());
    }
    r
}

// ---------------------------------------------------------------------------
// Decimal rendering
// ---------------------------------------------------------------------------

/// The decimal digit character for `n` in 0..10.
pub open spec fn dec_digit(n: int) -> char {
    if n == 0 {
        '0'
    } else if n == 1 {
        '1'
    } else if n == 2 {
        '2'
    } else if n == 3 {
        '3'
    } else if n == 4 {
        '4'
    } else if n == 5 {
        '5'
    } else if n == 6 {
        '6'
    } else if n == 7 {
        '7'
    } else if n == 8 {
        '8'
    } else {
        '9'
    }
}

/// The decimal representation of `n`, most significant digit first.
pub open spec fn dec_rep(n: nat) -> Seq<char>
    decreases n,
{
    if n < 10 {
        seq![dec_digit(n as int)]
    } else {
        dec_rep(n / 10) + seq![dec_digit((n % 10) as int)]
    }
}

/// Relies on `String::push`: appends exactly the one character.
#[verifier::external_body]
pub fn push_char(s: &mut String, c: char)
    ensures
        final(s)@ == old(s)@.push(c),
{
    s.push(c);
}

pub fn dec_digit_exec(n: u64) -> (c: char)
    requires
        n < 10,
    ensures
        c == dec_digit(n as int),
{
    if n == 0 {
        '0'
    } else if n == 1 {
        '1'
    } else if n == 2 {
        '2'
    } else if n == 3 {
        '3'
    } else if n == 4 {
        '4'
    } else if n == 5 {
        '5'
    } else if n == 6 {
        '6'
    } else if n == 7 {
        '7'
    } else if n == 8 {
        '8'
    } else {
        '9'
    }
}

/// Renders `n` in decimal, verified against `dec_rep`.
pub fn dec_string(n: u64) -> (r: String)
    ensures
        r@ == dec_rep(n as nat),
    decreases n,
{
    let mut r = if n >= 10 {
        dec_string(n / 10)
    } else {
        String::new()
    };
    push_char(&mut r, dec_digit_exec(n % 10));
    proof {
        if n >= 10 {
            assert(dec_rep((n / 10) as nat).push(dec_digit((n % 10) as int)) =~= dec_rep(
                (n / 10) as nat,
            ) + seq![dec_digit((n % 10) as int)]);
        } else {
            assert(Seq::<char>::empty().push(dec_digit(n as int)) =~= seq![dec_digit(n as int)]);
        }
    }
    r
}

} // verus!
