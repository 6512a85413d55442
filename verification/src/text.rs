//! Character-level text primitives: character classes, trimming, prefix and
//! suffix tests, and splitting into lines and words, each with a
//! mathematical definition over `Seq<char>`.
use vstd::prelude::*;

verus! {

/// Appends one character to a string (`String::push`).
#[verifier::external_body]
pub(crate) fn push_char(s: &mut String, c: char)
    ensures
        final(s)@ == old(s)@.push(c),
{
    s.push(c);
}

/// The characters of a string slice, in order.
pub fn chars_of(s: &str) -> (r: Vec<char>)
    ensures
        r@ == s@,
{
    let mut r: Vec<char> = Vec::new();
    for c in it: s.chars()
        invariant
            r@ == it.seq().take(it.index() as int),
            it.seq() == s@,
    {
        r.push(c);
    }
    r
}

/// A string holding exactly the given characters.
pub fn string_of(cs: &Vec<char>) -> (r: String)
    ensures
        r@ == cs@,
{
    let mut r = String::new();
    let mut i: usize = 0;
    while i < cs.len()
        invariant
            i <= cs.len(),
            r@ == cs@.take(i as int),
        decreases cs.len() - i,
    {
        push_char(&mut r, cs[i]);
        assert(cs@.take(i + 1) == cs@.take(i as int).push(cs@[i as int]));
        i = i + 1;
    }
    assert(cs@.take(cs.len() as int) == cs@);
    r
}

/// Unicode `White_Space` (what `char::is_whitespace` tests).
pub open spec fn is_ws(c: char) -> bool {
    let u = c as u32;
    (0x9 <= u && u <= 0xd) || u == 0x20 || u == 0x85 || u == 0xa0 || u == 0x1680 || (0x2000 <= u
        && u <= 0x200a) || u == 0x2028 || u == 0x2029 || u == 0x202f || u == 0x205f || u == 0x3000
}

pub open spec fn is_ascii_alpha(c: char) -> bool {
    let u = c as u32;
    (0x41 <= u && u <= 0x5a) || (0x61 <= u && u <= 0x7a)
}

pub open spec fn is_ascii_digit(c: char) -> bool {
    let u = c as u32;
    0x30 <= u && u <= 0x39
}

pub open spec fn is_ascii_alnum(c: char) -> bool {
    is_ascii_alpha(c) || is_ascii_digit(c)
}

/// `char::to_ascii_lowercase`.
pub open spec fn lower_char(c: char) -> char {
    let u = c as u32;
    if 0x41 <= u && u <= 0x5a {
        ((u + 32) as u32) as char
    } else {
        c
    }
}

/// `str::to_ascii_lowercase`, character by character.
pub open spec fn lower(s: Seq<char>) -> Seq<char> {
    Seq::new(s.len(), |i: int| lower_char(s[i]))
}

pub fn char_is_ws(c: char) -> (b: bool)
    ensures
        b == is_ws(c),
{
    let u = c as u32;
    (0x9 <= u && u <= 0xd) || u == 0x20 || u == 0x85 || u == 0xa0 || u == 0x1680 || (0x2000 <= u
        && u <= 0x200a) || u == 0x2028 || u == 0x2029 || u == 0x202f || u == 0x205f || u == 0x3000
}

pub fn char_is_ascii_alpha(c: char) -> (b: bool)
    ensures
        b == is_ascii_alpha(c),
{
    let u = c as u32;
    (0x41 <= u && u <= 0x5a) || (0x61 <= u && u <= 0x7a)
}

pub fn char_is_ascii_digit(c: char) -> (b: bool)
    ensures
        b == is_ascii_digit(c),
{
    let u = c as u32;
    0x30 <= u && u <= 0x39
}

pub fn char_is_ascii_alnum(c: char) -> (b: bool)
    ensures
        b == is_ascii_alnum(c),
{
    char_is_ascii_alpha(c) || char_is_ascii_digit(c)
}

pub fn lower_char_exec(c: char) -> (r: char)
    ensures
        r == lower_char(c),
{
    let u = c as u32;
    if 0x41 <= u && u <= 0x5a {
        let v: u32 = u + 32;
        assert(0x61 <= v && v <= 0x7a);
        char_from_ascii(v)
    } else {
        c
    }
}

/// The character with an ASCII code point.
pub(crate) fn char_from_ascii(v: u32) -> (c: char)
    requires
        v < 0x80,
    ensures
        c == v as char,
{
    let b: u8 = v as u8;
    b as char
}

/// The lower-cased copy of a character sequence.
pub fn lower_vec(cs: &Vec<char>) -> (r: Vec<char>)
    ensures
        r@ == lower(cs@),
{
    let mut r: Vec<char> = Vec::new();
    let mut i: usize = 0;
    while i < cs.len()
        invariant
            i <= cs.len(),
            r@ == lower(cs@.take(i as int)),
        decreases cs.len() - i,
    {
        let c = lower_char_exec(cs[i]);
        r.push(c);
        i = i + 1;
        assert(r@ =~= lower(cs@.take(i as int)));
    }
    assert(cs@.take(cs.len() as int) == cs@);
    r
}

/// A class of characters that trimming and splitting act on.
pub enum CharSet {
    /// `char::is_whitespace`
    Whitespace,
    /// one given character
    Only(char),
    /// the quotes, brackets and punctuation that wrap a word in program
    /// output: `"`, `'`, `(`, `)`, `,`, `.`
    Wrapping,
    /// `char::is_ascii_alphabetic`
    AsciiAlpha,
}

pub open spec fn in_set(k: CharSet, c: char) -> bool {
    match k {
        CharSet::Whitespace => is_ws(c),
        CharSet::Only(d) => c == d,
        CharSet::Wrapping => c == '"' || c == '\'' || c == ')' || c == '(' || c == ',' || c == '.',
        CharSet::AsciiAlpha => is_ascii_alpha(c),
    }
}

pub fn set_has(k: &CharSet, c: char) -> (b: bool)
    ensures
        b == in_set(*k, c),
{
    match k {
        CharSet::Whitespace => char_is_ws(c),
        CharSet::Only(d) => c == *d,
        CharSet::Wrapping => c == '"' || c == '\'' || c == ')' || c == '(' || c == ',' || c == '.',
        CharSet::AsciiAlpha => char_is_ascii_alpha(c),
    }
}

/// Drops the leading characters of the class.
pub open spec fn trim_start(s: Seq<char>, k: CharSet) -> Seq<char>
    decreases s.len(),
{
    if s.len() > 0 && in_set(k, s[0]) {
        trim_start(s.drop_first(), k)
    } else {
        s
    }
}

/// Drops the trailing characters of the class.
pub open spec fn trim_end(s: Seq<char>, k: CharSet) -> Seq<char>
    decreases s.len(),
{
    if s.len() > 0 && in_set(k, s.last()) {
        trim_end(s.drop_last(), k)
    } else {
        s
    }
}

/// Drops the characters of the class at both ends (`str::trim_matches`;
/// `str::trim` for whitespace).
pub open spec fn trim(s: Seq<char>, k: CharSet) -> Seq<char> {
    trim_end(trim_start(s, k), k)
}

/// `str::trim`.
pub open spec fn trim_ws(s: Seq<char>) -> Seq<char> {
    trim(s, CharSet::Whitespace)
}

/// Position of the first character of the class; the length when there is none.
pub open spec fn first_in_set(s: Seq<char>, k: CharSet) -> nat
    decreases s.len(),
{
    if s.len() == 0 {
        0
    } else if in_set(k, s[0]) {
        0
    } else {
        1 + first_in_set(s.drop_first(), k)
    }
}

pub proof fn lemma_first_in_set(s: Seq<char>, k: CharSet)
    ensures
        first_in_set(s, k) <= s.len(),
        forall|i: int| 0 <= i < first_in_set(s, k) ==> !in_set(k, #[trigger] s[i]),
        first_in_set(s, k) < s.len() ==> in_set(k, s[first_in_set(s, k) as int]),
    decreases s.len(),
{
    if s.len() > 0 && !in_set(k, s[0]) {
        lemma_first_in_set(s.drop_first(), k);
        assert forall|i: int| 0 <= i < first_in_set(s, k) implies !in_set(k, #[trigger] s[i]) by {
            if i > 0 {
                assert(s[i] == s.drop_first()[i - 1]);
            }
        }
    }
}

pub proof fn lemma_first_in_set_unique(s: Seq<char>, k: CharSet, n: nat)
    requires
        n <= s.len(),
        forall|i: int| 0 <= i < n ==> !in_set(k, #[trigger] s[i]),
        n == s.len() || in_set(k, s[n as int]),
    ensures
        first_in_set(s, k) == n,
    decreases s.len(),
{
    if s.len() > 0 && n > 0 {
        assert(!in_set(k, s[0]));
        assert forall|i: int| 0 <= i < n - 1 implies !in_set(k, #[trigger] s.drop_first()[i]) by {
            assert(s.drop_first()[i] == s[i + 1]);
        }
        lemma_first_in_set_unique(s.drop_first(), k, (n - 1) as nat);
    }
}

/// Whether `s` begins with `p`.
pub open spec fn starts_with(s: Seq<char>, p: Seq<char>) -> bool {
    p.len() <= s.len() && s.take(p.len() as int) == p
}

/// Whether `s` ends with `p`.
pub open spec fn ends_with(s: Seq<char>, p: Seq<char>) -> bool {
    p.len() <= s.len() && s.skip(s.len() - p.len()) == p
}

/// Whether `p` occurs in `s` at position `i`.
pub open spec fn occurs_at(s: Seq<char>, p: Seq<char>, i: int) -> bool {
    0 <= i && i + p.len() <= s.len() && s.subrange(i, i + p.len()) == p
}

/// Whether `p` occurs in `s` (`str::contains`).
pub open spec fn contains(s: Seq<char>, p: Seq<char>) -> bool {
    exists|i: int| occurs_at(s, p, i)
}

/// Lines as `str::lines` yields them: split at `\n`, a `\r` before the `\n`
/// dropped, and no empty line after a final `\n`.
pub open spec fn lines(s: Seq<char>) -> Seq<Seq<char>>
    decreases s.len(),
{
    if s.len() == 0 {
        seq![]
    } else {
        let k = first_in_set(s, CharSet::Only('\n'));
        if k < s.len() {
            seq![strip_cr(s.take(k as int))] + lines(s.skip((k + 1) as int))
        } else {
            seq![s]
        }
    }
}

pub open spec fn strip_cr(l: Seq<char>) -> Seq<char> {
    if l.len() > 0 && l.last() == '\r' {
        l.drop_last()
    } else {
        l
    }
}

/// Words as `str::split_whitespace` yields them.
pub open spec fn words(s: Seq<char>) -> Seq<Seq<char>>
    decreases s.len(),
{
    if s.len() == 0 {
        seq![]
    } else if is_ws(s[0]) {
        words(s.drop_first())
    } else {
        let k = first_in_set(s, CharSet::Whitespace);
        if 0 < k <= s.len() {
            seq![s.take(k as int)] + words(s.skip(k as int))
        } else {
            seq![s]
        }
    }
}

/// The characters of `cs` from `lo` to `hi`.
pub fn sub_vec(cs: &Vec<char>, lo: usize, hi: usize) -> (r: Vec<char>)
    requires
        lo <= hi <= cs.len(),
    ensures
        r@ == cs@.subrange(lo as int, hi as int),
{
    let mut r: Vec<char> = Vec::new();
    let mut i = lo;
    while i < hi
        invariant
            lo <= i <= hi <= cs.len(),
            r@ == cs@.subrange(lo as int, i as int),
        decreases hi - i,
    {
        r.push(cs[i]);
        i = i + 1;
        assert(r@ =~= cs@.subrange(lo as int, i as int));
    }
    r
}

/// The first position at or after `lo` that holds a character of the class,
/// or the length.
pub fn first_in_set_from(cs: &Vec<char>, lo: usize, k: &CharSet) -> (r: usize)
    requires
        lo <= cs.len(),
    ensures
        lo <= r <= cs.len(),
        r - lo == first_in_set(cs@.skip(lo as int), *k),
        forall|i: int| lo <= i < r ==> !in_set(*k, #[trigger] cs@[i]),
        r < cs.len() ==> in_set(*k, cs@[r as int]),
{
    let mut i = lo;
    while i < cs.len() && !set_has(k, cs[i])
        invariant
            lo <= i <= cs.len(),
            forall|j: int| lo <= j < i ==> !in_set(*k, #[trigger] cs@[j]),
        decreases cs.len() - i,
    {
        i = i + 1;
    }
    proof {
        let t = cs@.skip(lo as int);
        assert forall|j: int| 0 <= j < i - lo implies !in_set(*k, #[trigger] t[j]) by {
            assert(t[j] == cs@[lo + j]);
        }
        if i < cs.len() {
            assert(t[i - lo] == cs@[i as int]);
        }
        lemma_first_in_set_unique(t, *k, (i - lo) as nat);
    }
    i
}

pub proof fn lemma_trim_start_skip(s: Seq<char>, k: CharSet, i: int)
    requires
        0 <= i <= s.len(),
        forall|j: int| 0 <= j < i ==> in_set(k, #[trigger] s[j]),
    ensures
        trim_start(s, k) == trim_start(s.skip(i), k),
    decreases i,
{
    if i > 0 {
        assert(s.drop_first().skip(i - 1) =~= s.skip(i));
        assert forall|j: int| 0 <= j < i - 1 implies in_set(k, #[trigger] s.drop_first()[j]) by {
            assert(s.drop_first()[j] == s[j + 1]);
        }
        lemma_trim_start_skip(s.drop_first(), k, i - 1);
    } else {
        assert(s.skip(0) =~= s);
    }
}

pub proof fn lemma_trim_end_take(s: Seq<char>, k: CharSet, i: int)
    requires
        0 <= i <= s.len(),
        forall|j: int| i <= j < s.len() ==> in_set(k, #[trigger] s[j]),
    ensures
        trim_end(s, k) == trim_end(s.take(i), k),
    decreases s.len() - i,
{
    if i < s.len() {
        assert(s.drop_last().take(i) =~= s.take(i));
        assert forall|j: int| i <= j < s.drop_last().len() implies in_set(
            k,
            #[trigger] s.drop_last()[j],
        ) by {
            assert(s.drop_last()[j] == s[j]);
        }
        lemma_trim_end_take(s.drop_last(), k, i);
    } else {
        assert(s.take(i) =~= s);
    }
}

/// Bounds of `cs[lo..hi]` with the leading characters of the class dropped.
pub fn trim_start_range(cs: &Vec<char>, lo: usize, hi: usize, k: &CharSet) -> (r: usize)
    requires
        lo <= hi <= cs.len(),
    ensures
        lo <= r <= hi,
        cs@.subrange(r as int, hi as int) == trim_start(cs@.subrange(lo as int, hi as int), *k),
        r < hi ==> !in_set(*k, cs@[r as int]),
{
    let mut i = lo;
    while i < hi && set_has(k, cs[i])
        invariant
            lo <= i <= hi <= cs.len(),
            forall|j: int| lo <= j < i ==> in_set(*k, #[trigger] cs@[j]),
        decreases hi - i,
    {
        i = i + 1;
    }
    proof {
        let s = cs@.subrange(lo as int, hi as int);
        assert forall|j: int| 0 <= j < i - lo implies in_set(*k, #[trigger] s[j]) by {
            assert(s[j] == cs@[lo + j]);
        }
        lemma_trim_start_skip(s, *k, i - lo);
        assert(s.skip(i - lo) =~= cs@.subrange(i as int, hi as int));
    }
    i
}

/// Bounds of `cs[lo..hi]` with the trailing characters of the class dropped.
pub fn trim_end_range(cs: &Vec<char>, lo: usize, hi: usize, k: &CharSet) -> (r: usize)
    requires
        lo <= hi <= cs.len(),
    ensures
        lo <= r <= hi,
        cs@.subrange(lo as int, r as int) == trim_end(cs@.subrange(lo as int, hi as int), *k),
        r > lo ==> !in_set(*k, cs@[r - 1]),
{
    let mut j = hi;
    while j > lo && set_has(k, cs[j - 1])
        invariant
            lo <= j <= hi <= cs.len(),
            forall|m: int| j <= m < hi ==> in_set(*k, #[trigger] cs@[m]),
        decreases j - lo,
    {
        j = j - 1;
    }
    proof {
        let s = cs@.subrange(lo as int, hi as int);
        assert forall|m: int| j - lo <= m < s.len() implies in_set(*k, #[trigger] s[m]) by {
            assert(s[m] == cs@[lo + m]);
        }
        lemma_trim_end_take(s, *k, j - lo);
        let t = cs@.subrange(lo as int, j as int);
        assert(s.take(j - lo) =~= t);
        if t.len() > 0 {
            assert(t.last() == cs@[j - 1]);
        }
    }
    j
}

/// Bounds of `cs[lo..hi]` with the characters of the class dropped at both ends.
pub fn trim_range(cs: &Vec<char>, lo: usize, hi: usize, k: &CharSet) -> (r: (usize, usize))
    requires
        lo <= hi <= cs.len(),
    ensures
        lo <= r.0 <= r.1 <= hi,
        cs@.subrange(r.0 as int, r.1 as int) == trim(cs@.subrange(lo as int, hi as int), *k),
{
    let a = trim_start_range(cs, lo, hi, k);
    let b = trim_end_range(cs, a, hi, k);
    (a, b)
}

/// Whether `p` occurs in `cs` at position `at`.
pub fn occurs_at_exec(cs: &Vec<char>, p: &Vec<char>, at: usize) -> (b: bool)
    ensures
        b == occurs_at(cs@, p@, at as int),
{
    if at > cs.len() || p.len() > cs.len() - at {
        return false;
    }
    let mut i: usize = 0;
    while i < p.len()
        invariant
            at + p.len() <= cs.len(),
            i <= p.len(),
            forall|j: int| 0 <= j < i ==> cs@[at + j] == p@[j],
        decreases p.len() - i,
    {
        if cs[at + i] != p[i] {
            assert(cs@.subrange(at as int, at + p.len())[i as int] != p@[i as int]);
            return false;
        }
        i = i + 1;
    }
    assert(cs@.subrange(at as int, at + p.len()) =~= p@);
    true
}

pub fn starts_with_exec(cs: &Vec<char>, p: &Vec<char>) -> (b: bool)
    ensures
        b == starts_with(cs@, p@),
{
    let b = occurs_at_exec(cs, p, 0);
    proof {
        if p@.len() <= cs@.len() {
            assert(cs@.subrange(0, p@.len() as int) =~= cs@.take(p@.len() as int));
        }
    }
    b
}

pub fn ends_with_exec(cs: &Vec<char>, p: &Vec<char>) -> (b: bool)
    ensures
        b == ends_with(cs@, p@),
{
    if p.len() > cs.len() {
        return false;
    }
    let b = occurs_at_exec(cs, p, cs.len() - p.len());
    assert(cs@.subrange(cs.len() - p.len(), cs.len() as int) =~= cs@.skip(cs.len() - p.len()));
    b
}

pub fn contains_exec(cs: &Vec<char>, p: &Vec<char>) -> (b: bool)
    ensures
        b == contains(cs@, p@),
{
    if p.len() > cs.len() {
        assert forall|i: int| !occurs_at(cs@, p@, i) by {}
        return false;
    }
    let lim = cs.len() - p.len();
    let mut i: usize = 0;
    loop
        invariant
            p.len() <= cs.len(),
            lim == cs.len() - p.len(),
            i <= lim,
            forall|j: int| 0 <= j < i ==> !occurs_at(cs@, p@, j),
        ensures
            forall|j: int| 0 <= j <= lim ==> !occurs_at(cs@, p@, j),
        decreases lim - i,
    {
        if occurs_at_exec(cs, p, i) {
            return true;
        }
        if i == lim {
            break;
        }
        i = i + 1;
    }
    assert forall|j: int| !occurs_at(cs@, p@, j) by {
        if 0 <= j <= lim {
        }
    }
    false
}

pub proof fn lemma_lines_step(s: Seq<char>, q: int)
    requires
        0 <= q < s.len(),
        s[q] == '\n',
        forall|j: int| 0 <= j < q ==> #[trigger] s[j] != '\n',
    ensures
        lines(s) == seq![strip_cr(s.take(q))] + lines(s.skip(q + 1)),
{
    assert forall|j: int| 0 <= j < q implies !in_set(CharSet::Only('\n'), #[trigger] s[j]) by {}
    lemma_first_in_set_unique(s, CharSet::Only('\n'), q as nat);
}

pub proof fn lemma_lines_last(s: Seq<char>)
    requires
        s.len() > 0,
        forall|j: int| 0 <= j < s.len() ==> #[trigger] s[j] != '\n',
    ensures
        lines(s) == seq![s],
{
    assert forall|j: int| 0 <= j < s.len() implies !in_set(CharSet::Only('\n'), #[trigger] s[j]) by {}
    lemma_first_in_set_unique(s, CharSet::Only('\n'), s.len());
}

pub open spec fn views(v: Seq<Vec<char>>) -> Seq<Seq<char>> {
    v.map_values(|x: Vec<char>| x@)
}

/// The lines of a text, as `str::lines` yields them.
pub fn split_lines(cs: &Vec<char>) -> (r: Vec<Vec<char>>)
    ensures
        views(r@) == lines(cs@),
{
    let mut out: Vec<Vec<char>> = Vec::new();
    let mut p: usize = 0;
    let nl = CharSet::Only('\n');
    assert(cs@.skip(0) =~= cs@);
    while p < cs.len()
        invariant
            p <= cs.len(),
            nl == CharSet::Only('\n'),
            lines(cs@) == views(out@) + lines(cs@.skip(p as int)),
        decreases cs.len() - p,
    {
        let q = first_in_set_from(cs, p, &nl);
        let ghost t = cs@.skip(p as int);
        if q < cs.len() {
            let e = if q > p && cs[q - 1] == '\r' {
                q - 1
            } else {
                q
            };
            let line = sub_vec(cs, p, e);
            proof {
                assert forall|j: int| 0 <= j < q - p implies #[trigger] t[j] != '\n' by {
                    assert(t[j] == cs@[p + j]);
                }
                assert(t[q - p] == cs@[q as int]);
                lemma_lines_step(t, q - p);
                assert(t.skip(q - p + 1) =~= cs@.skip(q + 1));
                let l = t.take(q - p);
                if q > p {
                    assert(l.last() == cs@[q - 1]);
                }
                assert(strip_cr(l) =~= line@);
            }
            let ghost prev = out@;
            out.push(line);
            proof {
                assert(views(out@) =~= views(prev) + seq![line@]);
            }
            p = q + 1;
        } else {
            let line = sub_vec(cs, p, cs.len());
            proof {
                assert forall|j: int| 0 <= j < t.len() implies #[trigger] t[j] != '\n' by {
                    assert(t[j] == cs@[p + j]);
                    assert(!in_set(CharSet::Only('\n'), cs@[p + j]));
                }
                lemma_lines_last(t);
                assert(t =~= line@);
            }
            let ghost prev = out@;
            out.push(line);
            proof {
                assert(views(out@) =~= views(prev) + seq![line@]);
                assert(cs@.skip(cs.len() as int) =~= Seq::<char>::empty());
            }
            p = cs.len();
        }
    }
    assert(cs@.skip(p as int) =~= Seq::<char>::empty());
    assert(lines(cs@.skip(p as int)) =~= Seq::<Seq<char>>::empty());
    assert(views(out@) + Seq::<Seq<char>>::empty() =~= views(out@));
    out
}

pub proof fn lemma_words_trim_start(s: Seq<char>)
    ensures
        words(s) == words(trim_start(s, CharSet::Whitespace)),
    decreases s.len(),
{
    if s.len() > 0 && is_ws(s[0]) {
        lemma_words_trim_start(s.drop_first());
    }
}

/// The words of a text, as `str::split_whitespace` yields them.
pub fn split_words(cs: &Vec<char>) -> (r: Vec<Vec<char>>)
    ensures
        views(r@) == words(cs@),
{
    let mut out: Vec<Vec<char>> = Vec::new();
    let ws = CharSet::Whitespace;
    let mut p = trim_start_range(cs, 0, cs.len(), &ws);
    proof {
        assert(cs@.subrange(0, cs.len() as int) =~= cs@);
        lemma_words_trim_start(cs@);
        assert(cs@.skip(p as int) =~= cs@.subrange(p as int, cs.len() as int));
    }
    while p < cs.len()
        invariant
            p <= cs.len(),
            ws == CharSet::Whitespace,
            words(cs@) == views(out@) + words(cs@.skip(p as int)),
            p < cs.len() ==> !is_ws(cs@[p as int]),
        decreases cs.len() - p,
    {
        let q = first_in_set_from(cs, p, &ws);
        let word = sub_vec(cs, p, q);
        proof {
            let t = cs@.skip(p as int);
            assert(t[0] == cs@[p as int]);
            lemma_first_in_set(t, CharSet::Whitespace);
            assert(q > p);
            assert(t.take(q - p) =~= word@);
            assert(t.skip(q - p) =~= cs@.skip(q as int));
        }
        let ghost prev = out@;
        out.push(word);
        proof {
            assert(views(out@) =~= views(prev) + seq![word@]);
        }
        let np = trim_start_range(cs, q, cs.len(), &ws);
        proof {
            assert(cs@.skip(q as int) =~= cs@.subrange(q as int, cs.len() as int));
            lemma_words_trim_start(cs@.skip(q as int));
            assert(cs@.skip(np as int) =~= cs@.subrange(np as int, cs.len() as int));
            if np < cs.len() {
                let u = cs@.subrange(np as int, cs.len() as int);
                assert(u[0] == cs@[np as int]);
            }
        }
        p = np;
    }
    assert(cs@.skip(p as int) =~= Seq::<char>::empty());
    assert(views(out@) + Seq::<Seq<char>>::empty() =~= views(out@));
    out
}

/// The views of a list of strings.
pub open spec fn strings_view(v: Seq<String>) -> Seq<Seq<char>> {
    v.map_values(|s: String| s@)
}

/// Whether `p` occurs in `s` at or after `a`, and where first.
#[verifier::opaque]
pub open spec fn find_from(s: Seq<char>, p: Seq<char>, a: int) -> Option<int> {
    if exists|i: int| a <= i && occurs_at(s, p, i) {
        Some(
            choose|i: int|
                a <= i && occurs_at(s, p, i) && forall|j: int| a <= j < i ==> !occurs_at(s, p, j),
        )
    } else {
        None
    }
}

/// The first position at or after `from` where `p` occurs in `cs`.
pub fn find_exec(cs: &Vec<char>, p: &Vec<char>, from: usize) -> (r: Option<usize>)
    ensures
        match r {
            Some(i) => find_from(cs@, p@, from as int) == Some(i as int) && from <= i && occurs_at(
                cs@,
                p@,
                i as int,
            ),
            None => find_from(cs@, p@, from as int) is None,
        },
{
    reveal(find_from);
    if from > cs.len() || p.len() > cs.len() - from {
        assert(!exists|i: int| from <= i && occurs_at(cs@, p@, i));
        return None;
    }
    let lim = cs.len() - p.len();
    let mut i: usize = from;
    loop
        invariant
            p.len() <= cs.len(),
            lim == cs.len() - p.len(),
            from <= i <= lim,
            forall|j: int| from <= j < i ==> !occurs_at(cs@, p@, j),
        ensures
            forall|j: int| from <= j <= lim ==> !occurs_at(cs@, p@, j),
        decreases lim - i,
    {
        if occurs_at_exec(cs, p, i) {
            proof {
                reveal(find_from);
                let c = choose|k: int|
                    from <= k && occurs_at(cs@, p@, k) && forall|j: int|
                        from <= j < k ==> !occurs_at(cs@, p@, j);
                assert(from <= c && occurs_at(cs@, p@, c));
                if c < i {
                    assert(!occurs_at(cs@, p@, c));
                } else if c > i {
                    assert(!occurs_at(cs@, p@, i as int));
                }
            }
            return Some(i);
        }
        if i == lim {
            break;
        }
        i = i + 1;
    }
    assert(!exists|k: int| from <= k && occurs_at(cs@, p@, k)) by {
        assert forall|k: int| from <= k implies !occurs_at(cs@, p@, k) by {
            if k <= lim {
            }
        }
    }
    None
}

/// Parts joined with a separator between each two.
pub open spec fn join(parts: Seq<Seq<char>>, sep: Seq<char>) -> Seq<char>
    decreases parts.len(),
{
    if parts.len() == 0 {
        seq![]
    } else if parts.len() == 1 {
        parts[0]
    } else {
        join(parts.drop_last(), sep) + sep + parts.last()
    }
}

/// The parts joined with the separator.
pub fn join_exec(parts: &Vec<Vec<char>>, sep: &Vec<char>) -> (r: Vec<char>)
    ensures
        r@ == join(views(parts@), sep@),
{
    let mut r: Vec<char> = Vec::new();
    let mut i: usize = 0;
    while i < parts.len()
        invariant
            i <= parts.len(),
            r@ == join(views(parts@).take(i as int), sep@),
        decreases parts.len() - i,
    {
        let ghost prev = r@;
        if i > 0 {
            append_vec(&mut r, sep);
        }
        append_vec(&mut r, &parts[i]);
        proof {
            let t = views(parts@).take(i + 1);
            assert(t.drop_last() =~= views(parts@).take(i as int));
            assert(t.last() == parts@[i as int]@);
            if i == 0 {
                assert(r@ =~= parts@[0]@);
            } else {
                assert(r@ =~= prev + sep@ + parts@[i as int]@);
            }
        }
        i = i + 1;
    }
    assert(views(parts@).take(parts.len() as int) =~= views(parts@));
    r
}

/// Appends the characters of `b` to `a`.
pub fn append_vec(a: &mut Vec<char>, b: &Vec<char>)
    ensures
        final(a)@ == old(a)@ + b@,
{
    let mut i: usize = 0;
    while i < b.len()
        invariant
            i <= b.len(),
            a@ == old(a)@ + b@.take(i as int),
        decreases b.len() - i,
    {
        a.push(b[i]);
        i = i + 1;
        assert(a@ =~= old(a)@ + b@.take(i as int));
    }
    assert(b@.take(b.len() as int) =~= b@);
}

} // verus!
