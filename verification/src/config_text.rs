//! Line-oriented reading of `config.toml` text and normalisation of proxy
//! base URLs.
use vstd::prelude::*;
use crate::text::{
    chars_of, ends_with, ends_with_exec, first_in_set, first_in_set_from, lines, occurs_at_exec,
    split_lines, string_of, sub_vec, trim, trim_end, trim_end_range, trim_range, trim_ws, views,
    CharSet,
};

verus! {

/// The view of an optional string.
pub open spec fn opt_view(o: Option<String>) -> Option<Seq<char>> {
    match o {
        Some(s) => Some(s@),
        None => None,
    }
}

/// The value that one line assigns to `key`: the line, trimmed, must not be a
/// comment, must hold an `=`, and the trimmed text before the first `=` must
/// be `key`; the value is the trimmed text after it with `"` removed at both
/// ends.
pub open spec fn toml_line_value(line: Seq<char>, key: Seq<char>) -> Option<Seq<char>> {
    let t = trim_ws(line);
    let k = first_in_set(t, CharSet::Only('='));
    if t.len() > 0 && t[0] == '#' {
        None
    } else if k < t.len() && trim_ws(t.take(k as int)) == key {
        Some(trim(trim_ws(t.skip((k + 1) as int)), CharSet::Only('"')))
    } else {
        None
    }
}

/// The value of the first of the lines that assigns `key`.
pub open spec fn first_line_value(ls: Seq<Seq<char>>, key: Seq<char>) -> Option<Seq<char>>
    decreases ls.len(),
{
    if ls.len() == 0 {
        None
    } else {
        match toml_line_value(ls[0], key) {
            Some(v) => Some(v),
            None => first_line_value(ls.drop_first(), key),
        }
    }
}

/// What a line-by-line scan of a config text finds for `key`.
pub open spec fn toml_value(raw: Option<Seq<char>>, key: Seq<char>) -> Option<Seq<char>> {
    match raw {
        Some(r) => first_line_value(lines(r), key),
        None => None,
    }
}

/// Whether two character sequences are equal.
pub fn vec_eq(a: &Vec<char>, b: &Vec<char>) -> (r: bool)
    ensures
        r == (a@ == b@),
{
    if a.len() != b.len() {
        return false;
    }
    let r = occurs_at_exec(a, b, 0);
    proof {
        assert(a@.subrange(0, b@.len() as int) =~= a@);
    }
    r
}

/// The value `toml_line_value` gives for one line.
fn line_value(line: &Vec<char>, key: &Vec<char>) -> (r: Option<Vec<char>>)
    ensures
        match r {
            Some(v) => toml_line_value(line@, key@) == Some(v@),
            None => toml_line_value(line@, key@) is None,
        },
{
    let ws = CharSet::Whitespace;
    let (a, b) = trim_range(line, 0, line.len(), &ws);
    let t = sub_vec(line, a, b);
    proof {
        assert(line@.subrange(0, line@.len() as int) =~= line@);
    }
    if t.len() > 0 && t[0] == '#' {
        return None;
    }
    let eq = CharSet::Only('=');
    let k = first_in_set_from(&t, 0, &eq);
    proof {
        assert(t@.skip(0) =~= t@);
    }
    if k >= t.len() {
        return None;
    }
    let (la, lb) = trim_range(&t, 0, k, &ws);
    let left = sub_vec(&t, la, lb);
    proof {
        assert(t@.subrange(0, k as int) =~= t@.take(k as int));
    }
    if !vec_eq(&left, key) {
        return None;
    }
    let (ra, rb) = trim_range(&t, k + 1, t.len(), &ws);
    let quote = CharSet::Only('"');
    let (qa, qb) = trim_range(&t, ra, rb, &quote);
    proof {
        assert(t@.subrange(k + 1, t@.len() as int) =~= t@.skip(k + 1));
    }
    Some(sub_vec(&t, qa, qb))
}

/// The value of the first line of `raw` that assigns `key`, read line by
/// line: no TOML parser is involved, so tables are ignored and the first
/// assignment anywhere wins.
pub fn extract_toml_value(raw: &Option<String>, key: &str) -> (r: Option<String>)
    ensures
        opt_view(r) == toml_value(opt_view(*raw), key@),
{
    let text = match raw {
        Some(t) => t,
        None => return None,
    };
    assert(opt_view(*raw) == Some(text@));
    let cs = chars_of(text.as_str());
    let kc = chars_of(key);
    let ls = split_lines(&cs);
    proof {
        assert(views(ls@).skip(0) =~= views(ls@));
    }
    let mut i: usize = 0;
    while i < ls.len()
        invariant
            i <= ls.len(),
            views(ls@) == lines(text@),
            opt_view(*raw) == Some(text@),
            kc@ == key@,
            first_line_value(views(ls@), key@) == first_line_value(views(ls@).skip(i as int), key@),
        decreases ls.len() - i,
    {
        let v = line_value(&ls[i], &kc);
        let ghost rest = views(ls@).skip(i as int);
        proof {
            assert(rest[0] == ls@[i as int]@);
            assert(rest.drop_first() =~= views(ls@).skip(i + 1));
        }
        match v {
            Some(v) => {
                assert(first_line_value(rest, key@) == Some(v@));
                let out = string_of(&v);
                assert(opt_view(Some(out)) == Some(v@));
                return Some(out);
            },
            None => {},
        }
        i = i + 1;
    }
    proof {
        assert(views(ls@).skip(i as int).len() == 0);
    }
    None
}

/// `raw` trimmed, without trailing `/`, without one `/v1` suffix, and again
/// without trailing `/`.
pub open spec fn api_base(raw: Seq<char>) -> Seq<char> {
    let v = trim_end(trim_ws(raw), CharSet::Only('/'));
    let w = if ends_with(v, "/v1"@) {
        v.take(v.len() - 3)
    } else {
        v
    };
    trim_end(w, CharSet::Only('/'))
}

/// The base URL with surrounding whitespace, trailing slashes and one `/v1`
/// suffix removed.
pub fn trim_api_version_suffix(raw: &str) -> (r: String)
    ensures
        r@ == api_base(raw@),
{
    let cs = chars_of(raw);
    let ws = CharSet::Whitespace;
    let slash = CharSet::Only('/');
    let (a, b) = trim_range(&cs, 0, cs.len(), &ws);
    let e = trim_end_range(&cs, a, b, &slash);
    let v = sub_vec(&cs, a, e);
    let suffix = chars_of("/v1");
    proof {
        assert(cs@.subrange(0, cs@.len() as int) =~= cs@);
        reveal_strlit("/v1");
    }
    let w = if ends_with_exec(&v, &suffix) {
        sub_vec(&v, 0, v.len() - 3)
    } else {
        sub_vec(&v, 0, v.len())
    };
    proof {
        assert(v@.subrange(0, v@.len() as int) =~= v@);
        if v@.len() >= 3 {
            assert(v@.subrange(0, v@.len() - 3) =~= v@.take(v@.len() - 3));
        }
    }
    let f = trim_end_range(&w, 0, w.len(), &slash);
    let out = sub_vec(&w, 0, f);
    proof {
        assert(w@.subrange(0, w@.len() as int) =~= w@);
    }
    string_of(&out)
}

/// The proxy base URL as stored for an account profile.
pub fn normalize_proxy_base_url(raw: &str) -> (r: String)
    ensures
        r@ == api_base(raw@),
{
    trim_api_version_suffix(raw)
}

/// The provider base URL for an API profile: the normalised URL, ending in
/// `/v1`.
pub open spec fn provider_base(raw: Seq<char>) -> Seq<char> {
    let b = api_base(raw);
    if ends_with(b, "/v1"@) {
        b
    } else {
        b + "/v1"@
    }
}

/// The provider base URL for an API profile: the normalised URL with `/v1`
/// appended unless it already ends so.
pub fn api_provider_base_url(raw: &str) -> (r: String)
    ensures
        r@ == provider_base(raw@),
        ends_with(r@, "/v1"@),
{
    let base = normalize_proxy_base_url(raw);
    let bc = chars_of(base.as_str());
    let suffix = chars_of("/v1");
    if ends_with_exec(&bc, &suffix) {
        base
    } else {
        let mut out = base;
        out.append("/v1");
        proof {
            assert((out@).skip(out@.len() - "/v1"@.len()) =~= "/v1"@);
        }
        out
    }
}

} // verus!
