//! Reading the output of `codex login --device-auth`: terminal escape
//! sequences removed, the verification link and the one-time code found.
use vstd::prelude::*;
use crate::text::{
    chars_of, contains, contains_exec, first_in_set, first_in_set_from, in_set, is_ascii_alnum,
    char_is_ascii_alnum, split_words, starts_with, starts_with_exec, string_of, sub_vec, trim,
    trim_range, views, words, CharSet,
};
use crate::config_text::opt_view;
use crate::text::{join, strings_view, trim_ws};
use crate::windows_proc::{join_strings, trimmed_string};

verus! {

pub open spec fn is_esc(c: char) -> bool {
    c as u32 == 0x1b
}

/// The text with every `ESC [` control sequence removed: the sequence runs
/// through the first ASCII letter after the `[`, or to the end of the text.
pub open spec fn strip_ansi(s: Seq<char>) -> Seq<char>
    decreases s.len(),
{
    if s.len() == 0 {
        seq![]
    } else if s.len() >= 2 && is_esc(s[0]) && s[1] == '[' {
        let t = s.skip(2);
        let k = first_in_set(t, CharSet::AsciiAlpha);
        if k < t.len() {
            strip_ansi(t.skip((k + 1) as int))
        } else {
            seq![]
        }
    } else {
        seq![s[0]] + strip_ansi(s.drop_first())
    }
}

proof fn lemma_strip_plain(t: Seq<char>)
    requires
        forall|i: int| 0 <= i < t.len() ==> !is_esc(#[trigger] t[i]),
    ensures
        strip_ansi(t) == t,
    decreases t.len(),
{
    if t.len() > 0 {
        assert(!is_esc(t[0]));
        let r = t.drop_first();
        assert forall|i: int| 0 <= i < r.len() implies !is_esc(#[trigger] r[i]) by {
            assert(r[i] == t[i + 1]);
        }
        lemma_strip_plain(r);
        assert(seq![t[0]] + r =~= t);
    }
}

proof fn lemma_first_letter(p: Seq<char>, c: char, t: Seq<char>)
    requires
        forall|i: int| 0 <= i < p.len() ==> !crate::text::is_ascii_alpha(#[trigger] p[i]),
        crate::text::is_ascii_alpha(c),
    ensures
        first_in_set(p + seq![c] + t, CharSet::AsciiAlpha) == p.len(),
    decreases p.len(),
{
    let s = p + seq![c] + t;
    if p.len() == 0 {
        assert(s[0] == c);
    } else {
        assert(s[0] == p[0]);
        assert(!in_set(CharSet::AsciiAlpha, s[0]));
        let q = p.drop_first();
        assert forall|i: int| 0 <= i < q.len() implies !crate::text::is_ascii_alpha(#[trigger] q[i]) by {
            assert(q[i] == p[i + 1]);
        }
        lemma_first_letter(q, c, t);
        assert(s.drop_first() =~= q + seq![c] + t);
    }
}

/// An `ESC [` control sequence ends at the first ASCII letter after the
/// `[`, which may be the very next character (as in `ESC [ m` or
/// `ESC [ K`): everything up to and including that letter is removed, and
/// text without escape characters that follows is kept whole.
pub proof fn law_escape_sequence_ends_at_first_letter(params: Seq<char>, c: char, t: Seq<char>)
    requires
        forall|i: int| 0 <= i < params.len() ==> !crate::text::is_ascii_alpha(#[trigger] params[i]),
        ('a' <= c && c <= 'z') || ('A' <= c && c <= 'Z'),
        forall|i: int| 0 <= i < t.len() ==> !is_esc(#[trigger] t[i]),
    ensures
        strip_ansi(seq!['\u{1b}', '['] + params + seq![c] + t) == t,
{
    let s = seq!['\u{1b}', '['] + params + seq![c] + t;
    assert(is_esc(s[0]));
    assert(s[1] == '[');
    assert(s.skip(2) =~= params + seq![c] + t);
    lemma_first_letter(params, c, t);
    assert(s.skip(2).skip(params.len() + 1 as int) =~= t);
    lemma_strip_plain(t);
}

/// Text without escape characters passes through unchanged.
pub proof fn law_plain_text_is_kept(t: Seq<char>)
    requires
        forall|i: int| 0 <= i < t.len() ==> !is_esc(#[trigger] t[i]),
    ensures
        strip_ansi(t) == t,
{
    lemma_strip_plain(t);
}

/// Removes the `ESC [ ... letter` control sequences of terminal output.
pub fn strip_ansi_sequences(input: &str) -> (r: String)
    ensures
        r@ == strip_ansi(input@),
{
    let cs = chars_of(input);
    let mut out: Vec<char> = Vec::new();
    let mut i: usize = 0;
    let alpha = CharSet::AsciiAlpha;
    assert(cs@.skip(0) =~= cs@);
    while i < cs.len()
        invariant
            i <= cs.len(),
            alpha == CharSet::AsciiAlpha,
            strip_ansi(cs@) == out@ + strip_ansi(cs@.skip(i as int)),
        decreases cs.len() - i,
    {
        let ghost s = cs@.skip(i as int);
        if cs[i] as u32 == 0x1b && i + 1 < cs.len() && cs[i + 1] == '[' {
            let k = first_in_set_from(&cs, i + 2, &alpha);
            proof {
                assert(s[0] == cs@[i as int] && s[1] == cs@[i + 1]);
                assert(s.skip(2) =~= cs@.skip(i + 2));
            }
            if k < cs.len() {
                proof {
                    assert(s.skip(2).skip(k - i - 2 + 1) =~= cs@.skip(k + 1));
                }
                i = k + 1;
            } else {
                proof {
                    assert(cs@.skip(cs.len() as int) =~= Seq::<char>::empty());
                    assert(out@ + Seq::<char>::empty() =~= out@);
                }
                i = cs.len();
            }
        } else {
            let c = cs[i];
            proof {
                assert(s[0] == c);
                if s.len() >= 2 {
                    assert(s[1] == cs@[i + 1]);
                }
                assert(s.drop_first() =~= cs@.skip(i + 1));
            }
            let ghost prev = out@;
            out.push(c);
            proof {
                assert(prev + (seq![c] + strip_ansi(cs@.skip(i + 1))) =~= out@ + strip_ansi(
                    cs@.skip(i + 1),
                ));
            }
            i = i + 1;
        }
    }
    proof {
        assert(cs@.skip(i as int) =~= Seq::<char>::empty());
        assert(out@ + Seq::<char>::empty() =~= out@);
    }
    string_of(&out)
}

/// A word of output with its wrapping quotes, brackets and punctuation removed.
pub open spec fn cleaned(w: Seq<char>) -> Seq<char> {
    trim(w, CharSet::Wrapping)
}

/// Whether a cleaned word is the device-login link.
pub open spec fn is_device_url(w: Seq<char>) -> bool {
    starts_with(w, "http"@) && contains(w, "/codex/device"@)
}

/// The first cleaned word that is the device-login link.
pub open spec fn first_device_url(ws: Seq<Seq<char>>) -> Option<Seq<char>>
    decreases ws.len(),
{
    if ws.len() == 0 {
        None
    } else if is_device_url(cleaned(ws[0])) {
        Some(cleaned(ws[0]))
    } else {
        first_device_url(ws.drop_first())
    }
}

/// Whether a cleaned word has the shape of a one-time code: two non-empty
/// runs of ASCII letters and digits joined by one `-`.
pub open spec fn is_device_code(w: Seq<char>) -> bool {
    exists|k: int|
        0 < k < w.len() - 1 && w[k] == '-' && forall|i: int|
            0 <= i < w.len() && i != k ==> is_ascii_alnum(#[trigger] w[i])
}

/// The first cleaned word that is a one-time code.
pub open spec fn first_device_code(ws: Seq<Seq<char>>) -> Option<Seq<char>>
    decreases ws.len(),
{
    if ws.len() == 0 {
        None
    } else if is_device_code(cleaned(ws[0])) {
        Some(cleaned(ws[0]))
    } else {
        first_device_code(ws.drop_first())
    }
}

fn clean_word(w: &Vec<char>) -> (r: Vec<char>)
    ensures
        r@ == cleaned(w@),
{
    let wrap = CharSet::Wrapping;
    let (a, b) = trim_range(w, 0, w.len(), &wrap);
    proof {
        assert(w@.subrange(0, w@.len() as int) =~= w@);
    }
    sub_vec(w, a, b)
}

fn looks_like_code(w: &Vec<char>) -> (b: bool)
    ensures
        b == is_device_code(w@),
{
    let dash = CharSet::Only('-');
    let k = first_in_set_from(w, 0, &dash);
    if k == 0 || k >= w.len() - 1 {
        proof {
            if is_device_code(w@) {
                let j = choose|j: int|
                    0 < j < w@.len() - 1 && w@[j] == '-' && forall|i: int|
                        0 <= i < w@.len() && i != j ==> is_ascii_alnum(#[trigger] w@[i]);
                if k < j {
                    assert(in_set(CharSet::Only('-'), w@[k as int]));
                    assert(is_ascii_alnum(w@[k as int]));
                } else if k > j {
                    assert(!in_set(CharSet::Only('-'), w@[j]));
                }
            }
        }
        return false;
    }
    let mut i: usize = 0;
    while i < w.len()
        invariant
            0 < k < w.len() - 1,
            w@[k as int] == '-',
            i <= w.len(),
            forall|m: int| 0 <= m < i && m != k ==> is_ascii_alnum(#[trigger] w@[m]),
        decreases w.len() - i,
    {
        if i != k && !char_is_ascii_alnum(w[i]) {
            proof {
                if is_device_code(w@) {
                    let j = choose|j: int|
                        0 < j < w@.len() - 1 && w@[j] == '-' && forall|m: int|
                            0 <= m < w@.len() && m != j ==> is_ascii_alnum(#[trigger] w@[m]);
                    if j != k {
                        assert(is_ascii_alnum(w@[k as int]));
                    }
                }
            }
            return false;
        }
        i = i + 1;
    }
    assert(is_device_code(w@));
    true
}

/// The device-login link in the output: the first whitespace-separated word
/// that, stripped of wrapping quotes and punctuation, starts with `http` and
/// contains `/codex/device`.
pub fn extract_device_auth_url(output: &str) -> (r: Option<String>)
    ensures
        opt_view(r) == first_device_url(words(output@)),
{
    let cs = chars_of(output);
    let ws = split_words(&cs);
    let http = chars_of("http");
    let path = chars_of("/codex/device");
    let mut i: usize = 0;
    assert(views(ws@).skip(0) =~= views(ws@));
    while i < ws.len()
        invariant
            i <= ws.len(),
            views(ws@) == words(output@),
            http@ == "http"@,
            path@ == "/codex/device"@,
            first_device_url(words(output@)) == first_device_url(views(ws@).skip(i as int)),
        decreases ws.len() - i,
    {
        let c = clean_word(&ws[i]);
        let ghost rest = views(ws@).skip(i as int);
        proof {
            assert(rest[0] == ws@[i as int]@);
            assert(rest.drop_first() =~= views(ws@).skip(i + 1));
        }
        if starts_with_exec(&c, &http) && contains_exec(&c, &path) {
            let out = string_of(&c);
            assert(opt_view(Some(out)) == Some(c@));
            return Some(out);
        }
        i = i + 1;
    }
    None
}

/// The one-time code in the output: the first whitespace-separated word
/// that, stripped of wrapping quotes and punctuation, is two non-empty runs
/// of ASCII letters and digits joined by one `-`.
pub fn extract_device_auth_code(output: &str) -> (r: Option<String>)
    ensures
        opt_view(r) == first_device_code(words(output@)),
{
    let cs = chars_of(output);
    let ws = split_words(&cs);
    let mut i: usize = 0;
    assert(views(ws@).skip(0) =~= views(ws@));
    while i < ws.len()
        invariant
            i <= ws.len(),
            views(ws@) == words(output@),
            first_device_code(words(output@)) == first_device_code(views(ws@).skip(i as int)),
        decreases ws.len() - i,
    {
        let c = clean_word(&ws[i]);
        let ghost rest = views(ws@).skip(i as int);
        proof {
            assert(rest[0] == ws@[i as int]@);
            assert(rest.drop_first() =~= views(ws@).skip(i + 1));
        }
        if looks_like_code(&c) {
            let out = string_of(&c);
            assert(opt_view(Some(out)) == Some(c@));
            return Some(out);
        }
        i = i + 1;
    }
    None
}

/// What `codex` is run with to start a device-code login.
pub fn device_auth_args() -> (r: Vec<String>)
    ensures
        strings_view(r@) == seq!["login"@, "--device-auth"@],
{
    let mut v: Vec<String> = Vec::new();
    v.push(String::from_str("login"));
    v.push(String::from_str("--device-auth"));
    assert(strings_view(v@) =~= seq!["login"@, "--device-auth"@]);
    v
}

/// The failure to start `codex login --device-auth` with any of the
/// programs tried, each failure given as `program: error`.
pub fn device_auth_spawn_failure(errors: &Vec<String>) -> (r: String)
    ensures
        r@ == "启动 codex login --device-auth 失败："@ + join(strings_view(errors@), "；"@),
{
    let mut m = String::from_str("启动 codex login --device-auth 失败：");
    let j = join_strings(errors, "；");
    m.append(j.as_str());
    m
}

/// How long the login output is read for a link and a code, in seconds.
pub const DEVICE_AUTH_TIMEOUT_SECS: u64 = 8;

/// How long one wait for an output line lasts, in milliseconds.
pub const DEVICE_AUTH_POLL_MS: u64 = 250;

/// What a started device-code login reports.
pub struct DeviceAuthLoginResult {
    pub message: String,
    pub verification_url: Option<String>,
    pub user_code: Option<String>,
    pub expires_in_minutes: Option<u32>,
    pub output: String,
}

/// The output of a device-code login read so far: its non-blank lines,
/// terminal escapes removed, and the link and code found in them.
pub struct DeviceAuthWatch {
    pub lines: Vec<String>,
    pub url: Option<String>,
    pub code: Option<String>,
}

/// The kept output lines joined by newlines.
pub open spec fn device_output(ls: Seq<Seq<char>>) -> Seq<char> {
    join(ls, "\n"@)
}

/// The message of a started device-code login.
pub open spec fn device_login_message() -> Seq<char> {
    "已启动 Codex 设备码登录。请在浏览器打开链接并输入一次性 code；授权完成后刷新状态或导入当前档案。"@
}

impl DeviceAuthWatch {
    /// The kept lines.
    pub open spec fn kept(self) -> Seq<Seq<char>> {
        strings_view(self.lines@)
    }

    /// Link and code are those of the kept lines.
    pub open spec fn wf(self) -> bool {
        &&& opt_view(self.url) == first_device_url(words(device_output(self.kept())))
        &&& opt_view(self.code) == first_device_code(words(device_output(self.kept())))
    }

    /// Nothing read yet.
    pub fn new() -> (r: Self)
        ensures
            r.kept().len() == 0,
            r.url is None,
            r.code is None,
            r.wf(),
    {
        let r = DeviceAuthWatch { lines: Vec::new(), url: None, code: None };
        assert(r.kept() =~= Seq::<Seq<char>>::empty());
        assert(words(device_output(r.kept())) =~= Seq::<Seq<char>>::empty());
        r
    }

    /// Takes one output line: kept, escapes removed, when not blank; then
    /// the link and the code are looked for again in all kept lines.
    /// Returns whether both are found (reading can stop).
    pub fn on_line(&mut self, line: &str) -> (both: bool)
        ensures
            final(self).kept() == if trim_ws(strip_ansi(line@)).len() == 0 {
                old(self).kept()
            } else {
                old(self).kept().push(strip_ansi(line@))
            },
            final(self).wf(),
            both == (final(self).url is Some && final(self).code is Some),
    {
        let c = strip_ansi_sequences(line);
        let t = trimmed_string(c.as_str());
        if t.as_str().is_empty() {
        } else {
            let ghost before = self.lines@;
            self.lines.push(c);
            assert(strings_view(self.lines@) =~= strings_view(before).push(strip_ansi(line@)));
        }
        let joined = join_strings(&self.lines, "\n");
        self.url = extract_device_auth_url(joined.as_str());
        self.code = extract_device_auth_code(joined.as_str());
        self.url.is_some() && self.code.is_some()
    }

    /// When no line came in time: the failure to report if the login
    /// program has exited (with the status given), nothing otherwise.
    pub fn on_quiet(&self, exited: Option<String>) -> (r: Option<String>)
        ensures
            match exited {
                None => r is None,
                Some(status) => r matches Some(m) && m@ == "codex login --device-auth 提前退出："@
                    + status@ + "。输出："@ + trim_ws(device_output(self.kept())),
            },
    {
        match exited {
            None => None,
            Some(status) => {
                let joined = join_strings(&self.lines, "\n");
                let mut m = String::from_str("codex login --device-auth 提前退出：");
                m.append(status.as_str());
                m.append("。输出：");
                m.append(trimmed_string(joined.as_str()).as_str());
                Some(m)
            },
        }
    }

    /// The end of reading: without both link and code, the failure (the
    /// caller then stops the program); with both, the login started, its
    /// code valid for 15 minutes.
    pub fn finish(self) -> (r: Result<DeviceAuthLoginResult, String>)
        requires
            self.wf(),
        ensures
            (self.url is None || self.code is None) ==> (r matches Err(m) && m@
                == "已启动 codex login --device-auth，但未在 8s 内读取到设备码。输出："@ + trim_ws(
                device_output(self.kept()),
            )),
            (self.url is Some && self.code is Some) ==> (r matches Ok(res) && {
                &&& res.message@ == device_login_message()
                &&& opt_view(res.verification_url) == first_device_url(
                    words(device_output(self.kept())),
                )
                &&& opt_view(res.user_code) == first_device_code(
                    words(device_output(self.kept())),
                )
                &&& res.verification_url is Some && res.user_code is Some
                &&& res.expires_in_minutes == Some(15u32)
                &&& res.output@ == device_output(self.kept())
            }),
    {
        let output = join_strings(&self.lines, "\n");
        if self.url.is_none() || self.code.is_none() {
            let mut m = String::from_str("已启动 codex login --device-auth，但未在 8s 内读取到设备码。输出：");
            m.append(trimmed_string(output.as_str()).as_str());
            return Err(m);
        }
        Ok(
            DeviceAuthLoginResult {
                message: String::from_str(
                    "已启动 Codex 设备码登录。请在浏览器打开链接并输入一次性 code；授权完成后刷新状态或导入当前档案。",
                ),
                verification_url: self.url,
                user_code: self.code,
                expires_in_minutes: Some(15),
                output,
            },
        )
    }
}

} // verus!
