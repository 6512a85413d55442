//! Reading what Windows tools print: `tasklist` CSV rows, an
//! `AppxManifest.xml`, and failed commands' output, and building the
//! PowerShell scripts that are run.
use vstd::prelude::*;
use crate::text::{
    append_vec, chars_of, char_is_ascii_digit, contains, contains_exec, find_exec, find_from,
    first_in_set, first_in_set_from, is_ascii_digit, join, join_exec, lines, lower, lower_vec,
    split_lines, string_of, strings_view, sub_vec, trim_range, trim_ws, views, CharSet,
};
use crate::config_text::{opt_view, vec_eq};

verus! {

/// The columns of one CSV row as Windows tools print it: `,` separates
/// columns outside quotes, `"` toggles quoting, `""` inside quotes stands for
/// one `"`, and each column is trimmed.
pub open spec fn csv_scan(s: Seq<char>, cols: Seq<Seq<char>>, cur: Seq<char>, quoted: bool) -> Seq<
    Seq<char>,
>
    decreases s.len(),
{
    if s.len() == 0 {
        cols.push(trim_ws(cur))
    } else if s[0] == '"' && quoted && s.len() > 1 && s[1] == '"' {
        csv_scan(s.skip(2), cols, cur.push('"'), quoted)
    } else if s[0] == '"' {
        csv_scan(s.drop_first(), cols, cur, !quoted)
    } else if s[0] == ',' && !quoted {
        csv_scan(s.drop_first(), cols.push(trim_ws(cur)), seq![], quoted)
    } else {
        csv_scan(s.drop_first(), cols, cur.push(s[0]), quoted)
    }
}

pub open spec fn csv_columns(line: Seq<char>) -> Seq<Seq<char>> {
    csv_scan(line, seq![], seq![], false)
}

fn trimmed_copy(cs: &Vec<char>) -> (r: Vec<char>)
    ensures
        r@ == trim_ws(cs@),
{
    let ws = CharSet::Whitespace;
    let (a, b) = trim_range(cs, 0, cs.len(), &ws);
    proof {
        assert(cs@.subrange(0, cs@.len() as int) =~= cs@);
    }
    sub_vec(cs, a, b)
}

/// The columns of one CSV row of `tasklist /FO CSV` output.
pub fn parse_windows_csv_line(line: &str) -> (r: Vec<String>)
    ensures
        strings_view(r@) == csv_columns(line@),
{
    let cs = chars_of(line);
    let mut cols: Vec<Vec<char>> = Vec::new();
    let mut cur: Vec<char> = Vec::new();
    let mut quoted = false;
    let mut i: usize = 0;
    assert(cs@.skip(0) =~= cs@);
    assert(views(cols@) =~= Seq::<Seq<char>>::empty());
    while i < cs.len()
        invariant
            i <= cs.len(),
            csv_columns(line@) == csv_scan(cs@.skip(i as int), views(cols@), cur@, quoted),
            cs@ == line@,
        decreases cs.len() - i,
    {
        let ghost s = cs@.skip(i as int);
        let c = cs[i];
        proof {
            assert(s[0] == c);
            if s.len() > 1 {
                assert(s[1] == cs@[i + 1]);
            }
        }
        if c == '"' && quoted && i + 1 < cs.len() && cs[i + 1] == '"' {
            cur.push('"');
            assert(s.skip(2) =~= cs@.skip(i + 2));
            i = i + 2;
        } else if c == '"' {
            quoted = !quoted;
            assert(s.drop_first() =~= cs@.skip(i + 1));
            i = i + 1;
        } else if c == ',' && !quoted {
            let t = trimmed_copy(&cur);
            let ghost prev = cols@;
            cols.push(t);
            assert(views(cols@) =~= views(prev).push(t@));
            cur = Vec::new();
            assert(cur@ =~= Seq::<char>::empty());
            assert(s.drop_first() =~= cs@.skip(i + 1));
            i = i + 1;
        } else {
            cur.push(c);
            assert(s.drop_first() =~= cs@.skip(i + 1));
            i = i + 1;
        }
    }
    let t = trimmed_copy(&cur);
    let ghost prev = cols@;
    cols.push(t);
    proof {
        assert(cs@.skip(i as int) =~= Seq::<char>::empty());
        assert(views(cols@) =~= views(prev).push(t@));
    }
    let mut out: Vec<String> = Vec::new();
    let mut j: usize = 0;
    while j < cols.len()
        invariant
            j <= cols.len(),
            strings_view(out@) == views(cols@).take(j as int),
        decreases cols.len() - j,
    {
        let s = string_of(&cols[j]);
        let ghost before = out@;
        out.push(s);
        assert(strings_view(out@) =~= strings_view(before).push(s@));
        j = j + 1;
        assert(views(cols@).take(j as int) =~= views(cols@).take(j - 1).push(cols@[j - 1]@));
    }
    assert(views(cols@).take(cols.len() as int) =~= views(cols@));
    out
}

/// Whether every character is an ASCII digit (true of the empty text).
pub open spec fn all_digits(s: Seq<char>) -> bool {
    forall|i: int| 0 <= i < s.len() ==> is_ascii_digit(#[trigger] s[i])
}

/// The process id in a `tasklist` CSV row: at least two columns, the first
/// `Codex.exe` in any ASCII case, and the trimmed second all digits.
pub open spec fn tasklist_pid(line: Seq<char>) -> Option<Seq<char>> {
    let cols = csv_columns(line);
    if cols.len() < 2 {
        None
    } else if !(cols[0].len() == "Codex.exe"@.len() && lower(cols[0]) == lower("Codex.exe"@)) {
        None
    } else if all_digits(trim_ws(cols[1])) {
        Some(trim_ws(cols[1]))
    } else {
        None
    }
}

/// Whether two texts are equal ignoring ASCII case.
pub fn eq_ignore_ascii_case(a: &Vec<char>, b: &Vec<char>) -> (r: bool)
    ensures
        r == (a@.len() == b@.len() && lower(a@) == lower(b@)),
{
    if a.len() != b.len() {
        return false;
    }
    let la = lower_vec(a);
    let lb = lower_vec(b);
    vec_eq(&la, &lb)
}

fn all_digits_exec(cs: &Vec<char>) -> (r: bool)
    ensures
        r == all_digits(cs@),
{
    let mut i: usize = 0;
    while i < cs.len()
        invariant
            i <= cs.len(),
            forall|j: int| 0 <= j < i ==> is_ascii_digit(#[trigger] cs@[j]),
        decreases cs.len() - i,
    {
        if !char_is_ascii_digit(cs[i]) {
            return false;
        }
        i = i + 1;
    }
    true
}

/// The process id of a `Codex.exe` row of `tasklist /FO CSV /NH` output.
pub fn parse_tasklist_csv_pid(line: &str) -> (r: Option<String>)
    ensures
        opt_view(r) == tasklist_pid(line@),
{
    let columns = parse_windows_csv_line(line);
    if columns.len() < 2 {
        return None;
    }
    let first = chars_of(columns[0].as_str());
    let image = chars_of("Codex.exe");
    if !eq_ignore_ascii_case(&first, &image) {
        return None;
    }
    let second = chars_of(columns[1].as_str());
    let pid = trimmed_copy(&second);
    if all_digits_exec(&pid) {
        let out = string_of(&pid);
        assert(opt_view(Some(out)) == Some(pid@));
        Some(out)
    } else {
        None
    }
}

pub open spec fn pid_part(l: Seq<char>) -> Seq<Seq<char>> {
    match tasklist_pid(l) {
        Some(p) => seq![p],
        None => seq![],
    }
}

/// The process ids in `tasklist /FO CSV /NH` output, in order.
pub open spec fn tasklist_pids(lines_: Seq<Seq<char>>) -> Seq<Seq<char>>
    decreases lines_.len(),
{
    if lines_.len() == 0 {
        seq![]
    } else {
        pid_part(lines_[0]) + tasklist_pids(lines_.drop_first())
    }
}

proof fn lemma_tasklist_pids_push(ls: Seq<Seq<char>>, l: Seq<char>)
    ensures
        tasklist_pids(ls.push(l)) == tasklist_pids(ls) + pid_part(l),
    decreases ls.len(),
{
    let lp = ls.push(l);
    if ls.len() == 0 {
        assert(lp.drop_first() =~= Seq::<Seq<char>>::empty());
        assert(lp[0] == l);
        assert(non_empty_trimmed(lp.drop_first()) == Seq::<Seq<char>>::empty());
        assert(non_empty_trimmed(lp) == trim_part(l) + non_empty_trimmed(lp.drop_first()));
        assert(tasklist_pids(lp.drop_first()) == Seq::<Seq<char>>::empty());
        assert(tasklist_pids(lp) == pid_part(l) + tasklist_pids(lp.drop_first()));
        assert(pid_part(l) + Seq::<Seq<char>>::empty() =~= pid_part(l));
        assert(Seq::<Seq<char>>::empty() + pid_part(l) =~= pid_part(l));
    } else {
        assert(lp.drop_first() =~= ls.drop_first().push(l));
        assert(lp[0] == ls[0]);
        assert(tasklist_pids(lp) == pid_part(ls[0]) + tasklist_pids(lp.drop_first()));
        lemma_tasklist_pids_push(ls.drop_first(), l);
        assert(pid_part(ls[0]) + (tasklist_pids(ls.drop_first()) + pid_part(l)) =~= (pid_part(ls[0])
            + tasklist_pids(ls.drop_first())) + pid_part(l));
    }
}

/// The process ids that `tasklist` printed for `Codex.exe`.
pub fn windows_codex_app_process_ids_from_tasklist(output: &str) -> (r: Vec<String>)
    ensures
        strings_view(r@) == tasklist_pids(lines(output@)),
{
    let cs = chars_of(output);
    let ls = split_lines(&cs);
    let mut out: Vec<String> = Vec::new();
    let mut i: usize = 0;
    while i < ls.len()
        invariant
            i <= ls.len(),
            views(ls@) == lines(output@),
            strings_view(out@) == tasklist_pids(views(ls@).take(i as int)),
        decreases ls.len() - i,
    {
        let line = string_of(&ls[i]);
        let p = parse_tasklist_csv_pid(line.as_str());
        proof {
            assert(views(ls@).take(i + 1) =~= views(ls@).take(i as int).push(ls@[i as int]@));
            lemma_tasklist_pids_push(views(ls@).take(i as int), ls@[i as int]@);
        }
        match p {
            Some(p) => {
                let ghost before = out@;
                out.push(p);
                assert(strings_view(out@) =~= strings_view(before) + seq![p@]);
            },
            None => {
                assert(tasklist_pids(views(ls@).take(i as int)) + Seq::<Seq<char>>::empty()
                    =~= tasklist_pids(views(ls@).take(i as int)));
            },
        }
        i = i + 1;
    }
    assert(views(ls@).take(ls.len() as int) =~= views(ls@));
    out
}

/// The value of an attribute from its opening quote: the text up to the
/// matching quote, trimmed, if the text starts with `"` or `'`, the quote is
/// closed and the value is not empty.
pub open spec fn quoted_value(after: Seq<char>) -> Option<Seq<char>> {
    if after.len() == 0 || (after[0] != '"' && after[0] != '\'') {
        None
    } else {
        let rest = after.drop_first();
        let e = first_in_set(rest, CharSet::Only(after[0]));
        if e >= rest.len() {
            None
        } else if trim_ws(rest.take(e as int)).len() == 0 {
            None
        } else {
            Some(trim_ws(rest.take(e as int)))
        }
    }
}

/// The `Id` of the first `<Application` element of an `AppxManifest.xml`:
/// the quoted value after the first `Id=` that follows it.
pub open spec fn appx_application_id(m: Seq<char>) -> Option<Seq<char>> {
    match find_from(m, "<Application"@, 0) {
        None => None,
        Some(a) => match find_from(m, "Id="@, a) {
            None => None,
            Some(d) => quoted_value(m.skip(d + 3)),
        },
    }
}

fn quoted_value_exec(m: &Vec<char>, start: usize) -> (r: Option<Vec<char>>)
    requires
        start <= m.len(),
    ensures
        match r {
            Some(v) => quoted_value(m@.skip(start as int)) == Some(v@),
            None => quoted_value(m@.skip(start as int)) is None,
        },
{
    let ghost after = m@.skip(start as int);
    if start >= m.len() {
        return None;
    }
    let q = m[start];
    assert(after[0] == q);
    if q != '"' && q != '\'' {
        return None;
    }
    let only = CharSet::Only(q);
    let e = first_in_set_from(m, start + 1, &only);
    assert(after.drop_first() =~= m@.skip(start + 1));
    if e >= m.len() {
        return None;
    }
    let raw_id = sub_vec(m, start + 1, e);
    let id = trimmed_copy(&raw_id);
    assert(after.drop_first().take(e - start - 1) =~= raw_id@);
    if id.len() == 0 {
        return None;
    }
    Some(id)
}

/// The application id that an `AppxManifest.xml` declares.
#[verifier::rlimit(40)]
pub fn extract_windows_appx_application_id(manifest: &str) -> (r: Option<String>)
    ensures
        opt_view(r) == appx_application_id(manifest@),
{
    let m = chars_of(manifest);
    let app = chars_of("<Application");
    let idp = chars_of("Id=");
    proof {
        reveal_strlit("Id=");
    }
    let a = match find_exec(&m, &app, 0) {
        Some(a) => a,
        None => return None,
    };
    let d = match find_exec(&m, &idp, a) {
        Some(d) => d,
        None => return None,
    };
    assert(idp@.len() == 3);
    assert(crate::text::occurs_at(m@, idp@, d as int));
    assert(d + 3 <= m@.len());
    assert(m@.len() == m.len());
    let start: usize = d + 3;
    let v = match quoted_value_exec(&m, start) {
        Some(v) => v,
        None => return None,
    };
    let out = string_of(&v);
    assert(opt_view(Some(out)) == Some(v@));
    Some(out)
}

pub open spec fn trim_part(l: Seq<char>) -> Seq<Seq<char>> {
    if trim_ws(l).len() == 0 {
        seq![]
    } else {
        seq![trim_ws(l)]
    }
}

/// The trimmed lines that are not empty.
pub open spec fn non_empty_trimmed(ls: Seq<Seq<char>>) -> Seq<Seq<char>>
    decreases ls.len(),
{
    if ls.len() == 0 {
        seq![]
    } else {
        trim_part(ls[0]) + non_empty_trimmed(ls.drop_first())
    }
}

proof fn lemma_non_empty_trimmed_push(ls: Seq<Seq<char>>, l: Seq<char>)
    ensures
        non_empty_trimmed(ls.push(l)) == non_empty_trimmed(ls) + trim_part(l),
    decreases ls.len(),
{
    let lp = ls.push(l);
    if ls.len() == 0 {
        assert(lp.drop_first() =~= Seq::<Seq<char>>::empty());
        assert(lp[0] == l);
        assert(non_empty_trimmed(lp.drop_first()) == Seq::<Seq<char>>::empty());
        assert(non_empty_trimmed(lp) == trim_part(l) + non_empty_trimmed(lp.drop_first()));
        assert(trim_part(l) + Seq::<Seq<char>>::empty() =~= trim_part(l));
        assert(Seq::<Seq<char>>::empty() + trim_part(l) =~= trim_part(l));
    } else {
        assert(lp.drop_first() =~= ls.drop_first().push(l));
        assert(lp[0] == ls[0]);
        assert(non_empty_trimmed(lp) == trim_part(ls[0]) + non_empty_trimmed(lp.drop_first()));
        lemma_non_empty_trimmed_push(ls.drop_first(), l);
        assert(trim_part(ls[0]) + (non_empty_trimmed(ls.drop_first()) + trim_part(l)) =~= (
        trim_part(ls[0]) + non_empty_trimmed(ls.drop_first())) + trim_part(l));
    }
}

/// The non-empty trimmed lines of a text.
pub fn non_empty_trimmed_lines_exec(text: &str) -> (r: Vec<String>)
    ensures
        strings_view(r@) == non_empty_trimmed(lines(text@)),
{
    let cs = chars_of(text);
    let ls = split_lines(&cs);
    let mut kept: Vec<String> = Vec::new();
    let mut i: usize = 0;
    while i < ls.len()
        invariant
            i <= ls.len(),
            views(ls@) == lines(text@),
            strings_view(kept@) == non_empty_trimmed(views(ls@).take(i as int)),
        decreases ls.len() - i,
    {
        let t = trimmed_copy(&ls[i]);
        proof {
            assert(views(ls@).take(i + 1) =~= views(ls@).take(i as int).push(ls@[i as int]@));
            lemma_non_empty_trimmed_push(views(ls@).take(i as int), ls@[i as int]@);
        }
        if t.len() > 0 {
            let ts = string_of(&t);
            let ghost before = kept@;
            kept.push(ts);
            assert(strings_view(kept@) =~= strings_view(before) + seq![t@]);
        } else {
            assert(strings_view(kept@) + Seq::<Seq<char>>::empty() =~= strings_view(kept@));
        }
        i = i + 1;
    }
    assert(views(ls@).take(ls.len() as int) =~= views(ls@));
    kept
}

/// At most `max_lines` of the text's non-empty trimmed lines, joined by ` / `.
pub open spec fn first_lines_summary(text: Seq<char>, max_lines: nat) -> Seq<char> {
    let ls = non_empty_trimmed(lines(text));
    let kept = if ls.len() <= max_lines {
        ls
    } else {
        ls.take(max_lines as int)
    };
    join(kept, " / "@)
}

/// The first `max_lines` non-empty lines of a text, trimmed and joined by ` / `.
pub fn first_non_empty_lines(text: &str, max_lines: usize) -> (r: String)
    ensures
        r@ == first_lines_summary(text@, max_lines as nat),
{
    let cs = chars_of(text);
    let ls = split_lines(&cs);
    let mut kept: Vec<Vec<char>> = Vec::new();
    let mut i: usize = 0;
    while i < ls.len()
        invariant
            i <= ls.len(),
            views(ls@) == lines(text@),
            views(kept@) == non_empty_trimmed(views(ls@).take(i as int)),
        decreases ls.len() - i,
    {
        let t = trimmed_copy(&ls[i]);
        proof {
            assert(views(ls@).take(i + 1) =~= views(ls@).take(i as int).push(ls@[i as int]@));
            lemma_non_empty_trimmed_push(views(ls@).take(i as int), ls@[i as int]@);
        }
        if t.len() > 0 {
            let ghost before = kept@;
            kept.push(t);
            assert(views(kept@) =~= views(before) + seq![t@]);
        } else {
            assert(views(kept@) + Seq::<Seq<char>>::empty() =~= views(kept@));
        }
        i = i + 1;
    }
    assert(views(ls@).take(ls.len() as int) =~= views(ls@));
    let mut taken: Vec<Vec<char>> = Vec::new();
    let mut j: usize = 0;
    while j < kept.len() && j < max_lines
        invariant
            j <= kept.len(),
            j <= max_lines,
            views(taken@) == views(kept@).take(j as int),
        decreases kept.len() - j,
    {
        let c = sub_vec(&kept[j], 0, kept[j].len());
        proof {
            assert(kept@[j as int]@.subrange(0, kept@[j as int]@.len() as int) =~= kept@[j as int]@);
        }
        let ghost before = taken@;
        taken.push(c);
        assert(views(taken@) =~= views(before).push(c@));
        j = j + 1;
        assert(views(kept@).take(j as int) =~= views(kept@).take(j - 1).push(kept@[j - 1]@));
    }
    proof {
        if views(kept@).len() <= max_lines {
            assert(views(kept@).take(j as int) =~= views(kept@));
        }
    }
    let sep = chars_of(" / ");
    let joined = join_exec(&taken, &sep);
    string_of(&joined)
}

/// Whether a command's output says that access was denied, in English in
/// any ASCII case or in Chinese.
pub open spec fn says_access_denied(text: Seq<char>) -> bool {
    contains(lower(text), "access is denied"@) || contains(lower(text), "access denied"@)
        || contains(text, "拒绝访问"@)
}

/// Whether a command's output says that access was denied.
pub fn text_has_access_denied(text: &str) -> (r: bool)
    ensures
        r == says_access_denied(text@),
{
    let cs = chars_of(text);
    let low = lower_vec(&cs);
    let a = chars_of("access is denied");
    let b = chars_of("access denied");
    let c = chars_of("拒绝访问");
    contains_exec(&low, &a) || contains_exec(&low, &b) || contains_exec(&cs, &c)
}

/// A Windows command that exited with failure, with what it printed.
pub struct WindowsCommandError {
    pub program: String,
    pub status: String,
    pub stdout: String,
    pub stderr: String,
}

/// The parts of a failure report: the first lines of each non-blank stream.
pub open spec fn detail_parts(stdout: Seq<char>, stderr: Seq<char>) -> Seq<Seq<char>> {
    let o: Seq<Seq<char>> = if trim_ws(stdout).len() == 0 {
        seq![]
    } else {
        seq!["stdout: "@ + first_lines_summary(stdout, 4)]
    };
    let e: Seq<Seq<char>> = if trim_ws(stderr).len() == 0 {
        seq![]
    } else {
        seq!["stderr: "@ + first_lines_summary(stderr, 4)]
    };
    o + e
}

/// The failure report: program and exit status, then the parts if any.
pub open spec fn detail_text(program: Seq<char>, status: Seq<char>, stdout: Seq<char>, stderr: Seq<
    char,
>) -> Seq<char> {
    let head = program + " 退出码异常："@ + status;
    let parts = detail_parts(stdout, stderr);
    if parts.len() == 0 {
        head
    } else {
        head + "；"@ + join(parts, "；"@)
    }
}

/// Whether a command's output reports that something was terminated.
pub open spec fn says_success(text: Seq<char>) -> bool {
    contains(lower(text), "success"@) || contains(text, "成功"@) || contains(text, "已成功"@)
}

fn is_blank(cs: &Vec<char>) -> (r: bool)
    ensures
        r == (trim_ws(cs@).len() == 0),
{
    trimmed_copy(cs).len() == 0
}

impl WindowsCommandError {
    /// A one-line report of the failure.
    pub fn detail(&self) -> (r: String)
        ensures
            r@ == detail_text(self.program@, self.status@, self.stdout@, self.stderr@),
    {
        let mut parts: Vec<Vec<char>> = Vec::new();
        let out = chars_of(self.stdout.as_str());
        let err = chars_of(self.stderr.as_str());
        if !is_blank(&out) {
            let mut p = chars_of("stdout: ");
            let s = first_non_empty_lines(self.stdout.as_str(), 4);
            let sc = chars_of(s.as_str());
            append_vec(&mut p, &sc);
            parts.push(p);
        }
        let ghost after_out = views(parts@);
        if !is_blank(&err) {
            let mut p = chars_of("stderr: ");
            let s = first_non_empty_lines(self.stderr.as_str(), 4);
            let sc = chars_of(s.as_str());
            append_vec(&mut p, &sc);
            let ghost before = parts@;
            parts.push(p);
            assert(views(parts@) =~= views(before).push(p@));
        }
        proof {
            let o: Seq<Seq<char>> = if trim_ws(self.stdout@).len() == 0 {
                seq![]
            } else {
                seq!["stdout: "@ + first_lines_summary(self.stdout@, 4)]
            };
            assert(after_out =~= o);
            assert(views(parts@) =~= detail_parts(self.stdout@, self.stderr@));
        }
        let mut head = self.program.clone();
        head.append(" 退出码异常：");
        head.append(self.status.as_str());
        if parts.len() == 0 {
            head
        } else {
            head.append("；");
            let sep = chars_of("；");
            let joined = join_exec(&parts, &sep);
            let js = string_of(&joined);
            head.append(js.as_str());
            head
        }
    }

    /// What the command printed: standard output, a newline, standard error.
    pub fn combined_text(&self) -> (r: String)
        ensures
            r@ == self.stdout@ + "\n"@ + self.stderr@,
    {
        let mut t = self.stdout.clone();
        t.append("\n");
        t.append(self.stderr.as_str());
        t
    }

    /// Whether the command's output says that access was denied.
    pub fn is_access_denied(&self) -> (r: bool)
        ensures
            r == says_access_denied(self.stdout@ + "\n"@ + self.stderr@),
    {
        let text = self.combined_text();
        text_has_access_denied(text.as_str())
    }

    /// Whether the command's output reports that some process was terminated.
    pub fn has_successful_termination(&self) -> (r: bool)
        ensures
            r == says_success(self.stdout@ + "\n"@ + self.stderr@),
    {
        let text = self.combined_text();
        let cs = chars_of(text.as_str());
        let low = lower_vec(&cs);
        let a = chars_of("success");
        let b = chars_of("成功");
        let c = chars_of("已成功");
        contains_exec(&low, &a) || contains_exec(&cs, &b) || contains_exec(&cs, &c)
    }
}

/// A PowerShell script that first allows script execution for the process.
pub fn windows_powershell_script(script: &str) -> (r: String)
    ensures
        r@ == "\nSet-ExecutionPolicy -Scope Process -ExecutionPolicy Bypass -Force\n"@ + script@
            + "\n"@,
{
    let mut s = String::new();
    s.append("\nSet-ExecutionPolicy -Scope Process -ExecutionPolicy Bypass -Force\n");
    s.append(script);
    s.append("\n");
    s
}

} // verus!
