//! Reading Linux `/proc` entries of the Codex desktop app: the start time in
//! `stat`, the arguments in `cmdline`, and which processes count.
use vstd::prelude::*;
use crate::text::{chars_of, lower, occurs_at, occurs_at_exec, split_words, string_of, views, words};
use crate::config_text::opt_view;
use crate::windows_text::eq_ignore_ascii_case;
use crate::mac_app::{parse_u32, parse_u32_text};

verus! {

/// The last position where `p` occurs in `s`.
#[verifier::opaque]
pub open spec fn rfind(s: Seq<char>, p: Seq<char>) -> Option<int> {
    if exists|i: int| occurs_at(s, p, i) {
        Some(choose|i: int| occurs_at(s, p, i) && forall|j: int| i < j ==> !occurs_at(s, p, j))
    } else {
        None
    }
}

/// The last position where `p` occurs in `cs`.
pub fn rfind_exec(cs: &Vec<char>, p: &Vec<char>) -> (r: Option<usize>)
    ensures
        match r {
            Some(i) => rfind(cs@, p@) == Some(i as int) && occurs_at(cs@, p@, i as int),
            None => rfind(cs@, p@) is None,
        },
{
    reveal(rfind);
    if p.len() > cs.len() {
        assert(!exists|i: int| occurs_at(cs@, p@, i));
        return None;
    }
    let mut i: usize = cs.len() - p.len();
    loop
        invariant
            p.len() <= cs.len(),
            i <= cs.len() - p.len(),
            forall|j: int| i < j ==> !occurs_at(cs@, p@, j),
        ensures
            forall|j: int| 0 <= j ==> !occurs_at(cs@, p@, j),
        decreases i,
    {
        if occurs_at_exec(cs, p, i) {
            proof {
                reveal(rfind);
                let c = choose|k: int|
                    occurs_at(cs@, p@, k) && forall|j: int| k < j ==> !occurs_at(cs@, p@, j);
                assert(occurs_at(cs@, p@, c));
                if c < i {
                    assert(!occurs_at(cs@, p@, i as int));
                } else if c > i {
                    assert(!occurs_at(cs@, p@, c));
                }
            }
            return Some(i);
        }
        if i == 0 {
            break;
        }
        i = i - 1;
    }
    assert(!exists|k: int| occurs_at(cs@, p@, k));
    None
}

/// The process start time in a `/proc/<pid>/stat` line: the 20th field after
/// the last `) `, which ends the command name (a name that may itself hold
/// spaces and parentheses).
pub open spec fn stat_start_time(stat: Seq<char>) -> Option<Seq<char>> {
    match rfind(stat, ") "@) {
        None => None,
        Some(i) => {
            let ws = words(stat.skip(i + 2));
            if ws.len() > 19 {
                Some(ws[19])
            } else {
                None
            }
        },
    }
}

/// The start time field of a `/proc/<pid>/stat` line.
pub fn start_time(stat: &str) -> (r: Option<String>)
    ensures
        opt_view(r) == stat_start_time(stat@),
{
    let cs = chars_of(stat);
    let close = chars_of(") ");
    proof {
        reveal_strlit(") ");
    }
    let i = match rfind_exec(&cs, &close) {
        Some(i) => i,
        None => return None,
    };
    assert(cs@.len() == cs.len());
    let start: usize = i + 2;
    let rest = crate::text::sub_vec(&cs, start, cs.len());
    assert(rest@ =~= cs@.skip(i + 2));
    let ws = split_words(&rest);
    if ws.len() > 19 {
        let out = string_of(&ws[19]);
        assert(views(ws@)[19] == ws@[19]@);
        assert(opt_view(Some(out)) == Some(ws@[19]@));
        Some(out)
    } else {
        None
    }
}

/// Position of the first zero byte; the length when there is none.
pub open spec fn first_zero(s: Seq<u8>) -> nat
    decreases s.len(),
{
    if s.len() == 0 {
        0
    } else if s[0] == 0 {
        0
    } else {
        1 + first_zero(s.drop_first())
    }
}

proof fn lemma_first_zero_unique(s: Seq<u8>, n: nat)
    requires
        n <= s.len(),
        forall|i: int| 0 <= i < n ==> #[trigger] s[i] != 0,
        n == s.len() || s[n as int] == 0,
    ensures
        first_zero(s) == n,
    decreases s.len(),
{
    if s.len() > 0 && n > 0 {
        assert(s[0] != 0);
        assert forall|i: int| 0 <= i < n - 1 implies #[trigger] s.drop_first()[i] != 0 by {
            assert(s.drop_first()[i] == s[i + 1]);
        }
        lemma_first_zero_unique(s.drop_first(), (n - 1) as nat);
    }
}

/// The pieces of a byte string between zero bytes (`split` at `0`).
pub open spec fn zero_split(s: Seq<u8>) -> Seq<Seq<u8>>
    decreases s.len(),
{
    let k = first_zero(s);
    if k < s.len() {
        seq![s.take(k as int)] + zero_split(s.skip((k + 1) as int))
    } else {
        seq![s]
    }
}

/// The non-empty pieces.
pub open spec fn non_empty(ps: Seq<Seq<u8>>) -> Seq<Seq<u8>>
    decreases ps.len(),
{
    if ps.len() == 0 {
        seq![]
    } else if ps[0].len() == 0 {
        non_empty(ps.drop_first())
    } else {
        seq![ps[0]] + non_empty(ps.drop_first())
    }
}

/// The arguments in a `/proc/<pid>/cmdline`: the zero-separated pieces after
/// the program, without the empty ones.
pub open spec fn cmdline_args(cmdline: Seq<u8>) -> Seq<Seq<u8>> {
    non_empty(zero_split(cmdline).drop_first())
}

pub open spec fn byte_views(v: Seq<Vec<u8>>) -> Seq<Seq<u8>> {
    v.map_values(|x: Vec<u8>| x@)
}

fn first_zero_from(cs: &[u8], lo: usize) -> (r: usize)
    requires
        lo <= cs@.len(),
    ensures
        lo <= r <= cs@.len(),
        r - lo == first_zero(cs@.skip(lo as int)),
{
    let mut i = lo;
    while i < cs.len() && cs[i] != 0
        invariant
            lo <= i <= cs@.len(),
            forall|j: int| lo <= j < i ==> #[trigger] cs@[j] != 0,
        decreases cs@.len() - i,
    {
        i = i + 1;
    }
    proof {
        let t = cs@.skip(lo as int);
        assert forall|j: int| 0 <= j < i - lo implies #[trigger] t[j] != 0 by {
            assert(t[j] == cs@[lo + j]);
        }
        if i < cs@.len() {
            assert(t[i - lo] == cs@[i as int]);
        }
        lemma_first_zero_unique(t, (i - lo) as nat);
    }
    i
}

fn byte_range(cs: &[u8], lo: usize, hi: usize) -> (r: Vec<u8>)
    requires
        lo <= hi <= cs@.len(),
    ensures
        r@ == cs@.subrange(lo as int, hi as int),
{
    let mut r: Vec<u8> = Vec::new();
    let mut i = lo;
    while i < hi
        invariant
            lo <= i <= hi <= cs@.len(),
            r@ == cs@.subrange(lo as int, i as int),
        decreases hi - i,
    {
        r.push(cs[i]);
        i = i + 1;
        assert(r@ =~= cs@.subrange(lo as int, i as int));
    }
    r
}

proof fn lemma_non_empty_push(ps: Seq<Seq<u8>>, p: Seq<u8>)
    ensures
        non_empty(ps.push(p)) == non_empty(ps) + (if p.len() == 0 {
            Seq::<Seq<u8>>::empty()
        } else {
            seq![p]
        }),
    decreases ps.len(),
{
    let pp = ps.push(p);
    let tail: Seq<Seq<u8>> = if p.len() == 0 {
        Seq::<Seq<u8>>::empty()
    } else {
        seq![p]
    };
    if ps.len() == 0 {
        assert(pp.drop_first() =~= Seq::<Seq<u8>>::empty());
        assert(pp[0] == p);
        assert(non_empty(pp.drop_first()) == Seq::<Seq<u8>>::empty());
        assert(Seq::<Seq<u8>>::empty() + tail =~= tail);
        if p.len() != 0 {
            assert(seq![p] + Seq::<Seq<u8>>::empty() =~= seq![p]);
        }
    } else {
        assert(pp.drop_first() =~= ps.drop_first().push(p));
        assert(pp[0] == ps[0]);
        lemma_non_empty_push(ps.drop_first(), p);
        if ps[0].len() != 0 {
            assert(seq![ps[0]] + (non_empty(ps.drop_first()) + tail) =~= (seq![ps[0]] + non_empty(
                ps.drop_first(),
            )) + tail);
        }
    }
}

/// The arguments of a process from its `/proc/<pid>/cmdline`, as raw bytes.
pub fn arguments(cmdline: &[u8]) -> (r: Vec<Vec<u8>>)
    ensures
        byte_views(r@) == cmdline_args(cmdline@),
{
    // pieces after the first zero byte, kept when not empty
    let mut out: Vec<Vec<u8>> = Vec::new();
    let first = first_zero_from(cmdline, 0);
    proof {
        assert(cmdline@.skip(0) =~= cmdline@);
    }
    if first >= cmdline.len() {
        proof {
            assert(zero_split(cmdline@) == seq![cmdline@]);
            assert(zero_split(cmdline@).drop_first() =~= Seq::<Seq<u8>>::empty());
            assert(byte_views(out@) =~= Seq::<Seq<u8>>::empty());
        }
        return out;
    }
    let ghost done: Seq<Seq<u8>> = seq![];
    let mut p: usize = first + 1;
    proof {
        assert(cmdline@.skip((first + 1) as int) =~= cmdline@.skip(p as int));
        assert(zero_split(cmdline@).drop_first() =~= zero_split(cmdline@.skip(p as int)));
    }
    // invariant: the remaining pieces are zero_split(cmdline[p..]); `done` the
    // pieces already seen
    loop
        invariant_except_break
            zero_split(cmdline@).drop_first() == done + zero_split(cmdline@.skip(p as int)),
            byte_views(out@) == non_empty(done),
        invariant
            p <= cmdline@.len(),
        ensures
            byte_views(out@) == non_empty(zero_split(cmdline@).drop_first()),
        decreases cmdline@.len() - p,
    {
        let q = first_zero_from(cmdline, p);
        let piece = byte_range(cmdline, p, q);
        let ghost t = cmdline@.skip(p as int);
        proof {
            assert(t.take(q - p) =~= piece@);
        }
        let ghost prev = out@;
        if piece.len() > 0 {
            out.push(piece);
        }
        proof {
            lemma_non_empty_push(done, piece@);
            if piece@.len() > 0 {
                assert(byte_views(out@) =~= byte_views(prev) + seq![piece@]);
            } else {
                assert(byte_views(out@) =~= byte_views(prev) + Seq::<Seq<u8>>::empty());
            }
        }
        if q >= cmdline.len() {
            proof {
                assert(zero_split(t) == seq![t]);
                assert(done.push(piece@) =~= done + zero_split(t));
            }
            break;
        }
        proof {
            assert(t.skip(q - p + 1) =~= cmdline@.skip(q + 1));
            assert(done + zero_split(t) =~= done.push(piece@) + zero_split(cmdline@.skip(q + 1)));
            done = done.push(piece@);
        }
        p = q + 1;
    }
    out
}

/// Whether a process is the app's main process: no argument starts with
/// `--type=` (Electron marks its helper processes so).
pub open spec fn is_main_process(args: Seq<Seq<u8>>) -> bool {
    forall|i: int|
        0 <= i < args.len() ==> !(args[i].len() >= 7 && #[trigger] args[i].take(7)
            == "--type="@.map_values(|c: char| c as u8))
}

/// Whether no argument starts with `--type=`.
pub fn is_main_args(args: &Vec<Vec<u8>>) -> (r: bool)
    ensures
        r == is_main_process(byte_views(args@)),
{
    let pat: [u8; 7] = [45, 45, 116, 121, 112, 101, 61];
    proof {
        reveal_strlit("--type=");
        assert(pat@ =~= "--type="@.map_values(|c: char| c as u8));
    }
    let mut i: usize = 0;
    while i < args.len()
        invariant
            i <= args.len(),
            pat@ == "--type="@.map_values(|c: char| c as u8),
            forall|j: int|
                0 <= j < i ==> !(args@[j]@.len() >= 7 && #[trigger] args@[j]@.take(7) == pat@),
        decreases args.len() - i,
    {
        let a = &args[i];
        if a.len() >= 7 {
            let mut k: usize = 0;
            let mut same = true;
            while k < 7
                invariant
                    a@.len() >= 7,
                    k <= 7,
                    same == (forall|m: int| 0 <= m < k ==> a@[m] == pat@[m]),
                decreases 7 - k,
            {
                if a[k] != pat[k] {
                    same = false;
                }
                k = k + 1;
            }
            if same {
                assert(a@.take(7) =~= pat@);
                assert(byte_views(args@)[i as int] == a@);
                return false;
            }
            assert(a@.take(7) != pat@) by {
                let m = choose|m: int| 0 <= m < 7 && a@[m] != pat@[m];
                assert(a@.take(7)[m] != pat@[m]);
            }
        }
        i = i + 1;
    }
    true
}

/// Whether an executable's file name is that of the desktop app: `ChatGPT`
/// or `Codex` in any ASCII case.
pub open spec fn desktop_name(name: Seq<char>) -> bool {
    (name.len() == "chatgpt"@.len() && lower(name) == lower("chatgpt"@)) || (name.len()
        == "codex"@.len() && lower(name) == lower("codex"@))
}

/// Whether an executable's file name is that of the desktop app.
pub fn is_desktop_name(name: &str) -> (r: bool)
    ensures
        r == desktop_name(name@),
{
    let n = chars_of(name);
    let a = chars_of("chatgpt");
    let b = chars_of("codex");
    eq_ignore_ascii_case(&n, &a) || eq_ignore_ascii_case(&n, &b)
}

/// What the filesystem shows of an executable that might be the desktop app.
pub struct ExecutableFacts {
    /// the file name, when it is valid UTF-8
    pub file_name: Option<String>,
    pub has_parent: bool,
    /// a regular file with an execute bit set
    pub is_executable_file: bool,
    /// `chrome_100_percent.pak` beside it
    pub has_pak: bool,
    /// `resources/app.asar` beside it
    pub has_asar: bool,
    /// `resources/app/package.json` beside it
    pub has_package_json: bool,
}

/// Whether the facts describe the desktop app rather than the CLI: the
/// name, an executable file, and the Electron assets next to it.
pub open spec fn desktop_executable(f: ExecutableFacts) -> bool {
    &&& f.file_name matches Some(n) && desktop_name(n@)
    &&& f.has_parent
    &&& f.is_executable_file
    &&& f.has_pak
    &&& (f.has_asar || f.has_package_json)
}

/// Whether an executable is the desktop app, from what the filesystem shows.
pub fn is_desktop_executable(f: &ExecutableFacts) -> (r: bool)
    ensures
        r == desktop_executable(*f),
{
    let name_ok = match &f.file_name {
        Some(n) => is_desktop_name(n.as_str()),
        None => false,
    };
    name_ok && f.has_parent && f.is_executable_file && f.has_pak && (f.has_asar
        || f.has_package_json)
}

/// A running process of the desktop app.
pub struct DesktopProcess {
    pub pid: u32,
    /// the executable's path, as bytes
    pub executable: Vec<u8>,
    pub args: Vec<Vec<u8>>,
    pub cwd: Option<Vec<u8>>,
    pub is_main: bool,
    pub start_time: String,
}

impl DesktopProcess {
    /// Whether the process still runs the same executable since the same
    /// start time: what `/proc/<pid>/exe` and `/proc/<pid>/stat` show now.
    pub fn is_current(&self, exe_now: &Option<Vec<u8>>, stat_now: &Option<String>) -> (r: bool)
        ensures
            r == ((exe_now matches Some(e) && e@ == self.executable@) && (stat_now matches Some(
                s,
            ) && stat_start_time(s@) == Some(self.start_time@))),
    {
        let exe_ok = match exe_now {
            Some(e) => bytes_eq(e, &self.executable),
            None => false,
        };
        if !exe_ok {
            return false;
        }
        match stat_now {
            Some(s) => match start_time(s.as_str()) {
                Some(t) => {
                    let a = chars_of(t.as_str());
                    let b = chars_of(self.start_time.as_str());
                    crate::config_text::vec_eq(&a, &b)
                },
                None => false,
            },
            None => false,
        }
    }
}

fn bytes_eq(a: &Vec<u8>, b: &Vec<u8>) -> (r: bool)
    ensures
        r == (a@ == b@),
{
    if a.len() != b.len() {
        return false;
    }
    let mut i: usize = 0;
    while i < a.len()
        invariant
            a.len() == b.len(),
            i <= a.len(),
            forall|j: int| 0 <= j < i ==> a@[j] == b@[j],
        decreases a.len() - i,
    {
        if a[i] != b[i] {
            return false;
        }
        i = i + 1;
    }
    assert(a@ =~= b@);
    true
}

/// The desktop process a `/proc` entry stands for, from what was read of
/// it: the entry's name as a process id, whether the current user owns it,
/// its executable (and whether that is the desktop app), its `cmdline`,
/// `stat` and working directory. `None` when any of these rules it out.
pub open spec fn entry_process(
    name: Seq<char>,
    owned: bool,
    executable: Option<Seq<u8>>,
    is_desktop: bool,
    cmdline: Option<Seq<u8>>,
    stat: Option<Seq<char>>,
) -> bool {
    &&& parse_u32(name) is Some
    &&& owned
    &&& executable is Some
    &&& is_desktop
    &&& cmdline is Some
    &&& stat matches Some(st) && stat_start_time(st) is Some
}

/// The desktop process of a `/proc` entry, when it is one.
pub fn desktop_process(
    name: &str,
    owned: bool,
    executable: Option<Vec<u8>>,
    is_desktop: bool,
    cmdline: Option<Vec<u8>>,
    stat: Option<String>,
    cwd: Option<Vec<u8>>,
) -> (r: Option<DesktopProcess>)
    ensures
        r is Some <==> entry_process(
            name@,
            owned,
            match executable {
                Some(e) => Some(e@),
                None => None,
            },
            is_desktop,
            match cmdline {
                Some(c) => Some(c@),
                None => None,
            },
            opt_view(stat),
        ),
        r matches Some(p) ==> {
            &&& Some(p.pid) == parse_u32(name@)
            &&& executable matches Some(e) && p.executable == e
            &&& cmdline matches Some(c) && byte_views(p.args@) == cmdline_args(c@)
            &&& p.is_main == is_main_process(byte_views(p.args@))
            &&& p.cwd == cwd
            &&& stat matches Some(st) && stat_start_time(st@) == Some(p.start_time@)
        },
{
    let pid = match parse_u32_text(&chars_of(name)) {
        Some(p) => p,
        None => return None,
    };
    if !owned {
        return None;
    }
    let executable = match executable {
        Some(e) => e,
        None => return None,
    };
    if !is_desktop {
        return None;
    }
    let cmdline = match cmdline {
        Some(c) => c,
        None => return None,
    };
    let stat = match stat {
        Some(s) => s,
        None => return None,
    };
    let start = match start_time(stat.as_str()) {
        Some(t) => t,
        None => return None,
    };
    let args = arguments(cmdline.as_slice());
    let is_main = is_main_args(&args);
    Some(DesktopProcess { pid, executable, args, cwd, is_main, start_time: start })
}

/// The listing order of desktop processes: main processes first, then by
/// process id.
pub open spec fn listed_before(a: DesktopProcess, b: DesktopProcess) -> bool {
    (a.is_main && !b.is_main) || (a.is_main == b.is_main && a.pid <= b.pid)
}

/// A process put into an ordered listing after every process that does
/// not come after it.
pub open spec fn insert_listed(s: Seq<DesktopProcess>, x: DesktopProcess) -> Seq<DesktopProcess>
    decreases s.len(),
{
    if s.len() == 0 {
        seq![x]
    } else if listed_before(s.last(), x) {
        s.push(x)
    } else {
        insert_listed(s.drop_last(), x).push(s.last())
    }
}

/// The processes in listing order, processes that tie keeping their order
/// (a stable sort).
pub open spec fn listing(s: Seq<DesktopProcess>) -> Seq<DesktopProcess>
    decreases s.len(),
{
    if s.len() == 0 {
        s
    } else {
        insert_listed(listing(s.drop_last()), s.last())
    }
}

/// Whether a sequence of processes is in listing order.
pub open spec fn in_listing_order(s: Seq<DesktopProcess>) -> bool {
    forall|i: int, j: int| 0 <= i < j < s.len() ==> listed_before(#[trigger] s[i], #[trigger] s[j])
}

proof fn lemma_insert_at(s: Seq<DesktopProcess>, x: DesktopProcess, j: int)
    requires
        0 <= j <= s.len(),
        forall|k: int| j <= k < s.len() ==> !listed_before(#[trigger] s[k], x),
        j == 0 || listed_before(s[j - 1], x),
    ensures
        insert_listed(s, x) == s.insert(j, x),
    decreases s.len(),
{
    if s.len() == 0 {
        assert(s.insert(j, x) =~= seq![x]);
    } else if j == s.len() {
        assert(s.insert(j, x) =~= s.push(x));
    } else {
        assert(!listed_before(s.last(), x));
        let t = s.drop_last();
        assert forall|k: int| j <= k < t.len() implies !listed_before(#[trigger] t[k], x) by {
            assert(t[k] == s[k]);
        }
        if j > 0 {
            assert(t[j - 1] == s[j - 1]);
        }
        lemma_insert_at(t, x, j);
        assert(t.insert(j, x).push(s.last()) =~= s.insert(j, x));
    }
}

/// The processes in listing order: main processes first, then by process
/// id, ties keeping their order.
pub fn sort_processes(procs: Vec<DesktopProcess>) -> (r: Vec<DesktopProcess>)
    ensures
        r@ == listing(procs@),
{
    let mut rest = procs;
    let mut out: Vec<DesktopProcess> = Vec::new();
    let ghost all = rest@;
    assert(all.len() == rest.len());
    let mut taken: usize = 0;
    while rest.len() > 0
        invariant
            taken + rest@.len() == all.len(),
            all.len() <= usize::MAX,
            rest@ == all.skip(taken as int),
            out@ == listing(all.take(taken as int)),
        decreases rest@.len(),
    {
        let x = rest.remove(0);
        let mut j = out.len();
        while j > 0 && !(out[j - 1].is_main && !x.is_main || out[j - 1].is_main == x.is_main
            && out[j - 1].pid <= x.pid)
            invariant
                j <= out@.len(),
                forall|k: int| j <= k < out@.len() ==> !listed_before(#[trigger] out@[k], x),
            decreases j,
        {
            j = j - 1;
        }
        proof {
            lemma_insert_at(out@, x, j as int);
            assert(all.take(taken + 1).drop_last() =~= all.take(taken as int));
            assert(all.take(taken + 1).last() == x);
            assert(all.skip(taken + 1) =~= rest@);
        }
        out.insert(j, x);
        taken = taken + 1;
    }
    assert(all.take(taken as int) =~= all);
    out
}

proof fn lemma_insert_listed_bounded(s: Seq<DesktopProcess>, x: DesktopProcess, b: DesktopProcess)
    requires
        forall|i: int| 0 <= i < s.len() ==> listed_before(#[trigger] s[i], b),
        listed_before(x, b),
    ensures
        forall|i: int|
            0 <= i < insert_listed(s, x).len() ==> listed_before(#[trigger] insert_listed(s, x)[i], b),
    decreases s.len(),
{
    if s.len() == 0 {
        assert(insert_listed(s, x) =~= seq![x]);
    } else if listed_before(s.last(), x) {
        let r = s.push(x);
        assert forall|i: int| 0 <= i < r.len() implies listed_before(#[trigger] r[i], b) by {
            if i < s.len() {
                assert(r[i] == s[i]);
            }
        }
    } else {
        let t = s.drop_last();
        assert forall|i: int| 0 <= i < t.len() implies listed_before(#[trigger] t[i], b) by {
            assert(t[i] == s[i]);
        }
        lemma_insert_listed_bounded(t, x, b);
        let u = insert_listed(t, x);
        let r = u.push(s.last());
        assert(listed_before(s[s.len() - 1], b));
        assert forall|i: int| 0 <= i < r.len() implies listed_before(#[trigger] r[i], b) by {
            if i < u.len() {
                assert(r[i] == u[i]);
            }
        }
    }
}

proof fn lemma_insert_listed_len(s: Seq<DesktopProcess>, x: DesktopProcess)
    ensures
        insert_listed(s, x).len() == s.len() + 1,
        insert_listed(s, x).to_multiset() == s.to_multiset().insert(x),
    decreases s.len(),
{
    broadcast use vstd::seq_lib::group_to_multiset_ensures;
    if s.len() == 0 {
        assert(seq![x] =~= s.push(x));
    } else if listed_before(s.last(), x) {
    } else {
        let t = s.drop_last();
        lemma_insert_listed_len(t, x);
        assert(s =~= t.push(s.last()));
        assert(insert_listed(s, x).to_multiset() =~= s.to_multiset().insert(x));
    }
}

proof fn lemma_insert_listed_sorted(s: Seq<DesktopProcess>, x: DesktopProcess)
    requires
        in_listing_order(s),
    ensures
        in_listing_order(insert_listed(s, x)),
    decreases s.len(),
{
    if s.len() == 0 {
    } else if listed_before(s.last(), x) {
        let r = s.push(x);
        assert forall|i: int, j: int| 0 <= i < j < r.len() implies listed_before(
            #[trigger] r[i],
            #[trigger] r[j],
        ) by {
            if j == r.len() - 1 && i < s.len() - 1 {
                assert(listed_before(s[i], s[s.len() - 1]));
            }
        }
    } else {
        let t = s.drop_last();
        let b = s.last();
        assert forall|i: int, j: int| 0 <= i < j < t.len() implies listed_before(
            #[trigger] t[i],
            #[trigger] t[j],
        ) by {
            assert(t[i] == s[i] && t[j] == s[j]);
        }
        lemma_insert_listed_sorted(t, x);
        assert forall|i: int| 0 <= i < t.len() implies listed_before(#[trigger] t[i], b) by {
            assert(t[i] == s[i]);
            assert(listed_before(s[i], s[s.len() - 1]));
        }
        lemma_insert_listed_bounded(t, x, b);
        lemma_insert_listed_len(t, x);
        let u = insert_listed(t, x);
        let r = u.push(b);
        assert forall|i: int, j: int| 0 <= i < j < r.len() implies listed_before(
            #[trigger] r[i],
            #[trigger] r[j],
        ) by {
            if j == r.len() - 1 {
                assert(r[i] == u[i]);
            } else {
                assert(r[i] == u[i] && r[j] == u[j]);
            }
        }
    }
}

/// The listing holds exactly the processes given, in listing order.
pub proof fn law_listing_sorted_permutation(s: Seq<DesktopProcess>)
    ensures
        in_listing_order(listing(s)),
        listing(s).to_multiset() == s.to_multiset(),
    decreases s.len(),
{
    broadcast use vstd::seq_lib::group_to_multiset_ensures;
    if s.len() > 0 {
        law_listing_sorted_permutation(s.drop_last());
        lemma_insert_listed_sorted(listing(s.drop_last()), s.last());
        lemma_insert_listed_len(listing(s.drop_last()), s.last());
        assert(s =~= s.drop_last().push(s.last()));
    }
}

/// The listing holds only processes it was given, so whatever holds of
/// every process given (such as `desktop_process`'s guarantees: an owned
/// desktop executable, a main flag that says no `--type=` argument) holds
/// of every process listed; and the listing is in listing order.
pub proof fn law_listing_keeps_entries(s: Seq<DesktopProcess>, i: int)
    requires
        0 <= i < listing(s).len(),
    ensures
        s.contains(listing(s)[i]),
        in_listing_order(listing(s)),
{
    broadcast use vstd::seq_lib::group_to_multiset_ensures;
    law_listing_sorted_permutation(s);
    assert(listing(s).contains(listing(s)[i]));
    assert(listing(s).to_multiset().count(listing(s)[i]) > 0);
}


/// What was read of one `/proc` entry: its name, whether the current user
/// owns it, where its `exe` link points, what the filesystem shows of that
/// executable, its `cmdline`, `stat` and working directory.
pub struct ProcEntry {
    pub name: String,
    pub owned: bool,
    pub executable: Option<Vec<u8>>,
    pub facts: ExecutableFacts,
    pub cmdline: Option<Vec<u8>>,
    pub stat: Option<String>,
    pub cwd: Option<Vec<u8>>,
}

/// A byte string that may be missing, by its view.
pub open spec fn opt_bytes(o: Option<Vec<u8>>) -> Option<Seq<u8>> {
    match o {
        Some(b) => Some(b@),
        None => None,
    }
}

/// Whether a `/proc` entry is a process of the desktop app.
pub open spec fn entry_listed(e: ProcEntry) -> bool {
    entry_process(
        e.name@,
        e.owned,
        opt_bytes(e.executable),
        desktop_executable(e.facts),
        opt_bytes(e.cmdline),
        opt_view(e.stat),
    )
}

/// Whether a desktop process is what a `/proc` entry gives.
pub open spec fn entry_gives(e: ProcEntry, p: DesktopProcess) -> bool {
    &&& entry_listed(e)
    &&& Some(p.pid) == parse_u32(e.name@)
    &&& e.executable matches Some(x) && p.executable@ == x@
    &&& e.cmdline matches Some(c) && byte_views(p.args@) == cmdline_args(c@)
    &&& p.is_main == is_main_process(byte_views(p.args@))
    &&& opt_bytes(p.cwd) == opt_bytes(e.cwd)
    &&& e.stat matches Some(st) && stat_start_time(st@) == Some(p.start_time@)
}

/// Whether `t` holds, in order, the processes that the entries give: one
/// for each entry of the desktop app, none for the others.
pub open spec fn gives_all(es: Seq<ProcEntry>, t: Seq<DesktopProcess>) -> bool
    decreases es.len(),
{
    if es.len() == 0 {
        t.len() == 0
    } else if entry_listed(es.last()) {
        t.len() > 0 && entry_gives(es.last(), t.last()) && gives_all(es.drop_last(), t.drop_last())
    } else {
        gives_all(es.drop_last(), t)
    }
}

/// The desktop processes among the `/proc` entries read, in listing order.
pub fn list_desktop_processes(entries: Vec<ProcEntry>) -> (r: Vec<DesktopProcess>)
    ensures
        exists|t: Seq<DesktopProcess>| gives_all(entries@, t) && r@ == listing(t),
{
    let ghost all = entries@;
    let mut rest = entries;
    let mut found: Vec<DesktopProcess> = Vec::new();
    let mut taken: usize = 0;
    assert(all.len() == rest.len());
    assert(all.take(0) =~= Seq::<ProcEntry>::empty());
    assert(all.skip(0) =~= all);
    while rest.len() > 0
        invariant
            taken + rest@.len() == all.len(),
            all.len() <= usize::MAX,
            rest@ == all.skip(taken as int),
            gives_all(all.take(taken as int), found@),
        decreases rest.len(),
    {
        let e = rest.remove(0);
        assert(e == all[taken as int]);
        let ProcEntry { name, owned, executable, facts, cmdline, stat, cwd } = e;
        let is_desktop = is_desktop_executable(&facts);
        let ghost before = found@;
        match desktop_process(name.as_str(), owned, executable, is_desktop, cmdline, stat, cwd) {
            Some(p) => {
                found.push(p);
            },
            None => {},
        }
        proof {
            let next = all.take(taken + 1);
            assert(next.drop_last() =~= all.take(taken as int));
            assert(next.last() == e);
            if entry_listed(e) {
                assert(found@.drop_last() =~= before);
            }
            assert(all.skip(taken + 1) =~= rest@);
        }
        taken = taken + 1;
    }
    assert(all.take(taken as int) =~= all);
    sort_processes(found)
}

proof fn lemma_gives_all_from_entries(es: Seq<ProcEntry>, t: Seq<DesktopProcess>, k: int)
    requires
        gives_all(es, t),
        0 <= k < t.len(),
    ensures
        exists|j: int| 0 <= j < es.len() && entry_gives(#[trigger] es[j], t[k]),
    decreases es.len(),
{
    if es.len() > 0 {
        if entry_listed(es.last()) {
            if k == t.len() - 1 {
                assert(entry_gives(es[es.len() - 1], t[k]));
            } else {
                lemma_gives_all_from_entries(es.drop_last(), t.drop_last(), k);
                let j = choose|j: int|
                    0 <= j < es.drop_last().len() && entry_gives(
                        #[trigger] es.drop_last()[j],
                        t.drop_last()[k],
                    );
                assert(es[j] == es.drop_last()[j]);
            }
        } else {
            lemma_gives_all_from_entries(es.drop_last(), t, k);
            let j = choose|j: int|
                0 <= j < es.drop_last().len() && entry_gives(#[trigger] es.drop_last()[j], t[k]);
            assert(es[j] == es.drop_last()[j]);
        }
    }
}

/// Every process listed from the `/proc` entries comes from an entry that
/// the current user owns, whose executable passed the desktop check (its
/// name, an executable file, the Electron assets beside it, which the CLI
/// and its app-server lack) and whose `cmdline` and `stat` were read; it
/// keeps that entry's executable path, so when `/proc` gives absolute paths
/// the listed paths are absolute; it is a main process exactly when no
/// argument starts with `--type=`; and the listing is in listing order.
pub proof fn law_listed_desktop_processes(es: Seq<ProcEntry>, t: Seq<DesktopProcess>, i: int)
    requires
        gives_all(es, t),
        0 <= i < listing(t).len(),
    ensures
        exists|j: int|
            0 <= j < es.len() && #[trigger] entry_gives(es[j], listing(t)[i]) && es[j].owned
                && desktop_executable(es[j].facts),
        listing(t)[i].is_main == is_main_process(byte_views(listing(t)[i].args@)),
        (forall|j: int|
            0 <= j < es.len() ==> (#[trigger] es[j].executable matches Some(x) ==> x@.len() > 0
                && x@[0] == '/' as u8)) ==> listing(t)[i].executable@.len() > 0
            && listing(t)[i].executable@[0] == '/' as u8,
        in_listing_order(listing(t)),
{
    law_listing_keeps_entries(t, i);
    let k = choose|k: int| 0 <= k < t.len() && t[k] == listing(t)[i];
    lemma_gives_all_from_entries(es, t, k);
    let j = choose|j: int| 0 <= j < es.len() && entry_gives(#[trigger] es[j], t[k]);
    assert(entry_gives(es[j], listing(t)[i]));
}

/// The argument `app-server`, as bytes.
pub open spec fn app_server_arg() -> Seq<u8> {
    seq![97u8, 112u8, 112u8, 45u8, 115u8, 101u8, 114u8, 118u8, 101u8, 114u8]
}

/// The listing of the desktop app's processes, as a snapshot of `/proc`
/// shows it: every listed process passed the desktop-executable check, has
/// an absolute executable path, has no `app-server` argument, is a main
/// process exactly when no argument starts with `--type=`, and the listing
/// puts main processes first, each group by ascending process id.
///
/// The listing itself checks neither paths nor arguments: it keeps each
/// entry's path and arguments as read. So the law holds of the snapshots
/// `/proc` gives, whose `exe` links are absolute paths, and in which no
/// executable with the desktop assets beside it runs as `app-server` (the
/// CLI that does lacks them); those are its two requirements.
pub proof fn law_desktop_listing(es: Seq<ProcEntry>, t: Seq<DesktopProcess>)
    requires
        gives_all(es, t),
        forall|j: int|
            0 <= j < es.len() ==> (#[trigger] es[j].executable matches Some(x) ==> x@.len() > 0
                && x@[0] == '/' as u8),
        forall|j: int|
            0 <= j < es.len() && desktop_executable(#[trigger] es[j].facts) ==> (
            es[j].cmdline matches Some(c) ==> !cmdline_args(c@).contains(app_server_arg())),
    ensures
        forall|i: int|
            0 <= i < listing(t).len() ==> {
                let p = #[trigger] listing(t)[i];
                &&& exists|j: int|
                    0 <= j < es.len() && entry_gives(es[j], p) && desktop_executable(
                        #[trigger] es[j].facts,
                    )
                &&& p.executable@.len() > 0 && p.executable@[0] == '/' as u8
                &&& !byte_views(p.args@).contains(app_server_arg())
                &&& p.is_main == is_main_process(byte_views(p.args@))
            },
        in_listing_order(listing(t)),
{
    if listing(t).len() > 0 {
        law_listed_desktop_processes(es, t, 0);
    } else {
        law_listing_sorted_permutation(t);
    }
    assert forall|i: int| 0 <= i < listing(t).len() implies {
        let p = #[trigger] listing(t)[i];
        &&& exists|j: int|
            0 <= j < es.len() && entry_gives(es[j], p) && desktop_executable(#[trigger] es[j].facts)
        &&& p.executable@.len() > 0 && p.executable@[0] == '/' as u8
        &&& !byte_views(p.args@).contains(app_server_arg())
        &&& p.is_main == is_main_process(byte_views(p.args@))
    } by {
        law_listed_desktop_processes(es, t, i);
        let p = listing(t)[i];
        let j = choose|j: int|
            0 <= j < es.len() && #[trigger] entry_gives(es[j], listing(t)[i]) && es[j].owned
                && desktop_executable(es[j].facts);
        assert(entry_gives(es[j], p) && desktop_executable(es[j].facts));
        assert(es[j].executable matches Some(x) ==> x@.len() > 0 && x@[0] == '/' as u8);
    }
}

} // verus!
