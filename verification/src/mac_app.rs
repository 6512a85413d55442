//! The macOS side of restarting the Codex App: decimal process ids, what
//! `ps`, `osascript`, `kill` and `open` are asked and what their output
//! means.
use vstd::prelude::*;
use vstd::utf8::{decode_utf8, valid_utf8};
use crate::text::{
    char_from_ascii, string_of, sub_vec, chars_of, contains, contains_exec, first_in_set,
    first_in_set_from, is_ascii_digit, lines, split_lines, strings_view, trim_start,
    trim_start_range, trim_ws, views, CharSet,
};
use crate::windows_text::all_digits;
use crate::windows_proc::{trimmed_string, CommandRun};

verus! {

/// The value of a digit character.
pub open spec fn digit_value(c: char) -> int {
    (c as u32) - 48
}

/// The value of a text of decimal digits (0 for the empty text).
pub open spec fn digits_value(s: Seq<char>) -> int
    decreases s.len(),
{
    if s.len() == 0 {
        0
    } else {
        digits_value(s.drop_last()) * 10 + digit_value(s.last())
    }
}

/// `u32::from_str`: an optional `+`, then at least one ASCII digit, with a
/// value that fits in 32 bits.
pub open spec fn parse_u32(s: Seq<char>) -> Option<u32> {
    let d = if s.len() > 0 && s[0] == '+' {
        s.drop_first()
    } else {
        s
    };
    if d.len() > 0 && all_digits(d) && digits_value(d) <= u32::MAX {
        Some(digits_value(d) as u32)
    } else {
        None
    }
}

proof fn lemma_digits_value_grows(s: Seq<char>, i: int, j: int)
    requires
        all_digits(s),
        0 <= i <= j <= s.len(),
    ensures
        0 <= digits_value(s.take(i)) <= digits_value(s.take(j)),
    decreases j - i,
{
    if i < j {
        lemma_digits_value_grows(s, i, j - 1);
        assert(s.take(j).drop_last() =~= s.take(j - 1));
        assert(is_ascii_digit(s[j - 1]));
    } else {
        lemma_digits_value_nonneg(s.take(i));
    }
}

proof fn lemma_digits_value_nonneg(s: Seq<char>)
    requires
        all_digits(s),
    ensures
        digits_value(s) >= 0,
    decreases s.len(),
{
    if s.len() > 0 {
        lemma_digits_value_nonneg(s.drop_last());
        assert(is_ascii_digit(s[s.len() - 1]));
    }
}

/// The number a text stands for, read as `u32::from_str` reads it.
pub fn parse_u32_text(cs: &Vec<char>) -> (r: Option<u32>)
    ensures
        r == parse_u32(cs@),
{
    let start: usize = if cs.len() > 0 && cs[0] == '+' {
        1
    } else {
        0
    };
    let ghost d = if cs@.len() > 0 && cs@[0] == '+' {
        cs@.drop_first()
    } else {
        cs@
    };
    assert(d =~= cs@.skip(start as int));
    if start >= cs.len() {
        return None;
    }
    let mut v: u64 = 0;
    let mut i: usize = start;
    while i < cs.len()
        invariant
            start <= i <= cs.len(),
            d == cs@.skip(start as int),
            d == (if cs@.len() > 0 && cs@[0] == '+' {
                cs@.drop_first()
            } else {
                cs@
            }),
            d.len() > 0,
            v <= u32::MAX,
            all_digits(d.take(i - start)),
            v == digits_value(d.take(i - start)),
        decreases cs.len() - i,
    {
        let c = cs[i];
        let u = c as u32;
        if !(0x30 <= u && u <= 0x39) {
            proof {
                assert(d[i - start] == c);
                assert(!is_ascii_digit(d[i - start]));
            }
            return None;
        }
        let nv: u64 = v * 10 + (u - 48) as u64;
        proof {
            let t = d.take(i + 1 - start);
            assert(t.drop_last() =~= d.take(i - start));
            assert(t.last() == c);
            assert(all_digits(t)) by {
                assert forall|k: int| 0 <= k < t.len() implies is_ascii_digit(#[trigger] t[k]) by {
                    if k < t.len() - 1 {
                        assert(t[k] == d.take(i - start)[k]);
                    }
                }
            }
        }
        if nv > 0xffff_ffff {
            proof {
                if all_digits(d) {
                    assert(d.take(d.len() as int) =~= d);
                    lemma_digits_value_grows(d, i + 1 - start, d.len() as int);
                }
            }
            return None;
        }
        v = nv;
        i = i + 1;
    }
    assert(d.take(i - start) =~= d);
    Some(v as u32)
}

/// The decimal digits of a number, without leading zeros (`0` for zero).
pub open spec fn dec_text(n: nat) -> Seq<char>
    decreases n,
{
    if n < 10 {
        seq![(n + 48) as char]
    } else {
        dec_text(n / 10).push(((n % 10) + 48) as char)
    }
}

/// The decimal digits of a number (`u32::to_string`).
pub fn decimal_chars(n: u32) -> (r: Vec<char>)
    ensures
        r@ == dec_text(n as nat),
    decreases n,
{
    if n < 10 {
        let mut v: Vec<char> = Vec::new();
        v.push(char_from_ascii(n + 48));
        assert(v@ =~= dec_text(n as nat));
        v
    } else {
        let mut v = decimal_chars(n / 10);
        v.push(char_from_ascii(n % 10 + 48));
        v
    }
}

/// Reading back the decimal text of a number gives the number.
pub proof fn law_decimal_round_trip(n: u32)
    ensures
        parse_u32(dec_text(n as nat)) == Some(n),
{
    lemma_dec_text(n as nat);
    let t = dec_text(n as nat);
    assert(t.len() > 0 && t[0] != '+');
}

proof fn lemma_dec_text(n: nat)
    ensures
        dec_text(n).len() > 0,
        all_digits(dec_text(n)),
        digits_value(dec_text(n)) == n,
        dec_text(n)[0] != '+',
    decreases n,
{
    let t = dec_text(n);
    if n < 10 {
        assert(t.drop_last() =~= Seq::<char>::empty());
        assert(digit_value(t.last()) == n);
        assert(digits_value(t.drop_last()) == 0);
        assert(digits_value(t) == digits_value(t.drop_last()) * 10 + digit_value(t.last()));
        assert(is_ascii_digit(t[0]));
    } else {
        lemma_dec_text(n / 10);
        let h = dec_text(n / 10);
        assert(t.drop_last() =~= h);
        assert forall|i: int| 0 <= i < t.len() implies is_ascii_digit(#[trigger] t[i]) by {
            if i < h.len() {
                assert(t[i] == h[i]);
            }
        }
        assert(t[0] == h[0]);
        assert(digit_value(t.last()) == n % 10);
        assert((n / 10) * 10 + n % 10 == n) by (nonlinear_arith);
        assert(digits_value(t) == digits_value(t.drop_last()) * 10 + digit_value(t.last()));
    }
}

/// The process id on a line of `ps ax -o pid=,args=`: on a line that holds
/// the marker, the first word after leading whitespace, when whitespace
/// follows it and it reads as a number.
pub open spec fn ps_line_pid(line: Seq<char>, marker: Seq<char>) -> Option<u32> {
    if !contains(line, marker) {
        None
    } else {
        let t = trim_start(line, CharSet::Whitespace);
        let k = first_in_set(t, CharSet::Whitespace);
        if k < t.len() {
            parse_u32(t.take(k as int))
        } else {
            None
        }
    }
}

/// The process ids on the lines, in order.
pub open spec fn ps_pids(ls: Seq<Seq<char>>, marker: Seq<char>) -> Seq<u32>
    decreases ls.len(),
{
    if ls.len() == 0 {
        seq![]
    } else {
        let rest = ps_pids(ls.drop_last(), marker);
        match ps_line_pid(ls.last(), marker) {
            Some(p) => rest.push(p),
            None => rest,
        }
    }
}

/// The ids of the processes whose line in the `ps` listing holds the
/// marker (the app's bundle path).
pub fn ps_codex_pids(listing: &str, marker: &str) -> (r: Vec<u32>)
    ensures
        r@ == ps_pids(lines(listing@), marker@),
{
    let cs = chars_of(listing);
    let ls = split_lines(&cs);
    let mk = chars_of(marker);
    let ws = CharSet::Whitespace;
    let mut out: Vec<u32> = Vec::new();
    let mut i: usize = 0;
    while i < ls.len()
        invariant
            i <= ls@.len(),
            views(ls@) == lines(listing@),
            mk@ == marker@,
            ws == CharSet::Whitespace,
            out@ == ps_pids(views(ls@).take(i as int), marker@),
        decreases ls@.len() - i,
    {
        let line = &ls[i];
        let ghost l = line@;
        let mut found: Option<u32> = None;
        if contains_exec(line, &mk) {
            let a = trim_start_range(line, 0, line.len(), &ws);
            let b = first_in_set_from(line, a, &ws);
            proof {
                assert(l.subrange(0, l.len() as int) =~= l);
                let t = trim_start(l, CharSet::Whitespace);
                assert(t =~= l.skip(a as int));
            }
            if b < line.len() {
                let w = sub_vec(line, a, b);
                proof {
                    let t = trim_start(l, CharSet::Whitespace);
                    assert(w@ =~= t.take(b - a));
                }
                found = parse_u32_text(&w);
            }
        }
        assert(found == ps_line_pid(l, marker@));
        proof {
            assert(views(ls@).take(i + 1).drop_last() =~= views(ls@).take(i as int));
            assert(views(ls@).take(i + 1).last() == l);
        }
        if let Some(p) = found {
            out.push(p);
        }
        i = i + 1;
    }
    assert(views(ls@).take(ls@.len() as int) =~= views(ls@));
    out
}

/// The name of `String::from_utf8_lossy`'s text for a byte string.
pub uninterp spec fn lossy_utf8(b: Seq<u8>) -> Seq<char>;

/// `String::from_utf8_lossy`: the text of the bytes, with each malformed
/// sequence replaced; for valid UTF-8, its text unchanged.
#[verifier::external_body]
fn utf8_lossy(b: &[u8]) -> (r: String)
    ensures
        r@ == lossy_utf8(b@),
        valid_utf8(b@) ==> r@ == decode_utf8(b@),
{
    String::from_utf8_lossy(b).into_owned()
}

/// The failure of a command that could not run or exited with failure:
/// the message, `: `, and the start error or the trimmed standard error.
pub open spec fn command_failure(failure: Seq<char>, run: CommandRun) -> Option<Seq<char>> {
    match run {
        CommandRun::NotStarted(e) => Some(failure + ": "@ + e@),
        CommandRun::Finished { success, status: _, stdout: _, stderr } => if success {
            None
        } else {
            Some(failure + ": "@ + trim_ws(lossy_utf8(stderr@)))
        },
    }
}

/// Whether a macOS command succeeded; its failure is reported with the
/// message given.
pub fn mac_command_status(failure: &str, run: &CommandRun) -> (r: Result<(), String>)
    ensures
        match command_failure(failure@, *run) {
            None => r is Ok,
            Some(m) => r matches Err(e) && e@ == m,
        },
{
    match run {
        CommandRun::NotStarted(e) => {
            let mut m = String::from_str(failure);
            m.append(": ");
            m.append(e.as_str());
            Err(m)
        },
        CommandRun::Finished { success, status: _, stdout: _, stderr } => {
            if *success {
                return Ok(());
            }
            let text = utf8_lossy(stderr.as_slice());
            let t = trimmed_string(text.as_str());
            let mut m = String::from_str(failure);
            m.append(": ");
            m.append(t.as_str());
            Err(m)
        },
    }
}

/// What `osascript` is asked to learn whether the Codex App runs.
pub fn running_query_args() -> (r: Vec<String>)
    ensures
        strings_view(r@) == seq!["-e"@, "application id \"com.openai.codex\" is running"@],
{
    let mut v: Vec<String> = Vec::new();
    v.push(String::from_str("-e"));
    v.push(String::from_str("application id \"com.openai.codex\" is running"));
    assert(strings_view(v@) =~= seq!["-e"@, "application id \"com.openai.codex\" is running"@]);
    v
}

/// What `osascript` is asked to make the Codex App quit.
pub fn quit_request_args() -> (r: Vec<String>)
    ensures
        strings_view(r@) == seq!["-e"@, "tell application id \"com.openai.codex\" to quit"@],
{
    let mut v: Vec<String> = Vec::new();
    v.push(String::from_str("-e"));
    v.push(String::from_str("tell application id \"com.openai.codex\" to quit"));
    assert(strings_view(v@) =~= seq!["-e"@, "tell application id \"com.openai.codex\" to quit"@]);
    v
}

/// What `ps` is asked: every process, with its id and command line.
pub fn process_listing_args() -> (r: Vec<String>)
    ensures
        strings_view(r@) == seq!["ax"@, "-o"@, "pid=,args="@],
{
    let mut v: Vec<String> = Vec::new();
    v.push(String::from_str("ax"));
    v.push(String::from_str("-o"));
    v.push(String::from_str("pid=,args="));
    assert(strings_view(v@) =~= seq!["ax"@, "-o"@, "pid=,args="@]);
    v
}

/// Whether the Codex App runs, from the `osascript` query: its trimmed
/// output is `true`.
pub fn codex_app_is_running(run: &CommandRun) -> (r: Result<bool, String>)
    ensures
        match command_failure("检查 Codex App 运行状态失败"@, *run) {
            Some(m) => r matches Err(e) && e@ == m,
            None => run matches CommandRun::Finished { stdout, .. } && r == Ok::<bool, String>(
                trim_ws(lossy_utf8(stdout@)) == "true"@,
            ),
        },
{
    match mac_command_status("检查 Codex App 运行状态失败", run) {
        Err(e) => Err(e),
        Ok(()) => match run {
            CommandRun::Finished { success: _, status: _, stdout, stderr: _ } => {
                let text = utf8_lossy(stdout.as_slice());
                let t = trimmed_string(text.as_str());
                let tc = chars_of(t.as_str());
                let yes = chars_of("true");
                Ok(crate::config_text::vec_eq(&tc, &yes))
            },
            CommandRun::NotStarted(e) => Err(e.clone()),
        },
    }
}

/// The ids of the app's processes, from the `ps` listing, with the app's
/// bundle path as the marker.
pub fn codex_app_pids(marker: &str, run: &CommandRun) -> (r: Result<Vec<u32>, String>)
    ensures
        match command_failure("读取 Codex App 进程失败"@, *run) {
            Some(m) => r matches Err(e) && e@ == m,
            None => run matches CommandRun::Finished { stdout, .. } && (r matches Ok(v) && v@
                == ps_pids(lines(lossy_utf8(stdout@)), marker@)),
        },
{
    match mac_command_status("读取 Codex App 进程失败", run) {
        Err(e) => Err(e),
        Ok(()) => match run {
            CommandRun::Finished { success: _, status: _, stdout, stderr: _ } => {
                let text = utf8_lossy(stdout.as_slice());
                Ok(ps_codex_pids(text.as_str(), marker))
            },
            CommandRun::NotStarted(e) => Err(e.clone()),
        },
    }
}

/// What `kill` is run with to signal the app's processes: nothing to run
/// when none was found, the listing's failure when it failed, else the
/// signal and the ids in decimal.
pub fn signal_command(signal: &str, pids: Result<Vec<u32>, String>) -> (r: Result<
    Option<Vec<String>>,
    String,
>)
    ensures
        match pids {
            Err(e) => r == Err::<Option<Vec<String>>, String>(e),
            Ok(v) => if v@.len() == 0 {
                r == Ok::<Option<Vec<String>>, String>(None)
            } else {
                r matches Ok(Some(args)) && strings_view(args@) == seq![signal@] + v@.map_values(
                    |p: u32| dec_text(p as nat),
                )
            },
        },
{
    match pids {
        Err(e) => Err(e),
        Ok(v) => {
            if v.len() == 0 {
                return Ok(None);
            }
            let mut args: Vec<String> = Vec::new();
            args.push(String::from_str(signal));
            let mut i: usize = 0;
            while i < v.len()
                invariant
                    i <= v@.len(),
                    strings_view(args@) == seq![signal@] + v@.take(i as int).map_values(
                        |p: u32| dec_text(p as nat),
                    ),
                decreases v@.len() - i,
            {
                let d = decimal_chars(v[i]);
                let ghost before = args@;
                args.push(string_of(&d));
                assert(strings_view(args@) =~= strings_view(before).push(d@));
                assert(v@.take(i + 1).map_values(|p: u32| dec_text(p as nat)) =~= v@.take(
                    i as int,
                ).map_values(|p: u32| dec_text(p as nat)).push(dec_text(v@[i as int] as nat)));
                i = i + 1;
            }
            assert(v@.take(v@.len() as int) =~= v@);
            Ok(Some(args))
        },
    }
}

/// What `open` is run with: the bundle when it was found, else the app's
/// bundle id.
pub fn launch_args(app_path: &Option<String>) -> (r: Vec<String>)
    ensures
        strings_view(r@) == match app_path {
            Some(p) => seq![p@],
            None => seq!["-b"@, "com.openai.codex"@],
        },
{
    let mut v: Vec<String> = Vec::new();
    match app_path {
        Some(p) => {
            v.push(p.clone());
            assert(strings_view(v@) =~= seq![p@]);
        },
        None => {
            v.push(String::from_str("-b"));
            v.push(String::from_str("com.openai.codex"));
            assert(strings_view(v@) =~= seq!["-b"@, "com.openai.codex"@]);
        },
    }
    v
}

} // verus!
