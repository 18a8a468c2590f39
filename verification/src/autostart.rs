//! Starting at login, and the key binding script that goes with it.
//!
//! One shortcut in the startup folder runs the program at login. The key binding script is
//! launched by the program, and its process identifier is kept in a file, so that exactly that
//! process can be stopped again.
use crate::config::dirs::{config_dir, in_config_dir, DirEnv};
use crate::config::lifecycle::FileRead;
use crate::paths::{fits_parent, join, joined, parent};
use crate::text::{concat, concat3, decimal, decimal_text, text_of};
use vstd::prelude::*;
use vstd::string::*;

verus! {

/// Name of the shortcut in the startup folder.
pub const FLOW_LNK: &'static str = "flow.lnk";

/// Report of switching autostart on or off.
#[derive(Debug, Clone, PartialEq)]
pub struct AutostartReport {
    /// Path of the shortcut.
    pub shortcut: String,
}

/// A shortcut to create.
#[derive(Debug, Clone, PartialEq)]
pub struct Shortcut {
    /// Where it goes.
    pub link: String,
    /// The program that it runs.
    pub target: String,
    /// The arguments that it runs it with.
    pub args: String,
    /// The directory that it runs it in.
    pub working_dir: Option<String>,
}

/// What came of removing a file.
#[derive(Debug)]
pub enum Removal {
    /// It is gone.
    Removed,
    /// It was not there.
    NotFound,
    /// It could not be removed.
    Failed(String),
}

/// What came of launching the script.
#[derive(Debug)]
pub enum Launch {
    /// The shell refused.
    Failed(String),
    /// The shell gave no process.
    NoProcess,
    /// The identifier of the process, zero where it cannot be had.
    Pid(u32),
}

/// What stopping the script comes down to.
#[derive(Debug, Clone, PartialEq)]
pub enum StopPlan {
    /// There is nothing to stop and nothing to clean up.
    Nothing,
    /// The file with the process identifier cannot be read.
    Fail(String),
    /// The file says nothing of use: remove it.
    CleanUp,
    /// Stop this process, then remove the file.
    Kill(u32),
}

// ---------------------------------------------------------------------------
// Paths
// ---------------------------------------------------------------------------

/// Whether `dir` is the startup folder under the application data directory.
pub open spec fn is_startup_dir(appdata: Seq<char>, dir: Seq<char>) -> bool {
    exists|a: Seq<char>, b: Seq<char>, c: Seq<char>, d: Seq<char>|
        {
            &&& #[trigger] joined(appdata, "Microsoft"@, a)
            &&& #[trigger] joined(a, "Windows"@, b)
            &&& #[trigger] joined(b, "Start Menu"@, c)
            &&& #[trigger] joined(c, "Programs"@, d)
            &&& joined(d, "Startup"@, dir)
        }
}

/// Whether `path` is the shortcut in the startup folder under the application data directory.
pub open spec fn is_shortcut_path(appdata: Seq<char>, path: Seq<char>) -> bool {
    exists|dir: Seq<char>| #[trigger]
        is_startup_dir(appdata, dir) && joined(dir, FLOW_LNK@, path)
}

/// Whether a result is the one for an environment without an application data directory.
pub open spec fn is_appdata_missing<T>(res: Result<T, String>) -> bool {
    res is Err && res->Err_0@ == "%APPDATA% is not set; cannot resolve shell:startup"@
}

/// The folder whose contents are run at login. It needs the application data directory.
pub fn startup_dir(env: &DirEnv) -> (res: Result<String, String>)
    ensures
        match env.appdata {
            Some(appdata) => res is Ok && is_startup_dir(appdata@, res->Ok_0@),
            None => is_appdata_missing(res),
        },
{
    match &env.appdata {
        Some(appdata) => {
            proof {
                reveal_strlit("Microsoft");
                reveal_strlit("Windows");
                reveal_strlit("Start Menu");
                reveal_strlit("Programs");
                reveal_strlit("Startup");
            }
            let a: String = join(appdata.as_str(), "Microsoft");
            let b: String = join(a.as_str(), "Windows");
            let c: String = join(b.as_str(), "Start Menu");
            let d: String = join(c.as_str(), "Programs");
            let dir: String = join(d.as_str(), "Startup");
            assert(joined(appdata@, "Microsoft"@, a@) && joined(a@, "Windows"@, b@) && joined(
                b@,
                "Start Menu"@,
                c@,
            ) && joined(c@, "Programs"@, d@) && joined(d@, "Startup"@, dir@));
            Ok(dir)
        },
        None => Err("%APPDATA% is not set; cannot resolve shell:startup".to_owned()),
    }
}

/// Path of the shortcut in the startup folder.
pub fn shortcut_path(env: &DirEnv) -> (res: Result<String, String>)
    ensures
        match env.appdata {
            Some(appdata) => res is Ok && is_shortcut_path(appdata@, res->Ok_0@),
            None => is_appdata_missing(res),
        },
{
    let dir: String = match startup_dir(env) {
        Ok(dir) => dir,
        Err(e) => return Err(e),
    };
    proof {
        reveal_strlit("flow.lnk");
    }
    Ok(join(dir.as_str(), FLOW_LNK))
}

/// Path of the key binding script in the configuration directory.
pub fn flow_ahk_path(env: &DirEnv) -> (res: String)
    ensures
        in_config_dir(*env, "flow.ahk"@, res@),
{
    proof {
        reveal_strlit("flow.ahk");
    }
    let dir: String = config_dir(env);
    join(dir.as_str(), "flow.ahk")
}

/// Path of the file with the process identifier of the script, in the configuration directory.
pub fn ahk_pidfile_path(env: &DirEnv) -> (res: String)
    ensures
        in_config_dir(*env, "flow.ahk.pid"@, res@),
{
    proof {
        reveal_strlit("flow.ahk.pid");
    }
    let dir: String = config_dir(env);
    join(dir.as_str(), "flow.ahk.pid")
}

/// The path of the running program, or why it is not known.
pub fn flow_exe_path(current_exe: Result<String, String>) -> (res: Result<String, String>)
    ensures
        match current_exe {
            Ok(exe) => res == Ok::<String, String>(exe),
            Err(cause) => res is Err && res->Err_0@ == "cannot determine current executable: "@
                + cause@,
        },
{
    match current_exe {
        Ok(exe) => Ok(exe),
        Err(cause) => Err(concat("cannot determine current executable: ", cause.as_str())),
    }
}

// ---------------------------------------------------------------------------
// Starting at login
// ---------------------------------------------------------------------------

/// The shortcut that starts the program at login, with the key binding script or without it.
///
/// With it the script has to exist; `script_exists` tells whether it does. That is checked
/// first, then that the program knows its own path, then that there is a startup folder.
pub fn enable_autostart(
    ahk: bool,
    env: &DirEnv,
    script_exists: bool,
    current_exe: Result<String, String>,
) -> (res: Result<Shortcut, String>)
    ensures
        if ahk && !script_exists {
            res is Err && exists|script: Seq<char>| #[trigger]
                in_config_dir(*env, "flow.ahk"@, script) && res->Err_0@ == "flow.ahk not found at "@
                    + script + "; run `flow config init --ahk` to create it first"@
        } else if current_exe is Err {
            res is Err && res->Err_0@ == "cannot determine current executable: "@
                + current_exe->Err_0@
        } else if env.appdata is None {
            is_appdata_missing(res)
        } else {
            &&& res is Ok
            &&& is_shortcut_path(env.appdata->Some_0@, res->Ok_0.link@)
            &&& res->Ok_0.target == current_exe->Ok_0
            &&& res->Ok_0.args@ == if ahk {
                "start --ahk"@
            } else {
                "start"@
            }
            &&& fits_parent(current_exe->Ok_0@, text_of(res->Ok_0.working_dir))
        },
{
    if ahk && !script_exists {
        let script: String = flow_ahk_path(env);
        return Err(
            concat3(
                "flow.ahk not found at ",
                script.as_str(),
                "; run `flow config init --ahk` to create it first",
            ),
        );
    }
    let target: String = match flow_exe_path(current_exe) {
        Ok(exe) => exe,
        Err(e) => return Err(e),
    };
    let link: String = match shortcut_path(env) {
        Ok(link) => link,
        Err(e) => return Err(e),
    };
    let working_dir: Option<String> = parent(target.as_str());
    Ok(describe_shortcut(ahk, link, target, working_dir))
}

/// The shortcut at `link` that starts the program `target`, with the key binding script or without
/// it, in a directory where one is known.
pub fn describe_shortcut(
    ahk: bool,
    link: String,
    target: String,
    working_dir: Option<String>,
) -> (res: Shortcut)
    ensures
        res.link == link,
        res.target == target,
        res.working_dir == working_dir,
        res.args@ == if ahk {
            "start --ahk"@
        } else {
            "start"@
        },
{
    let args: &str = if ahk { "start --ahk" } else { "start" };
    Shortcut { link, target, args: args.to_owned(), working_dir }
}

/// The report once a shortcut was created, or why it was not.
pub fn shortcut_created(shortcut: Shortcut, created: Result<(), String>) -> (res: Result<
    AutostartReport,
    String,
>)
    ensures
        match created {
            Ok(()) => res == Ok::<AutostartReport, String>(
                AutostartReport { shortcut: shortcut.link },
            ),
            Err(cause) => res == Err::<AutostartReport, String>(cause),
        },
{
    match created {
        Ok(()) => Ok(AutostartReport { shortcut: shortcut.link }),
        Err(cause) => Err(cause),
    }
}

/// The report of removing the shortcut. One that was not there is no error.
pub fn disable_autostart(env: &DirEnv, removal: Removal) -> (res: Result<AutostartReport, String>)
    ensures
        match env.appdata {
            None => is_appdata_missing(res),
            Some(appdata) => match removal {
                Removal::Failed(cause) => res is Err && exists|link: Seq<char>| #[trigger]
                    is_shortcut_path(appdata@, link) && res->Err_0@ == "failed to remove "@ + link
                        + ": "@ + cause@,
                _ => res is Ok && is_shortcut_path(appdata@, res->Ok_0.shortcut@),
            },
        },
{
    let link: String = match shortcut_path(env) {
        Ok(link) => link,
        Err(e) => return Err(e),
    };
    match removal {
        Removal::Removed => Ok(AutostartReport { shortcut: link }),
        Removal::NotFound => Ok(AutostartReport { shortcut: link }),
        Removal::Failed(cause) => {
            let mut s: String = concat3("failed to remove ", link.as_str(), ": ");
            s.append(cause.as_str());
            Err(s)
        },
    }
}

// ---------------------------------------------------------------------------
// The key binding script
// ---------------------------------------------------------------------------

/// The script to launch. It has to exist.
pub fn ahk_script(env: &DirEnv, found: bool) -> (res: Result<String, String>)
    ensures
        found == (res is Ok),
        res is Ok ==> in_config_dir(*env, "flow.ahk"@, res->Ok_0@),
        res is Err ==> exists|script: Seq<char>| #[trigger]
            in_config_dir(*env, "flow.ahk"@, script) && res->Err_0@ == "flow.ahk not found at "@
                + script + "; run `flow config init --ahk` to create it"@,
{
    let script: String = flow_ahk_path(env);
    if !found {
        return Err(
            concat3(
                "flow.ahk not found at ",
                script.as_str(),
                "; run `flow config init --ahk` to create it",
            ),
        );
    }
    Ok(script)
}

/// The process identifier of the script that was launched, or why there is none.
pub fn spawn_ahk_script(launch: Launch) -> (res: Result<u32, String>)
    ensures
        match launch {
            Launch::Failed(cause) => res is Err && res->Err_0@ == "ShellExecuteExW failed: "@
                + cause@,
            Launch::NoProcess => res is Err && res->Err_0@
                == "ShellExecuteExW returned no process handle (is AutoHotkey installed?)"@,
            Launch::Pid(pid) => if pid == 0 {
                res is Err && res->Err_0@ == "GetProcessId returned 0 after launching flow.ahk"@
            } else {
                res == Ok::<u32, String>(pid)
            },
        },
{
    match launch {
        Launch::Failed(cause) => Err(concat("ShellExecuteExW failed: ", cause.as_str())),
        Launch::NoProcess => Err(
            "ShellExecuteExW returned no process handle (is AutoHotkey installed?)".to_owned(),
        ),
        Launch::Pid(pid) => {
            if pid == 0 {
                return Err("GetProcessId returned 0 after launching flow.ahk".to_owned());
            }
            Ok(pid)
        },
    }
}

/// Contents of the file with the process identifier.
pub fn pidfile_content(pid: u32) -> (res: String)
    ensures
        res@ == decimal(pid as nat),
{
    decimal_text(pid as u64)
}

/// Whether a character is white space: one with the Unicode property `White_Space`.
pub open spec fn is_white_space_char(c: char) -> bool {
    let v = c as u32;
    ||| 0x09 <= v <= 0x0D
    ||| v == 0x20 || v == 0x85 || v == 0xA0 || v == 0x1680
    ||| 0x2000 <= v <= 0x200A
    ||| v == 0x2028 || v == 0x2029 || v == 0x202F || v == 0x205F || v == 0x3000
}

/// The text without white space at its start.
pub open spec fn trimmed_start(s: Seq<char>) -> Seq<char>
    decreases s.len(),
{
    if s.len() > 0 && is_white_space_char(s[0]) { trimmed_start(s.drop_first()) } else { s }
}

/// The text without white space at its end.
pub open spec fn trimmed_end(s: Seq<char>) -> Seq<char>
    decreases s.len(),
{
    if s.len() > 0 && is_white_space_char(s.last()) { trimmed_end(s.drop_last()) } else { s }
}

/// The text without white space at its ends.
pub open spec fn trimmed(s: Seq<char>) -> Seq<char> {
    trimmed_end(trimmed_start(s))
}

/// Whether a character is a decimal digit.
pub open spec fn is_digit(c: char) -> bool {
    '0' <= c <= '9'
}

/// Whether a character is white space.
pub fn is_white_space(c: char) -> (res: bool)
    ensures
        res == is_white_space_char(c),
{
    let v: u32 = c as u32;
    (0x09 <= v && v <= 0x0D) || v == 0x20 || v == 0x85 || v == 0xA0 || v == 0x1680 || (0x2000 <= v
        && v <= 0x200A) || v == 0x2028 || v == 0x2029 || v == 0x202F || v == 0x205F || v == 0x3000
}

/// The text without white space at its ends.
fn trim(s: &str) -> (res: &str)
    ensures
        res@ == trimmed(s@),
{
    let n: usize = s.unicode_len();
    let mut start: usize = 0;
    assert(s@.skip(0) =~= s@);
    while start < n && is_white_space(s.get_char(start))
        invariant
            start <= n,
            n == s@.len(),
            trimmed_start(s@) == trimmed_start(s@.skip(start as int)),
        decreases n - start,
    {
        assert(s@.skip(start as int).drop_first() =~= s@.skip(start + 1));
        start = start + 1;
    }
    let ghost rest = trimmed_start(s@);
    assert(rest == s@.skip(start as int));
    let mut end: usize = n;
    assert(s@.subrange(start as int, n as int) =~= rest);
    while start < end && is_white_space(s.get_char(end - 1))
        invariant
            start <= end <= n,
            n == s@.len(),
            trimmed_end(rest) == trimmed_end(s@.subrange(start as int, end as int)),
        decreases end - start,
    {
        assert(s@.subrange(start as int, end as int).drop_last() =~= s@.subrange(
            start as int,
            end - 1,
        ));
        end = end - 1;
    }
    s.substring_char(start, end)
}

/// Value of a decimal digit.
pub open spec fn digit_value(c: char) -> nat {
    (c as u32 - '0' as u32) as nat
}

/// Value of a text of decimal digits.
pub open spec fn digits_value(s: Seq<char>) -> nat
    decreases s.len(),
{
    if s.len() == 0 {
        0
    } else {
        digits_value(s.drop_last()) * 10 + digit_value(s.last())
    }
}

/// The number that a text denotes: decimal digits, at least one, after an optional plus sign, up
/// to what 32 bits hold.
pub open spec fn pid_of(s: Seq<char>) -> Option<u32> {
    if is_number(without_sign(s)) && digits_value(without_sign(s)) <= u32::MAX {
        Some(digits_value(without_sign(s)) as u32)
    } else {
        None
    }
}

/// A text without a plus sign at its start.
pub open spec fn without_sign(s: Seq<char>) -> Seq<char> {
    if s.len() > 0 && s[0] == '+' { s.drop_first() } else { s }
}

/// Whether a text consists of decimal digits, at least one.
pub open spec fn is_number(s: Seq<char>) -> bool {
    s.len() > 0 && forall|i: int| 0 <= i < s.len() ==> is_digit(#[trigger] s[i])
}

/// More digits do not make a number smaller.
proof fn lemma_digits_grow(s: Seq<char>, n: int)
    requires
        0 <= n <= s.len(),
    ensures
        digits_value(s.take(n)) <= digits_value(s),
    decreases s.len() - n,
{
    if n < s.len() {
        lemma_digits_grow(s, n + 1);
        assert(s.take(n + 1).drop_last() =~= s.take(n));
    } else {
        assert(s.take(n) =~= s);
    }
}

/// Reads a process identifier.
pub fn parse_pid(text: &str) -> (res: Option<u32>)
    ensures
        res == pid_of(text@),
{
    let n: usize = text.unicode_len();
    let start: usize = if n > 0 && text.get_char(0) == '+' { 1 } else { 0 };
    let ghost digits = without_sign(text@);
    assert(digits =~= text@.skip(start as int));
    if start == n {
        return None;
    }
    let mut value: u64 = 0;
    let mut i: usize = start;
    while i < n
        invariant
            start <= i <= n,
            n == text@.len(),
            digits == text@.skip(start as int),
            digits == without_sign(text@),
            value <= u32::MAX,
            value == digits_value(digits.take(i - start)),
            forall|k: int| 0 <= k < i - start ==> is_digit(#[trigger] digits[k]),
        decreases n - i,
    {
        let c: char = text.get_char(i);
        assert(digits[i - start] == c);
        if c < '0' || c > '9' {
            assert(!is_digit(digits[i - start]));
            return None;
        }
        let d: u32 = c as u32 - '0' as u32;
        proof {
            assert(digits.take(i - start + 1).drop_last() =~= digits.take(i - start));
            lemma_digits_grow(digits, i - start + 1);
        }
        value = value * 10 + d as u64;
        if value > u32::MAX as u64 {
            return None;
        }
        i = i + 1;
    }
    assert(digits.take(n - start) =~= digits);
    Some(value as u32)
}

/// Decides how to stop the script, from what came of reading the file with its process
/// identifier.
pub fn stop_ahk_script(env: &DirEnv, pidfile: FileRead) -> (res: StopPlan)
    ensures
        match pidfile {
            FileRead::NotFound => res is Nothing,
            FileRead::Failed(cause) => res is Fail && exists|path: Seq<char>| #[trigger]
                in_config_dir(*env, "flow.ahk.pid"@, path) && res->Fail_0@ == "failed to read "@
                    + path + ": "@ + cause@,
            FileRead::Contents(contents) => match pid_of(trimmed(contents@)) {
                Some(pid) => res == StopPlan::Kill(pid),
                None => res is CleanUp,
            },
        },
{
    match pidfile {
        FileRead::NotFound => StopPlan::Nothing,
        FileRead::Failed(cause) => {
            let path: String = ahk_pidfile_path(env);
            let mut s: String = concat3("failed to read ", path.as_str(), ": ");
            s.append(cause.as_str());
            StopPlan::Fail(s)
        },
        FileRead::Contents(contents) => {
            match parse_pid(trim(contents.as_str())) {
                Some(pid) => StopPlan::Kill(pid),
                None => StopPlan::CleanUp,
            }
        },
    }
}

/// The result of stopping a process: whether it was stopped. `opened` tells whether there was such
/// a process at all, and `terminated` what came of stopping it.
pub fn kill_process(opened: bool, terminated: Result<(), String>) -> (res: Result<bool, String>)
    ensures
        if !opened {
            res == Ok::<bool, String>(false)
        } else {
            match terminated {
                Ok(()) => res == Ok::<bool, String>(true),
                Err(cause) => res is Err && res->Err_0@ == "TerminateProcess failed: "@ + cause@,
            }
        },
{
    if !opened {
        return Ok(false);
    }
    match terminated {
        Ok(()) => Ok(true),
        Err(cause) => Err(concat("TerminateProcess failed: ", cause.as_str())),
    }
}

/// A number in decimal notation consists of digits.
proof fn lemma_decimal_digits(n: nat)
    ensures
        decimal(n).len() > 0,
        forall|i: int| 0 <= i < decimal(n).len() ==> is_digit(#[trigger] decimal(n)[i]),
        digits_value(decimal(n)) == n,
    decreases n,
{
    if n < 10 {
        let s = decimal(n);
        assert(s.drop_last() =~= Seq::<char>::empty());
        assert(digits_value(s.drop_last()) == 0);
    } else {
        lemma_decimal_digits(n / 10);
        let s = decimal(n);
        assert(s.drop_last() =~= decimal(n / 10));
        assert forall|i: int| 0 <= i < s.len() implies is_digit(#[trigger] s[i]) by {
            if i < decimal(n / 10).len() {
                assert(s[i] == decimal(n / 10)[i]);
            }
        }
    }
}

/// Reading a process identifier that was written down gives it back, also where a line end was
/// added: what is stopped is exactly the process that was recorded.
pub proof fn written_pid_reads_back(pid: u32)
    ensures
        pid_of(trimmed(decimal(pid as nat))) == Some(pid),
        pid_of(trimmed(decimal(pid as nat).push('\n'))) == Some(pid),
{
    lemma_decimal_digits(pid as nat);
    let s = decimal(pid as nat);
    assert(is_digit(s[0]));
    assert(is_digit(s[s.len() - 1]));
    assert(without_sign(s) == s);
    assert(trimmed(s) == s);
    let line = s.push('\n');
    assert(line[0] == s[0]);
    assert(trimmed_start(line) == line);
    assert(line.drop_last() =~= s);
    assert(trimmed_end(line) == trimmed_end(s));
}

// ---------------------------------------------------------------------------
// Wide strings
// ---------------------------------------------------------------------------

/// A character in UTF-16: one unit, or a surrogate pair beyond the basic plane.
pub open spec fn utf16_of_char(c: char) -> Seq<u16> {
    let v = c as u32;
    if v < 0x1_0000 {
        seq![v as u16]
    } else {
        seq![(0xD800 + (v - 0x1_0000) / 0x400) as u16, (0xDC00 + (v - 0x1_0000) % 0x400) as u16]
    }
}

/// A text in UTF-16.
pub open spec fn utf16(s: Seq<char>) -> Seq<u16>
    decreases s.len(),
{
    if s.len() == 0 {
        Seq::empty()
    } else {
        utf16(s.drop_last()) + utf16_of_char(s.last())
    }
}

/// A text in UTF-16 with a zero at its end, as the system's functions take it.
#[derive(Debug, Clone, PartialEq)]
pub struct Wide {
    /// The units, the terminating zero among them.
    pub buf: Vec<u16>,
}

impl Wide {
    /// Encodes a text.
    pub fn from_str(s: &str) -> (res: Self)
        ensures
            res.buf@ == utf16(s@).push(0),
    {
        let n: usize = s.unicode_len();
        let mut buf: Vec<u16> = Vec::new();
        let mut i: usize = 0;
        while i < n
            invariant
                i <= n,
                n == s@.len(),
                buf@ == utf16(s@.take(i as int)),
            decreases n - i,
        {
            let c: char = s.get_char(i);
            let v: u32 = c as u32;
            proof {
                assert(s@.take(i + 1).drop_last() =~= s@.take(i as int));
                assert(s@.take(i + 1).last() == c);
                vstd::utf8::char_is_scalar(c);
            }
            let ghost before = buf@;
            if v < 0x1_0000 {
                buf.push(v as u16);
                assert(buf@ =~= before + utf16_of_char(c));
            } else {
                let w: u32 = v - 0x1_0000;
                buf.push((0xD800 + w / 0x400) as u16);
                buf.push((0xDC00 + w % 0x400) as u16);
                assert(buf@ =~= before + utf16_of_char(c));
            }
            i = i + 1;
        }
        assert(s@.take(n as int) =~= s@);
        buf.push(0);
        Wide { buf }
    }
}

/// Every wide string ends with its terminator, and an empty text is nothing else.
pub proof fn wide_strings_are_terminated(s: Seq<char>)
    ensures
        utf16(s).push(0).last() == 0,
        s.len() == 0 ==> utf16(s).push(0) == seq![0u16],
{
    assert(utf16(s).push(0)[utf16(s).len() as int] == 0);
    if s.len() == 0 {
        assert(utf16(s).push(0) =~= seq![0u16]);
    }
}

/// A text without a zero character has no zero in its encoding: the terminator is the first zero,
/// so that the system finds the end of the whole text.
pub proof fn terminator_is_the_first_zero(s: Seq<char>)
    requires
        forall|i: int| 0 <= i < s.len() ==> #[trigger] s[i] != '\0',
    ensures
        forall|i: int| 0 <= i < utf16(s).len() ==> #[trigger] utf16(s)[i] != 0,
    decreases s.len(),
{
    if s.len() > 0 {
        let rest = s.drop_last();
        assert forall|i: int| 0 <= i < rest.len() implies #[trigger] rest[i] != '\0' by {
            assert(rest[i] == s[i]);
        }
        terminator_is_the_first_zero(rest);
        let last = s.last();
        assert(s[s.len() - 1] != '\0');
        vstd::utf8::char_is_scalar(last);
        vstd::utf8::char_u32_cast(last, last as u32);
        assert(last as u32 != 0);
        assert forall|i: int| 0 <= i < utf16(s).len() implies #[trigger] utf16(s)[i] != 0 by {
            if i < utf16(rest).len() {
                assert(utf16(s)[i] == utf16(rest)[i]);
            } else {
                assert(utf16(s)[i] == utf16_of_char(last)[i - utf16(rest).len()]);
            }
        }
    }
}

/// Different texts have different encodings: nothing is lost.
pub proof fn wide_encoding_loses_nothing(a: Seq<char>, b: Seq<char>)
    requires
        utf16(a) == utf16(b),
    ensures
        a == b,
    decreases a.len(),
{
    let (ea, eb) = (utf16(a), utf16(b));
    if a.len() == 0 || b.len() == 0 {
        if a.len() > 0 {
            assert(utf16_of_char(a.last()).len() > 0);
            assert(ea.len() > 0);
        }
        if b.len() > 0 {
            assert(utf16_of_char(b.last()).len() > 0);
            assert(eb.len() > 0);
        }
        assert(a =~= b);
    } else {
        let (ca, cb) = (a.last(), b.last());
        let (ra, rb) = (utf16(a.drop_last()), utf16(b.drop_last()));
        let (ua, ub) = (utf16_of_char(ca), utf16_of_char(cb));
        vstd::utf8::char_is_scalar(ca);
        vstd::utf8::char_is_scalar(cb);
        let n = ea.len() as int;
        assert(ea[n - 1] == ua.last());
        assert(eb[n - 1] == ub.last());
        assert(ua.len() == ub.len());
        if ua.len() == 2 {
            assert(ea[n - 2] == ua[0]);
            assert(eb[n - 2] == ub[0]);
        }
        assert(ca as u32 == cb as u32);
        vstd::utf8::char_u32_cast(ca, ca as u32);
        vstd::utf8::char_u32_cast(cb, cb as u32);
        assert(ca == cb);
        assert(ra =~= ea.take(n - ua.len()));
        assert(rb =~= eb.take(n - ub.len()));
        wide_encoding_loses_nothing(a.drop_last(), b.drop_last());
        assert(a =~= a.drop_last().push(ca));
        assert(b =~= b.drop_last().push(cb));
    }
}

/// The encoding of two texts in a row is the one after the other.
pub proof fn wide_encoding_goes_by_parts(a: Seq<char>, b: Seq<char>)
    ensures
        utf16(a + b) == utf16(a) + utf16(b),
    decreases b.len(),
{
    if b.len() == 0 {
        assert(a + b =~= a);
        assert(utf16(a) + utf16(b) =~= utf16(a));
    } else {
        wide_encoding_goes_by_parts(a, b.drop_last());
        assert((a + b).drop_last() =~= a + b.drop_last());
        assert(utf16(a + b) =~= utf16(a) + utf16(b));
    }
}

/// A character of the basic plane is the unit with its number. Any other is a high and a low
/// surrogate that together hold its number.
pub proof fn characters_in_units(c: char)
    ensures
        ({
            let units = utf16_of_char(c);
            let v = c as u32;
            &&& v < 0x1_0000 ==> units == seq![v as u16]
            &&& v >= 0x1_0000 ==> {
                &&& units.len() == 2
                &&& 0xD800 <= units[0] < 0xDC00
                &&& 0xDC00 <= units[1] < 0xE000
                &&& (units[0] - 0xD800) * 0x400 + (units[1] - 0xDC00) + 0x1_0000 == v
            }
            &&& utf16(seq![c]) == units
        }),
{
    vstd::utf8::char_is_scalar(c);
    assert(seq![c].drop_last() =~= Seq::<char>::empty());
    assert(utf16(seq![c].drop_last()) =~= Seq::<u16>::empty());
    assert(utf16(seq![c]) =~= utf16_of_char(c));
}

/// A number is read digit by digit: a further digit makes it ten times as much and adds its value,
/// as far as thirty-two bits go, and anything else makes it no number.
pub proof fn numbers_are_read_digit_by_digit(s: Seq<char>, c: char)
    ensures
        pid_of(Seq::<char>::empty()) is None,
        pid_of(seq!['+']) is None,
        '0' <= c <= '9' ==> pid_of(seq![c]) == Some((c as u32 - 48) as u32),
        pid_of(s) is Some ==> pid_of(s.push(c)) == if '0' <= c <= '9' && 10 * pid_of(s)->Some_0 + (
        c as u32 - 48) <= u32::MAX {
            Some((10 * pid_of(s)->Some_0 + (c as u32 - 48)) as u32)
        } else {
            None
        },
{
    assert(without_sign(seq!['+']) =~= Seq::<char>::empty());
    assert(seq![c].drop_last() =~= Seq::<char>::empty());
    if '0' <= c <= '9' {
        assert(without_sign(seq![c]) == seq![c]);
        assert(digits_value(seq![c].drop_last()) == 0);
    }
    if pid_of(s) is Some {
        let digits = without_sign(s);
        let more = without_sign(s.push(c));
        assert(more =~= digits.push(c));
        assert(more.drop_last() =~= digits);
        assert(more.last() == c);
        if is_digit(c) {
            assert forall|i: int| 0 <= i < more.len() implies is_digit(#[trigger] more[i]) by {
                if i < digits.len() {
                    assert(more[i] == digits[i]);
                }
            }
        } else {
            assert(!is_digit(more[more.len() - 1]));
        }
    }
}

/// A plus sign before a number does not matter, and no other sign is accepted.
pub proof fn only_a_plus_sign_is_accepted(s: Seq<char>, c: char)
    requires
        s.len() > 0,
        '0' <= s[0] <= '9',
    ensures
        pid_of(seq!['+'] + s) == pid_of(s),
        c != '+' && !('0' <= c <= '9') ==> pid_of(seq![c] + s) is None,
{
    assert(without_sign(seq!['+'] + s) =~= s);
    if c != '+' && !('0' <= c <= '9') {
        let t = seq![c] + s;
        assert(t[0] == c);
        assert(!is_digit(t[0]));
    }
}

/// Trimming takes white space from both ends and nothing else: what is left begins and ends with
/// something else, or is empty.
pub proof fn trimming_takes_white_space_from_both_ends(s: Seq<char>)
    ensures
        exists|i: int, j: int|
            {
                &&& 0 <= i <= j <= s.len()
                &&& trimmed(s) == #[trigger] s.subrange(i, j)
                &&& forall|k: int| 0 <= k < i ==> is_white_space_char(#[trigger] s[k])
                &&& forall|k: int| j <= k < s.len() ==> is_white_space_char(#[trigger] s[k])
                &&& i < j ==> !is_white_space_char(s[i]) && !is_white_space_char(s[j - 1])
            },
{
    let i = lemma_trimmed_start(s);
    let rest = trimmed_start(s);
    let n = lemma_trimmed_end(rest);
    let j = i + n;
    assert(trimmed(s) =~= s.subrange(i, j));
    assert forall|k: int| j <= k < s.len() implies is_white_space_char(#[trigger] s[k]) by {
        assert(rest[k - i] == s[k]);
    }
    if i < j {
        assert(rest[0] == s[i]);
        assert(rest[n - 1] == s[j - 1]);
    }
}

proof fn lemma_trimmed_start(s: Seq<char>) -> (i: int)
    ensures
        0 <= i <= s.len(),
        trimmed_start(s) == s.skip(i),
        forall|k: int| 0 <= k < i ==> is_white_space_char(#[trigger] s[k]),
        i < s.len() ==> !is_white_space_char(s[i]),
    decreases s.len(),
{
    if s.len() > 0 && is_white_space_char(s[0]) {
        let rest = s.drop_first();
        let i = lemma_trimmed_start(rest) + 1;
        assert(rest.skip(i - 1) =~= s.skip(i));
        assert forall|k: int| 0 <= k < i implies is_white_space_char(#[trigger] s[k]) by {
            if k > 0 {
                assert(rest[k - 1] == s[k]);
            }
        }
        i
    } else {
        assert(s.skip(0) =~= s);
        0
    }
}

proof fn lemma_trimmed_end(s: Seq<char>) -> (n: int)
    ensures
        0 <= n <= s.len(),
        trimmed_end(s) == s.take(n),
        forall|k: int| n <= k < s.len() ==> is_white_space_char(#[trigger] s[k]),
        n > 0 ==> !is_white_space_char(s[n - 1]),
    decreases s.len(),
{
    if s.len() > 0 && is_white_space_char(s.last()) {
        let rest = s.drop_last();
        let n = lemma_trimmed_end(rest);
        assert(rest.take(n) =~= s.take(n));
        assert forall|k: int| n <= k < s.len() implies is_white_space_char(#[trigger] s[k]) by {
            if k < rest.len() {
                assert(rest[k] == s[k]);
            }
        }
        n
    } else {
        assert(s.take(s.len() as int) =~= s);
        s.len() as int
    }
}

/// The characters that are white space, by their numbers.
pub proof fn white_space_by_number(c: char)
    ensures
        is_white_space_char(c) <==> {
            let v = c as u32;
            v == 9 || v == 10 || v == 11 || v == 12 || v == 13 || v == 32 || v == 133 || v == 160
                || v == 5760 || (8192 <= v && v <= 8202) || v == 8232 || v == 8233 || v == 8239 || v
                == 8287 || v == 12288
        },
{
}

/// The shortcut is `flow.lnk` in the startup folder of the start menu.
pub proof fn shortcut_lies_in_the_startup_folder(appdata: Seq<char>, path: Seq<char>)
    requires
        is_shortcut_path(appdata, path),
    ensures
        exists|a: Seq<char>, b: Seq<char>, c: Seq<char>, d: Seq<char>, dir: Seq<char>|
            {
                &&& #[trigger] joined(appdata, "Microsoft"@, a)
                &&& #[trigger] joined(a, "Windows"@, b)
                &&& #[trigger] joined(b, "Start Menu"@, c)
                &&& #[trigger] joined(c, "Programs"@, d)
                &&& #[trigger] joined(d, "Startup"@, dir)
                &&& joined(dir, "flow.lnk"@, path)
            },
{
    let dir = choose|dir: Seq<char>| #[trigger]
        is_startup_dir(appdata, dir) && joined(dir, FLOW_LNK@, path);
    let (a, b, c, d) = choose|a: Seq<char>, b: Seq<char>, c: Seq<char>, d: Seq<char>|
        {
            &&& #[trigger] joined(appdata, "Microsoft"@, a)
            &&& #[trigger] joined(a, "Windows"@, b)
            &&& #[trigger] joined(b, "Start Menu"@, c)
            &&& #[trigger] joined(c, "Programs"@, d)
            &&& joined(d, "Startup"@, dir)
        };
    assert(joined(appdata, "Microsoft"@, a) && joined(a, "Windows"@, b) && joined(
        b,
        "Start Menu"@,
        c,
    ) && joined(c, "Programs"@, d) && joined(d, "Startup"@, dir));
}

/// Without an application data directory there is no startup folder, and the message says so.
pub proof fn startup_folder_needs_appdata<T>(res: Result<T, String>)
    requires
        is_appdata_missing(res),
    ensures
        res is Err,
        res->Err_0@ == "%APPDATA% is not set; cannot resolve shell:startup"@,
{
}

} // verus!
