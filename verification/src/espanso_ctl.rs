//! Everything this app says to espanso, decided here and carried out by the caller.
//!
//! Two channels, and they are not interchangeable. Ordinary commands run `espansod.exe` as a
//! child process; expansions go down espanso's own named pipe as one line of JSON. Starting
//! processes, writing to the pipe and waiting on the clock happen outside this library: what is
//! here is which command to run, how to read its answer, what line to write, how long each wait
//! may take, and — for start-up — what to try next after each answer.

use vstd::prelude::*;
use crate::text::{trim_spec, trim_end_spec, char_is_whitespace, chars_of, string_of_range, owned,
    push_str, trim, is_whitespace, decimal, decimal_spec, lemma_trim_end_take};
use crate::i18n::{fill, fill_spec, args_view};
use crate::strings::Strings;

verus! {

// ---------------------------------------------------------------------------------------------
// Results of a command
// ---------------------------------------------------------------------------------------------

/// What one `espansod` command answered.
pub struct CtlResult {
    pub success: bool,
    pub stdout: String,
    pub stderr: String,
}

/// The detail worth showing beside an error banner: the trimmed error output, or the trimmed
/// standard output when the error output is blank.
pub open spec fn detail_spec(stdout: Seq<char>, stderr: Seq<char>) -> Seq<char> {
    if trim_spec(stderr).len() > 0 { trim_spec(stderr) } else { trim_spec(stdout) }
}

impl CtlResult {
    /// The technical detail worth showing (collapsed) alongside a friendly error banner.
    pub fn detail(&self) -> (r: String)
        ensures
            r@ == detail_spec(self.stdout@, self.stderr@),
    {
        let err = trim(self.stderr.as_str());
        if err.as_str().is_empty() {
            trim(self.stdout.as_str())
        } else {
            err
        }
    }
}

/// How long a single command may take before it is killed, in milliseconds.
pub const CTL_TIMEOUT_MS: u64 = 4000;

/// The whole seconds a budget of `budget_ms` milliseconds amounts to, never less than one.
pub open spec fn budget_secs(budget_ms: u64) -> nat {
    if budget_ms / 1000 >= 1 { (budget_ms / 1000) as nat } else { 1 }
}

/// The answer given for a command that had to be killed: failed, with a message that names the
/// budget the command actually had.
pub fn timed_out(budget_ms: u64, t: &Strings) -> (r: CtlResult)
    ensures
        !r.success,
        r.stdout@ == Seq::<char>::empty(),
        r.stderr@ == fill_spec(t.err_espansod_timeout@, seq![("n"@, decimal_spec(budget_secs(budget_ms)))]),
{
    let secs: u64 = if budget_ms / 1000 >= 1 { budget_ms / 1000 } else { 1 };
    let n = decimal(secs);
    let args = [("n", n.as_str())];
    let stderr = fill(t.err_espansod_timeout, &args);
    assert(args_view(args@) =~= seq![("n"@, decimal_spec(budget_secs(budget_ms)))]);
    CtlResult { success: false, stdout: String::new(), stderr }
}

/// How often a running command is looked at.
pub const RUN_POLL_MS: u64 = 30;

/// What to do at one look at a running command.
#[derive(Debug, Clone, Copy, PartialEq, Eq, Structural)]
pub enum RunStep {
    /// It has exited: read what it printed, waiting at most this long for the pipes.
    Collect { read_for_ms: u64 },
    /// The deadline has come and it is still running: kill it and answer that it timed out.
    Kill,
    /// Still running, still in time: look again after this long.
    Poll { after_ms: u64 },
}

/// One look at a command run with a deadline, at `now` (milliseconds on the caller's clock):
/// collect once it has exited, with whatever time is left for its output; kill it once the
/// deadline has come; otherwise look again shortly.
pub fn run_step(exited: bool, now: u64, deadline: u64) -> (r: RunStep)
    ensures
        exited ==> (r == (RunStep::Collect { read_for_ms: (if now <= deadline { (deadline - now) as u64 } else { 0 }) })),
        !exited && now >= deadline ==> (r == RunStep::Kill),
        !exited && now < deadline ==> (r == (RunStep::Poll { after_ms: RUN_POLL_MS })),
{
    if exited {
        RunStep::Collect { read_for_ms: deadline.saturating_sub(now) }
    } else if now >= deadline {
        RunStep::Kill
    } else {
        RunStep::Poll { after_ms: RUN_POLL_MS }
    }
}

/// When a poll inside a timed wait must give up: its own ceiling or the wait's deadline, whichever
/// comes first (all times in milliseconds).
pub fn poll_deadline(now: u64, deadline: u64) -> (r: u64)
    ensures
        r <= deadline,
        r <= now + CTL_TIMEOUT_MS,
        r == deadline || r == now + CTL_TIMEOUT_MS,
{
    if now <= deadline && deadline - now <= CTL_TIMEOUT_MS {
        deadline
    } else if now > deadline {
        deadline
    } else {
        now + CTL_TIMEOUT_MS
    }
}

/// How long to pause before the next poll of a timed wait, or `None` when the deadline has come:
/// at most 300 ms, and never past the deadline.
pub fn pause_before_next_poll(now: u64, deadline: u64) -> (r: Option<u64>)
    ensures
        now >= deadline <==> r is None,
        r matches Some(p) ==> p > 0 && p <= 300 && now + p <= deadline
            && (p == 300 || now + p == deadline),
{
    if now >= deadline {
        None
    } else if deadline - now < 300 {
        Some(deadline - now)
    } else {
        Some(300)
    }
}

// ---------------------------------------------------------------------------------------------
// Commands
// ---------------------------------------------------------------------------------------------

/// One run of `espansod` with these arguments. A bounded run is waited on (for at most
/// [`CTL_TIMEOUT_MS`]) and its answer read; a detached one is launched and left to itself.
pub struct Invocation {
    pub args: Vec<String>,
    pub detached: bool,
}

/// The arguments of an invocation, as plain values.
pub open spec fn args_of(inv: Invocation) -> Seq<Seq<char>> {
    inv.args@.map_values(|s: String| s@)
}

fn invocation(args: &[&str], detached: bool) -> (r: Invocation)
    ensures
        args_of(r) == args@.map_values(|s: &str| s@),
        r.detached == detached,
{
    let mut v: Vec<String> = Vec::new();
    let mut i: usize = 0;
    while i < args.len()
        invariant
            i <= args@.len(),
            v@.map_values(|s: String| s@) == args@.subrange(0, i as int).map_values(|s: &str| s@),
        decreases args.len() - i,
    {
        v.push(owned(args[i]));
        assert(args@.subrange(0, i + 1).map_values(|s: &str| s@)
            =~= args@.subrange(0, i as int).map_values(|s: &str| s@).push(args@[i as int]@));
        assert(v@.map_values(|s: String| s@) =~= args@.subrange(0, i + 1).map_values(|s: &str| s@));
        i += 1;
    }
    assert(args@.subrange(0, args@.len() as int) =~= args@);
    Invocation { args: v, detached }
}

/// The ways of starting espanso, tried in this order: the registered service, the same service
/// without needing it registered, and the daemon in the launched process itself. None of them
/// draws anything on screen.
pub open spec fn start_plan(k: nat) -> Seq<Seq<char>> {
    if k == 0 {
        seq!["service"@, "start"@]
    } else if k == 1 {
        seq!["service"@, "start"@, "--unmanaged"@]
    } else {
        seq!["daemon"@]
    }
}

/// The number of ways of starting espanso.
pub const START_ATTEMPTS: u8 = 3;

fn start_invocation(k: u8) -> (r: Invocation)
    requires
        k < START_ATTEMPTS,
    ensures
        args_of(r) == start_plan(k as nat),
        r.detached,
{
    if k == 0 {
        let a = ["service", "start"];
        let r = invocation(&a, true);
        assert(a@.map_values(|s: &str| s@) =~= start_plan(0));
        r
    } else if k == 1 {
        let a = ["service", "start", "--unmanaged"];
        let r = invocation(&a, true);
        assert(a@.map_values(|s: &str| s@) =~= start_plan(1));
        r
    } else {
        let a = ["daemon"];
        let r = invocation(&a, true);
        assert(a@.map_values(|s: &str| s@) =~= start_plan(2));
        r
    }
}

// ---------------------------------------------------------------------------------------------
// The expansion request
// ---------------------------------------------------------------------------------------------

/// A lowercase hexadecimal digit.
pub open spec fn hex_digit(d: u32) -> char {
    if d < 10 { (d + 48) as char } else { (d + 87) as char }
}

/// How JSON writes one character inside a string: quote and backslash escaped, the control
/// characters with a short escape where there is one and `\u00XX` otherwise, everything else as is.
pub open spec fn json_char(c: char) -> Seq<char> {
    if c == '"' {
        seq!['\\', '"']
    } else if c == '\\' {
        seq!['\\', '\\']
    } else if c == '\x08' {
        seq!['\\', 'b']
    } else if c == '\x0C' {
        seq!['\\', 'f']
    } else if c == '\n' {
        seq!['\\', 'n']
    } else if c == '\r' {
        seq!['\\', 'r']
    } else if c == '\t' {
        seq!['\\', 't']
    } else if (c as u32) < 32 {
        seq!['\\', 'u', '0', '0', hex_digit((c as u32) / 16), hex_digit((c as u32) % 16)]
    } else {
        seq![c]
    }
}

/// The characters of `s`, each written as JSON writes it inside a string.
pub open spec fn json_escaped(s: Seq<char>) -> Seq<char>
    decreases s.len(),
{
    if s.len() == 0 { Seq::empty() } else { json_escaped(s.drop_last()) + json_char(s.last()) }
}

/// `s` as a JSON string literal.
pub open spec fn json_string(s: Seq<char>) -> Seq<char> {
    seq!['"'] + json_escaped(s) + seq!['"']
}

/// `serde_json::to_string` of a string.
///
/// Trusted: serde_json writes a string as a quoted literal with exactly the escapes of
/// [`json_char`] (its `ESCAPE` table and `write_char_escape`), and serialising a `str` cannot fail.
#[verifier::external_body]
fn json_quote(s: &str) -> (r: String)
    ensures
        r@ == json_string(s@),
{
    serde_json::to_string(s).unwrap_or_default()
}

/// The line that asks espanso's worker to expand `trigger`: espanso's own externally tagged
/// request, newline terminated, its keys in the order serde_json writes them.
pub open spec fn request_line(trigger: Seq<char>) -> Seq<char> {
    "{\"RequestMatchExpansion\":{\"args\":{},\"trigger\":"@ + json_string(trigger) + "}}\n"@
}

/// An expansion request: the line for espanso's pipe, and the command that does the same job
/// when the pipe cannot be opened (espanso may be mid-restart).
pub struct Expansion {
    pub pipe_line: String,
    pub fallback: Invocation,
}

/// How many times the pipe is tried before the command takes over: a named pipe takes one
/// connection at a time, so a "busy" is worth asking again a moment later.
pub const PIPE_ATTEMPTS: u8 = 3;

/// How long to wait after a failed attempt to open the pipe.
pub const PIPE_RETRY_MS: u64 = 8;

/// After the pipe could not be opened for the `failed`-th time (counting from 1), whether to try
/// it again. The wait of [`PIPE_RETRY_MS`] comes first either way.
pub fn pipe_try_again(failed: u8) -> (r: bool)
    requires
        failed >= 1,
    ensures
        r == (failed < PIPE_ATTEMPTS),
{
    failed < PIPE_ATTEMPTS
}

// ---------------------------------------------------------------------------------------------
// The controller
// ---------------------------------------------------------------------------------------------

/// Talks to the `espansod.exe` at `exe_path`.
pub struct EspansoCtl {
    exe_path: String,
}

/// The last whitespace-separated word of `t`, when `t` does not end in whitespace.
pub open spec fn word_tail(t: Seq<char>) -> Seq<char>
    decreases t.len(),
{
    if t.len() == 0 || char_is_whitespace(t.last()) {
        Seq::empty()
    } else {
        word_tail(t.drop_last()).push(t.last())
    }
}

/// What `split_whitespace().last()` finds: the last word of `s`, empty when there is none.
pub open spec fn last_word(s: Seq<char>) -> Seq<char> {
    word_tail(trim_end_spec(s))
}

/// Where start-up stands.
#[derive(Debug, Clone, Copy, PartialEq, Eq, Structural)]
pub enum Startup {
    /// Nothing asked yet.
    Begin,
    /// Waiting to hear whether `espansod.exe` is there.
    CheckingExe,
    /// Waiting for the first `service status`.
    CheckingStatus,
    /// Waiting to hear whether start attempt `k` could be launched.
    Launching(u8),
    /// Waiting to hear whether espanso answered after start attempt `k`.
    Waiting(u8),
    /// Done; the last action said how it ended.
    Finished,
}

/// What the caller found out since the last action.
pub enum StartEvent {
    /// Start-up begins.
    Go,
    /// Whether `espansod.exe` exists.
    ExeExists(bool),
    /// Whether `service status` said it is running.
    Running(bool),
    /// Whether a start command could be launched: `None` if so, the error otherwise.
    Launched(Option<String>),
    /// Whether espanso answered within the wait.
    Answered(bool),
}

/// What the caller should do next.
pub enum StartAction {
    CheckExe,
    CheckStatus,
    Launch(Invocation),
    /// Poll `service status` until it answers or this many seconds pass.
    WaitRunning(u64),
    Finish(Result<(), String>),
}

/// How long each start attempt is given to take effect, in seconds.
pub const START_WAIT_SECS: u64 = 6;

/// A start action as plain values.
pub enum StartActionV {
    CheckExe,
    CheckStatus,
    Launch(Seq<Seq<char>>),
    WaitRunning(nat),
    Finish(Result<(), Seq<char>>),
}

/// The plain value of a start action.
pub open spec fn action_view(a: StartAction) -> StartActionV {
    match a {
        StartAction::CheckExe => StartActionV::CheckExe,
        StartAction::CheckStatus => StartActionV::CheckStatus,
        StartAction::Launch(inv) => StartActionV::Launch(args_of(inv)),
        StartAction::WaitRunning(s) => StartActionV::WaitRunning(s as nat),
        StartAction::Finish(r) => StartActionV::Finish(match r {
            Ok(()) => Ok(()),
            Err(e) => Err(e@),
        }),
    }
}

/// One step of start-up: from where it stands and what was just found out, where it stands next
/// and what to do. An answer to a question that was not asked ends it.
pub open spec fn startup_step(exe_path: Seq<char>, state: Startup, event: StartEvent, t: Strings) -> (Startup, StartActionV) {
    let no_response = (Startup::Finished, StartActionV::Finish(Err(t.err_espanso_no_response@)));
    match state {
        Startup::Begin => match event {
            StartEvent::Go => (Startup::CheckingExe, StartActionV::CheckExe),
            _ => no_response,
        },
        Startup::CheckingExe => match event {
            StartEvent::ExeExists(false) => (Startup::Finished, StartActionV::Finish(Err(
                fill_spec(t.err_espansod_missing@, seq![("path"@, exe_path)])))),
            StartEvent::ExeExists(true) => (Startup::CheckingStatus, StartActionV::CheckStatus),
            _ => no_response,
        },
        Startup::CheckingStatus => match event {
            StartEvent::Running(true) => (Startup::Finished, StartActionV::Finish(Ok(()))),
            StartEvent::Running(false) => (Startup::Launching(0), StartActionV::Launch(start_plan(0))),
            _ => no_response,
        },
        Startup::Launching(k) => match event {
            StartEvent::Launched(Some(e)) => if k + 1 >= START_ATTEMPTS {
                (Startup::Finished, StartActionV::Finish(Err(fill_spec(t.err_espanso_start@, seq![("err"@, e@)]))))
            } else {
                (Startup::Waiting(k), StartActionV::WaitRunning(START_WAIT_SECS as nat))
            },
            StartEvent::Launched(None) => (Startup::Waiting(k), StartActionV::WaitRunning(START_WAIT_SECS as nat)),
            _ => no_response,
        },
        Startup::Waiting(k) => match event {
            StartEvent::Answered(true) => (Startup::Finished, StartActionV::Finish(Ok(()))),
            StartEvent::Answered(false) => if k + 1 < START_ATTEMPTS {
                (Startup::Launching((k + 1) as u8), StartActionV::Launch(start_plan((k + 1) as nat)))
            } else {
                no_response
            },
            _ => no_response,
        },
        Startup::Finished => no_response,
    }
}

impl EspansoCtl {
    /// `exe_path` names `espansod.exe`, which is expected to sit next to this app.
    pub fn new(exe_path: String) -> (r: EspansoCtl)
        ensures
            r.exe_path() == exe_path@,
    {
        EspansoCtl { exe_path }
    }

    /// The path this controller was made with.
    pub closed spec fn exe_path(&self) -> Seq<char> {
        self.exe_path@
    }

    /// The command that asks whether espanso is running.
    pub fn service_status(&self) -> (r: Invocation)
        ensures
            args_of(r) == seq!["service"@, "status"@],
            !r.detached,
    {
        let a = ["service", "status"];
        let r = invocation(&a, false);
        assert(a@.map_values(|s: &str| s@) =~= seq!["service"@, "status"@]);
        r
    }

    /// Whether espanso is running, from the answer of [`EspansoCtl::service_status`] (`None` when
    /// the command could not be run at all).
    pub fn is_running(&self, status: Option<&CtlResult>) -> (r: bool)
        ensures
            r == (status matches Some(s) && s.success),
    {
        match status {
            Some(s) => s.success,
            None => false,
        }
    }

    /// The command that enables espanso.
    pub fn cmd_enable(&self) -> (r: Invocation)
        ensures
            args_of(r) == seq!["cmd"@, "enable"@],
            !r.detached,
    {
        let a = ["cmd", "enable"];
        let r = invocation(&a, false);
        assert(a@.map_values(|s: &str| s@) =~= seq!["cmd"@, "enable"@]);
        r
    }

    /// The command that disables espanso.
    pub fn cmd_disable(&self) -> (r: Invocation)
        ensures
            args_of(r) == seq!["cmd"@, "disable"@],
            !r.detached,
    {
        let a = ["cmd", "disable"];
        let r = invocation(&a, false);
        assert(a@.map_values(|s: &str| s@) =~= seq!["cmd"@, "disable"@]);
        r
    }

    /// The command that stops the daemon, launched detached: its only caller is Quit, which never
    /// reads the answer, and a bounded run would kill a slow-starting stop before it did its job.
    pub fn service_stop_detached(&self) -> (r: Invocation)
        ensures
            args_of(r) == seq!["service"@, "stop"@],
            r.detached,
    {
        let a = ["service", "stop"];
        let r = invocation(&a, true);
        assert(a@.map_values(|s: &str| s@) =~= seq!["service"@, "stop"@]);
        r
    }

    /// The command that makes espanso reload its configuration, launched detached.
    pub fn service_restart(&self) -> (r: Invocation)
        ensures
            args_of(r) == seq!["service"@, "restart"@],
            r.detached,
    {
        let a = ["service", "restart"];
        let r = invocation(&a, true);
        assert(a@.map_values(|s: &str| s@) =~= seq!["service"@, "restart"@]);
        r
    }

    /// How a restart ended, from whether espanso answered again within the wait.
    pub fn restart_and_confirm(&self, confirmed: bool, t: &Strings) -> (r: Result<(), String>)
        ensures
            confirmed ==> r is Ok,
            !confirmed ==> (r matches Err(e) && e@ == t.err_restart_unconfirmed@),
    {
        if confirmed { Ok(()) } else { Err(owned(t.err_restart_unconfirmed)) }
    }

    /// Asks espanso to expand `trigger` wherever the keyboard focus is: the line for its worker's
    /// pipe, and `match exec --trigger` as the fallback.
    pub fn match_exec(&self, trigger: &str) -> (r: Expansion)
        ensures
            r.pipe_line@ == request_line(trigger@),
            args_of(r.fallback) == seq!["match"@, "exec"@, "--trigger"@, trigger@],
            r.fallback.detached,
    {
        let mut line = owned("{\"RequestMatchExpansion\":{\"args\":{},\"trigger\":");
        let quoted = json_quote(trigger);
        push_str(&mut line, quoted.as_str());
        push_str(&mut line, "}}\n");
        let a = ["match", "exec", "--trigger", trigger];
        let fallback = invocation(&a, true);
        assert(a@.map_values(|s: &str| s@) =~= seq!["match"@, "exec"@, "--trigger"@, trigger@]);
        Expansion { pipe_line: line, fallback }
    }

    /// The command that asks espanso for its version.
    pub fn version_query(&self) -> (r: Invocation)
        ensures
            args_of(r) == seq!["--version"@],
            !r.detached,
    {
        let a = ["--version"];
        let r = invocation(&a, false);
        assert(a@.map_values(|s: &str| s@) =~= seq!["--version"@]);
        r
    }

    /// The version of espanso, for display, from the answer of [`EspansoCtl::version_query`]: the
    /// last word it printed, or `None` if the command failed or printed nothing.
    pub fn version(&self, answer: Option<&CtlResult>) -> (r: Option<String>)
        ensures
            r is Some <==> (answer matches Some(a) && a.success && last_word(a.stdout@).len() > 0),
            r matches Some(v) ==> (answer matches Some(a) && v@ == last_word(a.stdout@)),
    {
        let a = match answer {
            Some(a) => a,
            None => return None,
        };
        if !a.success {
            return None;
        }
        let v = chars_of(a.stdout.as_str());
        let n = v.len();
        let mut hi: usize = n;
        assert(v@.subrange(0, n as int) =~= v@);
        while hi > 0 && is_whitespace(v[hi - 1])
            invariant
                hi <= n == v@.len(),
                trim_end_spec(v@) == trim_end_spec(v@.subrange(0, hi as int)),
            decreases hi,
        {
            proof {
                lemma_trim_end_take(v@, hi as int);
            }
            hi -= 1;
        }
        assert(trim_end_spec(v@.subrange(0, hi as int)) == v@.subrange(0, hi as int)) by {
            if hi > 0 {
                assert(v@.subrange(0, hi as int).last() == v@[hi - 1]);
            }
        }
        let mut lo: usize = hi;
        assert(v@.subrange(hi as int, hi as int) =~= Seq::<char>::empty());
        while lo > 0 && !is_whitespace(v[lo - 1])
            invariant
                lo <= hi <= n == v@.len(),
                word_tail(v@.subrange(0, hi as int)) == word_tail(v@.subrange(0, lo as int)) + v@.subrange(lo as int, hi as int),
            decreases lo,
        {
            let ghost w = v@.subrange(0, lo as int);
            assert(w.drop_last() =~= v@.subrange(0, lo - 1));
            assert(w.last() == v@[lo - 1]);
            assert(v@.subrange(lo - 1, hi as int) =~= seq![v@[lo - 1]] + v@.subrange(lo as int, hi as int));
            assert(word_tail(v@.subrange(0, lo - 1)).push(v@[lo - 1]) + v@.subrange(lo as int, hi as int)
                =~= word_tail(v@.subrange(0, lo - 1)) + v@.subrange(lo - 1, hi as int));
            lo -= 1;
        }
        assert(word_tail(v@.subrange(0, lo as int)) == Seq::<char>::empty()) by {
            if lo > 0 {
                assert(v@.subrange(0, lo as int).last() == v@[lo - 1]);
            }
        }
        assert(Seq::<char>::empty() + v@.subrange(lo as int, hi as int) =~= v@.subrange(lo as int, hi as int));
        if lo == hi {
            return None;
        }
        Some(string_of_range(v.as_slice(), lo, hi))
    }

    /// The command that asks espanso where its runtime folder is.
    pub fn runtime_query(&self) -> (r: Invocation)
        ensures
            args_of(r) == seq!["path"@, "runtime"@],
            !r.detached,
    {
        let a = ["path", "runtime"];
        let r = invocation(&a, false);
        assert(a@.map_values(|s: &str| s@) =~= seq!["path"@, "runtime"@]);
        r
    }

    /// Where espanso itself says its runtime folder is, from the answer of
    /// [`EspansoCtl::runtime_query`]: the trimmed output, or `None` if the command failed or
    /// printed nothing. Asked, not guessed: anything written to the wrong runtime folder is
    /// ignored in silence.
    pub fn runtime_dir(&self, answer: Option<&CtlResult>) -> (r: Option<String>)
        ensures
            r is Some <==> (answer matches Some(a) && a.success && trim_spec(a.stdout@).len() > 0),
            r matches Some(p) ==> (answer matches Some(a) && p@ == trim_spec(a.stdout@)),
    {
        let a = match answer {
            Some(a) => a,
            None => return None,
        };
        if !a.success {
            return None;
        }
        let path = trim(a.stdout.as_str());
        if path.as_str().is_empty() { None } else { Some(path) }
    }

    /// One step of the start-up sequence that makes sure the daemon is running: from where it
    /// stands and what the caller just found out, where it stands next and what to do.
    ///
    /// First the executable must exist, then `service status` is asked; if espanso is not running,
    /// each way of [`start_plan`] is launched in turn and given [`START_WAIT_SECS`] to answer. Only
    /// a failure to launch the last one is reported as such; if none answers, the sequence ends
    /// with the "no response" message.
    pub fn ensure_running(&self, state: Startup, event: StartEvent, t: &Strings) -> (r: (Startup, StartAction))
        ensures
            (r.0, action_view(r.1)) == startup_step(self.exe_path(), state, event, *t),
    {
        let no_response = StartAction::Finish(Err(owned(t.err_espanso_no_response)));
        match state {
            Startup::Begin => match event {
                StartEvent::Go => (Startup::CheckingExe, StartAction::CheckExe),
                _ => (Startup::Finished, no_response),
            },
            Startup::CheckingExe => match event {
                StartEvent::ExeExists(false) => {
                    let args = [("path", self.exe_path.as_str())];
                    let msg = fill(t.err_espansod_missing, &args);
                    assert(args_view(args@) =~= seq![("path"@, self.exe_path())]);
                    (Startup::Finished, StartAction::Finish(Err(msg)))
                },
                StartEvent::ExeExists(true) => (Startup::CheckingStatus, StartAction::CheckStatus),
                _ => (Startup::Finished, no_response),
            },
            Startup::CheckingStatus => match event {
                StartEvent::Running(true) => (Startup::Finished, StartAction::Finish(Ok(()))),
                StartEvent::Running(false) => (Startup::Launching(0), StartAction::Launch(start_invocation(0))),
                _ => (Startup::Finished, no_response),
            },
            Startup::Launching(k) => match event {
                StartEvent::Launched(Some(e)) => {
                    if k >= START_ATTEMPTS - 1 {
                        let args = [("err", e.as_str())];
                        let msg = fill(t.err_espanso_start, &args);
                        assert(args_view(args@) =~= seq![("err"@, e@)]);
                        (Startup::Finished, StartAction::Finish(Err(msg)))
                    } else {
                        (Startup::Waiting(k), StartAction::WaitRunning(START_WAIT_SECS))
                    }
                },
                StartEvent::Launched(None) => (Startup::Waiting(k), StartAction::WaitRunning(START_WAIT_SECS)),
                _ => (Startup::Finished, no_response),
            },
            Startup::Waiting(k) => match event {
                StartEvent::Answered(true) => (Startup::Finished, StartAction::Finish(Ok(()))),
                StartEvent::Answered(false) => {
                    if k < START_ATTEMPTS - 1 {
                        (Startup::Launching(k + 1), StartAction::Launch(start_invocation(k + 1)))
                    } else {
                        (Startup::Finished, no_response)
                    }
                },
                _ => (Startup::Finished, no_response),
            },
            Startup::Finished => (Startup::Finished, no_response),
        }
    }
}

// ---------------------------------------------------------------------------------------------
// Laws
// ---------------------------------------------------------------------------------------------

/// How far start-up has come: every step moves it strictly forward or ends it.
pub open spec fn startup_rank(s: Startup) -> nat {
    match s {
        Startup::Begin => 0,
        Startup::CheckingExe => 1,
        Startup::CheckingStatus => 2,
        Startup::Launching(k) => 3 + 2 * (if k < START_ATTEMPTS { k as nat } else { 2 }),
        Startup::Waiting(k) => 4 + 2 * (if k < START_ATTEMPTS { k as nat } else { 2 }),
        Startup::Finished => 9,
    }
}

/// Start-up only ever moves forward, so it ends within nine steps; it reports success only on an
/// answer that said espanso is running; and the only commands it launches are the ways of
/// [`start_plan`], in order, each after the previous one went unanswered.
pub proof fn law_startup_moves_forward(exe_path: Seq<char>, state: Startup, event: StartEvent, t: Strings)
    requires
        state !is Finished,
        state matches Startup::Launching(k) ==> k < START_ATTEMPTS,
        state matches Startup::Waiting(k) ==> k < START_ATTEMPTS,
    ensures
        ({
            let (next, action) = startup_step(exe_path, state, event, t);
            &&& startup_rank(next) > startup_rank(state)
            &&& (next matches Startup::Launching(k) ==> k < START_ATTEMPTS)
            &&& (next matches Startup::Waiting(k) ==> k < START_ATTEMPTS)
            &&& (action matches StartActionV::Finish(Ok(())) ==>
                    (event == StartEvent::Running(true) || event == StartEvent::Answered(true)))
            &&& (action matches StartActionV::Finish(_) <==> next is Finished)
            &&& (action matches StartActionV::Launch(args) ==>
                    (next matches Startup::Launching(k) && args == start_plan(k as nat)
                        && (k == 0 ==> state == Startup::CheckingStatus)
                        && (k > 0 ==> state == Startup::Waiting((k - 1) as u8) && event == StartEvent::Answered(false))))
        }),
{
}

} // verus!
