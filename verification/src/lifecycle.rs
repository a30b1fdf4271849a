//! The Backend Handle and its lifecycle: created present on a successful
//! spawn, left absent on a failed one, and taken — exactly once — by the
//! window-close handler, which then issues the kill.

use vstd::prelude::*;
use vstd::string::StringExecFns;

verus! {

/// What the attempt to spawn the backend executable produced: the new child's
/// process id together with the OS-level handle the caller holds for it, or
/// the text of the operating-system error. A failed spawn is recovered
/// locally: it is logged as a warning and startup continues, since the
/// backend may already be running independently.
pub enum StartOutcome<T> {
    Started(u32, T),
    SpawnFailure(String),
}

/// Severity of a log line this shell emits; it never logs below
/// informational.
#[derive(Clone, Copy, PartialEq, Eq, Debug)]
pub enum LogLevel {
    Info,
    Warn,
}

/// A log line to hand to the logging facility.
pub struct LogLine {
    pub level: LogLevel,
    pub text: String,
}

/// The Backend Handle: an optional reference to the spawned backend process,
/// stored as the child's process id paired with the OS-level handle `T` that
/// the host hands in. Present after a successful start; absent after a failed
/// start or once the close handler has taken it. Once taken it is never
/// restored.
pub struct BackendHandle<T> {
    child: Option<(u32, T)>,
}

impl<T> BackendHandle<T> {
    /// The tracked child — its process id and OS handle — if one is tracked.
    pub closed spec fn slot(self) -> Option<(u32, T)> {
        self.child
    }

    /// The tracked child's process id, if a backend process is tracked.
    pub open spec fn pid(self) -> Option<u32> {
        match self.slot() {
            Some(c) => Some(c.0),
            None => None,
        }
    }

    /// A handle that tracks no process: startup never ran here, or the spawn
    /// failed.
    pub fn absent() -> (h: BackendHandle<T>)
        ensures
            h.slot() is None,
    {
        BackendHandle { child: None }
    }

    /// Whether a backend process is currently tracked.
    pub fn is_present(&self) -> (b: bool)
        ensures
            b == (self.pid() is Some),
    {
        self.child.is_some()
    }

    /// The tracked process id, if any.
    pub fn current_pid(&self) -> (p: Option<u32>)
        ensures
            p == self.pid(),
    {
        match &self.child {
            Some(c) => Some(c.0),
            None => None,
        }
    }

    /// The close handler's atomic take: leaves the handle absent and returns
    /// the child to kill, if one was tracked. A second call finds the handle
    /// already absent, asks for no kill, and cannot fail. One call is one
    /// step of the close-event model: the handle afterward is
    /// `state_after_closes(_, 1)`, and a kill target comes back
    /// `kills_during_closes(_, 1)` times.
    pub fn on_close(&mut self) -> (kill: Option<(u32, T)>)
        ensures
            kill == old(self).slot(),
            final(self).slot() is None,
            final(self).pid() == state_after_closes(old(self).pid(), 1),
            (if kill is Some {
                1nat
            } else {
                0nat
            }) == kills_during_closes(old(self).pid(), 1),
    {
        proof {
            reveal_with_fuel(state_after_closes, 2);
            reveal_with_fuel(kills_during_closes, 2);
        }
        self.child.take()
    }
}

/// The state of the Backend Handle right after the start operation: present
/// with the new child exactly when the spawn succeeded.
pub open spec fn spec_start_slot<T>(o: StartOutcome<T>) -> Option<(u32, T)> {
    match o {
        StartOutcome::Started(p, t) => Some((p, t)),
        StartOutcome::SpawnFailure(_) => None,
    }
}

/// Severity of the log line the start operation emits: informational on
/// success, a warning on failure — startup continues either way.
pub open spec fn spec_start_level<T>(o: StartOutcome<T>) -> LogLevel {
    match o {
        StartOutcome::Started(_, _) => LogLevel::Info,
        StartOutcome::SpawnFailure(_) => LogLevel::Warn,
    }
}

/// Text of the log line the start operation emits.
pub open spec fn spec_start_text<T>(o: StartOutcome<T>) -> Seq<char> {
    match o {
        StartOutcome::Started(_, _) => "Backend process started successfully"@,
        StartOutcome::SpawnFailure(e) => "Failed to start backend process: "@ + e@,
    }
}

/// Records the outcome of the spawn attempt: on success the Backend Handle
/// becomes present and an informational line is logged; on failure it stays
/// absent and a warning is logged. A failed spawn is not fatal: the caller
/// stores the handle and goes on with startup in both cases.
pub fn handle_start<T>(outcome: StartOutcome<T>) -> (r: (BackendHandle<T>, LogLine))
    ensures
        r.0.slot() == spec_start_slot(outcome),
        r.1.level == spec_start_level(outcome),
        r.1.text@ == spec_start_text(outcome),
{
    match outcome {
        StartOutcome::Started(p, t) => (
            BackendHandle { child: Some((p, t)) },
            (LogLine {
                level: LogLevel::Info,
                text: "Backend process started successfully".to_owned(),
            }),
        ),
        StartOutcome::SpawnFailure(e) => (
            BackendHandle { child: None },
            (LogLine {
                level: LogLevel::Warn,
                text: "Failed to start backend process: ".to_owned().concat(e.as_str()),
            }),
        ),
    }
}

/// The line logged when the close handler has taken the handle and issued the
/// kill. A failed kill call itself is silently ignored: termination is
/// best-effort.
pub fn termination_log() -> (l: LogLine)
    ensures
        l.level == LogLevel::Info,
        l.text@ == "Backend process terminated"@,
{
    LogLine { level: LogLevel::Info, text: "Backend process terminated".to_owned() }
}

/// One close event on a handle in state `h` (tracked pid or absent): the
/// handler takes the handle and issues a kill signal exactly when a process
/// was tracked.
pub open spec fn close_kills(h: Option<u32>) -> nat {
    if h is Some {
        1nat
    } else {
        0nat
    }
}

/// The handle's state after `n` close events have fired: each event takes
/// whatever is there and leaves the handle absent, never restoring it.
pub open spec fn state_after_closes(h: Option<u32>, n: nat) -> Option<u32>
    decreases n,
{
    if n == 0 {
        h
    } else {
        state_after_closes(None, (n - 1) as nat)
    }
}

/// How many kill signals `n` close events issue from state `h`: the first
/// event takes the handle, every later one finds it absent.
pub open spec fn kills_during_closes(h: Option<u32>, n: nat) -> nat
    decreases n,
{
    if n == 0 {
        0nat
    } else {
        close_kills(h) + kills_during_closes(None, (n - 1) as nat)
    }
}

/// When no process is tracked — the spawn failed, or startup never ran here —
/// close events issue no kill signal at all, however many fire. The handler
/// itself is verified, so it cannot panic on the absent case either.
pub proof fn lemma_absent_never_kills(n: nat)
    ensures
        kills_during_closes(None, n) == 0,
    decreases n,
{
    if n > 0 {
        lemma_absent_never_kills((n - 1) as nat);
    }
}

/// After a successful start, any sequence of close events — however many
/// fire — has the tracked process receive the terminate signal exactly once.
pub proof fn lemma_kill_exactly_once(h: Option<u32>, n: nat)
    requires
        h is Some,
        n >= 1,
    ensures
        kills_during_closes(h, n) == 1,
{
    lemma_absent_never_kills((n - 1) as nat);
}

/// A present handle stays present until the first close event and is absent
/// from then on, regardless of how many further close events fire: once
/// taken, it is never restored.
pub proof fn lemma_absent_after_first_close(h: Option<u32>, n: nat)
    requires
        n >= 1,
    ensures
        state_after_closes(h, n) is None,
    decreases n,
{
    reveal_with_fuel(state_after_closes, 2);
    if n > 1 {
        lemma_absent_after_first_close(None, (n - 1) as nat);
    }
}

/// From any state and for any number of close events, at most one kill signal
/// is issued. The lock around the handle serializes concurrent handler calls
/// into some such sequence of takes, so racing close events still yield at
/// most one kill.
pub proof fn lemma_at_most_one_kill(h: Option<u32>, n: nat)
    ensures
        kills_during_closes(h, n) <= 1,
{
    if n > 0 {
        lemma_absent_never_kills((n - 1) as nat);
    }
}

} // verus!
