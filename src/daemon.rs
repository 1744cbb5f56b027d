use vstd::prelude::*;

verus! {

/// What a connection attempt to the daemon's address found.
#[derive(Clone, Copy, Debug, PartialEq, Eq, Structural)]
pub enum Probe {
    Connected,
    Unavailable,
}

/// What the caller of `ensure_daemon` does next.
#[derive(Clone, Copy, Debug, PartialEq, Eq, Structural)]
pub enum SupervisorAction {
    /// A daemon is reachable; `spawned` tells whether this caller started it.
    Ready { spawned: bool },
    /// Start a detached daemon process, then probe again.
    Spawn,
    /// Wait for the delay between attempts, then probe again.
    Retry,
    /// The spawned daemon never became reachable.
    TimedOut,
}

/// Decisions of `ensure_daemon`: probe, spawn once if nothing listens, then
/// poll a bounded number of times.
pub struct Supervisor {
    pub spawned: bool,
    pub attempts: u32,
    pub max_attempts: u32,
}

impl Supervisor {
    pub open spec fn wf(&self) -> bool {
        self.attempts <= self.max_attempts && (!self.spawned ==> self.attempts == 0)
    }

    /// How many more probes can ask to spawn or to retry: a caller that
    /// keeps probing reaches `Ready` or `TimedOut` within this many steps.
    pub open spec fn remaining(&self) -> nat {
        if self.spawned {
            (self.max_attempts - self.attempts) as nat
        } else {
            self.max_attempts as nat + 1
        }
    }

    pub fn new(max_attempts: u32) -> (r: Self)
        ensures
            r.wf(),
            !r.spawned,
            r.attempts == 0,
            r.max_attempts == max_attempts,
    {
        Supervisor { spawned: false, attempts: 0, max_attempts }
    }

    /// The next step after a probe.
    pub fn on_probe(&mut self, probe: Probe) -> (r: SupervisorAction)
        requires
            old(self).wf(),
        ensures
            final(self).wf(),
            final(self).max_attempts == old(self).max_attempts,
            probe == Probe::Connected ==> r == (SupervisorAction::Ready { spawned: old(self).spawned })
                && *final(self) == *old(self),
            probe == Probe::Unavailable && !old(self).spawned ==> r == SupervisorAction::Spawn
                && final(self).spawned && final(self).attempts == 0,
            probe == Probe::Unavailable && old(self).spawned && old(self).attempts
                < old(self).max_attempts ==> r == SupervisorAction::Retry && final(self).spawned
                && final(self).attempts == old(self).attempts + 1,
            probe == Probe::Unavailable && old(self).spawned && old(self).attempts
                == old(self).max_attempts ==> r == SupervisorAction::TimedOut && *final(self)
                == *old(self),
            old(self).spawned ==> r != SupervisorAction::Spawn && final(self).spawned,
            r == SupervisorAction::Spawn || r == SupervisorAction::Retry ==> final(self).remaining()
                < old(self).remaining(),
            r == SupervisorAction::Spawn || r == SupervisorAction::Retry ==> probe == Probe::Unavailable,
    {
        match probe {
            Probe::Connected => SupervisorAction::Ready { spawned: self.spawned },
            Probe::Unavailable => {
                if !self.spawned {
                    self.spawned = true;
                    SupervisorAction::Spawn
                } else if self.attempts < self.max_attempts {
                    self.attempts = self.attempts + 1;
                    SupervisorAction::Retry
                } else {
                    SupervisorAction::TimedOut
                }
            },
        }
    }
}

/// How the daemon answered a shutdown request.
#[derive(Clone, Debug, PartialEq, Eq)]
pub enum ShutdownReply {
    /// It acknowledged the request.
    Acknowledged,
    /// It closed the channel before the acknowledgment was sent.
    ChannelClosed,
    /// Any other transport or workspace error, described.
    Failed(String),
}

/// What `stop` reports on success.
#[derive(Clone, Copy, Debug, PartialEq, Eq, Structural)]
pub enum StopReport {
    Stopped,
    NotRunning,
}

/// Outcome of `stop`, given the reply of the daemon (`None` where nothing
/// listened at the address). A closed channel counts as a shutdown.
pub fn stop_outcome(reply: Option<ShutdownReply>) -> (r: Result<StopReport, String>)
    ensures
        reply is None ==> r == Ok::<StopReport, String>(StopReport::NotRunning),
        reply == Some(ShutdownReply::Acknowledged) ==> r == Ok::<StopReport, String>(StopReport::Stopped),
        reply == Some(ShutdownReply::ChannelClosed) ==> r == Ok::<StopReport, String>(StopReport::Stopped),
        forall|e: String| reply == Some(ShutdownReply::Failed(e)) ==> r == Err::<StopReport, String>(e),
        r is Err <==> (reply is Some && reply.unwrap() is Failed),
{
    match reply {
        None => Ok(StopReport::NotRunning),
        Some(ShutdownReply::Acknowledged) => Ok(StopReport::Stopped),
        Some(ShutdownReply::ChannelClosed) => Ok(StopReport::Stopped),
        Some(ShutdownReply::Failed(e)) => Err(e),
    }
}

pub open spec fn stop_text(r: StopReport) -> Seq<char> {
    match r {
        StopReport::Stopped => "The server was successfully stopped"@,
        StopReport::NotRunning => "The server was not running"@,
    }
}

pub open spec fn start_text(did_spawn: bool) -> Seq<char> {
    if did_spawn {
        "The server was successfully started"@
    } else {
        "The server was already running"@
    }
}

impl StopReport {
    /// The line shown to the user.
    pub fn message(&self) -> (r: &'static str)
        ensures
            r@ == stop_text(*self),
    {
        proof {
            reveal_strlit("The server was successfully stopped");
            reveal_strlit("The server was not running");
        }
        match self {
            StopReport::Stopped => "The server was successfully stopped",
            StopReport::NotRunning => "The server was not running",
        }
    }
}

/// The line shown by `start`, depending on whether it spawned the daemon.
pub fn start_message(did_spawn: bool) -> (r: &'static str)
    ensures
        r@ == start_text(did_spawn),
{
    proof {
        reveal_strlit("The server was successfully started");
        reveal_strlit("The server was already running");
    }
    if did_spawn {
        "The server was successfully started"
    } else {
        "The server was already running"
    }
}

/// The result of one copy from a source to a sink.
#[derive(Clone, Debug, PartialEq, Eq)]
pub enum CopyResult {
    /// This many bytes were copied; zero means the source is at its end.
    Copied(u64),
    Failed(String),
}

/// What a forwarding loop does after one copy.
#[derive(Clone, Debug, PartialEq, Eq)]
pub enum ForwardStep {
    Continue,
    Finished,
    Failed(String),
}

/// One step of a forwarding loop: go on while bytes come, stop cleanly at the
/// end of the stream, stop with the error on a failure.
pub fn forward_step(c: CopyResult) -> (r: ForwardStep)
    ensures
        c == CopyResult::Copied(0) ==> r == ForwardStep::Finished,
        forall|n: u64| n > 0 && c == CopyResult::Copied(n) ==> r == ForwardStep::Continue,
        forall|e: String| c == CopyResult::Failed(e) ==> r == ForwardStep::Failed(e),
{
    match c {
        CopyResult::Copied(n) => if n == 0 {
            ForwardStep::Finished
        } else {
            ForwardStep::Continue
        },
        CopyResult::Failed(e) => ForwardStep::Failed(e),
    }
}

/// Outcome of the tunnel once both directions have finished: an error only
/// where a direction failed, the input direction's first.
pub fn tunnel_outcome(input: Result<(), String>, output: Result<(), String>) -> (r: Result<(), String>)
    ensures
        r is Ok <==> (input is Ok && output is Ok),
        input is Err ==> r == input,
        input is Ok && output is Err ==> r == output,
{
    match input {
        Err(e) => Err(e),
        Ok(()) => output,
    }
}

/// Which branch of the server's race finished first.
#[derive(Clone, Debug, PartialEq, Eq)]
pub enum ServerEvent {
    /// The cancellation signal fired.
    Cancelled,
    /// The accept loop stopped with an error (it never stops otherwise).
    LoopFailed(String),
}

/// Outcome of `run_server`: success on cancellation, the loop's error otherwise.
pub fn server_outcome(e: ServerEvent) -> (r: Result<(), String>)
    ensures
        e == ServerEvent::Cancelled ==> r == Ok::<(), String>(()),
        forall|s: String| e == ServerEvent::LoopFailed(s) ==> r == Err::<(), String>(s),
{
    match e {
        ServerEvent::Cancelled => Ok(()),
        ServerEvent::LoopFailed(s) => Err(s),
    }
}

/// A single-shot cancellation signal: the first `cancel` fires it, later
/// ones change nothing.
pub struct Cancellation {
    pub fired: bool,
}

impl Cancellation {
    pub fn new() -> (r: Self)
        ensures
            !r.fired,
    {
        Cancellation { fired: false }
    }

    /// Fires the signal; returns whether this call was the one that fired it.
    pub fn cancel(&mut self) -> (r: bool)
        ensures
            final(self).fired,
            r == !old(self).fired,
            old(self).fired ==> *final(self) == *old(self),
    {
        let first = !self.fired;
        self.fired = true;
        first
    }

    pub fn is_cancelled(&self) -> (r: bool)
        ensures
            r == self.fired,
    {
        self.fired
    }
}

} // verus!
