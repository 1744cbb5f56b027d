use vstd::prelude::*;

verus! {

/// The severity of a log event, from the most to the least severe.
#[derive(Clone, Copy, Debug, PartialEq, Eq, Structural)]
pub enum Level {
    Error,
    Warn,
    Info,
    Debug,
    Trace,
}

/// Rank of a level: a more verbose level has a larger rank.
pub open spec fn rank(l: Level) -> nat {
    match l {
        Level::Error => 1,
        Level::Warn => 2,
        Level::Info => 3,
        Level::Debug => 4,
        Level::Trace => 5,
    }
}

/// Whether a call site should be registered by the dispatcher.
#[derive(Clone, Copy, Debug, PartialEq, Eq, Structural)]
pub enum Interest {
    Always,
    Never,
}

/// Level policy of the daemon's log: events whose source starts with
/// `own_prefix` (the tool's own components) pass up to `TRACE` in a debug
/// build and up to `DEBUG` in a release build; events of any other source
/// pass up to `INFO`.
pub struct LoggingFilter {
    pub own_prefix: String,
    pub debug_build: bool,
}

pub open spec fn is_prefix(p: Seq<char>, s: Seq<char>) -> bool {
    p.len() <= s.len() && s.subrange(0, p.len() as int) == p
}

/// The most verbose level let through for the tool's own components.
pub open spec fn self_level(debug_build: bool) -> Level {
    if debug_build { Level::Trace } else { Level::Debug }
}

/// The most verbose level let through for events of `target`.
pub open spec fn threshold(prefix: Seq<char>, debug_build: bool, target: Seq<char>) -> Level {
    if is_prefix(prefix, target) { self_level(debug_build) } else { Level::Info }
}

pub open spec fn passes(prefix: Seq<char>, debug_build: bool, target: Seq<char>, level: Level) -> bool {
    rank(level) <= rank(threshold(prefix, debug_build, target))
}

fn level_rank(l: Level) -> (r: u8)
    ensures
        r as nat == rank(l),
{
    match l {
        Level::Error => 1,
        Level::Warn => 2,
        Level::Info => 3,
        Level::Debug => 4,
        Level::Trace => 5,
    }
}

/// Whether `s` begins with `p`.
pub fn starts_with(s: &str, p: &str) -> (r: bool)
    ensures
        r == is_prefix(p@, s@),
{
    let n = p.unicode_len();
    let m = s.unicode_len();
    if n > m {
        return false;
    }
    let mut i: usize = 0;
    while i < n
        invariant
            n == p@.len(),
            m == s@.len(),
            n <= m,
            i <= n,
            forall|j: int| 0 <= j < i ==> s@[j] == p@[j],
        decreases n - i,
    {
        if s.get_char(i) != p.get_char(i) {
            assert(s@.subrange(0, n as int)[i as int] != p@[i as int]);
            return false;
        }
        i = i + 1;
    }
    assert(s@.subrange(0, n as int) =~= p@);
    true
}

impl LoggingFilter {
    pub fn new(own_prefix: String, debug_build: bool) -> (r: Self)
        ensures
            r.own_prefix@ == own_prefix@,
            r.debug_build == debug_build,
    {
        LoggingFilter { own_prefix, debug_build }
    }

    /// The most verbose level let through for the tool's own components.
    pub fn self_filter(&self) -> (r: Level)
        ensures
            r == self_level(self.debug_build),
    {
        if self.debug_build { Level::Trace } else { Level::Debug }
    }

    /// Whether an event of `target` at `level` is logged.
    pub fn is_enabled(&self, target: &str, level: Level) -> (r: bool)
        ensures
            r == passes(self.own_prefix@, self.debug_build, target@, level),
    {
        let filter = if starts_with(target, self.own_prefix.as_str()) {
            self.self_filter()
        } else {
            Level::Info
        };
        level_rank(level) <= level_rank(filter)
    }

    /// Per-event decision.
    pub fn enabled(&self, target: &str, level: Level) -> (r: bool)
        ensures
            r == passes(self.own_prefix@, self.debug_build, target@, level),
    {
        self.is_enabled(target, level)
    }

    /// Per-call-site decision, taken once for each call site.
    pub fn callsite_enabled(&self, target: &str, level: Level) -> (r: Interest)
        ensures
            r == (if passes(self.own_prefix@, self.debug_build, target@, level) {
                Interest::Always
            } else {
                Interest::Never
            }),
    {
        if self.is_enabled(target, level) {
            Interest::Always
        } else {
            Interest::Never
        }
    }

    /// An upper bound on the levels that pass: nothing more verbose is ever
    /// enabled.
    pub fn max_level_hint(&self) -> (r: Option<Level>)
        ensures
            r == Some(self_level(self.debug_build)),
    {
        Some(self.self_filter())
    }
}

/// The hint is an upper bound: an event that passes is never more verbose
/// than the hint.
pub proof fn lemma_hint_bounds_enabled(
    prefix: Seq<char>,
    debug_build: bool,
    target: Seq<char>,
    level: Level,
)
    requires
        passes(prefix, debug_build, target, level),
    ensures
        rank(level) <= rank(self_level(debug_build)),
{
}

/// Events of at least `INFO` severity pass whatever their source and build.
pub proof fn lemma_info_always_passes(
    prefix: Seq<char>,
    debug_build: bool,
    target: Seq<char>,
    level: Level,
)
    requires
        rank(level) <= rank(Level::Info),
    ensures
        passes(prefix, debug_build, target, level),
{
}

/// A `DEBUG` event of a source outside the tool never passes; one of the
/// tool's own components always does.
pub proof fn lemma_debug_by_source(prefix: Seq<char>, debug_build: bool, target: Seq<char>)
    ensures
        passes(prefix, debug_build, target, Level::Debug) == is_prefix(prefix, target),
        passes(prefix, debug_build, target, Level::Trace) == (is_prefix(prefix, target)
            && debug_build),
{
}

} // verus!
