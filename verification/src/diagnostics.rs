//! Decision core of the diagnostic logger.
//!
//! The logger itself — file handles, timestamps, formatting — lives with
//! the caller; the session core only needs logging to exist as an optional,
//! injectable capability.  What is verified here are the logger's rules:
//! which categories are written immediately and which are buffered, the
//! bounded ring of recent entries dumped when an error occurs, the
//! rate-limiting gates (error deduplication, periodic summaries) kept as
//! fields of the owning instance rather than process-wide state, and the
//! capture-milestone cadence.

use vstd::prelude::*;

verus! {

/// How many buffered entries are kept for error context.
pub const LOG_BUFFER_CAPACITY: usize = 100;

/// Every how many captures a milestone line is emitted.
pub const CAPTURE_MILESTONE_INTERVAL: u64 = 500;

/// Category of a log line.  Critical categories are written immediately;
/// the rest are buffered and only surface as context around an error.
#[derive(Debug, Clone, Copy, PartialEq, Eq, Structural)]
pub enum LogCategory {
    Error,
    Warn,
    Session,
    Init,
    Crash,
    Summary,
    /// Replayed buffered entries surrounding an error.
    Context,
    /// Routine operations of the lighting-server session.
    Hyperion,
    /// Deduplicated failures of the lighting-server session.
    HyperionError,
    Milestone,
    System,
    CaptureError,
    Other,
}

impl LogCategory {
    /// The categories that are always written immediately.
    pub open spec fn spec_is_critical(self) -> bool {
        match self {
            LogCategory::Error => true,
            LogCategory::Warn => true,
            LogCategory::Session => true,
            LogCategory::Init => true,
            LogCategory::Crash => true,
            LogCategory::Summary => true,
            _ => false,
        }
    }

    /// Whether a line of this category is written immediately; an `Error`
    /// line additionally triggers a dump of the buffered context.
    pub fn is_critical(&self) -> (r: bool)
        ensures
            r == self.spec_is_critical(),
    {
        match self {
            LogCategory::Error => true,
            LogCategory::Warn => true,
            LogCategory::Session => true,
            LogCategory::Init => true,
            LogCategory::Crash => true,
            LogCategory::Summary => true,
            _ => false,
        }
    }

    /// The tag written in front of the message.
    pub fn label(self) -> (r: &'static str)
        ensures
            self is Error ==> r@ == "ERROR"@,
            self is Warn ==> r@ == "WARN"@,
            self is Session ==> r@ == "SESSION"@,
            self is Summary ==> r@ == "SUMMARY"@,
            self is Hyperion ==> r@ == "HYPERION"@,
            self is HyperionError ==> r@ == "HYPERION_ERROR"@,
    {
        match self {
            LogCategory::Error => "ERROR",
            LogCategory::Warn => "WARN",
            LogCategory::Session => "SESSION",
            LogCategory::Init => "INIT",
            LogCategory::Crash => "CRASH",
            LogCategory::Summary => "SUMMARY",
            LogCategory::Context => "CONTEXT",
            LogCategory::Hyperion => "HYPERION",
            LogCategory::HyperionError => "HYPERION_ERROR",
            LogCategory::Milestone => "MILESTONE",
            LogCategory::System => "SYSTEM",
            LogCategory::CaptureError => "CAPTURE_ERROR",
            LogCategory::Other => "OTHER",
        }
    }
}

/// One buffered log line, timestamps supplied by the caller's clock.
#[derive(Debug, Clone)]
pub struct LogEntry {
    /// Wall-clock time of the event, milliseconds since the epoch.
    pub timestamp: u128,
    /// Milliseconds since the logger was created.
    pub elapsed: u128,
    pub category: LogCategory,
    pub message: String,
}

/// A bounded first-in-first-out buffer of the most recent non-critical
/// entries, replayed as context when an error is logged.
#[derive(Debug)]
pub struct LogBuffer {
    entries: Vec<LogEntry>,
}

impl View for LogBuffer {
    type V = Seq<LogEntry>;

    closed spec fn view(&self) -> Seq<LogEntry> {
        self.entries@
    }
}

impl LogBuffer {
    /// The buffer never holds more than its capacity.
    pub open spec fn wf(self) -> bool {
        self@.len() <= LOG_BUFFER_CAPACITY
    }

    pub fn new() -> (r: Self)
        ensures
            r@ == Seq::<LogEntry>::empty(),
            r.wf(),
    {
        LogBuffer { entries: Vec::new() }
    }

    pub fn len(&self) -> (r: usize)
        ensures
            r == self@.len(),
    {
        self.entries.len()
    }

    pub fn is_empty(&self) -> (r: bool)
        ensures
            r == (self@.len() == 0),
    {
        self.entries.len() == 0
    }

    /// Appends an entry; when the buffer is full the oldest entry is
    /// evicted first, so the buffer always holds the most recent entries
    /// in arrival order.
    pub fn push(&mut self, entry: LogEntry)
        requires
            old(self).wf(),
        ensures
            final(self).wf(),
            old(self)@.len() < LOG_BUFFER_CAPACITY ==> final(self)@ == old(self)@.push(entry),
            old(self)@.len() == LOG_BUFFER_CAPACITY ==> final(self)@ == old(self)@.skip(1).push(
                entry,
            ),
    {
        if self.entries.len() == LOG_BUFFER_CAPACITY {
            self.entries.remove(0);
            proof {
                assert(self.entries@ =~= old(self)@.skip(1));
            }
        }
        self.entries.push(entry);
    }

    /// The `i`-th oldest buffered entry.
    pub fn get(&self, i: usize) -> (r: &LogEntry)
        requires
            i < self@.len(),
        ensures
            *r == self@[i as int],
    {
        &self.entries[i]
    }
}

/// A rate-limiting gate: lets an event through at most once per window,
/// remembering when it last did.  Each owning component keeps its own
/// instance, so no rate-limit state is shared process-wide.
#[derive(Debug, Clone, Copy, PartialEq, Eq, Structural)]
pub struct IntervalGate {
    pub window_ms: u64,
    /// The time of the most recent allowed event, if any.
    pub last_emit_ms: Option<u64>,
}

impl IntervalGate {
    /// True when nothing was recorded yet, or the window has elapsed
    /// since the most recent recorded event.
    pub open spec fn spec_due(self, now_ms: u64) -> bool {
        match self.last_emit_ms {
            None => true,
            Some(t) => now_ms.saturating_sub(t) >= self.window_ms,
        }
    }

    /// A gate that lets its first event through immediately — the shape
    /// used for error deduplication.
    pub fn new(window_ms: u64) -> (r: Self)
        ensures
            r.window_ms == window_ms,
            r.last_emit_ms is None,
    {
        IntervalGate { window_ms, last_emit_ms: None }
    }

    /// A gate anchored at `now_ms`, whose first event passes only after a
    /// full window — the shape used for periodic summaries.
    pub fn new_anchored(window_ms: u64, now_ms: u64) -> (r: Self)
        ensures
            r.window_ms == window_ms,
            r.last_emit_ms == Some(now_ms),
    {
        IntervalGate { window_ms, last_emit_ms: Some(now_ms) }
    }

    /// Checks an event at `now_ms` against the window, recording it when
    /// it is accepted.
    pub fn should_emit(&mut self, now_ms: u64) -> (r: bool)
        ensures
            r == old(self).spec_due(now_ms),
            r ==> *final(self) == (IntervalGate {
                last_emit_ms: Some(now_ms),
                ..*old(self)
            }),
            !r ==> *final(self) == *old(self),
    {
        let due = match self.last_emit_ms {
            None => true,
            Some(t) => now_ms.saturating_sub(t) >= self.window_ms,
        };
        if due {
            self.last_emit_ms = Some(now_ms);
        }
        due
    }
}

/// Whether the `count`-th completed capture is a milestone worth a log
/// line: every `CAPTURE_MILESTONE_INTERVAL`-th one is.
pub fn capture_milestone_due(count: u64) -> (r: bool)
    ensures
        r == (count % CAPTURE_MILESTONE_INTERVAL == 0),
{
    count % CAPTURE_MILESTONE_INTERVAL == 0
}

} // verus!
