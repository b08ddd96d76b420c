use vstd::prelude::*;

mod history;
mod loggable;

pub use history::{keep_last, push_all, push_spec, History, LogModel, lemma_limited_keeps_last, lemma_unlimited_keeps_all};
pub use loggable::{ErasedLoggable, Loggable};

verus! {

/// The level of a log.
#[derive(Debug, Clone, Copy, PartialEq, Eq, Structural)]
pub enum Level {
    Debug,
    Info,
    Warn,
    Error,
}

/// The name of a level.
pub open spec fn level_name(l: Level) -> Seq<char> {
    match l {
        Level::Debug => "Debug"@,
        Level::Info => "Info"@,
        Level::Warn => "Warn"@,
        Level::Error => "Error"@,
    }
}

impl Level {
    /// The level's name, as text.
    pub fn as_str(&self) -> (r: &'static str)
        ensures
            r@ == level_name(*self),
    {
        proof {
            reveal_strlit("Debug");
            reveal_strlit("Info");
            reveal_strlit("Warn");
            reveal_strlit("Error");
        }
        match self {
            Level::Debug => "Debug",
            Level::Info => "Info",
            Level::Warn => "Warn",
            Level::Error => "Error",
        }
    }
}

/// A point in time: whole seconds since the Unix epoch, and nanoseconds past
/// that second (beyond 999_999_999 only within a leap second).
#[derive(Debug, Clone, Copy, PartialEq, Eq, Structural)]
pub struct Timestamp {
    pub secs: i64,
    pub nanos: u32,
}

impl Timestamp {
    pub open spec fn wf(&self) -> bool {
        self.nanos < 2_000_000_000
    }
}

/// Relies on chrono's `From<SystemTime> for DateTime<Utc>`, applied to
/// `std::time::SystemTime::now()`, for the current time: a clock before the
/// epoch gives negative seconds. The nanoseconds, read back through
/// DateTime::timestamp_subsec_nanos, stay below two seconds' worth (a leap
/// second included).
#[verifier::external_body]
fn now() -> (r: Timestamp)
    ensures
        r.wf(),
{
    let t = chrono::DateTime::<chrono::Utc>::from(std::time::SystemTime::now());
    Timestamp { secs: t.timestamp(), nanos: t.timestamp_subsec_nanos() }
}

/// A finished record. `time` is when the worker processed it, not when it was
/// submitted.
#[derive(Debug, Clone)]
pub struct Log {
    pub time: Timestamp,
    pub level: Level,
    pub message: String,
}

impl View for Log {
    type V = LogModel;

    open spec fn view(&self) -> LogModel {
        (self.time, self.level, self.message@)
    }
}

impl Log {
    /// The record's message, as text.
    pub fn message(&self) -> (r: &str)
        ensures
            r@ == self.message@,
    {
        self.message.as_str()
    }
}

/// What the worker does with one pending entry: it renders the payload, stamps
/// it with the current time and appends it to `history`, evicting the oldest
/// record when the limit is reached. Whatever the clock says, the record holds
/// the payload's text at the given level.
pub fn process_entry(history: &mut History, level: Level, payload: ErasedLoggable)
    requires
        old(history).wf(),
    ensures
        final(history).wf(),
        final(history).limit() == old(history).limit(),
        exists|t: Timestamp|
            t.wf() && final(history)@ == push_spec(
                old(history)@,
                old(history).limit(),
                (t, level, payload@),
            ),
{
    let time = now();
    history.record_at(level, payload, time);
}

} // verus!
