//! The capability handed to a handler for one invocation: the emitter that
//! publishes onto output channels, and the sink that receives log events.
//! Both are recorded in order, for the host to route and to forward.
use vstd::prelude::*;

verus! {

#[derive(Clone, Copy, Debug, PartialEq, Eq, Structural)]
pub enum LogLevel {
    Info,
    Error,
}

/// One log event: informational or error-level text.
#[derive(Clone, Debug, PartialEq, Eq)]
pub struct LogEntry {
    pub level: LogLevel,
    pub text: String,
}

/// One message published on a named output channel.
#[derive(Clone, Debug, PartialEq, Eq)]
pub struct Emission {
    pub channel: String,
    pub message: Vec<u8>,
}

impl View for LogEntry {
    type V = (LogLevel, Seq<char>);

    open spec fn view(&self) -> (LogLevel, Seq<char>) {
        (self.level, self.text@)
    }
}

impl View for Emission {
    type V = (Seq<char>, Seq<u8>);

    open spec fn view(&self) -> (Seq<char>, Seq<u8>) {
        (self.channel@, self.message@)
    }
}

/// What an invocation has emitted and logged so far, in call order.
pub struct InvocationView {
    pub emissions: Seq<(Seq<char>, Seq<u8>)>,
    pub log: Seq<(LogLevel, Seq<char>)>,
}

/// Records the emissions and log events of handler invocations.
pub struct Invocation {
    pub emissions: Vec<Emission>,
    pub log: Vec<LogEntry>,
}

impl View for Invocation {
    type V = InvocationView;

    open spec fn view(&self) -> InvocationView {
        InvocationView {
            emissions: self.emissions@.map_values(|e: Emission| e@),
            log: self.log@.map_values(|l: LogEntry| l@),
        }
    }
}

/// The number of error-level events in `log`.
pub open spec fn error_count(log: Seq<(LogLevel, Seq<char>)>) -> nat
    decreases log.len(),
{
    if log.len() == 0 {
        0
    } else {
        error_count(log.drop_last()) + if log.last().0 == LogLevel::Error {
            1nat
        } else {
            0nat
        }
    }
}

/// Appending an event adds one to the error count exactly when it is an error.
pub proof fn lemma_error_count_push(log: Seq<(LogLevel, Seq<char>)>, e: (LogLevel, Seq<char>))
    ensures
        error_count(log.push(e)) == error_count(log) + if e.0 == LogLevel::Error {
            1nat
        } else {
            0nat
        },
{
    assert(log.push(e).drop_last() =~= log);
}

impl Invocation {
    /// A context that has recorded nothing.
    pub fn new() -> (r: Invocation)
        ensures
            r@.emissions == Seq::<(Seq<char>, Seq<u8>)>::empty(),
            r@.log == Seq::<(LogLevel, Seq<char>)>::empty(),
    {
        let r = Invocation { emissions: Vec::new(), log: Vec::new() };
        assert(r@.emissions =~= Seq::<(Seq<char>, Seq<u8>)>::empty());
        assert(r@.log =~= Seq::<(LogLevel, Seq<char>)>::empty());
        r
    }

    /// Publishes a copy of `message` on `channel`. Fire-and-forget: the
    /// handler learns nothing of delivery.
    pub fn emit(&mut self, channel: &str, message: &[u8])
        ensures
            final(self)@.emissions == old(self)@.emissions.push((channel@, message@)),
            final(self)@.log == old(self)@.log,
    {
        let e = Emission { channel: channel.to_string(), message: vstd::slice::slice_to_vec(message) };
        self.emissions.push(e);
        assert(self@.emissions =~= old(self)@.emissions.push((channel@, message@)));
    }

    /// Records an event of `level` with `text`.
    pub fn record(&mut self, level: LogLevel, text: String)
        ensures
            final(self)@.log == old(self)@.log.push((level, text@)),
            final(self)@.emissions == old(self)@.emissions,
    {
        let entry = LogEntry { level, text };
        self.log.push(entry);
        assert(self@.log =~= old(self)@.log.push((level, text@)));
    }

    /// Records an informational event.
    pub fn info(&mut self, text: &str)
        ensures
            final(self)@.log == old(self)@.log.push((LogLevel::Info, text@)),
            final(self)@.emissions == old(self)@.emissions,
    {
        self.record(LogLevel::Info, text.to_string());
    }

    /// Records an error-level event.
    pub fn error(&mut self, text: &str)
        ensures
            final(self)@.log == old(self)@.log.push((LogLevel::Error, text@)),
            final(self)@.emissions == old(self)@.emissions,
    {
        self.record(LogLevel::Error, text.to_string());
    }
}

} // verus!
