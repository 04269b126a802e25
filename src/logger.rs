//! The logger: an initialise-once threshold and the ordered registry of handlers.
use vstd::prelude::*;
use crate::handlers::streams::file::FileHandler;
use crate::handlers::streams::net::TCPHandler;
use crate::handlers::streams::stdout::StdoutHandler;
use crate::handlers::streams::{threshold_of, StreamHandler};
use crate::handlers::{handler_outcome, Handler, NullHandler};
use crate::level::{Level, LevelFilter};
use crate::record::{rfc3339_utc, ExtendedLogRecord};

verus! {

/// The logger was already initialised.
#[derive(Debug, PartialEq, Eq, Structural)]
pub struct SetLoggerError;

/// `out` holds one outcome per handler, in registration order, each a possible outcome of
/// that handler on `r`.
pub open spec fn fans_out<F, P>(
    handlers: Seq<Handler<F, P>>,
    r: ExtendedLogRecord,
    out: Seq<Option<String>>,
) -> bool where
    F: Fn(&ExtendedLogRecord) -> String,
    P: Fn(&ExtendedLogRecord) -> bool,
{
    &&& out.len() == handlers.len()
    &&& forall|i: int| 0 <= i < out.len() ==> handler_outcome(handlers[i], r, #[trigger] out[i])
}

/// `h` is a stream handler just built with `level` and `formatter`: no filters yet.
pub open spec fn fresh_stream<S, F, P>(
    h: StreamHandler<S, F, P>,
    level: Option<LevelFilter>,
    formatter: Option<F>,
) -> bool {
    &&& h.filters@.len() == 0
    &&& h.formatter == formatter
    &&& h.level == threshold_of(level)
}

/// A logger: uninitialised until `init` gives it a threshold, and a registry of handlers
/// to which every enabled record goes, in registration order.
pub struct ExtendedLogger<F, P> {
    level: Option<LevelFilter>,
    handlers: Vec<Handler<F, P>>,
}

impl<F, P> ExtendedLogger<F, P> where
    F: Fn(&ExtendedLogRecord) -> String,
    P: Fn(&ExtendedLogRecord) -> bool,
{
    /// The threshold given by `init`; none before.
    pub closed spec fn spec_level(&self) -> Option<LevelFilter> {
        self.level
    }

    /// The registered handlers, in registration order.
    pub closed spec fn spec_handlers(&self) -> Seq<Handler<F, P>> {
        self.handlers@
    }

    /// `init` has succeeded.
    pub open spec fn is_active(&self) -> bool {
        self.spec_level() is Some
    }

    /// Records of level `l` go to the handlers.
    pub open spec fn spec_enabled(&self, l: Level) -> bool {
        match self.spec_level() {
            Some(t) => t.spec_allows(l),
            None => false,
        }
    }

    /// Every registered handler can filter and render every record.
    pub open spec fn ready(&self) -> bool {
        forall|i: int|
            0 <= i < self.spec_handlers().len() ==> #[trigger] self.spec_handlers()[i].ready()
    }

    /// An uninitialised logger with no handlers.
    pub fn new() -> (r: ExtendedLogger<F, P>)
        ensures
            !r.is_active(),
            r.spec_handlers().len() == 0,
    {
        ExtendedLogger { level: None, handlers: Vec::new() }
    }

    /// Initialises the logger with the threshold `level`; fails, changing nothing, if it was
    /// initialised already.
    pub fn init(&mut self, level: LevelFilter) -> (r: Result<(), SetLoggerError>)
        ensures
            old(self).is_active() ==> r == Err::<(), SetLoggerError>(SetLoggerError),
            old(self).is_active() ==> final(self).spec_level() == old(self).spec_level(),
            !old(self).is_active() ==> r is Ok && final(self).spec_level() == Some(level),
            final(self).spec_handlers() == old(self).spec_handlers(),
    {
        if self.level.is_some() {
            Err(SetLoggerError)
        } else {
            self.level = Some(level);
            Ok(())
        }
    }

    /// Whether records of level `level` go to the handlers.
    pub fn enabled(&self, level: Level) -> (r: bool)
        ensures
            r == self.spec_enabled(level),
    {
        match self.level {
            Some(t) => t.allows(level),
            None => false,
        }
    }

    /// Appends a handler to the registry.
    pub fn add_handler(&mut self, hdlr: Handler<F, P>)
        ensures
            final(self).spec_handlers() == old(self).spec_handlers().push(hdlr),
            final(self).spec_level() == old(self).spec_level(),
    {
        self.handlers.push(hdlr);
    }

    /// Appends a handler that emits nothing.
    pub fn add_null_handler(&mut self)
        ensures
            final(self).spec_handlers() == old(self).spec_handlers().push(
                Handler::Null(NullHandler),
            ),
            final(self).spec_level() == old(self).spec_level(),
    {
        self.add_handler(Handler::Null(NullHandler))
    }

    /// Appends a handler for the standard output.
    pub fn add_stdout_handler(&mut self, level: Option<LevelFilter>, formatter: Option<F>)
        ensures
            final(self).spec_handlers().len() == old(self).spec_handlers().len() + 1,
            final(self).spec_handlers().drop_last() == old(self).spec_handlers(),
            final(self).spec_handlers().last() matches Handler::Stdout(h) && fresh_stream(
                h,
                level,
                formatter,
            ),
            final(self).spec_level() == old(self).spec_level(),
    {
        let h = StdoutHandler::<F, P>::new(level, formatter);
        self.add_handler(Handler::Stdout(h));
        proof {
            assert(self.spec_handlers().drop_last() =~= old(self).spec_handlers());
        }
    }

    /// Appends a handler for the file at `filename`.
    pub fn add_file_handler(
        &mut self,
        filename: &str,
        level: Option<LevelFilter>,
        formatter: Option<F>,
    )
        ensures
            final(self).spec_handlers().len() == old(self).spec_handlers().len() + 1,
            final(self).spec_handlers().drop_last() == old(self).spec_handlers(),
            final(self).spec_handlers().last() matches Handler::File(h) && fresh_stream(
                h,
                level,
                formatter,
            ) && h.stream.path@ == filename@,
            final(self).spec_level() == old(self).spec_level(),
    {
        let h = FileHandler::<F, P>::new(filename, level, formatter);
        self.add_handler(Handler::File(h));
        proof {
            assert(self.spec_handlers().drop_last() =~= old(self).spec_handlers());
        }
    }

    /// Appends a handler for a TCP connection to `address`.
    pub fn add_tcp_handler(
        &mut self,
        address: &str,
        level: Option<LevelFilter>,
        formatter: Option<F>,
    )
        ensures
            final(self).spec_handlers().len() == old(self).spec_handlers().len() + 1,
            final(self).spec_handlers().drop_last() == old(self).spec_handlers(),
            final(self).spec_handlers().last() matches Handler::TCP(h) && fresh_stream(
                h,
                level,
                formatter,
            ) && h.stream.address@ == address@,
            final(self).spec_level() == old(self).spec_level(),
    {
        let h = TCPHandler::<F, P>::new(address, level, formatter);
        self.add_handler(Handler::TCP(h));
        proof {
            assert(self.spec_handlers().drop_last() =~= old(self).spec_handlers());
        }
    }

    /// Hands the record to every handler, in registration order, if its level is enabled;
    /// gives each handler's outcome, in that order, or nothing when the level is not
    /// enabled.
    pub fn log_record(&self, record: &ExtendedLogRecord) -> (out: Vec<Option<String>>)
        requires
            self.ready(),
            record.wf(),
        ensures
            !self.spec_enabled(record.spec_level()) ==> out@.len() == 0,
            self.spec_enabled(record.spec_level()) ==> fans_out(
                self.spec_handlers(),
                *record,
                out@,
            ),
            self.spec_handlers().len() == 0 ==> out@.len() == 0,
    {
        let mut out: Vec<Option<String>> = Vec::new();
        if !self.enabled(record.level()) {
            return out;
        }
        let mut i: usize = 0;
        while i < self.handlers.len()
            invariant
                self.ready(),
                record.wf(),
                i <= self.handlers@.len(),
                out@.len() == i,
                forall|j: int|
                    0 <= j < i ==> handler_outcome(self.handlers@[j], *record, #[trigger] out@[j]),
            decreases self.handlers@.len() - i,
        {
            assert(self.spec_handlers()[i as int].ready());
            let o = self.handlers[i].handle(record);
            out.push(o);
            i = i + 1;
        }
        out
    }

    /// Logs one event: if its level is enabled, builds its record, stamped with the current
    /// time, and hands it to every handler in registration order; gives each handler's
    /// outcome, in that order, or nothing when the level is not enabled.
    pub fn log(
        &self,
        level: Level,
        file: &str,
        line: u32,
        module: &str,
        msg: String,
        target: String,
    ) -> (out: Vec<Option<String>>)
        requires
            self.ready(),
        ensures
            !self.spec_enabled(level) ==> out@.len() == 0,
            self.spec_enabled(level) ==> exists|r: ExtendedLogRecord|
                {
                    &&& r.level@ == level.spec_name()
                    &&& r.levelno == level.ordinal()
                    &&& r.msg@ == msg@
                    &&& r.target@ == target@
                    &&& r.module@ == module@
                    &&& r.file@ == file@
                    &&& r.line == line
                    &&& r.date@ == rfc3339_utc(r.timestamp as int)
                    &&& fans_out(self.spec_handlers(), r, out@)
                },
            self.spec_handlers().len() == 0 ==> out@.len() == 0,
    {
        if !self.enabled(level) {
            return Vec::new();
        }
        let record = ExtendedLogRecord::new(file, level, line, module, msg, target);
        self.log_record(&record)
    }
}

/// Handlers registered one after the other get their outcomes in that order: when the
/// registry is `earlier` followed by `a` then `b`, the outcome at `earlier.len()` is the
/// one of `a` and the outcome just after it the one of `b`.
pub proof fn lemma_registration_order<F, P>(
    earlier: Seq<Handler<F, P>>,
    a: Handler<F, P>,
    b: Handler<F, P>,
    r: ExtendedLogRecord,
    out: Seq<Option<String>>,
) where
    F: Fn(&ExtendedLogRecord) -> String,
    P: Fn(&ExtendedLogRecord) -> bool,

    requires
        fans_out(earlier.push(a).push(b), r, out),
    ensures
        out.len() == earlier.len() + 2,
        handler_outcome(a, r, out[earlier.len() as int]),
        handler_outcome(b, r, out[earlier.len() + 1int]),
{
    let hs = earlier.push(a).push(b);
    assert(hs[earlier.len() as int] == a);
    assert(hs[earlier.len() + 1int] == b);
    assert(handler_outcome(hs[earlier.len() as int], r, out[earlier.len() as int]));
    assert(handler_outcome(hs[earlier.len() + 1int], r, out[earlier.len() + 1int]));
}

} // verus!
