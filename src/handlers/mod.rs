//! Handlers: each decides whether a record reaches its destination and renders it.
pub mod streams;

use vstd::prelude::*;
use crate::handlers::streams::file::FileHandler;
use crate::handlers::streams::net::TCPHandler;
use crate::handlers::streams::stdout::StdoutHandler;
use crate::handlers::streams::stream_outcome;
use crate::record::ExtendedLogRecord;

verus! {

/// The filtering operation of a handler.
pub trait Filter {
    /// The handler can evaluate its filters on every record.
    spec fn can_filter(&self) -> bool;

    /// Whether the record passes the handler's filters.
    fn filter(&self, record: &ExtendedLogRecord) -> bool
        requires
            self.can_filter(),
    ;
}

/// The operations of a handler.
pub trait Handle {
    /// The handler can filter and render every record.
    spec fn can_handle(&self) -> bool;

    /// Decides whether the record is emitted; gives its rendering if it is.
    fn handle(&self, record: &ExtendedLogRecord) -> Option<String>
        requires
            self.can_handle(),
            record.wf(),
    ;

    /// Renders the record for the handler's destination.
    fn emit(&self, record: &ExtendedLogRecord) -> String
        requires
            self.can_handle(),
    ;
}

/// A handler that accepts every record and emits nothing.
#[derive(PartialEq, Eq, Structural)]
pub struct NullHandler;

impl Filter for NullHandler {
    open spec fn can_filter(&self) -> bool {
        true
    }

    /// Accepts every record.
    fn filter(&self, record: &ExtendedLogRecord) -> (b: bool)
        ensures
            b,
    {
        true
    }
}

impl Handle for NullHandler {
    open spec fn can_handle(&self) -> bool {
        true
    }

    /// Emits nothing.
    fn handle(&self, record: &ExtendedLogRecord) -> (out: Option<String>)
        ensures
            out is None,
    {
        None
    }

    /// Renders nothing.
    fn emit(&self, record: &ExtendedLogRecord) -> (out: String)
        ensures
            out@.len() == 0,
    {
        String::new()
    }
}

/// The handlers a logger can hold.
pub enum Handler<F, P> {
    /// Emits nothing.
    Null(NullHandler),
    /// Emits to the standard output.
    Stdout(StdoutHandler<F, P>),
    /// Emits to a file.
    File(FileHandler<F, P>),
    /// Emits to a TCP connection.
    TCP(TCPHandler<F, P>),
}

/// What handling `r` with `h` may give, as the handler's own `handle` says.
pub open spec fn handler_outcome<F, P>(
    h: Handler<F, P>,
    r: ExtendedLogRecord,
    out: Option<String>,
) -> bool where
    F: Fn(&ExtendedLogRecord) -> String,
    P: Fn(&ExtendedLogRecord) -> bool,
{
    match h {
        Handler::Null(_) => out is None,
        Handler::Stdout(s) => stream_outcome(s.level, s.filters@, s.formatter, r, out),
        Handler::File(s) => stream_outcome(s.level, s.filters@, s.formatter, r, out),
        Handler::TCP(s) => stream_outcome(s.level, s.filters@, s.formatter, r, out),
    }
}

impl<F, P> Handler<F, P> where
    F: Fn(&ExtendedLogRecord) -> String,
    P: Fn(&ExtendedLogRecord) -> bool,
{
    /// The handler can filter and render every record.
    pub open spec fn ready(&self) -> bool {
        match self {
            Handler::Null(_) => true,
            Handler::Stdout(s) => s.ready(),
            Handler::File(s) => s.ready(),
            Handler::TCP(s) => s.ready(),
        }
    }

    /// Handles the record with the handler this value holds.
    pub fn handle(&self, record: &ExtendedLogRecord) -> (out: Option<String>)
        requires
            self.ready(),
            record.wf(),
        ensures
            handler_outcome(*self, *record, out),
    {
        match self {
            Handler::Null(h) => h.handle(record),
            Handler::Stdout(h) => h.handle(record),
            Handler::File(h) => h.handle(record),
            Handler::TCP(h) => h.handle(record),
        }
    }
}

impl<F, P> From<NullHandler> for Handler<F, P> {
    fn from(hdlr: NullHandler) -> (h: Handler<F, P>) {
        Handler::Null(hdlr)
    }
}

impl<F, P> vstd::std_specs::convert::FromSpecImpl<NullHandler> for Handler<F, P> {
    open spec fn obeys_from_spec() -> bool {
        true
    }

    open spec fn from_spec(v: NullHandler) -> Handler<F, P> {
        Handler::Null(v)
    }
}

impl<F, P> From<StdoutHandler<F, P>> for Handler<F, P> {
    fn from(hdlr: StdoutHandler<F, P>) -> (h: Handler<F, P>) {
        Handler::Stdout(hdlr)
    }
}

impl<F, P> vstd::std_specs::convert::FromSpecImpl<StdoutHandler<F, P>> for Handler<F, P> {
    open spec fn obeys_from_spec() -> bool {
        true
    }

    open spec fn from_spec(v: StdoutHandler<F, P>) -> Handler<F, P> {
        Handler::Stdout(v)
    }
}

impl<F, P> From<FileHandler<F, P>> for Handler<F, P> {
    fn from(hdlr: FileHandler<F, P>) -> (h: Handler<F, P>) {
        Handler::File(hdlr)
    }
}

impl<F, P> vstd::std_specs::convert::FromSpecImpl<FileHandler<F, P>> for Handler<F, P> {
    open spec fn obeys_from_spec() -> bool {
        true
    }

    open spec fn from_spec(v: FileHandler<F, P>) -> Handler<F, P> {
        Handler::File(v)
    }
}

impl<F, P> From<TCPHandler<F, P>> for Handler<F, P> {
    fn from(hdlr: TCPHandler<F, P>) -> (h: Handler<F, P>) {
        Handler::TCP(hdlr)
    }
}

impl<F, P> vstd::std_specs::convert::FromSpecImpl<TCPHandler<F, P>> for Handler<F, P> {
    open spec fn obeys_from_spec() -> bool {
        true
    }

    open spec fn from_spec(v: TCPHandler<F, P>) -> Handler<F, P> {
        Handler::TCP(v)
    }
}

} // verus!
