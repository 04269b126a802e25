//! Handlers for an outbound TCP connection.
use vstd::prelude::*;
use crate::handlers::streams::{threshold_of, StreamHandler};
use crate::level::LevelFilter;

verus! {

/// Names a TCP peer, as `host:port`, to be connected to once.
pub struct TcpSink {
    /// The address of the peer.
    pub address: String,
}

/// A handler whose records are for a TCP connection.
pub type TCPHandler<F, P> = StreamHandler<TcpSink, F, P>;

impl<F, P> StreamHandler<TcpSink, F, P> {
    /// A handler for a connection to `address` with no filters; its threshold is `level`,
    /// `Off` where none is given.
    pub fn new(address: &str, level: Option<LevelFilter>, formatter: Option<F>) -> (h:
        TCPHandler<F, P>)
        ensures
            h.filters@.len() == 0,
            h.formatter == formatter,
            h.level == threshold_of(level),
            h.stream.address@ == address@,
    {
        let threshold = match level {
            Some(l) => l,
            None => LevelFilter::Off,
        };
        StreamHandler {
            filters: Vec::new(),
            formatter,
            level: threshold,
            stream: TcpSink { address: String::from_str(address) },
        }
    }
}

} // verus!
