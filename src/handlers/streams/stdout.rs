//! Handlers for the process's standard output.
use vstd::prelude::*;
use crate::handlers::streams::{threshold_of, StreamHandler};
use crate::level::LevelFilter;

verus! {

/// Names the standard output of the process.
#[derive(PartialEq, Eq, Structural)]
pub struct StdoutSink;

/// A handler whose records are for the standard output.
pub type StdoutHandler<F, P> = StreamHandler<StdoutSink, F, P>;

impl<F, P> StreamHandler<StdoutSink, F, P> {
    /// A handler for the standard output with no filters; its threshold is `level`, `Off`
    /// where none is given.
    pub fn new(level: Option<LevelFilter>, formatter: Option<F>) -> (h: StdoutHandler<F, P>)
        ensures
            h.filters@.len() == 0,
            h.formatter == formatter,
            h.level == threshold_of(level),
    {
        let threshold = match level {
            Some(l) => l,
            None => LevelFilter::Off,
        };
        StreamHandler { filters: Vec::new(), formatter, level: threshold, stream: StdoutSink }
    }
}

} // verus!
