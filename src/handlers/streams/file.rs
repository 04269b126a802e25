//! Handlers for files opened for appending.
use vstd::prelude::*;
use crate::handlers::streams::{threshold_of, StreamHandler};
use crate::level::LevelFilter;

verus! {

/// Names a file, to be created if missing and appended to.
pub struct FileSink {
    /// The path of the file.
    pub path: String,
}

/// A handler whose records are for a file.
pub type FileHandler<F, P> = StreamHandler<FileSink, F, P>;

impl<F, P> StreamHandler<FileSink, F, P> {
    /// A handler for the file at `filename` with no filters; its threshold is `level`, `Off`
    /// where none is given.
    pub fn new(filename: &str, level: Option<LevelFilter>, formatter: Option<F>) -> (h:
        FileHandler<F, P>)
        ensures
            h.filters@.len() == 0,
            h.formatter == formatter,
            h.level == threshold_of(level),
            h.stream.path@ == filename@,
    {
        let threshold = match level {
            Some(l) => l,
            None => LevelFilter::Off,
        };
        StreamHandler {
            filters: Vec::new(),
            formatter,
            level: threshold,
            stream: FileSink { path: String::from_str(filename) },
        }
    }
}

} // verus!
