//! Handlers that render records for a byte stream.
//!
//! A `StreamHandler` decides whether a record is emitted and renders what is emitted; the
//! stream itself is named by `stream` and written by whoever holds it open.
pub mod file;
pub mod net;
pub mod stdout;

use vstd::prelude::*;
use crate::formatter::debug_text;
use crate::handlers::{Filter, Handle};
use crate::level::LevelFilter;
use crate::record::ExtendedLogRecord;

verus! {

/// The first `n` filters all return true on `r`.
pub open spec fn chain_accepts<P: Fn(&ExtendedLogRecord) -> bool>(
    filters: Seq<P>,
    r: ExtendedLogRecord,
    n: int,
) -> bool {
    forall|j: int| 0 <= j < n ==> call_ensures(#[trigger] filters[j], (&r,), true)
}

/// Evaluated in order, the filters stop at filter `k`: it returns false on `r` and every
/// filter before it returns true.
pub open spec fn chain_stops_at<P: Fn(&ExtendedLogRecord) -> bool>(
    filters: Seq<P>,
    r: ExtendedLogRecord,
    k: int,
) -> bool {
    &&& 0 <= k < filters.len()
    &&& chain_accepts(filters, r, k)
    &&& call_ensures(filters[k], (&r,), false)
}

/// Every filter can be called on every record.
pub open spec fn filters_callable<P: Fn(&ExtendedLogRecord) -> bool>(filters: Seq<P>) -> bool {
    forall|j: int, r: &ExtendedLogRecord|
        0 <= j < filters.len() ==> #[trigger] call_requires(filters[j], (r,))
}

/// The formatter, if any, can be called on every record.
pub open spec fn formatter_callable<F: Fn(&ExtendedLogRecord) -> String>(
    formatter: Option<F>,
) -> bool {
    formatter matches Some(f) ==> forall|r: &ExtendedLogRecord| #[trigger]
        call_requires(f, (r,))
}

/// `out` is a rendering of `r` by the formatter: the debug dump where there is none.
pub open spec fn renders<F: Fn(&ExtendedLogRecord) -> String>(
    formatter: Option<F>,
    r: ExtendedLogRecord,
    out: String,
) -> bool {
    match formatter {
        Some(f) => call_ensures(f, (&r,), out),
        None => out@ == debug_text(r),
    }
}

/// The threshold of a handler configured with `level`: `Off` where none is given.
pub open spec fn threshold_of(level: Option<LevelFilter>) -> LevelFilter {
    match level {
        Some(l) => l,
        None => LevelFilter::Off,
    }
}

/// What handling `r` may give: nothing for a level the threshold refuses; otherwise a
/// rendering when the whole filter chain accepts `r`, and nothing when the chain stops at
/// some filter.
pub open spec fn stream_outcome<F, P>(
    level: LevelFilter,
    filters: Seq<P>,
    formatter: Option<F>,
    r: ExtendedLogRecord,
    out: Option<String>,
) -> bool where
    F: Fn(&ExtendedLogRecord) -> String,
    P: Fn(&ExtendedLogRecord) -> bool,
{
    if !level.spec_allows(r.spec_level()) {
        out is None
    } else {
        match out {
            Some(s) => chain_accepts(filters, r, filters.len() as int) && renders(formatter, r, s),
            None => exists|k: int| chain_stops_at(filters, r, k),
        }
    }
}

/// A handler that renders records for the stream named by `stream`.
pub struct StreamHandler<S, F, P> {
    /// The filter chain, in the order the filters were added.
    pub filters: Vec<P>,
    /// The formatter; the debug dump where there is none.
    pub formatter: Option<F>,
    /// The least severe level let through.
    pub level: LevelFilter,
    /// The stream the rendered records are for.
    pub stream: S,
}

impl<S, F, P> StreamHandler<S, F, P> where
    F: Fn(&ExtendedLogRecord) -> String,
    P: Fn(&ExtendedLogRecord) -> bool,
{
    /// The filters and the formatter can be called on every record.
    pub open spec fn ready(&self) -> bool {
        filters_callable(self.filters@) && formatter_callable(self.formatter)
    }

    /// Appends `filter` to the end of the filter chain.
    pub fn add_filter(&mut self, filter: P)
        ensures
            final(self).filters@ == old(self).filters@.push(filter),
            final(self).formatter == old(self).formatter,
            final(self).level == old(self).level,
            final(self).stream == old(self).stream,
    {
        self.filters.push(filter);
    }
}

impl<S, F, P> Filter for StreamHandler<S, F, P> where
    F: Fn(&ExtendedLogRecord) -> String,
    P: Fn(&ExtendedLogRecord) -> bool,
{
    open spec fn can_filter(&self) -> bool {
        filters_callable(self.filters@)
    }

    /// Evaluates the filters in order and stops at the first that returns false.
    fn filter(&self, record: &ExtendedLogRecord) -> (b: bool)
        ensures
            b ==> chain_accepts(self.filters@, *record, self.filters@.len() as int),
            !b ==> exists|k: int| chain_stops_at(self.filters@, *record, k),
    {
        let mut i: usize = 0;
        while i < self.filters.len()
            invariant
                i <= self.filters@.len(),
                filters_callable(self.filters@),
                chain_accepts(self.filters@, *record, i as int),
            decreases self.filters@.len() - i,
        {
            let passed = (self.filters[i])(record);
            if !passed {
                assert(chain_stops_at(self.filters@, *record, i as int));
                return false;
            }
            i = i + 1;
        }
        true
    }
}

impl<S, F, P> Handle for StreamHandler<S, F, P> where
    F: Fn(&ExtendedLogRecord) -> String,
    P: Fn(&ExtendedLogRecord) -> bool,
{
    open spec fn can_handle(&self) -> bool {
        self.ready()
    }

    /// Checks the level, then the filter chain, and renders the record if both let it
    /// through.
    fn handle(&self, record: &ExtendedLogRecord) -> (out: Option<String>)
        ensures
            stream_outcome(self.level, self.filters@, self.formatter, *record, out),
    {
        if self.level.allows(record.level()) && self.filter(record) {
            Some(self.emit(record))
        } else {
            None
        }
    }

    /// Renders the record with the formatter.
    fn emit(&self, record: &ExtendedLogRecord) -> (out: String)
        ensures
            renders(self.formatter, *record, out),
    {
        match &self.formatter {
            Some(f) => f(record),
            None => crate::formatter::default(record),
        }
    }
}

} // verus!
