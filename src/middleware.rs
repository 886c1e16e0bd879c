use vstd::prelude::*;

use crate::json::{decimal, int_text};

verus! {

/// Microseconds elapsed from `start` to `end`, both counted from one epoch.
pub fn elapsed_micros(start: i64, end: i64) -> (r: i128)
    ensures
        r == end - start,
{
    end as i128 - start as i128
}

/// The log line of one request: `[timestamp] METHOD URI ELAPSED_MICROSECONDS`.
pub open spec fn log_text(timestamp: Seq<char>, method: Seq<char>, uri: Seq<char>, elapsed: int) -> Seq<
    char,
> {
    "["@ + timestamp + "] "@ + method + " "@ + uri + " "@ + int_text(elapsed)
}

/// Writes the log line of one request.
pub fn log_line(timestamp: &str, method: &str, uri: &str, elapsed: i128) -> (r: String)
    ensures
        r@ == log_text(timestamp@, method@, uri@, elapsed as int),
{
    let mut line = String::from_str("[");
    line.append(timestamp);
    line.append("] ");
    line.append(method);
    line.append(" ");
    line.append(uri);
    line.append(" ");
    let digits = decimal(elapsed);
    line.append(digits.as_str());
    line
}

/// A service wrapped so that each request it answers is timed and logged.
/// It owns the wrapped service and has no other state.
pub struct Log<S> {
    upstream: S,
}

impl<S> Log<S> {
    /// The wrapped service.
    pub closed spec fn upstream_of(&self) -> S {
        self.upstream
    }

    /// Wraps `upstream`.
    pub fn new(upstream: S) -> (r: Log<S>)
        ensures
            r.upstream_of() == upstream,
    {
        Log { upstream }
    }

    /// The wrapped service, to which each request is handed on.
    pub fn upstream(&self) -> (r: &S)
        ensures
            *r == self.upstream_of(),
    {
        &self.upstream
    }

    /// Closes one request once the wrapped service's result has resolved:
    /// hands that result back unchanged, with the line to log for it.
    /// `started` and `ended` are the clock readings, in microseconds, at entry
    /// and at resolution.
    pub fn complete<T>(
        &self,
        outcome: T,
        timestamp: &str,
        method: &str,
        uri: &str,
        started: i64,
        ended: i64,
    ) -> (r: (T, String))
        ensures
            r.0 == outcome,
            r.1@ == log_text(timestamp@, method@, uri@, ended - started),
    {
        let elapsed = elapsed_micros(started, ended);
        let line = log_line(timestamp, method, uri, elapsed);
        (outcome, line)
    }
}

} // verus!
