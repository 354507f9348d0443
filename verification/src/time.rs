//! Spans of time as whole seconds and nanoseconds, the value that a
//! `std::time::Duration` holds.
use vstd::prelude::*;

verus! {

/// A span of time: whole seconds and the nanoseconds beyond them.
#[derive(Clone, Copy, Debug, PartialEq, Eq, Structural)]
pub struct Timespan {
    /// Whole seconds.
    pub secs: u64,
    /// Nanoseconds beyond the whole seconds, below one second.
    pub nanos: u32,
}

impl Timespan {
    /// The span is well formed: fewer nanoseconds than one second.
    pub open spec fn wf(self) -> bool {
        self.nanos < 1_000_000_000
    }

    /// Whole milliseconds of the span (`Duration::as_millis`).
    pub open spec fn millis(self) -> nat {
        self.secs as nat * 1000 + self.nanos as nat / 1_000_000
    }

    /// A span of the given seconds and nanoseconds; `None` when the
    /// nanoseconds are one second or more.
    pub fn new(secs: u64, nanos: u32) -> (r: Option<Timespan>)
        ensures
            r is Some <==> nanos < 1_000_000_000,
            r matches Some(t) ==> t.secs == secs && t.nanos == nanos && t.wf(),
    {
        if nanos < 1_000_000_000 {
            Some(Timespan { secs, nanos })
        } else {
            None
        }
    }

    /// A span of whole seconds.
    pub fn from_secs(secs: u64) -> (r: Timespan)
        ensures
            r.secs == secs,
            r.nanos == 0,
    {
        Timespan { secs, nanos: 0 }
    }

    /// A span of whole milliseconds.
    pub fn from_millis(millis: u64) -> (r: Timespan)
        ensures
            r.wf(),
            r.millis() == millis,
    {
        let r = Timespan { secs: millis / 1000, nanos: ((millis % 1000) * 1_000_000) as u32 };
        assert(r.nanos as nat / 1_000_000 == millis % 1000) by (nonlinear_arith)
            requires
                r.nanos == (millis % 1000) * 1_000_000,
        ;
        r
    }

    /// Whole milliseconds of the span.
    pub fn as_millis(&self) -> (r: u128)
        ensures
            r == self.millis(),
    {
        (self.secs as u128) * 1000 + (self.nanos as u128) / 1_000_000
    }
}

} // verus!
