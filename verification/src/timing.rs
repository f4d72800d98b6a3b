//! Spans of time as plain integers.

use vstd::prelude::*;

verus! {

/// Number of nanoseconds in one second.
pub const NANOS_PER_SEC: u32 = 1_000_000_000;

/// The text in which std's `Debug` writes the `std::time::Duration` of `secs`
/// seconds and `subsec_nanos` nanoseconds: the span in its largest fitting
/// unit, such as `1.5s` or `20ns`.
pub uninterp spec fn elapsed_text(secs: u64, subsec_nanos: u32) -> Seq<char>;

/// Writes a span as std's `Debug` for `std::time::Duration` does.
///
/// Calls `Duration::new` and formats the result with `{:?}`. The text depends
/// on the two numbers alone, which is all that is claimed of it. With the
/// sub-second part below one second `Duration::new` carries nothing over and
/// cannot overflow.
#[verifier::external_body]
fn debug_text(secs: u64, subsec_nanos: u32) -> (text: String)
    requires
        subsec_nanos < NANOS_PER_SEC,
    ensures
        text@ == elapsed_text(secs, subsec_nanos),
{
    format!("{:?}", std::time::Duration::new(secs, subsec_nanos))
}

/// A span of time: whole seconds plus a sub-second part in nanoseconds.
///
/// The sub-second part is always below one second, so every span has exactly
/// one representation.
#[derive(Clone, Copy, Debug, PartialEq, Eq)]
pub struct TimeSpan {
    secs: u64,
    subsec_nanos: u32,
}

impl TimeSpan {
    #[verifier::type_invariant]
    spec fn subsec_in_range(self) -> bool {
        self.subsec_nanos < NANOS_PER_SEC
    }

    /// Whole seconds of the span.
    pub closed spec fn spec_secs(self) -> u64 {
        self.secs
    }

    /// Sub-second part of the span, in nanoseconds.
    pub closed spec fn spec_subsec_nanos(self) -> u32 {
        self.subsec_nanos
    }

    /// A span of `secs` whole seconds.
    pub fn from_secs(secs: u64) -> (span: TimeSpan)
        ensures
            span.spec_secs() == secs,
            span.spec_subsec_nanos() == 0,
    {
        TimeSpan { secs, subsec_nanos: 0 }
    }

    /// A span of `secs` seconds and `subsec_nanos` nanoseconds, or `None` when
    /// the sub-second part is a second or more.
    pub fn new(secs: u64, subsec_nanos: u32) -> (span: Option<TimeSpan>)
        ensures
            span is Some <==> subsec_nanos < NANOS_PER_SEC,
            span matches Some(s) ==> s.spec_secs() == secs && s.spec_subsec_nanos() == subsec_nanos,
    {
        if subsec_nanos < NANOS_PER_SEC {
            Some(TimeSpan { secs, subsec_nanos })
        } else {
            None
        }
    }

    /// Whole seconds of the span.
    #[verifier::when_used_as_spec(spec_secs)]
    pub fn secs(self) -> (secs: u64)
        ensures
            secs == self.spec_secs(),
    {
        self.secs
    }

    /// The span written for a reader, in its largest fitting unit.
    pub fn to_text(self) -> (text: String)
        ensures
            text@ == elapsed_text(self.spec_secs(), self.spec_subsec_nanos()),
    {
        proof {
            use_type_invariant(&self);
        }
        debug_text(self.secs, self.subsec_nanos)
    }

    /// Sub-second part of the span, in nanoseconds; always below one second.
    #[verifier::when_used_as_spec(spec_subsec_nanos)]
    pub fn subsec_nanos(self) -> (nanos: u32)
        ensures
            nanos == self.spec_subsec_nanos(),
            nanos < NANOS_PER_SEC,
    {
        proof {
            use_type_invariant(&self);
        }
        self.subsec_nanos
    }
}

} // verus!
