//! Spans of wall-clock time, as whole seconds and a fraction in nanoseconds.

use vstd::prelude::*;
use duration_string::DurationString;
use core::time::Duration;
use crate::text::decimal;

verus! {

/// The number of nanoseconds in a second.
pub const NANOS_PER_SEC: u32 = 1_000_000_000;

/// A span of time: `secs` whole seconds and `subsec_nanos` nanoseconds, the
/// latter always less than a second.
#[derive(Clone, Copy, Debug, PartialEq, Eq, Structural)]
pub struct TimeSpan {
    secs: u64,
    subsec_nanos: u32,
}

/// A number and the unit it counts.
pub open spec fn counted(number: nat, unit: Seq<char>) -> Seq<char> {
    decimal(number) + unit
}

/// The text of the span of `secs` seconds and `subsec_nanos` nanoseconds: the
/// span counted in the largest unit that divides it, among the year of
/// 31 556 926 seconds, the week, the day, the hour, the minute, the second,
/// the millisecond and the microsecond, and in nanoseconds where none does.
/// So 90 seconds are `90s`, 60 seconds `1m`, and no time at all `0y`.
pub open spec fn span_text(secs: u64, subsec_nanos: u32) -> Seq<char> {
    let ns = (secs * 1_000_000_000 + subsec_nanos) as nat;
    if ns % 31_556_926_000_000_000 == 0 {
        counted(ns / 31_556_926_000_000_000, "y"@)
    } else if ns % 604_800_000_000_000 == 0 {
        counted(ns / 604_800_000_000_000, "w"@)
    } else if ns % 86_400_000_000_000 == 0 {
        counted(ns / 86_400_000_000_000, "d"@)
    } else if ns % 3_600_000_000_000 == 0 {
        counted(ns / 3_600_000_000_000, "h"@)
    } else if ns % 60_000_000_000 == 0 {
        counted(ns / 60_000_000_000, "m"@)
    } else if ns % 1_000_000_000 == 0 {
        counted(ns / 1_000_000_000, "s"@)
    } else if ns % 1_000_000 == 0 {
        counted(ns / 1_000_000, "ms"@)
    } else if ns % 1_000 == 0 {
        counted(ns / 1_000, "us"@)
    } else {
        counted(ns, "ns"@)
    }
}

/// Calls `DurationString::new` on `Duration::new(secs, subsec_nanos)` and
/// renders it with `to_string`. The contract states the text that
/// `duration_string` writes: it divides the span's nanoseconds by the first
/// of its units that leaves no remainder, writes the quotient in decimal and
/// appends the unit's letters. With a fraction below one second
/// `Duration::new` carries nothing into the seconds and cannot overflow.
#[verifier::external_body]
fn render_span(secs: u64, subsec_nanos: u32) -> (text: String)
    requires
        subsec_nanos < NANOS_PER_SEC,
    ensures
        text@ == span_text(secs, subsec_nanos),
{
    DurationString::new(Duration::new(secs, subsec_nanos)).to_string()
}

impl TimeSpan {
    #[verifier::type_invariant]
    spec fn fraction_in_range(self) -> bool {
        self.subsec_nanos < NANOS_PER_SEC
    }

    /// The whole seconds of the span.
    pub closed spec fn spec_secs(&self) -> u64 {
        self.secs
    }

    /// The nanoseconds of the span beyond its whole seconds.
    pub closed spec fn spec_subsec_nanos(&self) -> u32 {
        self.subsec_nanos
    }

    /// The span in nanoseconds.
    pub open spec fn nanos(self) -> nat {
        (self.spec_secs() * NANOS_PER_SEC + self.spec_subsec_nanos()) as nat
    }

    /// The span of `secs` seconds and `subsec_nanos` nanoseconds; none where
    /// the fraction is a second or more.
    pub fn new(secs: u64, subsec_nanos: u32) -> (span: Option<TimeSpan>)
        ensures
            span is Some <==> subsec_nanos < NANOS_PER_SEC,
            span matches Some(s) ==> s.spec_secs() == secs && s.spec_subsec_nanos()
                == subsec_nanos,
    {
        if subsec_nanos < NANOS_PER_SEC {
            Some(TimeSpan { secs, subsec_nanos })
        } else {
            None
        }
    }

    /// The span of `secs` whole seconds.
    pub fn from_secs(secs: u64) -> (span: TimeSpan)
        ensures
            span.spec_secs() == secs,
            span.spec_subsec_nanos() == 0,
    {
        TimeSpan { secs, subsec_nanos: 0 }
    }

    /// The whole seconds of the span.
    #[verifier::when_used_as_spec(spec_secs)]
    pub fn secs(&self) -> (secs: u64)
        ensures
            secs == self.spec_secs(),
    {
        self.secs
    }

    /// The nanoseconds of the span beyond its whole seconds.
    #[verifier::when_used_as_spec(spec_subsec_nanos)]
    pub fn subsec_nanos(&self) -> (nanos: u32)
        ensures
            nanos == self.spec_subsec_nanos(),
            nanos < NANOS_PER_SEC,
    {
        proof {
            use_type_invariant(self);
        }
        self.subsec_nanos
    }

    /// The span in nanoseconds.
    pub fn as_nanos(&self) -> (nanos: u128)
        ensures
            nanos == self.nanos(),
    {
        assert(NANOS_PER_SEC == 1_000_000_000);
        self.secs as u128 * 1_000_000_000u128 + self.subsec_nanos as u128
    }

    /// Whether `elapsed_nanos` nanoseconds have used the span up.
    pub fn is_over(&self, elapsed_nanos: u128) -> (over: bool)
        ensures
            over == (elapsed_nanos >= self.nanos()),
    {
        elapsed_nanos >= self.as_nanos()
    }

    /// The span as text, as `duration_string` writes it.
    pub fn text(&self) -> (text: String)
        ensures
            text@ == span_text(self.spec_secs(), self.spec_subsec_nanos()),
    {
        proof {
            use_type_invariant(self);
        }
        render_span(self.secs, self.subsec_nanos)
    }
}

} // verus!
