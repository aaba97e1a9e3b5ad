//! The two enumerations understood by the platform's feedback performer, and
//! the request that is handed to it.
use vstd::prelude::*;

verus! {

/// The qualitative feel of a feedback pulse.
#[derive(Clone, Copy, Debug, PartialEq, Eq, Structural)]
pub enum HapticPattern {
    Alignment,
    LevelChange,
    Generic,
}

/// When, relative to the current draw cycle, a feedback pulse fires.
#[derive(Clone, Copy, Debug, PartialEq, Eq, Structural)]
pub enum PerformanceTime {
    Default,
    Now,
    DrawCompleted,
}

/// The value the native performer uses for a pattern.
pub open spec fn pattern_native_spec(p: HapticPattern) -> isize {
    match p {
        HapticPattern::Generic => 0,
        HapticPattern::Alignment => 1,
        HapticPattern::LevelChange => 2,
    }
}

/// The value the native performer uses for a performance time.
pub open spec fn time_native_spec(t: PerformanceTime) -> usize {
    match t {
        PerformanceTime::Default => 0,
        PerformanceTime::Now => 1,
        PerformanceTime::DrawCompleted => 2,
    }
}

impl HapticPattern {
    /// The `NSHapticFeedbackPattern` value of this pattern.
    pub fn native_value(self) -> (r: isize)
        ensures
            r == pattern_native_spec(self),
    {
        match self {
            HapticPattern::Generic => 0,
            HapticPattern::Alignment => 1,
            HapticPattern::LevelChange => 2,
        }
    }
}

impl PerformanceTime {
    /// The `NSHapticFeedbackPerformanceTime` value of this timing.
    pub fn native_value(self) -> (r: usize)
        ensures
            r == time_native_spec(self),
    {
        match self {
            PerformanceTime::Default => 0,
            PerformanceTime::Now => 1,
            PerformanceTime::DrawCompleted => 2,
        }
    }
}

/// The timing used when a caller gives none: immediate feedback. This is a
/// different thing from the explicit `PerformanceTime::Default` value.
pub open spec fn resolve_time_spec(t: Option<PerformanceTime>) -> PerformanceTime {
    match t {
        Some(t) => t,
        None => PerformanceTime::Now,
    }
}

/// The arguments of one native feedback call, with the timing resolved.
#[derive(Clone, Copy, Debug, PartialEq, Eq, Structural)]
pub struct FeedbackRequest {
    pub pattern: HapticPattern,
    pub performance_time: PerformanceTime,
}

impl FeedbackRequest {
    /// Builds the call for `pattern`; an omitted timing becomes `Now`.
    pub fn resolve(pattern: HapticPattern, performance_time: Option<PerformanceTime>) -> (r:
        FeedbackRequest)
        ensures
            r.pattern == pattern,
            r.performance_time == resolve_time_spec(performance_time),
    {
        let ptime = match performance_time {
            Some(t) => t,
            None => PerformanceTime::Now,
        };
        FeedbackRequest { pattern, performance_time: ptime }
    }

    /// The pair of native values handed to the platform performer.
    pub fn native_values(&self) -> (r: (isize, usize))
        ensures
            r.0 == pattern_native_spec(self.pattern),
            r.1 == time_native_spec(self.performance_time),
    {
        (self.pattern.native_value(), self.performance_time.native_value())
    }
}

} // verus!
