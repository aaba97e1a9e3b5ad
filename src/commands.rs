//! The command surface offered to a frontend: numeric codes in, a decision
//! about the native feedback call out.
use vstd::prelude::*;

use crate::haptics::{FeedbackRequest, HapticPattern, PerformanceTime, resolve_time_spec};
use crate::{HapticsError, Platform, supported};

verus! {

/// The pattern that a frontend code selects; unknown codes mean `Generic`.
pub open spec fn pattern_of_code(value: u64) -> HapticPattern {
    if value == 0 {
        HapticPattern::Alignment
    } else if value == 1 {
        HapticPattern::LevelChange
    } else {
        HapticPattern::Generic
    }
}

/// The timing that a frontend code selects; unknown codes mean `Default`.
pub open spec fn time_of_code(value: u64) -> PerformanceTime {
    if value == 1 {
        PerformanceTime::Now
    } else if value == 2 {
        PerformanceTime::DrawCompleted
    } else {
        PerformanceTime::Default
    }
}

/// What a `perform` command with the given codes leads to on `platform`.
pub open spec fn perform_outcome(platform: Platform, pattern: u64, performance_time: u64) -> Result<
    FeedbackRequest,
    HapticsError,
> {
    if supported(platform) {
        Ok(
            FeedbackRequest {
                pattern: pattern_of_code(pattern),
                performance_time: resolve_time_spec(Some(time_of_code(performance_time))),
            },
        )
    } else {
        Err(HapticsError::UnsupportedPlatform)
    }
}

/// Decodes a frontend pattern code: 0 is `Alignment`, 1 is `LevelChange`,
/// 2 and every other value `Generic`.
pub fn pattern_from_u64(value: u64) -> (r: HapticPattern)
    ensures
        r == pattern_of_code(value),
        value == 0 ==> r == HapticPattern::Alignment,
        value == 1 ==> r == HapticPattern::LevelChange,
        value >= 2 ==> r == HapticPattern::Generic,
{
    match value {
        0 => HapticPattern::Alignment,
        1 => HapticPattern::LevelChange,
        _ => HapticPattern::Generic,
    }
}

/// Decodes a frontend timing code: 0 is `Default`, 1 is `Now`, 2 is
/// `DrawCompleted`, and every other value `Default`.
pub fn performance_time_from_u64(value: u64) -> (r: PerformanceTime)
    ensures
        r == time_of_code(value),
        value == 0 ==> r == PerformanceTime::Default,
        value == 1 ==> r == PerformanceTime::Now,
        value == 2 ==> r == PerformanceTime::DrawCompleted,
        value > 2 ==> r == PerformanceTime::Default,
{
    match value {
        1 => PerformanceTime::Now,
        2 => PerformanceTime::DrawCompleted,
        _ => PerformanceTime::Default,
    }
}

/// Decides a `perform` command: on a platform without haptics it fails with
/// `UnsupportedPlatform` before decoding anything; otherwise it yields the
/// native call for the decoded pattern and timing.
pub fn perform(platform: Platform, pattern: u64, performance_time: u64) -> (r: Result<
    FeedbackRequest,
    HapticsError,
>)
    ensures
        r == perform_outcome(platform, pattern, performance_time),
        r is Ok <==> supported(platform),
        r is Ok ==> r->Ok_0.pattern == pattern_of_code(pattern) && r->Ok_0.performance_time
            == time_of_code(performance_time),
{
    if !crate::is_supported(platform) {
        return Err(HapticsError::UnsupportedPlatform);
    }
    let request = FeedbackRequest::resolve(
        pattern_from_u64(pattern),
        Some(performance_time_from_u64(performance_time)),
    );
    Ok(request)
}

/// On a platform without haptics the capability probe answers `false`, and
/// every `perform` command fails with `UnsupportedPlatform`, whatever its
/// codes, `(0, 0)` included.
pub proof fn lemma_unsupported_platform_refuses(platform: Platform, pattern: u64, performance_time: u64)
    requires
        platform == Platform::Other,
    ensures
        !supported(platform),
        perform_outcome(platform, pattern, performance_time) == Err::<FeedbackRequest, HapticsError>(
            HapticsError::UnsupportedPlatform,
        ),
{
}

/// On macOS the capability probe answers `true`, a feedback call with no
/// timing given is made with `Now`, and every `perform` command succeeds with
/// the call for its decoded codes.
pub proof fn lemma_capable_platform_defaults_to_now(
    pattern_code: u64,
    time_code: u64,
)
    ensures
        supported(Platform::MacOs),
        resolve_time_spec(None) == PerformanceTime::Now,
        perform_outcome(Platform::MacOs, pattern_code, time_code) == Ok::<
            FeedbackRequest,
            HapticsError,
        >(
            FeedbackRequest {
                pattern: pattern_of_code(pattern_code),
                performance_time: time_of_code(time_code),
            },
        ),
{
}

/// Repeating a `perform` command changes nothing: the outcome depends on the
/// platform and the two codes alone, so equal arguments give equal outcomes,
/// and whether it succeeds depends on the platform alone.
pub proof fn lemma_perform_repeatable(
    platform: Platform,
    pattern: u64,
    performance_time: u64,
    first: Result<FeedbackRequest, HapticsError>,
    second: Result<FeedbackRequest, HapticsError>,
)
    requires
        first == perform_outcome(platform, pattern, performance_time),
        second == perform_outcome(platform, pattern, performance_time),
    ensures
        first == second,
        first is Ok <==> supported(platform),
        first is Err ==> first == Err::<FeedbackRequest, HapticsError>(
            HapticsError::UnsupportedPlatform,
        ),
{
}

} // verus!
