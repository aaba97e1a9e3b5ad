use tauri_macos_haptics::commands::{perform, pattern_from_u64, performance_time_from_u64};
use tauri_macos_haptics::haptics::{FeedbackRequest, HapticPattern, PerformanceTime};
use tauri_macos_haptics::{is_supported, HapticsError, Platform};

#[test]
fn pattern_codes_decode() {
    assert_eq!(pattern_from_u64(0), HapticPattern::Alignment);
    assert_eq!(pattern_from_u64(1), HapticPattern::LevelChange);
    assert_eq!(pattern_from_u64(2), HapticPattern::Generic);
    assert_eq!(pattern_from_u64(999), HapticPattern::Generic);
}

#[test]
fn unknown_pattern_codes_fall_back_to_generic() {
    for code in [3u64, 4, 100, 1 << 32, u64::MAX] {
        assert_eq!(pattern_from_u64(code), HapticPattern::Generic);
    }
}

#[test]
fn timing_codes_decode() {
    assert_eq!(performance_time_from_u64(0), PerformanceTime::Default);
    assert_eq!(performance_time_from_u64(1), PerformanceTime::Now);
    assert_eq!(performance_time_from_u64(2), PerformanceTime::DrawCompleted);
    assert_eq!(performance_time_from_u64(42), PerformanceTime::Default);
}

#[test]
fn unknown_timing_codes_fall_back_to_default() {
    for code in [3u64, 7, 1 << 40, u64::MAX] {
        assert_eq!(performance_time_from_u64(code), PerformanceTime::Default);
    }
}

#[test]
fn unsupported_platform_refuses_every_command() {
    assert!(!is_supported(Platform::Other));
    for pattern in [0u64, 1, 2, 3, u64::MAX] {
        for time in [0u64, 1, 2, 3, u64::MAX] {
            assert_eq!(
                perform(Platform::Other, pattern, time),
                Err(HapticsError::UnsupportedPlatform)
            );
        }
    }
}

#[test]
fn unsupported_platform_message() {
    assert_eq!(
        HapticsError::UnsupportedPlatform.message(),
        "Haptic feedback is only supported on macOS."
    );
}

#[test]
fn capable_platform_is_supported() {
    assert!(is_supported(Platform::MacOs));
}

#[test]
fn omitted_timing_resolves_to_now() {
    for pattern in [HapticPattern::Alignment, HapticPattern::LevelChange, HapticPattern::Generic] {
        let request = FeedbackRequest::resolve(pattern, None);
        assert_eq!(request.pattern, pattern);
        assert_eq!(request.performance_time, PerformanceTime::Now);
    }
}

#[test]
fn explicit_default_timing_is_kept() {
    let request = FeedbackRequest::resolve(HapticPattern::Generic, Some(PerformanceTime::Default));
    assert_eq!(request.performance_time, PerformanceTime::Default);
    let request =
        FeedbackRequest::resolve(HapticPattern::Alignment, Some(PerformanceTime::DrawCompleted));
    assert_eq!(request.performance_time, PerformanceTime::DrawCompleted);
}

#[test]
fn capable_platform_performs_decoded_codes() {
    assert_eq!(
        perform(Platform::MacOs, 0, 2),
        Ok(FeedbackRequest {
            pattern: HapticPattern::Alignment,
            performance_time: PerformanceTime::DrawCompleted,
        })
    );
    assert_eq!(
        perform(Platform::MacOs, 1, 0),
        Ok(FeedbackRequest {
            pattern: HapticPattern::LevelChange,
            performance_time: PerformanceTime::Default,
        })
    );
    assert_eq!(
        perform(Platform::MacOs, 999, 42),
        Ok(FeedbackRequest {
            pattern: HapticPattern::Generic,
            performance_time: PerformanceTime::Default,
        })
    );
}

#[test]
fn repeated_commands_give_the_same_outcome() {
    for platform in [Platform::MacOs, Platform::Other] {
        for (pattern, time) in [(0u64, 0u64), (1, 1), (2, 2), (5, 9)] {
            let first = perform(platform, pattern, time);
            let second = perform(platform, pattern, time);
            let third = perform(platform, pattern, time);
            assert_eq!(first, second);
            assert_eq!(second, third);
            assert_eq!(first.is_ok(), platform == Platform::MacOs);
        }
    }
}

#[test]
fn native_pattern_values() {
    assert_eq!(HapticPattern::Generic.native_value(), 0);
    assert_eq!(HapticPattern::Alignment.native_value(), 1);
    assert_eq!(HapticPattern::LevelChange.native_value(), 2);
}

#[test]
fn native_timing_values() {
    assert_eq!(PerformanceTime::Default.native_value(), 0);
    assert_eq!(PerformanceTime::Now.native_value(), 1);
    assert_eq!(PerformanceTime::DrawCompleted.native_value(), 2);
}

#[test]
fn native_values_of_a_decoded_command() {
    let request = perform(Platform::MacOs, 0, 1).unwrap();
    assert_eq!(request.native_values(), (1, 1));
    let request = perform(Platform::MacOs, 2, 0).unwrap();
    assert_eq!(request.native_values(), (0, 0));
    let request = FeedbackRequest::resolve(HapticPattern::LevelChange, None);
    assert_eq!(request.native_values(), (2, 1));
}
