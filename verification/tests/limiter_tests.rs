use reaper_core::gauges::{LimitError, LimitPreset, LimitType};
use reaper_core::limiter::{
    calculate_allowed_cores, calculate_nice_from_limit, limit_to_preset, limit_type_for,
    priority_error, validate_limit, ProcessCpuLimiter,
};

#[test]
fn test_nice_calculation() {
    assert_eq!(calculate_nice_from_limit(80_000), 0);
    assert_eq!(calculate_nice_from_limit(60_000), 5);
    assert_eq!(calculate_nice_from_limit(30_000), 10);
    assert_eq!(calculate_nice_from_limit(15_000), 15);
    assert_eq!(calculate_nice_from_limit(5_000), 19);
}

#[test]
fn test_nice_bands_are_exact() {
    assert_eq!(calculate_nice_from_limit(75_000), 0);
    assert_eq!(calculate_nice_from_limit(74_999), 5);
    assert_eq!(calculate_nice_from_limit(50_000), 5);
    assert_eq!(calculate_nice_from_limit(49_999), 10);
    assert_eq!(calculate_nice_from_limit(25_000), 10);
    assert_eq!(calculate_nice_from_limit(24_999), 15);
    assert_eq!(calculate_nice_from_limit(10_000), 15);
    assert_eq!(calculate_nice_from_limit(9_999), 19);
    assert_eq!(calculate_nice_from_limit(0), 19);
    assert_eq!(calculate_nice_from_limit(u64::MAX), 0);
}

#[test]
fn test_core_calculation() {
    assert_eq!(calculate_allowed_cores(100_000, 8), 8);
    assert_eq!(calculate_allowed_cores(50_000, 8), 4);
    assert_eq!(calculate_allowed_cores(25_000, 8), 2);
    assert_eq!(calculate_allowed_cores(10_000, 8), 1);
}

#[test]
fn test_core_calculation_rounds_up_and_is_bounded() {
    assert_eq!(calculate_allowed_cores(12_500, 8), 1);
    assert_eq!(calculate_allowed_cores(12_501, 8), 2);
    assert_eq!(calculate_allowed_cores(0, 8), 1);
    assert_eq!(calculate_allowed_cores(1, 8), 1);
    assert_eq!(calculate_allowed_cores(200_000, 8), 8);
    assert_eq!(calculate_allowed_cores(u64::MAX, usize::MAX), usize::MAX);
    assert_eq!(calculate_allowed_cores(50_000, 1), 1);
    assert_eq!(calculate_allowed_cores(50_000, 0), 0);
}

#[test]
fn test_limit_validation() {
    assert!(validate_limit(1_000).is_ok());
    assert!(validate_limit(100_000).is_ok());
    assert!(matches!(validate_limit(999), Err(LimitError::InvalidLimit)));
    assert!(matches!(validate_limit(100_001), Err(LimitError::InvalidLimit)));
    assert!(matches!(validate_limit(0), Err(LimitError::InvalidLimit)));
}

#[test]
fn test_priority_errors() {
    assert!(matches!(priority_error(1), LimitError::PermissionDenied));
    assert!(matches!(priority_error(3), LimitError::ProcessNotFound));
    match priority_error(22) {
        LimitError::SystemError(m) => assert_eq!(m, "errno: 22"),
        other => panic!("unexpected: {:?}", other),
    }
}

#[test]
fn test_limit_kinds_and_presets() {
    assert_eq!(limit_type_for(false, false), LimitType::Nice);
    assert_eq!(limit_type_for(true, false), LimitType::CpuLimit);
    assert_eq!(limit_type_for(false, true), LimitType::Affinity);
    assert_eq!(limit_type_for(true, true), LimitType::Combined);
    assert_eq!(limit_to_preset(LimitPreset::High), 75_000);
    assert_eq!(limit_to_preset(LimitPreset::Medium), 50_000);
    assert_eq!(limit_to_preset(LimitPreset::Low), 25_000);
    assert_eq!(limit_to_preset(LimitPreset::Minimal), 10_000);
}

#[test]
fn test_limit_book() {
    let mut limiter = ProcessCpuLimiter::new();
    assert_eq!(limiter.known_tool_availability(), None);
    limiter.note_tool_availability(true);
    assert_eq!(limiter.known_tool_availability(), Some(true));
    assert!(!limiter.has_limit(5));
    assert!(matches!(limiter.remove_limit(5), Err(LimitError::ProcessNotFound)));

    let first = limiter.record_limit(5, 30_000, -2, true, false);
    assert_eq!(first.pid, 5);
    assert_eq!(first.nice_value, 10);
    assert_eq!(first.original_nice, Some(-2));
    assert_eq!(first.limit_type, LimitType::CpuLimit);
    assert_eq!(first.affinity_mask, None);
    limiter.record_limit(6, 80_000, 0, false, false);
    // A new limit for a process takes the place of the old one.
    limiter.record_limit(5, 10_000, 10, false, false);
    let all = limiter.get_limits();
    assert_eq!(all.len(), 2);
    assert_eq!(all[0].pid, 5);
    assert_eq!(all[0].max_cpu, 10_000);
    assert_eq!(all[0].nice_value, 15);
    assert_eq!(all[1].pid, 6);
    assert!(limiter.has_limit(5));

    let removal = limiter.remove_limit(5).expect("removal");
    assert_eq!(removal.restore_nice, Some(10));
    assert!(!removal.stop_tool);
    assert!(!limiter.has_limit(5));
    assert!(limiter.has_limit(6));
    limiter.record_limit(7, 50_000, 3, true, true);
    let removal = limiter.remove_limit(7).expect("removal");
    assert_eq!(removal.restore_nice, Some(3));
    assert!(removal.stop_tool);
    assert_eq!(limiter.get_limits().len(), 1);
}
