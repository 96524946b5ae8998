use query_logger::levels::permits;
use query_logger::levels::severity_for_nanos;
use query_logger::levels::LevelCeiling;
use query_logger::levels::Severity;
use query_logger::levels::SLOW_QUERY_THRESHOLD_NANOS;

#[test]
fn severity_below_threshold_is_informational() {
    assert_eq!(severity_for_nanos(0), Severity::Informational);
    assert_eq!(
        severity_for_nanos(SLOW_QUERY_THRESHOLD_NANOS - 1),
        Severity::Informational
    );
}

#[test]
fn severity_at_and_above_threshold_is_warning() {
    assert_eq!(severity_for_nanos(SLOW_QUERY_THRESHOLD_NANOS), Severity::Warning);
    assert_eq!(severity_for_nanos(u64::MAX), Severity::Warning);
}

#[test]
fn ceilings_permit_the_expected_severities() {
    assert!(!permits(LevelCeiling::Off, Severity::Warning));
    assert!(!permits(LevelCeiling::Off, Severity::Informational));
    assert!(!permits(LevelCeiling::Error, Severity::Warning));
    assert!(!permits(LevelCeiling::Error, Severity::Informational));
    assert!(permits(LevelCeiling::Warn, Severity::Warning));
    assert!(!permits(LevelCeiling::Warn, Severity::Informational));
    assert!(permits(LevelCeiling::Info, Severity::Warning));
    assert!(permits(LevelCeiling::Info, Severity::Informational));
    assert!(permits(LevelCeiling::Debug, Severity::Warning));
    assert!(permits(LevelCeiling::Debug, Severity::Informational));
    assert!(permits(LevelCeiling::Trace, Severity::Warning));
    assert!(permits(LevelCeiling::Trace, Severity::Informational));
}
