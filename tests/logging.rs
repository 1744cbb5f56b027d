use pgt_daemon::logging::{Interest, Level, LoggingFilter};

fn filter(debug_build: bool) -> LoggingFilter {
    LoggingFilter::new("toolcore".to_string(), debug_build)
}

#[test]
fn own_source_debug_passes_in_both_builds() {
    assert!(filter(true).enabled("toolcore::x", Level::Debug));
    assert!(filter(false).enabled("toolcore::x", Level::Debug));
}

#[test]
fn external_source_debug_never_passes() {
    assert!(!filter(true).enabled("external_lib::y", Level::Debug));
    assert!(!filter(false).enabled("external_lib::y", Level::Debug));
}

#[test]
fn info_passes_in_both_builds() {
    for debug_build in [true, false] {
        assert!(filter(debug_build).enabled("external_lib::y", Level::Info));
        assert!(filter(debug_build).enabled("toolcore::x", Level::Info));
        assert!(filter(debug_build).enabled("external_lib::y", Level::Error));
    }
}

#[test]
fn trace_of_own_source_only_in_debug_build() {
    assert!(filter(true).enabled("toolcore::x", Level::Trace));
    assert!(!filter(false).enabled("toolcore::x", Level::Trace));
    assert!(!filter(true).enabled("external_lib::y", Level::Trace));
}

#[test]
fn prefix_longer_than_target() {
    assert!(!filter(true).enabled("tool", Level::Debug));
    assert!(filter(true).enabled("toolcore", Level::Debug));
}

#[test]
fn callsite_interest_and_hint() {
    assert_eq!(filter(true).callsite_enabled("toolcore::x", Level::Trace), Interest::Always);
    assert_eq!(filter(false).callsite_enabled("other", Level::Debug), Interest::Never);
    assert_eq!(filter(true).max_level_hint(), Some(Level::Trace));
    assert_eq!(filter(false).max_level_hint(), Some(Level::Debug));
}
