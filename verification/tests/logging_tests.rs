use groundhog::infrastructure::logging::{
    filter_directive, is_level_enabled, verbosity_to_level, Level,
};

#[test]
fn test_verbosity_to_level() {
    assert_eq!(verbosity_to_level(0, false), Level::WARN);
    assert_eq!(verbosity_to_level(1, false), Level::INFO);
    assert_eq!(verbosity_to_level(2, false), Level::DEBUG);
    assert_eq!(verbosity_to_level(3, false), Level::TRACE);
    assert_eq!(verbosity_to_level(0, true), Level::ERROR);
    assert_eq!(verbosity_to_level(5, true), Level::ERROR);
}

#[test]
fn test_is_level_enabled() {
    // With verbose = 1 (INFO level)
    assert!(is_level_enabled(Level::ERROR, 1, false));
    assert!(is_level_enabled(Level::WARN, 1, false));
    assert!(is_level_enabled(Level::INFO, 1, false));
    assert!(!is_level_enabled(Level::DEBUG, 1, false));
    assert!(!is_level_enabled(Level::TRACE, 1, false));

    // With quiet mode (ERROR level only)
    assert!(is_level_enabled(Level::ERROR, 0, true));
    assert!(!is_level_enabled(Level::WARN, 0, true));
    assert!(!is_level_enabled(Level::INFO, 0, true));
    assert!(!is_level_enabled(Level::DEBUG, 0, true));
    assert!(!is_level_enabled(Level::TRACE, 0, true));
}

#[test]
fn highest_verbosity_is_trace() {
    assert_eq!(verbosity_to_level(u8::MAX, false), Level::Trace);
    assert_eq!(verbosity_to_level(u8::MAX, true), Level::Error);
}

#[test]
fn quiet_wins_over_verbose() {
    for verbose in [0u8, 1, 2, 3, 200] {
        assert_eq!(verbosity_to_level(verbose, true), Level::Error);
        assert!(is_level_enabled(Level::Error, verbose, true));
        assert!(!is_level_enabled(Level::Warn, verbose, true));
    }
}

#[test]
fn more_verbosity_enables_no_less() {
    let levels = [Level::Error, Level::Warn, Level::Info, Level::Debug, Level::Trace];
    for verbose in 0u8..6 {
        for level in levels {
            if is_level_enabled(level, verbose, false) {
                assert!(is_level_enabled(level, verbose + 1, false));
            }
        }
    }
}

#[test]
fn level_names_are_lower_case() {
    assert_eq!(Level::Error.as_str(), "error");
    assert_eq!(Level::Warn.as_str(), "warn");
    assert_eq!(Level::Info.as_str(), "info");
    assert_eq!(Level::Debug.as_str(), "debug");
    assert_eq!(Level::Trace.as_str(), "trace");
}

#[test]
fn filter_directive_names_the_selected_level() {
    assert_eq!(filter_directive(0, false), "groundhog=warn");
    assert_eq!(filter_directive(1, false), "groundhog=info");
    assert_eq!(filter_directive(2, false), "groundhog=debug");
    assert_eq!(filter_directive(9, false), "groundhog=trace");
    assert_eq!(filter_directive(9, true), "groundhog=error");
}
