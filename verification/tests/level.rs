use zerolog::LogLevel;

#[test]
fn parse_canonical_names() {
    assert_eq!(LogLevel::from_str("trace").unwrap(), LogLevel::Trace);
    assert_eq!(LogLevel::from_str("debug").unwrap(), LogLevel::Debug);
    assert_eq!(LogLevel::from_str("info").unwrap(), LogLevel::Info);
    assert_eq!(LogLevel::from_str("warn").unwrap(), LogLevel::Warn);
    assert_eq!(LogLevel::from_str("error").unwrap(), LogLevel::Error);
}

#[test]
fn parse_ignores_ascii_case() {
    assert_eq!(LogLevel::from_str("TRACE").unwrap(), LogLevel::Trace);
    assert_eq!(LogLevel::from_str("WaRn").unwrap(), LogLevel::Warn);
    assert_eq!(LogLevel::from_str("Info").unwrap(), LogLevel::Info);
}

#[test]
fn parse_unknown_reports_valid_set() {
    let e = LogLevel::from_str("loud").unwrap_err();
    assert_eq!(
        e.0,
        "unknown level: loud, expected one of [trace, debug, info, warn, error]"
    );
    assert!(LogLevel::from_str("").is_err());
    assert!(LogLevel::from_str("warns").is_err());
}

#[test]
fn format_is_canonical_lowercase() {
    assert_eq!(LogLevel::Trace.as_str(), "trace");
    assert_eq!(LogLevel::Debug.as_str(), "debug");
    assert_eq!(LogLevel::Info.as_str(), "info");
    assert_eq!(LogLevel::Warn.as_str(), "warn");
    assert_eq!(LogLevel::Error.as_str(), "error");
}

#[test]
fn levels_are_totally_ordered() {
    let all = [
        LogLevel::Trace,
        LogLevel::Debug,
        LogLevel::Info,
        LogLevel::Warn,
        LogLevel::Error,
    ];
    for i in 0..all.len() {
        for j in 0..all.len() {
            assert_eq!(all[i].le(all[j]), i <= j);
        }
    }
}
