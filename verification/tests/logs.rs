use zerolog::{AttrValue, Log, LogLevel, TraceContext};

#[test]
fn log_line_has_exact_fields() {
    let ctx = TraceContext::new();
    let mut log = Log::new(&ctx, LogLevel::Warn, "disk low", 0, "/home/u/p/src/io/disk.rs", 42);
    log.caller_fn = Some("p::io::check".to_string());
    let log = log
        .attr("free", AttrValue::Uint(12))
        .attr("path", AttrValue::Text("/var".to_string()));
    assert_eq!(
        log.emit().unwrap(),
        "{\"timestamp\":\"1970-01-01T00:00:00.000Z\",\"kind\":\"log\",\"span\":0,\
         \"level\":\"warn\",\"message\":\"disk low\",\"caller\":\"io/disk.rs:42\",\
         \"caller_fn\":\"check\",\"attrs\":{\"free\":12,\"path\":\"/var\"}}"
    );
}

#[test]
fn log_below_threshold_is_suppressed() {
    let mut ctx = TraceContext::new();
    zerolog::set_min_log_level(&mut ctx, LogLevel::Info);
    let log = Log::new(&ctx, LogLevel::Debug, "quiet", 0, "src/a.rs", 1);
    assert!(!log.print);
    assert!(log.emit().is_none());
}

#[test]
fn log_decision_is_fixed_at_construction() {
    let mut ctx = TraceContext::new();
    let log = Log::new(&ctx, LogLevel::Info, "kept", 0, "src/a.rs", 1);
    // Raising the threshold afterwards does not retract the decision.
    zerolog::set_min_log_level(&mut ctx, LogLevel::Error);
    assert!(log.emit().is_some());
}

#[test]
fn log_message_is_json_escaped() {
    let ctx = TraceContext::new();
    let log = Log::new(&ctx, LogLevel::Info, "say \"hi\"\n", 0, "src/a.rs", 1);
    let line = log.emit().unwrap();
    assert!(line.contains("\"message\":\"say \\\"hi\\\"\\n\""), "line: {}", line);
}
