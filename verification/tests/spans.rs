use zerolog::{
    set_min_log_level, AttrValue, Log, LogLevel, SpanBuilder, StackViolation, TraceContext,
};

#[test]
fn scenario_three_records() {
    let mut ctx = TraceContext::new();
    let mut b = SpanBuilder::new(LogLevel::Info, "req", "src/main.rs", 10);
    b.caller_fn = Some("app::handler".to_string());
    let b = b.attr("user", AttrValue::Text("x".to_string()));
    let (span, enter) = b.build(&mut ctx, 0, 1000);
    assert_eq!(
        enter.unwrap(),
        "{\"timestamp\":\"1970-01-01T00:00:00.000Z\",\"kind\":\"span\",\"id\":1,\
         \"parent\":0,\"depth\":1,\"level\":\"info\",\"name\":\"req\",\
         \"caller\":\"main.rs:10\",\"caller_fn\":\"handler\",\"attrs\":{\"user\":\"x\"}}"
    );

    let log = Log::new(&ctx, LogLevel::Info, "start", 0, "src/main.rs", 11);
    assert_eq!(
        log.emit().unwrap(),
        "{\"timestamp\":\"1970-01-01T00:00:00.000Z\",\"kind\":\"log\",\"span\":1,\
         \"level\":\"info\",\"message\":\"start\",\"caller\":\"main.rs:11\",\
         \"caller_fn\":\"\",\"attrs\":{}}"
    );

    let exit = span.close(&mut ctx, 0, 3500).unwrap();
    assert_eq!(
        exit.unwrap(),
        "{\"timestamp\":\"1970-01-01T00:00:00.000Z\",\"kind\":\"exit\",\"id\":1,\
         \"parent\":0,\"depth\":1,\"name\":\"req\",\"duration_us\":2500}"
    );
}

#[test]
fn scenario_three_records_all_suppressed_at_warn() {
    let mut ctx = TraceContext::new();
    set_min_log_level(&mut ctx, LogLevel::Warn);
    let b = SpanBuilder::new(LogLevel::Info, "req", "src/main.rs", 10)
        .attr("user", AttrValue::Text("x".to_string()));
    let (span, enter) = b.build(&mut ctx, 0, 1000);
    assert!(enter.is_none());
    let log = Log::new(&ctx, LogLevel::Info, "start", 0, "src/main.rs", 11);
    assert!(log.emit().is_none());
    let exit = span.close(&mut ctx, 0, 3500).unwrap();
    assert!(exit.is_none());
}

#[test]
fn suppressed_child_reports_nearest_emitted_ancestor() {
    let mut ctx = TraceContext::new();
    set_min_log_level(&mut ctx, LogLevel::Warn);

    let (outer, enter_outer) =
        SpanBuilder::new(LogLevel::Warn, "outer", "src/a.rs", 1).build(&mut ctx, 0, 0);
    let enter_outer = enter_outer.unwrap();
    assert!(enter_outer.contains("\"id\":1,\"parent\":0,\"depth\":1"));

    // The child is below the inherited Warn threshold: suppressed entirely.
    let (mid, enter_mid) =
        SpanBuilder::new(LogLevel::Info, "mid", "src/a.rs", 2).build(&mut ctx, 0, 0);
    assert!(enter_mid.is_none());

    // A grandchild record above the threshold still chains to the nearest
    // ancestor that was emitted, not to the suppressed span's id.
    let log = Log::new(&ctx, LogLevel::Error, "boom", 0, "src/a.rs", 3);
    let line = log.emit().unwrap();
    assert!(line.contains("\"span\":1,"), "line: {}", line);

    // A grandchild span likewise reports the emitted ancestor as parent.
    let (inner, enter_inner) =
        SpanBuilder::new(LogLevel::Error, "inner", "src/a.rs", 4).build(&mut ctx, 0, 0);
    let enter_inner = enter_inner.unwrap();
    assert!(
        enter_inner.contains("\"id\":3,\"parent\":1,\"depth\":3"),
        "line: {}",
        enter_inner
    );

    assert!(inner.close(&mut ctx, 0, 0).unwrap().is_some());
    assert!(mid.close(&mut ctx, 0, 0).unwrap().is_none());
    let exit_outer = outer.close(&mut ctx, 0, 0).unwrap().unwrap();
    assert!(exit_outer.contains("\"id\":1,\"parent\":0,\"depth\":1"));
}

#[test]
fn level_override_affects_only_current_scope() {
    let mut ctx = TraceContext::new();
    set_min_log_level(&mut ctx, LogLevel::Warn);
    let (outer, _) = SpanBuilder::new(LogLevel::Error, "o", "src/a.rs", 1).build(&mut ctx, 0, 0);
    // Escalate inside the span: only this frame and its descendants see it.
    set_min_log_level(&mut ctx, LogLevel::Trace);
    let log = Log::new(&ctx, LogLevel::Debug, "fine", 0, "src/a.rs", 2);
    assert!(log.emit().is_some());
    outer.close(&mut ctx, 0, 0).unwrap();
    // Back at the root, the Warn threshold still stands.
    let log = Log::new(&ctx, LogLevel::Debug, "fine", 0, "src/a.rs", 3);
    assert!(log.emit().is_none());
}

#[test]
fn disable_logging_suppresses_everything() {
    let mut ctx = TraceContext::new();
    zerolog::disable_logging(&mut ctx);
    let (span, enter) =
        SpanBuilder::new(LogLevel::Error, "s", "src/a.rs", 1).build(&mut ctx, 0, 0);
    assert!(enter.is_none());
    let log = Log::new(&ctx, LogLevel::Error, "m", 0, "src/a.rs", 2);
    assert!(log.emit().is_none());
    assert!(span.close(&mut ctx, 0, 0).unwrap().is_none());
}

#[test]
fn suppression_ignores_attribute_complexity() {
    let mut ctx = TraceContext::new();
    set_min_log_level(&mut ctx, LogLevel::Error);
    let mut b = SpanBuilder::new(LogLevel::Info, "s", "src/a.rs", 1);
    for i in 0..50u64 {
        let name = format!("key{}", i);
        b = b.attr(&name, AttrValue::Text("v".repeat(100)));
    }
    let (span, enter) = b.build(&mut ctx, 0, 0);
    assert!(enter.is_none());
    let mut log = Log::new(&ctx, LogLevel::Info, "m", 0, "src/a.rs", 2);
    for i in 0..50u64 {
        let name = format!("key{}", i);
        log = log.attr(&name, AttrValue::Uint(i));
    }
    assert!(log.emit().is_none());
    assert!(span.close(&mut ctx, 0, 0).unwrap().is_none());
}

#[test]
fn out_of_order_close_is_a_fatal_violation() {
    let mut ctx = TraceContext::new();
    let (outer, _) = SpanBuilder::new(LogLevel::Info, "o", "src/a.rs", 1).build(&mut ctx, 0, 0);
    let (inner, _) = SpanBuilder::new(LogLevel::Info, "i", "src/a.rs", 2).build(&mut ctx, 0, 0);

    // Closing the outer span while the inner one is still open is detected,
    // and the stack is left untouched rather than silently corrupted.
    let r = outer.close(&mut ctx, 0, 0);
    assert_eq!(r.unwrap_err(), StackViolation::WrongSpan);
    assert_eq!(ctx.depth(), 2);

    // The proper order still works afterwards.
    assert!(inner.close(&mut ctx, 0, 0).is_ok());
    // `outer` was consumed by the violating close; its frame can no longer
    // be popped by it, which is exactly the fatal condition the caller must
    // treat as unrecoverable.
    assert_eq!(ctx.depth(), 1);
}

#[test]
fn closing_against_bare_root_is_a_violation() {
    let mut ctx = TraceContext::new();
    let (span, _) = SpanBuilder::new(LogLevel::Info, "s", "src/a.rs", 1).build(&mut ctx, 0, 0);
    assert!(span.close(&mut ctx, 0, 0).is_ok());
    // Forge a handle that claims the root frame: there is no parent frame
    // to return to, so the close is refused.
    let forged = zerolog::Span {
        id: 0,
        parent_id: 0,
        depth: 0,
        start_us: 0,
        level: LogLevel::Info,
        name: "root".to_string(),
        caller_fn: None,
        caller_file: "src/a.rs".to_string(),
        caller_line: 1,
        printed: false,
    };
    assert_eq!(
        forged.close(&mut ctx, 0, 0).unwrap_err(),
        StackViolation::MissingParent
    );
    assert_eq!(ctx.depth(), 0);
}

#[test]
fn span_ids_increase_monotonically() {
    let mut ctx = TraceContext::new();
    let (a, ea) = SpanBuilder::new(LogLevel::Info, "a", "src/a.rs", 1).build(&mut ctx, 0, 0);
    assert!(ea.unwrap().contains("\"id\":1,"));
    assert_eq!(a.id(), 1);
    a.close(&mut ctx, 0, 0).unwrap();
    let (b, eb) = SpanBuilder::new(LogLevel::Info, "b", "src/a.rs", 2).build(&mut ctx, 0, 0);
    assert!(eb.unwrap().contains("\"id\":2,"));
    assert_eq!(b.id(), 2);
    b.close(&mut ctx, 0, 0).unwrap();
}

#[test]
fn duration_is_nonnegative_and_monotone() {
    assert_eq!(zerolog::duration_micros(100, 100), 0);
    assert_eq!(zerolog::duration_micros(100, 350), 250);
    let mut last = 0u64;
    for end in [1000u64, 2000, 5000, 50000] {
        let d = zerolog::duration_micros(1000, end);
        assert!(d >= last);
        last = d;
    }

    let mut ctx = TraceContext::new();
    let (a, _) = SpanBuilder::new(LogLevel::Info, "a", "src/a.rs", 1).build(&mut ctx, 0, 1000);
    let exit_a = a.close(&mut ctx, 0, 1000).unwrap().unwrap();
    assert!(exit_a.contains("\"duration_us\":0}"));
    let (b, _) = SpanBuilder::new(LogLevel::Info, "b", "src/a.rs", 2).build(&mut ctx, 0, 1000);
    let exit_b = b.close(&mut ctx, 0, 91000).unwrap().unwrap();
    assert!(exit_b.contains("\"duration_us\":90000}"));
}

#[test]
fn span_getters_report_open_time_values() {
    let mut ctx = TraceContext::new();
    let mut b = SpanBuilder::new(LogLevel::Warn, "job", "src/lib.rs", 77);
    b.caller_fn = Some("pkg::mod::run".to_string());
    let (span, _) = b.build(&mut ctx, 0, 12345);
    assert_eq!(span.id(), 1);
    assert_eq!(span.time(), 12345);
    assert_eq!(span.level(), LogLevel::Warn);
    assert_eq!(span.name(), "job");
    assert_eq!(span.caller_fn(), Some("pkg::mod::run"));
    assert_eq!(span.caller_file(), "src/lib.rs");
    assert_eq!(span.caller_lineno(), 77);
    span.close(&mut ctx, 0, 12345).unwrap();
}

#[test]
fn timestamp_formatting_is_millisecond_iso8601_utc() {
    let mut ctx = TraceContext::new();
    let (span, enter) =
        SpanBuilder::new(LogLevel::Info, "s", "src/a.rs", 1).build(&mut ctx, 947638923004, 0);
    assert!(enter
        .unwrap()
        .starts_with("{\"timestamp\":\"2000-01-12T01:02:03.004Z\","));
    span.close(&mut ctx, 947638923004, 0).unwrap();
}

#[test]
fn close_with_wrong_parent_is_a_violation() {
    let mut ctx = TraceContext::new();
    let (outer, _) = SpanBuilder::new(LogLevel::Info, "o", "src/a.rs", 1).build(&mut ctx, 0, 0);
    let (inner, _) = SpanBuilder::new(LogLevel::Info, "i", "src/a.rs", 2).build(&mut ctx, 0, 0);
    // A handle for the inner span whose recorded parent id is wrong: the
    // mismatch against the parent frame's last emitted id is detected.
    let forged = zerolog::Span {
        parent_id: 99,
        ..inner
    };
    assert_eq!(
        forged.close(&mut ctx, 0, 0).unwrap_err(),
        StackViolation::WrongParent
    );
    assert_eq!(ctx.depth(), 2);
    // Clean up in proper order with correct handles.
    let good = zerolog::Span {
        id: 2,
        parent_id: 1,
        depth: 2,
        start_us: 0,
        level: LogLevel::Info,
        name: "i".to_string(),
        caller_fn: None,
        caller_file: "src/a.rs".to_string(),
        caller_line: 2,
        printed: false,
    };
    assert!(good.close(&mut ctx, 0, 0).is_ok());
    assert!(outer.close(&mut ctx, 0, 0).is_ok());
}

#[test]
fn close_with_wrong_depth_is_a_violation() {
    let mut ctx = TraceContext::new();
    let (span, _) = SpanBuilder::new(LogLevel::Info, "s", "src/a.rs", 1).build(&mut ctx, 0, 0);
    let forged = zerolog::Span { depth: 7, ..span };
    assert_eq!(
        forged.close(&mut ctx, 0, 0).unwrap_err(),
        StackViolation::WrongDepth
    );
    assert_eq!(ctx.depth(), 1);
}
