use lycrex_tool::logger::{Level, PredefinedLevel, LevelFilter, LevelRegistry, LogRecord,
    ColorProcessor, DefaultFormatter, JsonFormatter, XmlFormatter, StructuredFormatter,
    LoggerMetrics, ContextMiddleware, RateLimitMiddleware, LogMiddleware, Logger, LoggerBuilder,
    register_level, unregister_level, get_registered_levels, clear_registered_levels,
    is_level_registered, should_rotate, RotationPolicy, RotationState};

#[test]
fn level_priorities_ascend() {
    assert_eq!(Level::trace().priority(), 5);
    assert_eq!(Level::debug().priority(), 10);
    assert_eq!(Level::info().priority(), 20);
    assert_eq!(Level::notice().priority(), 30);
    assert_eq!(Level::warn().priority(), 40);
    assert_eq!(Level::error().priority(), 50);
    assert_eq!(Level::fatal().priority(), 65);
    assert_eq!(Level::record().priority(), 255);
}

#[test]
fn level_names_and_colors() {
    assert_eq!(Level::info().as_str(), "INFO");
    assert_eq!(Level::custom("audit", 33, "\u{1b}[35m").as_str(), "AUDIT");
    assert_eq!(Level::custom("audit", 33, "\u{1b}[35m").priority(), 33);
    assert_eq!(Level::error().color_code(), "\u{1b}[31m");
    assert_eq!(Level::record().color_code(), "");
}

#[test]
fn parse_level_names() {
    assert_eq!(Level::parse_level("warn"), Level::Predefined(PredefinedLevel::Warn));
    assert_eq!(Level::parse_level("ERROR"), Level::Predefined(PredefinedLevel::Error));
    let custom = Level::parse_level("audit");
    assert_eq!(custom.as_str(), "AUDIT");
    assert_eq!(custom.priority(), 30);
}

#[test]
fn filter_by_min_level() {
    let filter = LevelFilter::new(Level::info());
    assert!(!filter.should_log(&Level::debug()));
    assert!(filter.should_log(&Level::info()));
    assert!(filter.should_log(&Level::error()));
    // The record level always passes.
    assert!(filter.should_log(&Level::record()));
}

#[test]
fn filter_explicit_enable_and_disable() {
    let mut filter = LevelFilter::new(Level::error());
    // An explicitly enabled name passes despite the minimum.
    filter.enable_level("debug");
    assert!(filter.should_log(&Level::debug()));
    // An explicitly disabled name is dropped despite its priority.
    filter.disable_level("fatal");
    assert!(!filter.should_log(&Level::fatal()));
    // Disabling withdraws a previous enabling.
    filter.disable_level("debug");
    assert!(!filter.should_log(&Level::debug()));
    filter.reset_level_settings();
    assert!(filter.should_log(&Level::fatal()));
    assert!(!filter.should_log(&Level::debug()));
}

#[test]
fn level_parses_through_from_str() {
    let parsed: Level = "fatal".parse().unwrap();
    assert_eq!(parsed, Level::Predefined(PredefinedLevel::Fatal));
}

#[test]
fn filter_bulk_and_min_level_edits() {
    let mut filter = LevelFilter::new_with_level(35);
    assert_eq!(filter.get_min_level(), 35);
    assert!(!filter.should_log(&Level::notice()));
    filter.set_min_level(30);
    assert!(filter.should_log(&Level::notice()));
    filter.set_min_level_with_level(Level::error());
    assert!(!filter.should_log(&Level::warn()));
    filter.enable_levels(&["warn", "notice"]);
    assert!(filter.should_log(&Level::warn()));
    assert!(filter.should_log(&Level::notice()));
    filter.disable_levels(&["warn", "notice"]);
    assert!(!filter.should_log(&Level::warn()));
}

#[test]
fn registry_round_trip() {
    let mut registry = LevelRegistry::new();
    assert!(!is_level_registered(&registry, "audit"));
    register_level(&mut registry, "audit", 33, "\u{1b}[35m").unwrap();
    assert!(is_level_registered(&registry, "audit"));
    assert!(is_level_registered(&registry, "AUDIT"));
    assert_eq!(get_registered_levels(&registry).len(), 1);
    // A predefined name is refused.
    assert!(register_level(&mut registry, "info", 1, "").is_err());
    assert!(unregister_level(&mut registry, "info").is_err());
    // An unknown name is refused too.
    assert!(unregister_level(&mut registry, "nosuch").is_err());
    unregister_level(&mut registry, "audit").unwrap();
    assert!(!is_level_registered(&registry, "audit"));
    register_level(&mut registry, "a", 1, "").unwrap();
    register_level(&mut registry, "b", 2, "").unwrap();
    clear_registered_levels(&mut registry);
    assert_eq!(get_registered_levels(&registry).len(), 0);
}

#[test]
fn strip_ansi_codes_removes_sequences() {
    assert_eq!(ColorProcessor::strip_ansi_codes("\u{1b}[31mred\u{1b}[0m"), "red");
    assert_eq!(ColorProcessor::strip_ansi_codes("plain"), "plain");
    assert_eq!(ColorProcessor::strip_ansi_codes(""), "");
    // A lone escape character stays.
    assert_eq!(ColorProcessor::strip_ansi_codes("a\u{1b}b"), "a\u{1b}b");
}

#[test]
fn has_colors_and_colorize() {
    assert!(ColorProcessor::has_colors("\u{1b}[31mred"));
    assert!(!ColorProcessor::has_colors("red"));
    assert_eq!(ColorProcessor::colorize("hi", "\u{1b}[32m"), "\u{1b}[32mhi\u{1b}[0m");
}

fn fixed_record(level: Level, target: &str, message: &str) -> LogRecord {
    LogRecord {
        level,
        target: target.to_string(),
        message: message.to_string(),
        timestamp: 42,
        file: None,
        line: None,
        module: None,
        thread_id: None,
        thread_name: None,
        metadata: Vec::new(),
    }
}

#[test]
fn default_formatter_record_level_is_bare_message() {
    let formatter = DefaultFormatter::new();
    let record = fixed_record(Level::record(), "app", "raw text");
    assert_eq!(formatter.format_record(&record), "raw text");
}

#[test]
fn default_formatter_level_and_target() {
    let mut formatter = DefaultFormatter::without_colors();
    formatter.show_timestamp = false;
    let record = fixed_record(Level::info(), "app", "hello");
    assert_eq!(formatter.format_record(&record), "[INFO  ] (app) hello");
    formatter.show_target = false;
    assert_eq!(formatter.format_record(&record), "[INFO  ] hello");
    formatter.show_level = false;
    assert_eq!(formatter.format_record(&record), "hello");
}

#[test]
fn default_formatter_custom_template() {
    let mut formatter = DefaultFormatter::without_colors();
    formatter.custom_format = Some("{level}|{target}|{message}".to_string());
    let record = fixed_record(Level::warn(), "core", "watch out");
    assert_eq!(formatter.format_record(&record), "WARN|core|watch out");
    formatter.time_format = lycrex_tool::time::TimeFormat::Unix;
    formatter.custom_format = Some("{timestamp}:{message}".to_string());
    assert_eq!(formatter.format_record(&record), "42:watch out");
}

#[test]
fn json_formatter_escapes_and_structures() {
    let formatter = JsonFormatter::new();
    let record = fixed_record(Level::info(), "app", "say \"hi\"\n");
    let out = formatter.format_record(&record);
    assert_eq!(
        out,
        "{\"timestamp\":42,\"level\":\"INFO\",\"target\":\"app\",\"message\":\"say \\\"hi\\\"\\n\"}"
    );
}

#[test]
fn json_formatter_includes_metadata() {
    let formatter = JsonFormatter::new();
    let mut record = fixed_record(Level::info(), "app", "m");
    record.metadata.push(("k".to_string(), "v".to_string()));
    let out = formatter.format_record(&record);
    assert!(out.contains("\"metadata\":{\"k\":\"v\"}"));
    assert!(out.starts_with('{'));
    assert!(out.ends_with('}'));
}

#[test]
fn xml_formatter_escapes_and_structures() {
    let formatter = XmlFormatter::new();
    let record = fixed_record(Level::info(), "a<b", "1 & 2");
    let out = formatter.format_record(&record);
    assert_eq!(
        out,
        "<log timestamp=\"42\" level=\"INFO\"><target>a&lt;b</target><message>1 &amp; 2</message></log>"
    );
}

#[test]
fn structured_formatter_joins_fields() {
    let formatter = StructuredFormatter::new();
    let record = fixed_record(Level::debug(), "app", "msg");
    assert_eq!(
        formatter.format_record(&record),
        "timestamp=42 | level=DEBUG | target=app | message=msg"
    );
    let tight = StructuredFormatter::with_separator(";");
    assert_eq!(
        tight.format_record(&record),
        "timestamp=42;level=DEBUG;target=app;message=msg"
    );
}

#[test]
fn metrics_count_logs_and_errors() {
    let mut metrics = LoggerMetrics::new();
    metrics.record_log(&Level::info(), 5);
    metrics.record_log(&Level::info(), 7);
    metrics.record_log(&Level::error(), 1);
    metrics.record_error();
    let stats = metrics.get_stats();
    assert_eq!(stats.total_logs, 3);
    assert_eq!(stats.total_bytes, 13);
    assert_eq!(stats.errors, 1);
    let info_count = stats.level_stats.iter().find(|(n, _)| n == "INFO").unwrap().1;
    assert_eq!(info_count, 2);
    metrics.reset();
    assert_eq!(metrics.get_stats().total_logs, 0);
}

#[test]
fn context_middleware_adds_metadata() {
    let mut middleware = ContextMiddleware::new();
    middleware.set_context("request", "r-1");
    let mut record = fixed_record(Level::info(), "app", "m");
    assert!(middleware.before_log(&mut record));
    assert_eq!(record.metadata.len(), 1);
    assert_eq!(record.metadata[0].0, "request");
    assert_eq!(record.metadata[0].1, "r-1");
    middleware.remove_context("request");
    let mut record2 = fixed_record(Level::info(), "app", "m");
    assert!(middleware.before_log(&mut record2));
    assert_eq!(record2.metadata.len(), 0);
}

#[test]
fn rate_limit_middleware_caps_throughput() {
    let mut middleware = RateLimitMiddleware::new(2);
    let mut record = fixed_record(Level::info(), "app", "m");
    assert!(middleware.before_log(&mut record));
    assert!(middleware.before_log(&mut record));
    // The third record within the window is dropped.
    assert!(!middleware.before_log(&mut record));
}

#[test]
fn logger_filters_by_level() {
    let mut logger = Logger::builder().level(Level::warn()).build();
    assert!(!logger.is_enabled(&Level::info()));
    assert!(logger.is_enabled(&Level::warn()));
    assert!(logger.is_enabled(&Level::record()));
    // Logging below the minimum reaches no writer and does not panic.
    logger.log(Level::info(), "app", "dropped", None, Some(1), None);
    assert!(logger.flush());
}

#[test]
fn builder_presets_and_flags() {
    let builder = LoggerBuilder::new()
        .level_str("debug")
        .without_colors()
        .show_timestamp(false)
        .level_width(8)
        .without_brackets();
    let logger = builder.build();
    assert!(logger.is_enabled(&Level::debug()));
    let dev = LoggerBuilder::new().development().build();
    assert!(dev.is_enabled(&Level::debug()));
    assert!(!dev.is_enabled(&Level::trace()));
}

#[test]
fn logger_writes_through_console() {
    // An enabled record reaches the console writer without panicking.
    let mut logger = Logger::builder().level(Level::info()).without_colors().build();
    logger.log(Level::info(), "app", "visible line", Some("file.rs"), Some(3), Some("app"));
    assert!(logger.flush());
}

#[test]
fn xml_formatter_pretty_adds_breaks() {
    let formatter = XmlFormatter::new().pretty();
    let record = fixed_record(Level::info(), "t", "m");
    let out = formatter.format_record(&record);
    assert!(out.contains('\n'));
    assert!(out.starts_with("<log"));
    assert!(out.ends_with("</log>"));
}

#[test]
fn rotation_decisions() {
    let mut state = RotationState::new();
    state.current_size = 100;
    state.last_rotation = 1000;
    assert!(!should_rotate(&RotationPolicy::Never, &state, 999999));
    assert!(should_rotate(&RotationPolicy::Size(100), &state, 1000));
    assert!(!should_rotate(&RotationPolicy::Size(101), &state, 1000));
    assert!(should_rotate(&RotationPolicy::Time(1000), &state, 1001));
    assert!(!should_rotate(&RotationPolicy::Time(2000), &state, 1001));
    assert!(should_rotate(&RotationPolicy::Daily, &state, 1000 + 86400));
    assert!(!should_rotate(&RotationPolicy::Daily, &state, 1001));
    assert!(should_rotate(&RotationPolicy::Hourly, &state, 1000 + 3600));
}
