use mindlink::error::MindLinkError;
use mindlink::error_reporter::{
    error_kind_key, ErrorContext, ErrorReporter, ErrorReportingConfig, NotificationPlan, RetryDecision,
    HISTORY_LIMIT,
};
use mindlink::json::{follow, Json};
use mindlink::logging::{
    error_details, health_details, process_details, rotated_log_name,
    short_id, LogCategory, LogEntry, LogLevel, LogSettings, RotationStep,
};
use mindlink::process_monitor::{
    output_event, output_line_fits, MonitorConfig, ProcessEvent, ProcessMonitor, ProcessStatus,
};
use mindlink::string_map::StringMap;
use mindlink::text::{
    contains, decimal_string, ends_with, join_path, pick_first_present, signed_decimal_string, starts_with,
    trim,
};

fn network(url: Option<&str>) -> MindLinkError {
    MindLinkError::Network { message: "timed out".to_string(), url: url.map(|u| u.to_string()), source: None }
}

fn internal() -> MindLinkError {
    MindLinkError::Internal { message: "boom".to_string(), component: None, source: None }
}

fn ctx(user_action: Option<&str>) -> ErrorContext {
    ErrorContext::new("Server", "start", user_action.map(|a| a.to_string()), None)
}

#[test]
fn error_user_messages() {
    assert_eq!(network(Some("http://x")).user_message(), "Connection failed to http://x: timed out");
    assert_eq!(network(None).user_message(), "Network Error: timed out");
    let b = MindLinkError::BinaryExecution {
        message: "missing".to_string(),
        binary_name: "bifrost".to_string(),
        binary_path: None,
        source: None,
    };
    assert_eq!(b.user_message(), "Program Error: bifrost failed to start - missing");
    assert_eq!(b.suggested_action(), Some("Please reinstall bifrost or contact support.".to_string()));
    assert!(!b.is_recoverable());
    let c = MindLinkError::Configuration { message: "bad".to_string(), config_key: Some("port".to_string()), source: None };
    assert_eq!(c.user_message(), "Configuration Error: Issue with 'port' - bad");
    assert_eq!(c.suggested_action(), Some("Please check your port configuration setting.".to_string()));
    let f = MindLinkError::FileSystem {
        message: "denied".to_string(),
        path: None,
        operation: "write".to_string(),
        source: None,
    };
    assert_eq!(f.user_message(), "File Error: Failed to write - denied");
    assert_eq!(f.technical_details(), "File system operation failed: denied");
    assert!(f.is_recoverable());
    assert_eq!(internal().user_message(), "Internal Error: boom");
    assert_eq!(internal().technical_details(), "Internal application error: boom");
    assert!(!internal().is_recoverable());
}

#[test]
fn technical_details_include_the_cause_chain() {
    let e = MindLinkError::Authentication { message: "bad token".to_string(), source: Some(anyhow::Error::msg("refresh rejected")) };
    assert!(e.technical_details().starts_with("Authentication failed: bad token"));
    assert!(e.technical_details().contains("refresh rejected"));
    assert_eq!(e.technical_details(), "Authentication failed: bad token (caused by: refresh rejected)");
    assert_eq!(e.description(), "Authentication failed: bad token");
    let chained = anyhow::Error::msg("disk full").context("write failed");
    let f = MindLinkError::FileSystem { message: "denied".to_string(), path: None, operation: "write".to_string(), source: Some(chained) };
    assert_eq!(f.technical_details(), "File system operation failed: denied (caused by: write failed: disk full)");
    assert!(error_details(&f).ends_with("\"technical_details\":\"File system operation failed: denied (caused by: write failed: disk full)\"}"));
}

#[test]
fn error_every_kind_suggests_an_action() {
    let errors = vec![
        MindLinkError::Authentication { message: "m".to_string(), source: None },
        network(None),
        MindLinkError::HealthCheck { message: "m".to_string(), service_name: "API".to_string(), url: None, source: None },
        MindLinkError::Tunnel { message: "m".to_string(), tunnel_type: None, local_port: None, source: None },
        MindLinkError::SystemResource { message: "m".to_string(), resource_type: "port".to_string(), source: None },
        MindLinkError::ProcessMonitoring { message: "m".to_string(), process_name: "p".to_string(), pid: None, source: None },
        internal(),
    ];
    for e in &errors {
        assert!(e.suggested_action().is_some());
    }
    assert_eq!(errors[2].user_message(), "Service Health: API is not responding - m");
    assert_eq!(errors[4].suggested_action(), Some("Ensure port is available and try again.".to_string()));
}

#[test]
fn error_classification_from_description() {
    let e = MindLinkError::from_description("login expired", None);
    assert!(matches!(e, MindLinkError::Authentication { ref message, .. } if message == "Authentication system error"));
    let e = MindLinkError::from_description("connection reset", None);
    assert!(matches!(e, MindLinkError::Network { ref message, url: None, .. } if message == "Network communication error"));
    let e = MindLinkError::from_description("failed to spawn", None);
    assert!(matches!(e, MindLinkError::BinaryExecution { ref binary_name, .. } if binary_name == "unknown"));
    let e = MindLinkError::from_description("bad setting", None);
    assert!(matches!(e, MindLinkError::Configuration { config_key: None, .. }));
    let e = MindLinkError::from_description("no such directory", None);
    assert!(matches!(e, MindLinkError::FileSystem { ref operation, .. } if operation == "unknown"));
    let e = MindLinkError::from_description("something odd", None);
    assert!(matches!(e, MindLinkError::Internal { ref message, .. } if message == "Unexpected error occurred"));
}

#[test]
fn error_from_anyhow_lowercases_and_keeps_cause() {
    let e = MindLinkError::from_anyhow(anyhow::Error::msg("Network Unreachable"));
    assert!(matches!(e, MindLinkError::Network { .. }));
    assert_eq!(e.source().map(|s| s.to_string()), Some("Network Unreachable".to_string()));
    let copy = e.clone();
    assert!(copy.source().is_none());
    assert_eq!(copy.user_message(), e.user_message());
}

#[test]
fn reporter_dialog_rules() {
    assert!(ErrorReporter::should_show_dialog(&network(None), &ctx(Some("clicked"))));
    assert!(!ErrorReporter::should_show_dialog(&network(None), &ctx(None)));
    let health = MindLinkError::HealthCheck { message: "m".to_string(), service_name: "s".to_string(), url: None, source: None };
    assert!(!ErrorReporter::should_show_dialog(&health, &ctx(Some("clicked"))));
    let proc_err = MindLinkError::ProcessMonitoring { message: "m".to_string(), process_name: "p".to_string(), pid: None, source: None };
    let hc = ErrorContext::new("Monitor", "periodic_health_check", None, None);
    assert!(!ErrorReporter::should_show_dialog(&proc_err, &hc));
    assert!(ErrorReporter::should_show_dialog(&proc_err, &ctx(None)));

    let quiet = ErrorReporter::new(ErrorReportingConfig {
        show_user_dialogs: false,
        send_notifications: false,
        auto_retry_recoverable: false,
        max_retry_attempts: 3,
        retry_delay_seconds: 5,
    });
    assert!(quiet.notification_plan(&internal(), &ctx(Some("x"))) == NotificationPlan::Silent);
    let loud = ErrorReporter::new(ErrorReportingConfig::default());
    assert!(loud.notification_plan(&internal(), &ctx(Some("x"))) == NotificationPlan::ShowDialog);
    assert!(loud.notification_plan(&internal(), &ctx(None)) == NotificationPlan::SendNotification);
}

#[test]
fn reporter_history_statistics_and_clearing() {
    let mut r = ErrorReporter::new(ErrorReportingConfig::default());
    let (rep, plan) = r.record_report("e1".to_string(), 10, network(None), ctx(None));
    assert!(plan == NotificationPlan::SendNotification);
    assert!(rep.user_notified);
    assert!(!rep.resolved);
    r.record_report("e2".to_string(), 11, internal(), ErrorContext::new("Tunnel", "open", None, None));
    r.record_report("e3".to_string(), 12, network(None), ctx(None));
    let before = r.get_error_statistics();
    assert_eq!((before.resolved_errors, before.unresolved_errors), (0, 3));
    r.mark_resolved("e2", "fixed");
    r.mark_resolved("missing", "nothing");
    let history = r.get_error_history();
    assert_eq!(history.len(), 3);
    assert!(history[1].resolved);
    assert_eq!(history[1].resolution_notes, Some("fixed".to_string()));
    assert!(!history[0].user_notified);
    let stats = r.get_error_statistics();
    assert_eq!(stats.total_errors, 3);
    assert_eq!(stats.resolved_errors, 1);
    assert_eq!(stats.unresolved_errors, 2);
    assert_eq!(stats.by_type.get("Discriminant(1)"), Some(&2));
    assert_eq!(stats.by_type.get("Discriminant(9)"), Some(&1));
    assert_eq!(stats.by_component.get("Server"), Some(&2));
    let type_sum: usize = (0..stats.by_type.len()).map(|i| stats.by_type.entry_at(i).1).sum();
    let component_sum: usize = (0..stats.by_component.len()).map(|i| stats.by_component.entry_at(i).1).sum();
    assert_eq!(type_sum, stats.total_errors);
    assert_eq!(component_sum, stats.total_errors);
    assert_eq!(r.get_unresolved_errors().len(), 2);
    r.clear_resolved_errors();
    let left = r.get_error_history();
    assert_eq!(left.len(), 2);
    assert_eq!(left[0].id, "e1");
    assert_eq!(left[1].id, "e3");
    assert_eq!(error_kind_key(&internal()), "Discriminant(9)");
}

#[test]
fn reporter_history_is_bounded() {
    let mut r = ErrorReporter::new(ErrorReportingConfig::default());
    for i in 0..(HISTORY_LIMIT + 5) {
        r.record_report(format!("e{}", i), i as i64, internal(), ctx(None));
    }
    assert_eq!(r.history_len(), HISTORY_LIMIT);
    assert_eq!(r.get_error_history()[0].id, "e5");
}

#[test]
fn reporter_retry_runs() {
    let mut r = ErrorReporter::new(ErrorReportingConfig {
        show_user_dialogs: false,
        send_notifications: true,
        auto_retry_recoverable: true,
        max_retry_attempts: 2,
        retry_delay_seconds: 7,
    });
    let mut run = r.start_retry_run();
    assert_eq!(run.attempt, 1);
    assert_eq!(run.max_attempts, 2);
    let (rep, _, decision) = r.record_retry_failure(&mut run, "a1".to_string(), 1, network(None), &ctx(None));
    assert_eq!(rep.context.additional_info.get("attempt"), Some(&"1".to_string()));
    assert_eq!(rep.context.additional_info.get("max_attempts"), Some(&"2".to_string()));
    match decision {
        RetryDecision::Retry { delay_secs, notice } => {
            assert_eq!(delay_secs, 7);
            assert_eq!(notice, "Retrying operation (attempt 2 of 2)");
        }
        RetryDecision::GiveUp(_) => panic!("a recoverable error is retried"),
    }
    assert_eq!(run.attempt, 2);
    assert_eq!(
        ErrorReporter::resolution_after_success(&run),
        Some(("a1".to_string(), "Resolved on attempt 2".to_string()))
    );
    let (_, _, decision) = r.record_retry_failure(&mut run, "a2".to_string(), 2, network(None), &ctx(None));
    assert!(matches!(decision, RetryDecision::GiveUp(MindLinkError::Network { .. })));
    assert_eq!(run.attempt, 2);
    let mut once = ErrorReporter::new(ErrorReportingConfig::default());
    let mut single = once.start_retry_run();
    assert_eq!(single.max_attempts, 1);
    let (_, _, d) = once.record_retry_failure(&mut single, "b".to_string(), 3, network(None), &ctx(None));
    assert!(matches!(d, RetryDecision::GiveUp(_)));
    assert!(!once.should_retry(1, 3, &network(None)));
    let stored = once.get_error_history();
    assert_eq!(stored.len(), 1);
    assert_eq!(stored[0].id, "b");
    assert!(!stored[0].resolved);
    assert_eq!(stored[0].context.additional_info.get("attempt"), Some(&"1".to_string()));
    assert_eq!(stored[0].context.additional_info.get("max_attempts"), Some(&"1".to_string()));
    if let Some((id, notes)) = ErrorReporter::resolution_after_success(&run) {
        r.mark_resolved(&id, &notes);
    }
    let after = r.get_error_history();
    assert!(!after[0].resolved);
    assert!(after[1].resolved);
    assert_eq!(after[1].resolution_notes, Some("Resolved on attempt 2".to_string()));
}

#[test]
fn log_time_formatting() {
    let line = |ms: i64| LogEntry::at("id".to_string(), ms, LogLevel::Info, LogCategory::System, "m".to_string()).file_line();
    assert_eq!(line(0), Some("1970-01-01 00:00:00.000 UTC [INFO] [SYSTEM] m".to_string()));
    assert_eq!(line(1_700_000_000_123), Some("2023-11-14 22:13:20.123 UTC [INFO] [SYSTEM] m".to_string()));
    assert_eq!(line(i64::MAX), None);
    let now = LogEntry::new(LogLevel::Info, LogCategory::System, "m".to_string()).expect("clock and random source");
    assert!(now.file_line().is_some());
}

#[test]
fn log_entry_lines() {
    let e = LogEntry::at("id".to_string(), 0, LogLevel::Warn, LogCategory::Network, "slow".to_string())
        .with_component("Server")
        .with_correlation_id("abcdefghij")
        .with_details("{}".to_string());
    assert_eq!(e.format_for_file(), "1970-01-01 00:00:00.000 UTC [WARN] [NET][Server] [abcdefgh] slow - {}");
    assert_eq!(e.file_line(), Some(e.format_for_file()));
    assert_eq!(e.format_for_console(), "\x1b[33m[WARN]\x1b[0m [NET] Server slow");
    let far = LogEntry::at("id".to_string(), i64::MIN, LogLevel::Info, LogCategory::System, "x".to_string());
    assert_eq!(far.file_line(), None);
    let short = LogEntry::at("id".to_string(), 0, LogLevel::Info, LogCategory::System, "x".to_string())
        .with_correlation_id("abc");
    assert_eq!(short.file_line(), None);
    assert_eq!(short_id("0123456789"), "01234567");
}

#[test]
fn log_entry_builders() {
    let a = LogEntry::new(LogLevel::Info, LogCategory::System, "a".to_string()).expect("clock and random source");
    let b = LogEntry::new(LogLevel::Info, LogCategory::System, "b".to_string()).expect("clock and random source");
    assert_eq!(a.id.len(), 36);
    assert_eq!(a.id.matches('-').count(), 4);
    assert_ne!(a.id, b.id);
    let e = LogEntry::for_error("Tunnel", &internal(), Some("corr")).expect("clock and random source");
    assert!(matches!(e.level, LogLevel::Error));
    assert_eq!(e.message, "Internal Error: boom");
    assert_eq!(e.component, Some("Tunnel".to_string()));
    assert_eq!(e.correlation_id, Some("corr".to_string()));
    assert_eq!(
        e.details,
        Some(
            "{\"error_type\":\"Internal\",\"recoverable\":false,\"suggested_action\":\"Please restart the application or contact support.\",\"technical_details\":\"Internal application error: boom\"}"
                .to_string()
        )
    );
    let p = LogEntry::for_process_output("bifrost", "stdout", "  ready \n", Some(42)).expect("clock and random source");
    assert_eq!(p.message, "bifrost stdout: ready");
    assert_eq!(
        p.details,
        Some("{\"content\":\"  ready \\n\",\"output_type\":\"stdout\",\"pid\":42,\"process_name\":\"bifrost\"}".to_string())
    );
    let u = LogEntry::for_user_action("login", None).expect("clock and random source");
    assert_eq!(u.message, "User action: login");
    assert_eq!(u.details, None);
    let h = LogEntry::for_health_check("API", false, Some("http://h"), None).expect("clock and random source");
    assert!(matches!(h.level, LogLevel::Warn));
    assert_eq!(h.message, "API health check failed");
    assert_eq!(
        h.details,
        Some("{\"healthy\":false,\"response_time_ms\":null,\"service\":\"API\",\"url\":\"http://h\"}".to_string())
    );
    assert_eq!(health_details("s", true, None, Some(5)), "{\"healthy\":true,\"response_time_ms\":5,\"service\":\"s\",\"url\":null}");
    assert_eq!(process_details("p", "stderr", "x", None), "{\"content\":\"x\",\"output_type\":\"stderr\",\"pid\":null,\"process_name\":\"p\"}");
    assert!(error_details(&network(None)).starts_with("{\"error_type\":\"Network\",\"recoverable\":true,"));
}

#[test]
fn log_rotation_plan() {
    let mut s = LogSettings::new("/tmp/mindlink.log".to_string());
    assert!(s.console_enabled());
    assert!(!s.needs_rotation(10 * 1024 * 1024));
    assert!(s.needs_rotation(10 * 1024 * 1024 + 1));
    let plan = s.rotation_plan();
    assert_eq!(plan.len(), 4);
    assert!(plan[0] == RotationStep::Delete { index: 4 });
    assert!(plan[1] == RotationStep::Rename { from: 3, to: 4 });
    assert!(plan[3] == RotationStep::Rename { from: 1, to: 2 });
    s.set_max_files(1);
    assert!(s.rotation_plan().is_empty());
    s.set_console_enabled(false);
    assert!(!s.console_enabled());
    assert_eq!(s.get_log_file_path(), "/tmp/mindlink.log");
    assert_eq!(rotated_log_name(3), "mindlink.log.3");
    assert_eq!(LogLevel::Trace.label(), "TRACE");
    assert_eq!(LogCategory::HealthCheck.label(), "HEALTH");
}

#[test]
fn json_lookup_and_update() {
    let mut doc = Json::object(vec![
        ("a".to_string(), Json::text_value("1")),
        ("b".to_string(), Json::Array(vec![Json::Null, Json::text_value("x")])),
    ]);
    assert_eq!(doc.get("a").and_then(|v| v.as_str()), Some("1"));
    assert!(doc.get("z").is_none());
    doc.set_member("a".to_string(), Json::text_value("2"));
    doc.set_member("c".to_string(), Json::Bool(true));
    assert_eq!(doc.get("a").and_then(|v| v.as_str()), Some("2"));
    assert!(matches!(doc.get("c"), Some(Json::Bool(true))));
    assert!(matches!(&doc, Json::Object(m) if m.len() == 3));
    let arr = doc.get("b").unwrap();
    assert!(arr.as_array().is_some());
    assert_eq!(follow(arr, "1", Some(1)).and_then(|v| v.as_str()), Some("x"));
    assert!(follow(arr, "5", Some(5)).is_none());
    assert!(follow(&doc, "b", None).is_some());
    let mut not_object = Json::Null;
    not_object.set_member("k".to_string(), Json::Null);
    assert!(matches!(not_object, Json::Null));
    assert!(!Json::Null.is_object());
    assert_eq!(
        process_details("p\"q", "out\n", "c", None),
        "{\"content\":\"c\",\"output_type\":\"out\\n\",\"pid\":null,\"process_name\":\"p\\\"q\"}"
    );
}

#[test]
fn string_map_insert_get_remove() {
    let mut m: StringMap<u32> = StringMap::new();
    assert_eq!(m.insert("a".to_string(), 1), None);
    assert_eq!(m.insert("b".to_string(), 2), None);
    assert_eq!(m.insert("a".to_string(), 3), Some(1));
    assert_eq!(m.len(), 2);
    assert_eq!(m.get("a"), Some(&3));
    assert!(m.contains_key("b"));
    assert_eq!(m.remove("b"), Some(2));
    assert_eq!(m.remove("b"), None);
    assert_eq!(m.len(), 1);
    let mut names: StringMap<String> = StringMap::new();
    names.insert("k".to_string(), "v".to_string());
    let d = names.duplicate();
    assert_eq!(d.get("k"), Some(&"v".to_string()));
}

#[test]
fn text_helpers() {
    assert!(contains("hello world", "o w"));
    assert!(!contains("hello", "world"));
    assert!(starts_with("https://x", "https://"));
    assert!(ends_with("file.tar.gz", ".gz"));
    assert_eq!(trim("  a b \t"), "a b");
    assert_eq!(decimal_string(1234), "1234");
    assert_eq!(signed_decimal_string(-42), "-42");
    assert_eq!(join_path("/a", "b"), "/a/b");
    assert_eq!(join_path("/a/", "b"), "/a/b");
    assert_eq!(join_path("", "b"), "b");
    assert_eq!(join_path("/a", "/abs/x"), "/abs/x");
    let cands = vec!["x".to_string(), "y".to_string(), "z".to_string()];
    assert_eq!(pick_first_present(&cands, &vec![false, true, true]), Some("y".to_string()));
    assert_eq!(pick_first_present(&cands, &vec![false, false, false]), None);
}

#[test]
fn process_monitor_restart_budget() {
    let mut m = ProcessMonitor::new();
    let cfg = MonitorConfig { max_restart_attempts: 1, ..MonitorConfig::default() };
    assert!(m.register_process("bifrost".to_string(), "Bifrost".to_string(), cfg).is_ok());
    assert!(!m.is_process_running("bifrost"));
    assert!(m.begin_monitoring("bifrost", Some(7)).is_ok());
    assert!(m.is_process_running("bifrost"));
    assert!(m.begin_monitoring("ghost", None).is_err());
    m.mark_running("bifrost");
    assert!(matches!(m.get_process_info("bifrost").map(|i| i.status), Some(ProcessStatus::Running)));
    let ev = m.process_exited("bifrost", false, Some(1));
    assert!(matches!(ev, ProcessEvent::Stopped { exit_code: Some(1), .. }));
    assert!(matches!(m.get_process_info("bifrost").map(|i| i.status), Some(ProcessStatus::Crashed)));
    let (ev, res) = m.prepare_restart("bifrost");
    assert!(matches!(ev, Some(ProcessEvent::RestartAttempted { attempt: 1, .. })));
    assert!(res.is_ok());
    let (ev, res) = m.prepare_restart("bifrost");
    assert!(matches!(ev, Some(ProcessEvent::RestartLimitReached { .. })));
    match res {
        Err(e) => assert_eq!(e.user_message(), "Service Error: bifrost monitoring failed - Restart limit reached (1 attempts)"),
        Ok(()) => panic!("the budget is spent"),
    }
    let (ev, res) = m.prepare_restart("nobody");
    assert!(ev.is_none());
    assert!(res.is_err());
    let ev = m.status_check_failed("bifrost", "gone");
    assert!(matches!(ev, ProcessEvent::Crashed { ref error, .. } if error == "Failed to check process status: gone"));
    assert!(m.unregister_process("bifrost").is_ok());
    assert!(m.get_process_info("bifrost").is_none());
    assert_eq!(m.config_for("bifrost").max_restart_attempts, 3);
    assert_eq!(ProcessStatus::Crashed.label(), "crashed");
}

#[test]
fn process_registration_and_restart_at_given_times() {
    let mut m = ProcessMonitor::new();
    let cfg = MonitorConfig { max_restart_attempts: 2, ..MonitorConfig::default() };
    assert!(m.register_process_at("tunnel".to_string(), "Tunnel".to_string(), cfg, 1_000).is_ok());
    let info = m.get_process_info("tunnel").expect("registered");
    assert_eq!(info.start_time_ms, 1_000);
    assert_eq!(info.restart_count, 0);
    assert_eq!(info.last_restart_ms, None);
    let (ev, res) = m.restart_at("tunnel", 2_000);
    assert!(matches!(ev, Some(ProcessEvent::RestartAttempted { attempt: 1, .. })));
    assert!(res.is_ok());
    let info = m.get_process_info("tunnel").expect("registered");
    assert_eq!(info.restart_count, 1);
    assert_eq!(info.last_restart_ms, Some(2_000));
    let (_, res) = m.restart_at("tunnel", 3_000);
    assert!(res.is_ok());
    assert_eq!(m.get_process_info("tunnel").expect("registered").last_restart_ms, Some(3_000));
    let (ev, res) = m.restart_at("tunnel", 4_000);
    assert!(matches!(ev, Some(ProcessEvent::RestartLimitReached { .. })));
    assert!(res.is_err());
    assert_eq!(m.get_process_info("tunnel").expect("registered").restart_count, 2);
    let (ev, res) = m.restart_at("nobody", 5_000);
    assert!(ev.is_none() && res.is_err());
}

#[test]
fn process_output_lines() {
    assert!(output_line_fits("abc", 3));
    assert!(!output_line_fits("abcd", 3));
    assert!(matches!(output_event("p", "stdout", "hi"), ProcessEvent::OutputReceived { ref content, .. } if content == "hi"));
}

#[test]
fn clock_and_uuid_sources() {
    let now = mindlink::logging::now_millis().expect("the clock reads after 1970");
    assert!(now > 1_600_000_000_000);
    let u = mindlink::logging::new_uuid().expect("random source");
    assert_eq!(u.len(), 36);
    assert_eq!(u.chars().nth(14), Some('4'));
    assert!(matches!(u.chars().nth(19), Some('8' | '9' | 'a' | 'b')));
    assert!(u.chars().all(|c| c == '-' || c.is_ascii_digit() || ('a'..='f').contains(&c)));
    assert_ne!(mindlink::logging::new_uuid(), Some(u));
    assert!(mindlink::supervisor::health_check_needed(true));
    assert!(!mindlink::supervisor::health_check_needed(false));
}
