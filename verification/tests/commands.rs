use mindlink::command_helpers::{
    check_service_health, error_response, success_response, validate_input, CommandErrorHandler,
};
use mindlink::commands::certificates::{
    certificate_handling_report, certificate_instructions, certificate_status, certificate_usable,
    cloudflared_auth_verdict, recent_certificate, smart_auth_verdict, CertRead,
};
use mindlink::commands::completion::{
    completion_answer, completion_content, completion_endpoint, config_with_auth, qr_payload,
    stored_instance_token, test_completion_body, with_setting,
};
use mindlink::commands::desktop::{
    built_in_plugins, is_main_window_label, open_url_command, open_url_outcome, plugins_directory,
    show_window_report,
};
use mindlink::commands::probes::{
    is_local_api_tunnel, is_tunnel_process, router_answer_accepted, router_probe_endpoints, router_probe_ports,
};
use mindlink::commands::{
    api_url, authentication_required, bifrost_start_precheck, bifrost_start_response, bifrost_stop_precheck,
    bifrost_stop_response, fresh_cached_verdict, login_spawn_outcome, manual_tunnel_failure, outcome_response, serve_tunnel_failure,
    simple_test, status_response, tunnel_status_response, tunnel_unavailable_note, AuthorizedApp,
    BinaryInstallationResponse, QrDataResponse, ServiceResponse, Settings, TestCompletionRequest,
};
use mindlink::commands::serve::{ServeRun, ServeStep};
use mindlink::dialog::{DialogButton, DialogManager, DialogType};
use mindlink::error::MindLinkError;
use mindlink::json::Json;
use mindlink::managers::bifrost_manager::BifrostManager;
use mindlink::supervisor::{
    assess_health, bifrost_restart_failure, connection_status_message, dashboard_target, menu_action, tray_menu,
    MenuAction, TrayEntry,
};

fn obj(members: Vec<(&str, Json)>) -> Json {
    Json::Object(members.into_iter().map(|(k, v)| (k.to_string(), v)).collect())
}

fn app(id: &str, model: &str) -> AuthorizedApp {
    AuthorizedApp { id: id.to_string(), name: id.to_uppercase(), model: model.to_string(), created_at: "t".to_string() }
}

#[test]
fn api_address_prefers_the_tunnel() {
    assert_eq!(api_url(Some("https://t".to_string()), Some("http://l".to_string())), Ok("https://t/v1".to_string()));
    assert_eq!(api_url(None, Some("http://l".to_string())), Ok("http://l/v1".to_string()));
    assert_eq!(api_url(None, None), Err("No API URL available".to_string()));
    assert_eq!(simple_test(), "Hello from Rust!");
}

#[test]
fn status_of_the_system() {
    let s = status_response(
        Some(true),
        false,
        true,
        None,
        Some("https://managed".to_string()),
        Some("http://other".to_string()),
        None,
        Some("http://127.0.0.1:3003".to_string()),
        Some("tok".to_string()),
        None,
    );
    assert!(s.is_serving);
    assert_eq!(s.server_url, Some("http://127.0.0.1:3001".to_string()));
    assert_eq!(s.tunnel_url, Some("https://managed".to_string()));
    assert_eq!(s.bifrost_url, Some("http://127.0.0.1:3003".to_string()));
    let s = status_response(None, false, false, Some("https://seen".to_string()), None, Some("http://x".to_string()), None, None, None, Some("e".to_string()));
    assert!(!s.is_serving);
    assert_eq!(s.server_url, Some("http://x".to_string()));
    assert_eq!(s.tunnel_url, Some("https://seen".to_string()));
    assert_eq!(s.last_error, Some("e".to_string()));
}

#[test]
fn cached_verdicts_expire() {
    assert_eq!(fresh_cached_verdict(Some((true, 30_000_000_000)), 30), Some(true));
    assert_eq!(fresh_cached_verdict(Some((true, 30_000_000_001)), 30), None);
    assert_eq!(fresh_cached_verdict(None, 30), None);
}

#[test]
fn settings_of_authorized_apps() {
    let mut s = Settings::default_settings();
    assert_eq!(s.default_model, Some("gpt-4".to_string()));
    s.add_authorized_app(app("a", "m1"));
    s.add_authorized_app(app("b", "m2"));
    s.add_authorized_app(app("a", "m3"));
    assert_eq!(s.update_app_model("a", "new".to_string()), Ok(()));
    assert_eq!(s.authorized_apps[0].model, "new");
    assert_eq!(s.authorized_apps[2].model, "m3");
    assert_eq!(s.update_app_model("zz", "x".to_string()), Err("App not found".to_string()));
    s.remove_authorized_app("a");
    assert_eq!(s.authorized_apps.len(), 1);
    assert_eq!(s.authorized_apps[0].id, "b");
}

#[test]
fn service_responses() {
    let r = ServiceResponse::services_started(Some("http://l".to_string()), None);
    assert!(r.success);
    assert_eq!(r.message, Some("Services started successfully".to_string()));
    assert_eq!(ServiceResponse::services_stopped().message, Some("Services stopped successfully".to_string()));
    let e = authentication_required();
    assert_eq!(ServiceResponse::failure(&e).message, Some("Authentication Error: Authentication required".to_string()));
    let t = serve_tunnel_failure(anyhow::Error::msg("no binary"));
    assert_eq!(t.user_message(), "Tunnel Error: Tunnel creation failed: no binary. Service running locally only.");
    assert_eq!(
        tunnel_unavailable_note(&manual_tunnel_failure(anyhow::Error::msg("x"))),
        "Tunnel unavailable: Tunnel Error: Manual tunnel creation failed. Use 'Create Tunnel' to retry."
    );
    let r = outcome_response(Some("boom"), "done", "Failed: ");
    assert!(!r.success);
    assert_eq!(r.message, Some("Failed: boom".to_string()));
    assert_eq!(outcome_response(None, "done", "Failed: ").message, Some("done".to_string()));
    let r = tunnel_status_response(None, true, Some("https://m".to_string()));
    assert_eq!(r.tunnel_url, Some("https://m".to_string()));
    assert_eq!(tunnel_status_response(None, false, None).message, Some("No active tunnel".to_string()));
}

#[test]
fn router_start_and_stop_answers() {
    let none = BifrostManager::new(None, 3003);
    let r = bifrost_start_precheck(&none).expect("settled without a binary");
    assert!(!r.success);
    assert_eq!(r.message, Some("Bifrost binary not installed. Please install the binary first.".to_string()));
    let mut m = BifrostManager::new(Some("/bin/bifrost".to_string()), 3003);
    assert!(bifrost_start_precheck(&m).is_none());
    let stopped = bifrost_stop_precheck(&m).expect("not running");
    assert_eq!(stopped.message, Some("Bifrost is already stopped".to_string()));
    m.launched();
    let r = bifrost_start_response(&m, &Ok(()));
    assert_eq!(r.server_url, Some("http://127.0.0.1:3003".to_string()));
    let failed = Err(MindLinkError::Internal { message: "x".to_string(), component: None, source: None });
    assert_eq!(bifrost_stop_response(&failed).message, Some("Failed to stop Bifrost: Internal application error: x".to_string()));
    let status = BinaryInstallationResponse::status_of(&m);
    assert!(status.is_installed);
    assert_eq!(status.binary_path, Some("/bin/bifrost".to_string()));
    let already = bifrost_start_precheck(&m).expect("running");
    assert_eq!(already.message, Some("Bifrost is already running".to_string()));
}

#[test]
fn completion_self_test() {
    assert!(completion_endpoint(false, Some("http://l".to_string())).is_err());
    assert_eq!(completion_endpoint(true, Some("http://l".to_string())).ok(), Some("http://l/v1/chat/completions".to_string()));
    match completion_endpoint(true, None) {
        Err(r) => assert_eq!(r.error, Some("Server URL not available".to_string())),
        Ok(_) => panic!("no address"),
    }
    let body = test_completion_body(&TestCompletionRequest { message: "hi".to_string(), model: None });
    assert_eq!(body.get("model").and_then(|m| m.as_str()), Some("gpt-5"));
    assert!(matches!(body.get("stream"), Some(Json::Bool(false))));
    let answer = obj(vec![(
        "choices",
        Json::Array(vec![obj(vec![("message", obj(vec![("content", Json::Str("pong".to_string()))]))])]),
    )]);
    assert_eq!(completion_content(&answer), "pong");
    assert_eq!(completion_content(&Json::Null), "No response content");
    let r = completion_answer(&answer);
    assert!(r.success);
    assert_eq!(r.response, Some("pong".to_string()));
}

#[test]
fn qr_codes_and_tokens() {
    assert_eq!(qr_payload(&Some("https://t".to_string()), "abc"), "{\"token\":\"abc\",\"url\":\"https://t\"}");
    assert_eq!(qr_payload(&None, "abc"), "{\"status\":\"No tunnel active\",\"token\":\"abc\"}");
    let r = QrDataResponse::from_token(Err("locked".to_string()), &None);
    assert!(!r.success);
    assert_eq!(r.error, Some("Failed to get token: locked".to_string()));
    assert_eq!(stored_instance_token(Some(String::new())), None);
    assert_eq!(stored_instance_token(Some("t".to_string())), Some("t".to_string()));
    let c = config_with_auth(obj(vec![("server", Json::Null)]), true, None);
    assert!(matches!(c.get("is_authenticated"), Some(Json::Bool(true))));
    assert!(matches!(c.get("user_email"), Some(Json::Null)));
    let s = with_setting(None, "theme".to_string(), Json::Str("dark".to_string()));
    assert_eq!(s.get("theme").and_then(|v| v.as_str()), Some("dark"));
    assert!(matches!(with_setting(Some(Json::Null), "k".to_string(), Json::Null), Json::Null));
}

#[test]
fn certificate_checks() {
    assert!(!certificate_usable(" \n"));
    assert!(cloudflared_auth_verdict(Some("PEM"), Some(true)));
    assert!(!cloudflared_auth_verdict(Some("PEM"), None));
    assert!(!cloudflared_auth_verdict(None, Some(true)));
    assert!(recent_certificate(599, Some("x")));
    assert!(!recent_certificate(600, Some("x")));
    assert!(smart_auth_verdict(false, true, true, true));
    assert!(!smart_auth_verdict(false, true, false, true));
    assert!(certificate_instructions("/h/.cloudflared/cert.pem").contains("manually copy it to:\n   /h/.cloudflared/cert.pem\n"));
    let missing = certificate_status(false, false, &CertRead::Content(String::new()), &None, "/p", &None);
    assert_eq!(
        missing,
        "🔍 Certificate Status Check:\n\n❌ .cloudflared directory does not exist\n   → Will be created automatically when certificate is found\n"
    );
    let small = certificate_status(true, true, &CertRead::Content("abc".to_string()), &None, "/p", &Some("/d".to_string()));
    assert!(small.contains("⚠️ cert.pem file seems too small\n"));
    assert!(small.contains("\nExpected path: /p\nWatching for cert.pem in: /d"));
    let report = certificate_handling_report(&None, &None, &None, false, &None);
    assert!(report.starts_with("🧪 Testing Automatic Certificate Handling System:\n\n"));
    assert!(report.ends_with("\n✅ Test complete. The automatic certificate handling system is ready."));
}

#[test]
fn external_service_probes() {
    assert!(is_tunnel_process("cloudflared tunnel --url http://localhost:3001"));
    assert!(is_local_api_tunnel("cloudflared tunnel --url http://localhost:3001"));
    assert!(!is_local_api_tunnel("cloudflared tunnel --url http://localhost:3002"));
    let ports = router_probe_ports();
    assert_eq!(ports.len(), 97);
    assert_eq!(ports[0], 3003);
    assert_eq!(ports[96], 3099);
    assert_eq!(router_probe_endpoints(), vec!["/v1/models", "/health", "/v1"]);
    assert!(router_answer_accepted("/v1/models", Some("{}")));
    assert!(!router_answer_accepted("/v1/models", Some("nothing")));
    assert!(router_answer_accepted("/health", None));
}

#[test]
fn desktop_commands() {
    assert!(is_main_window_label("Main-Window"));
    assert!(is_main_window_label("MindLink - Local LLM Router"));
    assert!(!is_main_window_label("settings"));
    assert_eq!(show_window_report(&Err("hidden".to_string())), "show_main_window failed: hidden");
    let c = open_url_command("windows", "https://x");
    assert_eq!(c.program, "cmd");
    assert_eq!(c.args, vec!["/c".to_string(), "start".to_string(), "https://x".to_string()]);
    assert_eq!(open_url_command("linux", "u").program, "xdg-open");
    assert_eq!(open_url_outcome("u", Ok(Ok(()))), Ok("Successfully opened URL: u".to_string()));
    assert_eq!(open_url_outcome("u", Err("missing".to_string())), Err("Failed to execute open command: missing".to_string()));
    let p = built_in_plugins();
    assert_eq!(p.manifests.len(), 3);
    assert_eq!(p.manifests[2].id, "google");
    assert_eq!(plugins_directory(Some("/data".to_string())), Ok("/data/mindlink/plugins".to_string()));
    assert_eq!(plugins_directory(None), Err("Cannot determine app data directory".to_string()));
}

#[test]
fn health_and_tray() {
    let r = assess_health(true, false, false, true);
    assert_eq!(r.failure, Some("Health check failed - Server: true, Tunnel: false, Bifrost: false, Dashboard: true".to_string()));
    assert!(r.restart_bifrost);
    assert!(!r.restart_dashboard);
    assert!(assess_health(true, true, true, true).failure.is_none());
    assert!(matches!(menu_action("quit"), MenuAction::Quit));
    assert!(matches!(menu_action("nope"), MenuAction::Unhandled));
    let menu = tray_menu();
    assert_eq!(menu.len(), 12);
    assert!(matches!(&menu[1], TrayEntry::Item { id, enabled: false, .. } if id == "stop_serving"));
    assert_eq!(dashboard_target(None, true), Err("Bifrost dashboard URL not available".to_string()));
    assert_eq!(dashboard_target(Some("u".to_string()), false), Err("Bifrost dashboard is not running".to_string()));
    let e = bifrost_restart_failure(anyhow::Error::msg("x"));
    assert_eq!(e.user_message(), "Service Error: Bifrost monitoring failed - Failed to restart Bifrost service");
    let text = connection_status_message(true, &Some("http://l".to_string()), &None, &None, &Some("http://b".to_string()), &Some("oops".to_string()));
    assert_eq!(text, "Status: Connected\nLocal: http://l\nDashboard: Stopped\nBifrost LLM: Running (http://b)\nLast Error: oops");
}

#[test]
fn dialogs() {
    let e = MindLinkError::Network { message: "down".to_string(), url: None, source: None };
    let d = DialogManager::error_dialog(&e, Some("Login"));
    assert_eq!(d.title, "Login Error");
    assert_eq!(d.buttons.len(), 2);
    assert_eq!(d.buttons[0].id, "retry");
    assert_eq!(
        DialogManager::format_dialog_message(&d),
        "Network Error: down\n\nSuggested Action: Check your internet connection and try again.\n\nTechnical Details:\nNetwork connection failed: down"
    );
    let i = MindLinkError::Internal { message: "x".to_string(), component: None, source: None };
    let d = DialogManager::error_dialog(&i, None);
    assert_eq!(d.title, "Application Error");
    assert_eq!(d.buttons.len(), 1);
    let w = DialogManager::warning_dialog("T", "M", None);
    assert!(matches!(w.dialog_type, DialogType::Warning));
    assert_eq!(DialogManager::format_dialog_message(&w), "M");
    let n = DialogManager::network_error_dialog(Some("http://x"), "refused");
    assert_eq!(n.message, "Failed to connect to http://x:\nrefused");
    let b = DialogManager::binary_error_dialog("cloudflared", None, "missing");
    assert_eq!(b.title, "cloudflared Error");
    assert_eq!(b.buttons[0].id, "install");
    let q = DialogManager::question_dialog("Q", "?", vec![DialogButton::default()]);
    assert_eq!(q.buttons[0].label, "OK");
    assert_eq!(DialogManager::shown().button_id, "ok");
    let (title, body) = DialogManager::error_notification(&i, Some("Tunnel"));
    assert_eq!(title, "Tunnel Error");
    assert_eq!(body, "Internal Error: x");
    let p = DialogManager::notification_payload("t", "m", "error", "now");
    assert_eq!(p.get("type").and_then(|v| v.as_str()), Some("error"));
}

#[test]
fn command_helpers() {
    assert!(success_response("ok", None, Some("https://t".to_string())).success);
    assert_eq!(error_response("bad").message, Some("bad".to_string()));
    match validate_input::<u32>(None, "port") {
        Err(r) => assert_eq!(r.message, Some("Missing required field: port".to_string())),
        Ok(_) => panic!("missing input"),
    }
    assert_eq!(validate_input(Some(5u32), "port").ok(), Some(5));
    match check_service_health("API", Ok(false)) {
        Err(r) => assert_eq!(r.message, Some("API service is not healthy".to_string())),
        Ok(_) => panic!("unhealthy"),
    }
    assert_eq!(check_service_health("API", Ok(true)).ok(), Some(true));
    let (e, component, op) = CommandErrorHandler::network_error(anyhow::Error::msg("x"), Some("http://u"));
    assert_eq!(e.user_message(), "Connection failed to http://u: Network connection failed");
    assert_eq!((component, op), ("Network", "network_operation"));
    let (b, op) = CommandErrorHandler::binary_error(anyhow::Error::msg("x"), "bifrost", None);
    assert_eq!(b.user_message(), "Program Error: bifrost failed to start - Failed to execute bifrost");
    assert_eq!(op, "start_service");
    let ctx = CommandErrorHandler::context_with_id("C", "op", Some("click"), "id-1".to_string());
    assert_eq!(ctx.correlation_id, Some("id-1".to_string()));
}

#[test]
fn serve_run_survives_a_failed_tunnel() {
    let (mut run, step) = ServeRun::begin(false);
    assert!(matches!(step, ServeStep::Login));
    assert!(matches!(run.login_done(Ok(())), ServeStep::StartServer));
    assert!(matches!(run.server_done(Ok("http://127.0.0.1:3001".to_string())), ServeStep::CreateTunnel));
    let finish = run.tunnel_done(Err(anyhow::Error::msg("no cloudflared")));
    assert!(finish.serving);
    assert!(finish.response.success);
    assert_eq!(finish.response.server_url, Some("http://127.0.0.1:3001".to_string()));
    assert_eq!(finish.response.tunnel_url, None);
    assert_eq!(
        finish.last_error,
        Some("Tunnel unavailable: Tunnel Error: Tunnel creation failed: no cloudflared. Service running locally only.. Use 'Create Tunnel' to retry.".to_string())
    );
    assert!(matches!(finish.logged, Some((ref c, MindLinkError::Tunnel { .. })) if c == "Tunnel"));
}

#[test]
fn serve_run_stops_at_the_first_failure() {
    let (mut run, step) = ServeRun::begin(false);
    assert!(matches!(step, ServeStep::Login));
    match run.login_done(Err(anyhow::Error::msg("denied"))) {
        ServeStep::Finish(f) => {
            assert!(!f.serving);
            assert_eq!(f.response.message, Some("Authentication Error: Login failed".to_string()));
        }
        _ => panic!("a failed login ends the run"),
    }
    let (mut run, step) = ServeRun::begin(true);
    assert!(matches!(step, ServeStep::StartServer));
    match run.server_done(Err(anyhow::Error::msg("port in use"))) {
        ServeStep::Finish(f) => {
            assert!(!f.serving);
            assert_eq!(f.response.message, Some("Internal Error in ServerManager: Server failed to start".to_string()));
        }
        _ => panic!("a failed server ends the run"),
    }
    let (mut run, _) = ServeRun::begin(true);
    run.server_done(Ok("http://l".to_string()));
    let f = run.tunnel_done(Ok("https://t".to_string()));
    assert_eq!(f.response.tunnel_url, Some("https://t".to_string()));
    assert!(f.logged.is_none());
}

#[test]
fn cloudflare_login_answers() {
    let started = login_spawn_outcome(Ok(())).ok().expect("started");
    assert_eq!(started.auth_url, Some("browser_opened".to_string()));
    assert_eq!(login_spawn_outcome(Err("no such file".to_string())).err(), Some("Failed to start Cloudflare authentication: no such file".to_string()));
}
