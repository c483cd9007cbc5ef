use mindlink::error::MindLinkError;
use mindlink::json::Json;
use mindlink::managers::auth_manager::{
    account_id_from_claims, build_chatgpt_auth_url, callback_result, chatgpt_request_body, expiry_after,
    extract_account_id_from_id_token, generate_code_challenge, generate_code_verifier, generate_state,
    oauth_flow_url, start_oauth_flow, AuthCallbackQuery, AuthManager, AuthTokens, RefreshTokenResponse, TokenCheck,
    TokenResponse, TokenStep,
};
use mindlink::managers::bifrost_manager::{
    local_binary_works, model_ids, port_candidates, router_binary_candidates, BifrostManager, KillOutcome,
    StartDecision, StartupCheck,
};
use mindlink::managers::binary_manager::{
    app_data_dir, bifrost_release_binary, binary_precheck, record_check, build_command, build_failure_error, build_script_path, check_verdict,
    choose_cloudflared, file_checksum, hex_string, mode_executable, platform_target, verification_plan,
    BinaryKind, BinaryManager, BuildFailure, CloudflaredChoice, HostPlatform,
};
use mindlink::managers::config_manager::{
    config_location, load_plan, validate_config, ConfigManager, ConfigSchema, LoadPlan, StoredConfig,
};
use mindlink::managers::dashboard_manager::DashboardManager;
use mindlink::managers::server_manager::{
    chatgpt_request_with_ids, convert_to_chatgpt_format, create_openai_response, error_body, estimate_tokens, extract_content_from_response,
    map_model_name, ChatCompletionRequest, Message, ServerManager,
};
use mindlink::managers::tunnel_manager::{
    stderr_verdict, stdout_verdict, OutputVerdict, TunnelManager, TunnelPlan, TunnelType,
};

fn obj(members: Vec<(&str, Json)>) -> Json {
    Json::Object(members.into_iter().map(|(k, v)| (k.to_string(), v)).collect())
}

fn text(s: &str) -> Json {
    Json::Str(s.to_string())
}

fn linux_platform() -> HostPlatform {
    HostPlatform { os: "linux".to_string(), arch: "x86_64".to_string(), exe_dir: Some("/opt/app".to_string()) }
}

#[test]
fn bifrost_manager_starts_stopped_without_urls() {
    let m = BifrostManager::new(None, 3003);
    assert!(!m.is_running());
    assert!(m.get_local_url().is_none());
    assert!(m.get_api_url().is_none());
    let (running, url, api) = m.get_status_info();
    assert!(!running && url.is_none() && api.is_none());
}

#[test]
fn bifrost_start_without_binary_reports_build_system() {
    let m = BifrostManager::new(None, 3003);
    match m.plan_start(true, "") {
        Err(MindLinkError::BinaryExecution { message, binary_name, binary_path, .. }) => {
            assert_eq!(message, "Binary not found - please run the build system");
            assert_eq!(binary_name, "bifrost-http");
            assert!(binary_path.is_none());
        }
        _ => panic!("expected a missing binary error"),
    }
}

#[test]
fn bifrost_start_with_missing_file() {
    let m = BifrostManager::new(Some("binaries/bifrost-http".to_string()), 3003);
    match m.plan_start(false, "") {
        Err(MindLinkError::BinaryExecution { message, binary_path, .. }) => {
            assert_eq!(message, "Binary file does not exist");
            assert_eq!(binary_path, Some("binaries/bifrost-http".to_string()));
        }
        _ => panic!("expected a missing file error"),
    }
}

#[test]
fn bifrost_launch_plan_arguments() {
    let mut m = BifrostManager::new(Some("bin/bifrost-http".to_string()), 3003);
    assert!(m.set_config_path("conf.json".to_string()));
    match m.plan_start(true, "") {
        Ok(StartDecision::Launch(plan)) => {
            assert_eq!(plan.command.program, "bin/bifrost-http");
            assert_eq!(
                plan.command.args,
                vec!["--host", "127.0.0.1", "--port", "3003", "--log-level", "info", "--config", "conf.json"]
            );
            assert_eq!(plan.process_id, "bifrost");
            assert_eq!(plan.display_name, "Bifrost LLM Router");
            assert_eq!(plan.monitor.max_restart_attempts, 3);
            assert_eq!(plan.monitor.output_buffer_size, 1048576);
        }
        _ => panic!("expected a launch"),
    }
    match m.plan_start(true, "debug") {
        Ok(StartDecision::Launch(plan)) => {
            assert_eq!(plan.command.args, vec!["--host", "127.0.0.1", "--port", "3003", "--config", "conf.json"]);
        }
        _ => panic!("expected a launch"),
    }
}

#[test]
fn bifrost_lifecycle_and_urls() {
    let mut m = BifrostManager::new(Some("b".to_string()), 3005);
    m.launched();
    assert!(matches!(m.plan_start(true, ""), Ok(StartDecision::AlreadyRunning)));
    assert_eq!(m.get_local_url(), Some("http://127.0.0.1:3005".to_string()));
    assert_eq!(m.get_api_url(), Some("http://127.0.0.1:3005/v1".to_string()));
    assert_eq!(m.health_url(), "http://127.0.0.1:3005/health");
    assert!(!m.configure("0.0.0.0".to_string(), 9000));
    assert_eq!(m.address(), "127.0.0.1:3005");
    assert!(m.health_verdict(true, None, Some(true)));
    assert!(!m.health_verdict(true, Some(false), Some(true)));
    assert!(!m.health_verdict(false, Some(true), None));
    assert!(m.startup_result(StartupCheck::Running).is_ok());
    match m.stop_result(KillOutcome::KillFailed(anyhow::Error::msg("denied"))) {
        Err(e) => assert_eq!(e.user_message(), "Service Error: Bifrost monitoring failed - Failed to terminate process"),
        Ok(()) => panic!("kill failure must fail the stop"),
    }
    assert!(m.is_running());
    assert!(m.stop_result(KillOutcome::Stopped).is_ok());
    assert!(!m.is_running());
    assert!(m.configure("0.0.0.0".to_string(), 9000));
    assert_eq!(m.models_request(), Err("Bifrost is not running".to_string()));
}

#[test]
fn bifrost_exit_on_startup_fails_start() {
    let mut m = BifrostManager::new(Some("b".to_string()), 3003);
    m.launched();
    match m.startup_result(StartupCheck::Exited("exit status: 1".to_string())) {
        Err(MindLinkError::ProcessMonitoring { message, process_name, .. }) => {
            assert_eq!(message, "Process exited immediately with status: exit status: 1. Check the binary arguments.");
            assert_eq!(process_name, "Bifrost");
        }
        _ => panic!("expected a process error"),
    }
    assert!(!m.is_running());
}

#[test]
fn bifrost_installation_and_refresh() {
    let mut m = BifrostManager::new(None, 3003);
    let (installed, path, msg) = m.get_installation_info();
    assert!(!installed && path.is_none());
    assert_eq!(msg, Some("Locally-built Bifrost binary not found - build system needs to be run".to_string()));
    assert!(m.should_build(true));
    assert_eq!(
        m.refresh_binary_path(None),
        Err("No locally-built Bifrost binary found. Please run the build system to create it.".to_string())
    );
    assert_eq!(m.refresh_binary_path(Some("x/bifrost-http".to_string())), Ok("x/bifrost-http".to_string()));
    assert!(m.is_binary_available());
    assert!(!m.should_build(true));
    assert!(m.should_build(false));
}

#[test]
fn router_search_order() {
    let c = router_binary_candidates("linux", "x86_64", &Some("/app".to_string()));
    assert_eq!(c.len(), 9);
    assert_eq!(c[0], "binaries/bifrost-http");
    assert_eq!(c[1], "/app/binaries/bifrost-http");
    assert_eq!(c[2], "src-tauri/binaries/bifrost-http");
    assert_eq!(c[3], "binaries/bifrost-http-x86_64-unknown-linux-gnu");
    let w = router_binary_candidates("windows", "x86_64", &None);
    assert_eq!(w[0], "binaries/bifrost-http.exe");
    assert_eq!(w.len(), 6);
}

#[test]
fn local_binary_check_rules() {
    assert!(!local_binary_works(Some(0o644), Some(true), None));
    assert!(local_binary_works(Some(0o755), Some(false), Some(true)));
    assert!(local_binary_works(None, Some(true), None));
    assert!(!local_binary_works(None, None, Some(false)));
}

#[test]
fn ports_tried_for_the_router() {
    let p = port_candidates(3003);
    assert_eq!(p.len(), 100);
    assert_eq!(p[0], 3003);
    assert_eq!(p[99], 3102);
}

#[test]
fn model_ids_of_a_model_list() {
    let answer = obj(vec![(
        "data",
        Json::Array(vec![obj(vec![("id", text("gpt-4"))]), obj(vec![("name", text("x"))]), obj(vec![("id", text("llama"))])]),
    )]);
    assert_eq!(model_ids(&answer), vec!["gpt-4".to_string(), "llama".to_string()]);
    assert!(model_ids(&obj(vec![("data", text("none"))])).is_empty());
}

#[test]
fn platform_targets() {
    assert_eq!(platform_target("linux", "x86_64"), "x86_64-unknown-linux-gnu");
    assert_eq!(platform_target("macos", "aarch64"), "aarch64-apple-darwin");
    assert_eq!(platform_target("windows", "x86_64"), "x86_64-pc-windows-msvc");
    assert_eq!(platform_target("freebsd", "riscv64"), "riscv64-freebsd");
}

#[test]
fn data_directories() {
    assert_eq!(
        app_data_dir("linux", None, Some("/home/u".to_string()), None),
        Ok("/home/u/.local/share/mindlink".to_string())
    );
    assert_eq!(
        app_data_dir("linux", None, Some("/home/u".to_string()), Some("/data/".to_string())),
        Ok("/data/mindlink".to_string())
    );
    assert_eq!(
        app_data_dir("macos", None, Some("/Users/u".to_string()), None),
        Ok("/Users/u/Library/Application Support/mindlink".to_string())
    );
    assert_eq!(
        app_data_dir("windows", None, Some("/home/u".to_string()), None),
        Err("Could not determine application data directory".to_string())
    );
}

#[test]
fn binary_manager_paths() {
    let m = BinaryManager::with_data_dir("/data/mindlink".to_string(), linux_platform());
    assert_eq!(m.get_binaries_dir(), "/data/mindlink/binaries");
    let c = m.binary_candidates("ollama");
    assert_eq!(c[0], "/data/mindlink/binaries/ollama/ollama");
    assert_eq!(c[1], "/data/mindlink/binaries/ollama/ollama.exe");
    assert_eq!(c[2], "/data/mindlink/binaries/ollama/node_modules/.bin/ollama");
    assert_eq!(m.get_binary_path("ollama", &vec![false, false, true, true]), Some(c[2].clone()));
    assert_eq!(m.get_binary_path("ollama", &vec![false, false]), None);
    let b = m.binary_candidates("bifrost");
    assert_eq!(b[0], "/opt/app/binaries/bifrost-http");
    assert_eq!(b[1], "src-tauri/binaries/bifrost-http");
    assert_eq!(m.get_cloudflared_path(true), Some("/data/mindlink/binaries/cloudflared/cloudflared".to_string()));
    assert_eq!(m.get_cloudflared_path(false), None);
    let d = m.cloudflared_download().expect("linux is supported");
    assert!(d.url.ends_with("cloudflared-linux-amd64"));
    assert!(!d.compressed);
}

#[test]
fn verification_plans() {
    let p = verification_plan("/x/bifrost-http-x86_64-unknown-linux-gnu");
    assert!(matches!(p.kind, BinaryKind::LocalBifrost));
    assert_eq!(p.attempts[0].args, vec!["--version"]);
    let n = verification_plan("/x/node_modules/tool/cli.js");
    assert!(matches!(n.kind, BinaryKind::NodeScript));
    assert_eq!(n.attempts[0].program, "node");
    assert_eq!(n.attempts[0].args, vec!["/x/node_modules/tool/cli.js", "--help"]);
    let o = verification_plan("/usr/bin/cloudflared");
    assert!(matches!(o.kind, BinaryKind::Other));
    assert_eq!(o.attempts[1].args, vec!["--version"]);
    assert!(check_verdict(&vec![None, Some(true)]));
    assert!(!check_verdict(&vec![Some(false), Some(true)]));
    assert!(!check_verdict(&vec![None, None]));
    let mut results = Vec::new();
    assert!(record_check(&mut results, None));
    assert!(!record_check(&mut results, Some(false)));
    assert_eq!(results, vec![None, Some(false)]);
    assert!(!check_verdict(&results));
    assert!(!binary_precheck(false, &BinaryKind::Other, None));
    assert!(binary_precheck(true, &BinaryKind::Other, Some(0o644)));
    assert!(!binary_precheck(true, &BinaryKind::LocalBifrost, Some(0o644)));
    assert!(binary_precheck(true, &BinaryKind::LocalBifrost, Some(0o755)));
    assert!(binary_precheck(true, &BinaryKind::LocalBifrost, None));
    assert!(mode_executable(0o755) && !mode_executable(0o644));
}

#[test]
fn build_steps_and_errors() {
    assert_eq!(build_script_path("/proj"), "/proj/scripts/tauri-build-bifrost.sh");
    let c = build_command("/proj/scripts/tauri-build-bifrost.sh");
    assert_eq!(c.program, "bash");
    assert_eq!(c.args, vec!["/proj/scripts/tauri-build-bifrost.sh", "--force"]);
    match build_failure_error(BuildFailure::ExitCode(Some(2)), "s.sh") {
        MindLinkError::BinaryExecution { message, .. } => assert_eq!(message, "Build script failed with exit code: Some(2)"),
        _ => panic!("wrong variant"),
    }
    match build_failure_error(BuildFailure::ExitCode(None), "s.sh") {
        MindLinkError::BinaryExecution { message, .. } => assert_eq!(message, "Build script failed with exit code: None"),
        _ => panic!("wrong variant"),
    }
    assert!(matches!(build_failure_error(BuildFailure::StdoutUnavailable, "s.sh"), MindLinkError::Internal { .. }));
}

#[test]
fn checksums_are_lowercase_sha256() {
    assert_eq!(hex_string(&[0x0a, 0x14, 0x1e, 0xff]), "0a141eff");
    assert_eq!(file_checksum(b"abc"), "ba7816bf8f01cfea414140de5dae2223b00361a396177a9cb410ff61f20015ad");
}

#[test]
fn cloudflared_choice_order() {
    assert!(matches!(choose_cloudflared(true, None, false), CloudflaredChoice::FromPath));
    assert!(matches!(choose_cloudflared(false, Some("p".to_string()), true), CloudflaredChoice::Local(_)));
    assert!(matches!(choose_cloudflared(false, Some("p".to_string()), false), CloudflaredChoice::Download));
    assert_eq!(bifrost_release_binary("windows", "x86_64"), Ok("bifrost.exe".to_string()));
    assert_eq!(bifrost_release_binary("sunos", "sparc"), Err("Unsupported platform: sunos-sparc".to_string()));
}

#[test]
fn config_defaults_validate_and_load() {
    let c = ConfigSchema::default_config();
    assert!(validate_config(&c).is_ok());
    let mut bad = ConfigSchema::default_config();
    bad.features.reasoning_effort = "extreme".to_string();
    match validate_config(&bad) {
        Err(MindLinkError::Configuration { message, config_key, .. }) => {
            assert_eq!(message, "Invalid reasoning effort: extreme. Must be one of: [\"low\", \"medium\", \"high\"]");
            assert_eq!(config_key, Some("features.reasoning_effort".to_string()));
        }
        _ => panic!("expected a configuration error"),
    }
    let mut old = ConfigSchema::default_config();
    old.version = 0;
    match load_plan(StoredConfig::Parsed(old)) {
        Ok(LoadPlan::Migrate(m)) => assert_eq!(m.version, 1),
        _ => panic!("expected a migration"),
    }
    assert!(matches!(load_plan(StoredConfig::Missing), Ok(LoadPlan::CreateDefault)));
    let loc = match config_location(Some("/home/u".to_string())) {
        Ok(l) => l,
        Err(_) => panic!("home is known"),
    };
    assert_eq!(loc.config_path, "/home/u/.mindlink/config.json");
    assert_eq!(loc.backup_path, "/home/u/.mindlink/config.json.backup");
}

#[test]
fn loaded_configuration_is_complete() {
    let mut no_host = ConfigSchema::default_config();
    no_host.bifrost.host = String::new();
    match load_plan(StoredConfig::Parsed(no_host)) {
        Err(MindLinkError::Configuration { message, config_key, .. }) => {
            assert_eq!(message, "Bifrost host cannot be empty");
            assert_eq!(config_key, Some("bifrost.host".to_string()));
        }
        _ => panic!("an empty router host is refused"),
    }
    let mut no_interval = ConfigSchema::default_config();
    no_interval.monitoring.health_check_interval = 0;
    match load_plan(StoredConfig::Parsed(no_interval)) {
        Err(MindLinkError::Configuration { message, config_key, .. }) => {
            assert_eq!(message, "Health check interval must be positive");
            assert_eq!(config_key, Some("monitoring.health_check_interval".to_string()));
        }
        _ => panic!("a zero health-check interval is refused"),
    }
    match load_plan(StoredConfig::Parsed(ConfigSchema::default_config())) {
        Ok(LoadPlan::Use(c)) => {
            assert!(!c.server.host.is_empty() && c.server.port > 0);
            assert!(!c.bifrost.host.is_empty() && c.bifrost.port > 0);
            assert!(!c.tunnel.tunnel_type.is_empty() && !c.features.reasoning_effort.is_empty());
            assert!(c.monitoring.health_check_interval > 0 && c.version > 0);
        }
        _ => panic!("the defaults load as they are"),
    }
}

#[test]
fn config_update_then_read() {
    let mut m = ConfigManager::with_config("c".to_string(), "b".to_string(), ConfigSchema::default_config());
    let mut next = ConfigSchema::default_config();
    next.server.port = 4000;
    assert!(m.update_config(next).is_ok());
    assert_eq!(m.get_config().server.port, 4000);
    let mut invalid = ConfigSchema::default_config();
    invalid.server.port = 0;
    assert!(m.update_config(invalid).is_err());
    assert_eq!(m.get_server_config().port, 4000);
}

#[test]
fn dashboard_manager_state() {
    let mut d = DashboardManager::new(3002);
    assert!(d.start_needed());
    assert!(d.health_probe().is_none());
    d.serving();
    assert_eq!(d.get_local_url(), Some("http://127.0.0.1:3002".to_string()));
    assert_eq!(d.health_probe(), Some("http://127.0.0.1:3002/".to_string()));
    assert!(!d.configure("0.0.0.0".to_string(), 1));
    d.stop();
    assert!(d.get_status_info().1.is_none());
}

#[test]
fn server_manager_configure_refused_while_running() {
    let mut s = ServerManager::new();
    assert_eq!(s.bind_address(), "127.0.0.1:3001");
    assert_eq!(s.started(), "http://127.0.0.1:3001");
    match s.configure("0.0.0.0".to_string(), 8080) {
        Err(MindLinkError::Configuration { message, config_key, .. }) => {
            assert_eq!(message, "Cannot change server configuration while running");
            assert_eq!(config_key, Some("host/port".to_string()));
        }
        _ => panic!("expected a refusal"),
    }
    assert!(s.stop());
    assert!(!s.stop());
    assert!(s.configure("0.0.0.0".to_string(), 8080).is_ok());
    assert!(s.get_local_url().is_none());
}

#[test]
fn model_mapping_and_token_estimate() {
    assert_eq!(map_model_name("gpt-5"), "gpt-4");
    assert_eq!(map_model_name("codex-mini"), "gpt-3.5-turbo");
    assert_eq!(map_model_name("anything"), "gpt-4");
    let msgs = vec![
        Message { role: "user".to_string(), content: "hello".to_string() },
        Message { role: "user".to_string(), content: "abcd".to_string() },
        Message { role: "user".to_string(), content: String::new() },
    ];
    assert_eq!(estimate_tokens(&msgs), 3);
}

#[test]
fn chatgpt_conversion() {
    let req = ChatCompletionRequest {
        model: "codex-mini".to_string(),
        messages: vec![
            Message { role: "system".to_string(), content: "be brief".to_string() },
            Message { role: "user".to_string(), content: "hi".to_string() },
        ],
        max_tokens: None,
        stream: Some(true),
        other: Vec::new(),
    };
    let out = convert_to_chatgpt_format(&req).expect("random source");
    assert_eq!(out.action, "next");
    assert_eq!(out.model, "gpt-3.5-turbo");
    assert_eq!(out.messages.len(), 2);
    assert_eq!(out.messages[1].content.parts, vec!["hi".to_string()]);
    assert_eq!(out.parent_message_id, out.messages[0].id);
    assert_ne!(out.messages[0].id, out.messages[1].id);
    assert_eq!(out.stream, Some(true));
    let ids = vec!["a".to_string(), "b".to_string()];
    let fixed = chatgpt_request_with_ids(&req, &ids, "p");
    assert_eq!(fixed.messages[0].id, "a");
    assert_eq!(fixed.messages[1].id, "b");
    assert_eq!(fixed.parent_message_id, "a");
    assert_eq!(fixed.messages[0].author.role, "system");
    let single = ChatCompletionRequest {
        model: "codex-mini".to_string(),
        messages: vec![Message { role: "user".to_string(), content: "x".to_string() }],
        max_tokens: None,
        stream: None,
        other: Vec::new(),
    };
    let one = chatgpt_request_with_ids(&single, &vec!["only".to_string()], "parent-id");
    assert_eq!(one.parent_message_id, "parent-id");
    assert_eq!(one.model, "gpt-3.5-turbo");
    let answer = obj(vec![("message", obj(vec![("content", obj(vec![("parts", Json::Array(vec![text("Hello!")]))]))]))]);
    assert_eq!(extract_content_from_response(&answer), Some("Hello!".to_string()));
    assert_eq!(extract_content_from_response(&obj(vec![("content", text("plain"))])), Some("plain".to_string()));
    assert_eq!(extract_content_from_response(&Json::Null), None);
    let resp = create_openai_response(&req, &answer, "chatcmpl-1".to_string(), 7);
    assert_eq!(resp.choices[0].message.as_ref().map(|m| m.content.clone()), Some("Hello!".to_string()));
    let usage = resp.usage.expect("usage is set");
    assert_eq!(usage.prompt_tokens, 3);
    assert_eq!(usage.total_tokens, 103);
}

#[test]
fn error_body_shape() {
    match error_body(400, "bad") {
        Json::Object(members) => {
            assert_eq!(members[0].0, "error");
            match &members[0].1 {
                Json::Object(inner) => {
                    assert!(matches!(&inner[2].1, Json::Number(n) if n == "400"));
                }
                _ => panic!("inner object expected"),
            }
        }
        _ => panic!("object expected"),
    }
}

#[test]
fn test_tunnel_url_regex_parsing() {
    let valid_cloudflare_urls = vec![
        "https://test-tunnel-123.trycloudflare.com",
        "https://another-example.trycloudflare.com",
        "https://abc-123-def.trycloudflare.com",
    ];
    for url in valid_cloudflare_urls {
        assert!(matches!(stdout_verdict(url), OutputVerdict::Address(_)), "Should match Cloudflare URL: {}", url);
    }
    let invalid_urls = vec!["http://test.trycloudflare.com", "https://test.example.com", "not-a-url"];
    for url in invalid_urls {
        assert!(matches!(stdout_verdict(url), OutputVerdict::Continue), "Should not match invalid URL: {}", url);
    }
}

#[test]
fn tunnel_output_reading() {
    match stdout_verdict("INF |  https://quiet-river-42.trycloudflare.com  |") {
        OutputVerdict::Address(u) => assert_eq!(u, "https://quiet-river-42.trycloudflare.com"),
        _ => panic!("address expected"),
    }
    assert!(matches!(stdout_verdict("Registered tunnel connection"), OutputVerdict::Continue));
    match stderr_verdict("ERR dial tcp: connection refused") {
        OutputVerdict::Failed(m) => assert_eq!(m, "Local server not accessible: ERR dial tcp: connection refused"),
        _ => panic!("failure expected"),
    }
    match stderr_verdict("please login first") {
        OutputVerdict::Failed(m) => assert!(m.starts_with("Cloudflare authentication required: ")),
        _ => panic!("failure expected"),
    }
    assert!(matches!(stderr_verdict("INF starting"), OutputVerdict::Continue));
}

#[test]
fn tunnel_manager_lifecycle() {
    let mut t = TunnelManager::new();
    assert!(!t.is_connected() && t.get_current_url().is_none());
    assert!(matches!(t.plan_tunnel(), TunnelPlan::Quick));
    let cmd = t.quick_tunnel_command("cloudflared");
    assert_eq!(cmd.args, vec!["tunnel", "--url", "http://localhost:3001", "--no-autoupdate"]);
    assert!(t.set_tunnel_type(TunnelType::Named("demo".to_string())));
    assert_eq!(t.open_named_tunnel("demo"), "https://demo.yourdomain.com");
    assert!(!t.set_local_port(8080));
    match t.plan_tunnel() {
        TunnelPlan::Existing(u) => assert_eq!(u, "https://demo.yourdomain.com"),
        _ => panic!("the open tunnel is kept"),
    }
    assert_eq!(t.health_probe(true), Some("https://demo.yourdomain.com/health".to_string()));
    assert_eq!(t.health_probe(false), None);
    assert!(!t.is_connected());
    t.tunnel_closed();
    assert!(t.get_current_url().is_none());
}

fn tokens(expires_at: i64, refresh: &str) -> AuthTokens {
    AuthTokens {
        access_token: "acc".to_string(),
        refresh_token: refresh.to_string(),
        id_token: "id".to_string(),
        expires_at,
        token_type: "Bearer".to_string(),
        account_id: "acct".to_string(),
    }
}

#[test]
fn token_validity_margin() {
    let now = 1_700_000_000_000i64;
    let m = AuthManager::new("auth.json".to_string(), Some(tokens(now + 300_001, "r")));
    assert!(m.is_authenticated(now));
    assert!(matches!(m.startup_check(now), TokenCheck::Valid));
    let m2 = AuthManager::new("auth.json".to_string(), Some(tokens(now + 300_000, "r")));
    assert!(!m2.is_authenticated(now));
    assert!(matches!(m2.startup_check(now), TokenCheck::ExpiringSoon));
    assert!(matches!(m2.next_token_step(now), TokenStep::Refresh));
    let none = AuthManager::new("auth.json".to_string(), None);
    assert!(matches!(none.next_token_step(now), TokenStep::Login));
    assert_eq!(none.get_auth_status(now), (false, None));
    assert_eq!(m.get_auth_status(now), (true, Some("user@example.com".to_string())));
}

#[test]
fn token_refresh_rules() {
    let now = 1_000_000i64;
    let mut m = AuthManager::new("auth.json".to_string(), Some(tokens(0, "old-refresh")));
    m.apply_refresh(
        RefreshTokenResponse { access_token: "new".to_string(), token_type: "Bearer".to_string(), expires_in: None, refresh_token: None },
        now,
    );
    let t = m.get_tokens().expect("tokens are held");
    assert_eq!(t.access_token, "new");
    assert_eq!(t.refresh_token, "old-refresh");
    assert_eq!(t.id_token, "id");
    assert_eq!(t.expires_at, now + 3_600_000);
    assert!(!AuthManager::new("a".to_string(), Some(tokens(0, "r"))).is_authenticated(now));
    assert!(m.is_authenticated(now));
    assert_eq!(expiry_after(now, Some(60)), now + 60_000);
    assert_eq!(expiry_after(now, Some(u64::MAX)), now - 1000);
    let empty = AuthManager::new("a".to_string(), Some(tokens(0, "")));
    match empty.silent_refresh_token() {
        Err(MindLinkError::Authentication { message, .. }) => assert_eq!(message, "No refresh token available"),
        _ => panic!("an empty refresh token cannot refresh"),
    }
    let mut out = AuthManager::new("a".to_string(), Some(tokens(0, "r")));
    out.logout();
    assert!(out.get_access_token().is_none());
    assert_eq!(out.refresh_token_for_refresh(), Err("No tokens available to refresh".to_string()));
}

#[test]
fn exchange_and_legacy_tokens() {
    let r = TokenResponse {
        access_token: "a".to_string(),
        id_token: "i".to_string(),
        token_type: "Bearer".to_string(),
        expires_in: Some(10),
        refresh_token: None,
        scope: None,
    };
    let t = AuthTokens::from_exchange(r, "acct".to_string(), 5_000);
    assert_eq!(t.refresh_token, "");
    assert_eq!(t.expires_at, 15_000);
    let l = AuthTokens::from_legacy("a".to_string(), "r".to_string(), 9);
    assert_eq!(l.token_type, "Bearer");
    assert!(l.id_token.is_empty() && l.account_id.is_empty());
}

#[test]
fn token_checks_against_the_clock() {
    let far = AuthManager::new("a".to_string(), Some(tokens(i64::MAX / 2, "r")));
    assert_eq!(far.is_authenticated_now(), Some(true));
    assert!(matches!(far.startup_check_now(), Some(TokenCheck::Valid)));
    assert!(matches!(far.next_token_step_now(), Some(TokenStep::Ready)));
    assert_eq!(far.get_auth_status_now(), Some((true, Some("user@example.com".to_string()))));
    let stale = AuthManager::new("a".to_string(), Some(tokens(0, "r")));
    assert_eq!(stale.is_authenticated_now(), Some(false));
    assert!(matches!(stale.startup_check_now(), Some(TokenCheck::ExpiringSoon)));
    assert!(matches!(stale.next_token_step_now(), Some(TokenStep::Refresh)));
    let none = AuthManager::new("a".to_string(), None);
    assert!(matches!(none.next_token_step_now(), Some(TokenStep::Login)));
    assert_eq!(none.get_auth_status_now(), Some((false, None)));
    assert_eq!(none.is_authenticated_now(), Some(false));
    assert!(matches!(none.startup_check_now(), Some(TokenCheck::NoTokens)));
    let mut empty = AuthManager::new("a".to_string(), None);
    let taken = empty.apply_refresh_now(RefreshTokenResponse {
        access_token: "x".to_string(),
        token_type: "Bearer".to_string(),
        expires_in: None,
        refresh_token: None,
    });
    assert!(taken);
    assert!(empty.get_tokens().is_none());
    let wrapped = TokenResponse {
        access_token: "a".to_string(),
        id_token: "i".to_string(),
        token_type: "Bearer".to_string(),
        expires_in: Some(u64::MAX),
        refresh_token: None,
        scope: None,
    };
    let t = AuthTokens::from_exchange_now(wrapped, "acct".to_string()).expect("a lifetime of minus one second fits");
    assert!(t.expires_at >= -1000);
}

#[test]
fn tokens_issued_now() {
    let r = TokenResponse {
        access_token: "a".to_string(),
        id_token: "i".to_string(),
        token_type: "Bearer".to_string(),
        expires_in: Some(600),
        refresh_token: Some("rr".to_string()),
        scope: None,
    };
    let t = AuthTokens::from_exchange_now(r, "acct".to_string()).expect("a ten-minute lifetime fits");
    assert_eq!(t.refresh_token, "rr");
    assert_eq!(t.account_id, "acct");
    let m = AuthManager::new("a".to_string(), Some(t));
    assert_eq!(m.is_authenticated_now(), Some(true));
    let mut m = m;
    let applied = m.apply_refresh_now(RefreshTokenResponse {
        access_token: "b".to_string(),
        token_type: "Bearer".to_string(),
        expires_in: Some(60),
        refresh_token: None,
    });
    assert!(applied);
    assert_eq!(m.get_access_token(), Some("b"));
    assert_eq!(m.is_authenticated_now(), Some(false));
    let h = m.chatgpt_request_headers_new_session().expect("tokens are held");
    assert_eq!(h[5].0, "session_id");
    assert_eq!(h[5].1.len(), 36);
    let h2 = m.chatgpt_request_headers_new_session().expect("tokens are held");
    assert_ne!(h[5].1, h2[5].1);
    let none = AuthManager::new("a".to_string(), None);
    assert_eq!(none.chatgpt_request_headers_new_session(), Err("No authentication tokens available".to_string()));
}

#[test]
fn pkce_values() {
    let v = generate_code_verifier().expect("random source");
    assert_eq!(v.len(), 43);
    assert!(v.chars().all(|c| c.is_ascii_alphanumeric() || c == '-' || c == '_'));
    assert_ne!(generate_code_verifier(), Some(v));
    assert_eq!(generate_state().expect("random source").len(), 22);
    assert_eq!(
        generate_code_challenge("dBjftJeZ4CVP-mB92K27uhbUJU1p1r_wW1gFWFOEjXk"),
        "E9Melhoa2OwvFrEMTJguCHaoeK1t8URWbuGJSstw-cM"
    );
}

#[test]
fn authorization_url() {
    let u = build_chatgpt_auth_url("http://localhost:1455/auth/callback", "ch", "st");
    assert!(u.starts_with("https://auth.openai.com/oauth/authorize?response_type=code&client_id=app_EMoamEEZ73f0CkXaXp7hrann&redirect_uri=http%3A%2F%2Flocalhost%3A1455%2Fauth%2Fcallback&scope=openid+profile+email+offline_access&state=st&code_challenge=ch"));
    assert!(u.ends_with("&code_challenge_method=S256&id_token_add_organizations=true&codex_cli_simplified_flow=true"));
    assert_eq!(
        oauth_flow_url("S", "C"),
        "https://auth.openai.com/authorize?response_type=code&client_id=your-client-id&redirect_uri=http://127.0.0.1:8080/callback&scope=openid email profile&state=S&code_challenge=C&code_challenge_method=S256"
    );
    assert!(start_oauth_flow().expect("random source").contains("&code_challenge_method=S256"));
}

fn query(code: Option<&str>, error: Option<&str>, desc: Option<&str>, state: Option<&str>) -> AuthCallbackQuery {
    AuthCallbackQuery {
        code: code.map(|s| s.to_string()),
        error: error.map(|s| s.to_string()),
        error_description: desc.map(|s| s.to_string()),
        state: state.map(|s| s.to_string()),
    }
}

#[test]
fn sign_in_callback_outcomes() {
    assert_eq!(callback_result(&query(Some("c"), None, None, Some("s")), "s"), Ok("c".to_string()));
    assert_eq!(callback_result(&query(Some("c"), None, None, Some("x")), "s"), Err("Invalid state parameter".to_string()));
    assert_eq!(callback_result(&query(Some("c"), None, None, None), "s"), Err("Missing state parameter".to_string()));
    assert_eq!(
        callback_result(&query(None, Some("access_denied"), None, Some("s")), "s"),
        Err("ChatGPT OAuth error: access_denied - Unknown error".to_string())
    );
    assert_eq!(callback_result(&query(None, None, None, Some("s")), "s"), Err("Missing authorization code".to_string()));
}

#[test]
fn account_from_claims_and_tokens() {
    let claims = obj(vec![("https://api.openai.com/auth", obj(vec![("chatgpt_account_id", text("acct-1"))]))]);
    assert_eq!(account_id_from_claims(&claims), Ok("acct-1".to_string()));
    assert_eq!(
        account_id_from_claims(&obj(vec![("https://api.openai.com/auth", text("x"))])),
        Err("Missing auth claims in ID token".to_string())
    );
    assert_eq!(
        account_id_from_claims(&obj(vec![("https://api.openai.com/auth", obj(vec![]))])),
        Err("Missing chatgpt_account_id in auth claims".to_string())
    );
    let bad = extract_account_id_from_id_token("not-a-token").expect_err("not a token");
    assert!(bad.starts_with("Failed to decode JWT header: "));
    // header {"alg":"RS256","typ":"JWT"}, claims with the account and an expiry, fake signature
    let token = "eyJhbGciOiJSUzI1NiIsInR5cCI6IkpXVCJ9.eyJleHAiOjQxMDI0NDQ4MDAsImh0dHBzOi8vYXBpLm9wZW5haS5jb20vYXV0aCI6eyJjaGF0Z3B0X2FjY291bnRfaWQiOiJhY2N0LTQyIn19.c2ln";
    assert_eq!(extract_account_id_from_id_token(token), Ok("acct-42".to_string()));
}

#[test]
fn chatgpt_request_shape() {
    let m = AuthManager::new("a".to_string(), Some(tokens(0, "r")));
    let h = m.chatgpt_request_headers("sess").expect("tokens are held");
    assert_eq!(h[0], ("Authorization".to_string(), "Bearer acc".to_string()));
    assert_eq!(h[3], ("chatgpt-account-id".to_string(), "acct".to_string()));
    assert_eq!(h[5], ("session_id".to_string(), "sess".to_string()));
    let none = AuthManager::new("a".to_string(), None);
    assert_eq!(none.chatgpt_request_headers("s"), Err("No authentication tokens available".to_string()));
    match chatgpt_request_body(vec![]) {
        Json::Object(m) => assert_eq!(m[1].0, "model"),
        _ => panic!("object expected"),
    }
}
