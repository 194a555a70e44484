use opencode_server::errors::ServerError;
use opencode_server::planner::{
    build_argv, build_environment, build_plan, build_url, parse_provider, pick_port, plan_launch,
    OpenCodeConfig, Provider,
};
use opencode_server::probe::{installed_from_probe, version_from_output};
use opencode_server::supervisor::{server_info, stop_result, OpenCodeState, StartPrep};
use opencode_server::text::{decimal_string, str_eq, trim_str};

fn config(provider: &str, api_key: Option<&str>) -> Option<OpenCodeConfig> {
    Some(OpenCodeConfig {
        provider: provider.to_string(),
        model: "default-model".to_string(),
        api_key: api_key.map(|k| k.to_string()),
    })
}

#[test]
fn decimal_rendering() {
    assert_eq!(decimal_string(0), "0");
    assert_eq!(decimal_string(7), "7");
    assert_eq!(decimal_string(80), "80");
    assert_eq!(decimal_string(8080), "8080");
    assert_eq!(decimal_string(65535), "65535");
}

#[test]
fn url_construction() {
    assert_eq!(build_url(8080), "http://127.0.0.1:8080");
    assert_eq!(build_url(1), "http://127.0.0.1:1");
}

#[test]
fn argv_is_fixed() {
    let argv = build_argv(4096);
    assert_eq!(
        argv,
        vec!["serve", "--port", "4096", "--hostname", "127.0.0.1"]
    );
}

#[test]
fn string_equality() {
    assert!(str_eq("anthropic", "anthropic"));
    assert!(!str_eq("anthropic", "anthropi"));
    assert!(!str_eq("anthropic", "anthropiC"));
    assert!(str_eq("", ""));
    assert!(!str_eq("", "a"));
}

#[test]
fn provider_parsing() {
    assert_eq!(parse_provider("openrouter"), Provider::Openrouter);
    assert_eq!(parse_provider("anthropic"), Provider::Anthropic);
    assert_eq!(parse_provider("openai"), Provider::Openai);
    assert_eq!(parse_provider("google"), Provider::Google);
    assert_eq!(parse_provider("unknown"), Provider::Other);
    assert_eq!(parse_provider("Anthropic"), Provider::Other);
    assert_eq!(parse_provider(""), Provider::Other);
}

#[test]
fn provider_mapping_known_key() {
    let env = build_environment(&config("anthropic", Some("k"))).unwrap();
    assert_eq!(env.name, "ANTHROPIC_API_KEY");
    assert_eq!(env.value, "k");

    let env = build_environment(&config("openrouter", Some("r"))).unwrap();
    assert_eq!(env.name, "OPENROUTER_API_KEY");
    assert_eq!(env.value, "r");

    let env = build_environment(&config("openai", Some("o"))).unwrap();
    assert_eq!(env.name, "OPENAI_API_KEY");
    assert_eq!(env.value, "o");

    let env = build_environment(&config("google", Some("g"))).unwrap();
    assert_eq!(env.name, "GOOGLE_API_KEY");
    assert_eq!(env.value, "g");
}

#[test]
fn provider_mapping_sets_nothing_otherwise() {
    assert!(build_environment(&config("unknown", Some("k"))).is_none());
    assert!(build_environment(&config("anthropic", None)).is_none());
    assert!(build_environment(&None).is_none());
}

#[test]
fn plan_carries_port_path_env_and_argv() {
    let path = "/tmp/project".to_string();
    let plan = build_plan(&path, &config("google", Some("g")), 4242);
    assert_eq!(plan.port, 4242);
    assert_eq!(plan.project_path, "/tmp/project");
    assert_eq!(
        plan.args,
        vec!["serve", "--port", "4242", "--hostname", "127.0.0.1"]
    );
    let env = plan.env.unwrap();
    assert_eq!(env.name, "GOOGLE_API_KEY");
    assert_eq!(env.value, "g");
}

#[test]
fn picked_ports_are_real() {
    match pick_port() {
        Ok(port) => assert!(port > 0),
        Err(e) => assert!(matches!(e, ServerError::NoPortAvailable)),
    }
}

#[test]
fn planned_launch_uses_the_picked_port() {
    let path = "/tmp/project".to_string();
    match plan_launch(&path, &None) {
        Ok(plan) => {
            assert_eq!(plan.project_path, "/tmp/project");
            assert_eq!(plan.args[2], plan.port.to_string());
            assert!(plan.env.is_none());
        }
        Err(e) => assert!(matches!(e, ServerError::NoPortAvailable)),
    }
}

#[test]
fn start_is_idempotent_per_path() {
    let mut state = OpenCodeState::default();
    let path = "/p".to_string();
    match state.prepare_start(&path) {
        StartPrep::Proceed(kill) => assert!(kill.is_none()),
        StartPrep::Reuse(_) => panic!("empty slot must not be reused"),
    }
    let first = state.record_spawned(7, 4096, path.clone());
    match state.prepare_start(&path) {
        StartPrep::Reuse(info) => {
            assert_eq!(info.port, first.port);
            assert_eq!(info.url, first.url);
            assert_eq!(info.project_path, first.project_path);
            assert_eq!(info.running, first.running);
        }
        StartPrep::Proceed(_) => panic!("same path must reuse the running server"),
    }
    assert!(state.process.is_some());
}

#[test]
fn start_for_other_path_replaces() {
    let mut state = OpenCodeState::default();
    state.record_spawned(7, 4096, "/a".to_string());
    let path_b = "/b".to_string();
    match state.prepare_start(&path_b) {
        StartPrep::Proceed(kill) => assert_eq!(kill, Some(7)),
        StartPrep::Reuse(_) => panic!("a different path must not reuse"),
    }
    assert!(state.process.is_none());
    state.record_spawned(8, 5000, path_b);
    let info = state.status().unwrap();
    assert_eq!(info.project_path, "/b");
    assert_eq!(info.port, 5000);
}

#[test]
fn stop_when_empty_succeeds() {
    let mut state = OpenCodeState::default();
    assert!(state.take_process().is_none());
    assert!(stop_result(None, None).is_ok());
}

#[test]
fn stop_surfaces_termination_failures() {
    match stop_result(Some("kill failed".to_string()), None) {
        Err(ServerError::TerminationFailed(reason)) => assert_eq!(reason, "kill failed"),
        _ => panic!("a kill failure must surface as TerminationFailed"),
    }
    match stop_result(None, Some("wait failed".to_string())) {
        Err(ServerError::TerminationFailed(reason)) => assert_eq!(reason, "wait failed"),
        _ => panic!("a reap failure must surface as TerminationFailed"),
    }
}

#[test]
fn ports_make_distinct_urls() {
    let a = server_info(4096, &"/p".to_string());
    let b = server_info(4097, &"/q".to_string());
    assert_ne!(a.port, b.port);
    assert_ne!(a.url, b.url);
}

#[test]
fn status_reflects_the_slot() {
    let mut state = OpenCodeState::default();
    assert!(state.status().is_none());
    state.record_spawned(7, 4096, "/p".to_string());
    let info = state.status().unwrap();
    assert!(info.running);
    assert_eq!(info.project_path, "/p");
    assert_eq!(info.port, 4096);
    assert_eq!(info.url, "http://127.0.0.1:4096");
    let taken = state.take_process().unwrap();
    assert_eq!(taken.handle, 7);
    assert!(state.status().is_none());
}

#[test]
fn installed_probe_never_errs() {
    assert!(!installed_from_probe(None));
    assert!(!installed_from_probe(Some(false)));
    assert!(installed_from_probe(Some(true)));
}

#[test]
fn version_is_trimmed_output() {
    let v = version_from_output(true, "  0.5.2\n").unwrap();
    assert_eq!(v, "0.5.2");
    let v = version_from_output(true, "\t \r\n").unwrap();
    assert_eq!(v, "");
    let v = version_from_output(true, "a b").unwrap();
    assert_eq!(v, "a b");
}

#[test]
fn version_fails_as_binary_not_found() {
    match version_from_output(false, "whatever") {
        Err(ServerError::BinaryNotFound) => {}
        _ => panic!("a failed probe must report BinaryNotFound"),
    }
}

#[test]
fn trimming_matches_whitespace_only() {
    assert_eq!(trim_str(""), "");
    assert_eq!(trim_str("  x  y  "), "x  y");
    assert_eq!(trim_str("\nx"), "x");
    assert_eq!(trim_str("x\r"), "x");
}

#[test]
fn error_messages() {
    assert_eq!(ServerError::NoPortAvailable.message(), "No available ports");
    assert_eq!(
        ServerError::BinaryNotFound.message(),
        "opencode not found or failed to get version"
    );
    assert_eq!(ServerError::SpawnFailed("why".to_string()).message(), "why");
    assert_eq!(
        ServerError::LockUnavailable("poisoned".to_string()).message(),
        "poisoned"
    );
}
