use pg_extism::sandbox::{
    classify_failure, standard_config, CallError, CallErrorKind, PathMapping, Secret,
};

#[test]
fn the_standard_restrictions() {
    let config = standard_config("/plugins/chatgpt.wasm", "sk-test");
    assert_eq!(config.locator, "/plugins/chatgpt.wasm");
    assert_eq!(config.max_pages, 5);
    assert_eq!(config.allowed_hosts, vec!["api.openai.com".to_string()]);
    assert_eq!(
        config.allowed_paths,
        vec![PathMapping { host: "/".to_string(), guest: "/".to_string() }]
    );
    assert_eq!(config.timeout_secs, 10);
    assert_eq!(
        config.secrets,
        vec![Secret { key: "openai_apikey".to_string(), value: "sk-test".to_string() }]
    );
}

#[test]
fn the_restrictions_do_not_depend_on_the_module() {
    let one = standard_config("a.wasm", "k");
    let other = standard_config("b.wasm", "k");
    assert_eq!(one.max_pages, other.max_pages);
    assert_eq!(one.allowed_hosts, other.allowed_hosts);
    assert_eq!(one.allowed_paths, other.allowed_paths);
    assert_eq!(one.timeout_secs, other.timeout_secs);
    assert_eq!(one.secrets, other.secrets);
}

#[test]
fn a_function_that_is_not_exported_is_missing() {
    assert_eq!(
        classify_failure(false, "extism_call failed".to_string()),
        CallError { kind: CallErrorKind::MissingFunction, detail: "extism_call failed".to_string() }
    );
    assert_eq!(classify_failure(false, "timeout".to_string()).kind, CallErrorKind::MissingFunction);
}

#[test]
fn a_call_that_was_stopped_for_its_time_is_a_timeout() {
    assert_eq!(
        classify_failure(true, "timeout".to_string()),
        CallError { kind: CallErrorKind::Timeout, detail: "timeout".to_string() }
    );
}

#[test]
fn every_other_failure_is_a_trap() {
    assert_eq!(
        classify_failure(true, "wasm trap: out of bounds memory access".to_string()).kind,
        CallErrorKind::Trap
    );
    assert_eq!(classify_failure(true, "Timeout".to_string()).kind, CallErrorKind::Trap);
    assert_eq!(classify_failure(true, "timeout ".to_string()).kind, CallErrorKind::Trap);
    assert_eq!(classify_failure(true, "".to_string()).kind, CallErrorKind::Trap);
    assert_eq!(
        classify_failure(true, "HTTP request to evil.example is not allowed".to_string()).kind,
        CallErrorKind::Trap
    );
}
