use logprox::config::{
    BodyMatch, CaptureConfig, Config, ConfigHolder, DropConfig, DropResponse, DropRule,
    LoggingConfig, LoggingRule, MatchConditions, PathMatch, RequestInfo, ResponseLoggingConfig,
    ServerConfig,
};

fn create_test_request(method: &str, path: &str, headers: Vec<(&str, &str)>) -> RequestInfo {
    RequestInfo::new(
        method.to_string(),
        path.to_string(),
        headers
            .into_iter()
            .map(|(k, v)| (k.to_string(), v.to_string()))
            .collect(),
    )
}

fn strings(v: &[&str]) -> Vec<String> {
    v.iter().map(|s| s.to_string()).collect()
}

fn conditions(
    paths: &[&str],
    methods: &[&str],
    headers: &[(&str, &str)],
    bodies: &[&str],
) -> MatchConditions {
    MatchConditions {
        path: PathMatch { patterns: strings(paths) },
        methods: strings(methods),
        headers: headers
            .iter()
            .map(|(k, v)| (k.to_string(), v.to_string()))
            .collect(),
        body: BodyMatch { patterns: strings(bodies) },
    }
}

fn empty_config() -> Config {
    Config {
        server: ServerConfig { port: 3000, config_file: "config.yaml".to_string() },
        logging: LoggingConfig { default: false, rules: vec![] },
        drop: DropConfig { default: false, rules: vec![] },
        response_logging: ResponseLoggingConfig { default: false, rules: vec![] },
    }
}

/// The configuration shipped with the proxy, built in memory.
fn shipped_config() -> Config {
    Config {
        server: ServerConfig { port: 3000, config_file: "config.yaml".to_string() },
        logging: LoggingConfig {
            default: false,
            rules: vec![
                LoggingRule {
                    name: "Log API requests".to_string(),
                    match_conditions: conditions(
                        &[],
                        &["POST", "PUT"],
                        &[("content-type", "application/json.*")],
                        &[],
                    ),
                    capture: CaptureConfig {
                        headers: strings(&["content-type", "user-agent"]),
                        body: true,
                        method: true,
                        path: true,
                        timing: true,
                    },
                    timeout: None,
                },
                LoggingRule {
                    name: "Log health checks".to_string(),
                    match_conditions: conditions(&["^/health$"], &[], &[], &[]),
                    capture: CaptureConfig {
                        headers: vec![],
                        body: false,
                        method: true,
                        path: false,
                        timing: true,
                    },
                    timeout: None,
                },
                LoggingRule {
                    name: "Log local tests".to_string(),
                    match_conditions: conditions(&[".*"], &[], &[], &[]),
                    capture: CaptureConfig {
                        headers: vec![],
                        body: true,
                        method: true,
                        path: true,
                        timing: true,
                    },
                    timeout: Some("30s".to_string()),
                },
            ],
        },
        drop: DropConfig {
            default: false,
            rules: vec![
                DropRule {
                    name: "Drop deprecated API calls".to_string(),
                    match_conditions: conditions(&["/api/v1/deprecated.*"], &[], &[], &[]),
                    response: DropResponse {
                        status_code: 410,
                        body: Some(
                            "This API endpoint has been deprecated and is no longer supported."
                                .to_string(),
                        ),
                    },
                },
                DropRule {
                    name: "Drop unauthorized requests".to_string(),
                    match_conditions: conditions(&["/admin.*"], &[], &[("authorization", ".*")], &[]),
                    response: DropResponse {
                        status_code: 403,
                        body: Some("Access denied.".to_string()),
                    },
                },
                DropRule {
                    name: "Block XSS attempts".to_string(),
                    match_conditions: conditions(&[], &[], &[], &["<script>.*</script>"]),
                    response: DropResponse {
                        status_code: 400,
                        body: Some("Malicious content detected".to_string()),
                    },
                },
            ],
        },
        response_logging: ResponseLoggingConfig { default: false, rules: vec![] },
    }
}

#[test]
fn config_test_should_log_request() {
    let config = shipped_config();
    let api_req = create_test_request("POST", "/anything/test", vec![("content-type", "application/json")]);
    assert!(config.should_log_request(&api_req, "").is_some());
    let health_req = create_test_request("GET", "/health", vec![]);
    assert!(config.should_log_request(&health_req, "").is_some());
    let other_req = create_test_request("GET", "/no-match", vec![]);
    assert!(config.should_log_request(&other_req, "").is_some());
}

#[test]
fn config_tests_test_should_log_request() {
    let config = shipped_config();

    // Test matching API request
    let api_req = create_test_request("POST", "/anything/test", vec![("content-type", "application/json")]);
    assert!(config.should_log_request(&api_req, "").is_some());

    // Test matching health check
    let health_req = create_test_request("GET", "/health", vec![]);
    assert!(config.should_log_request(&health_req, "").is_some());

    // Test matching local test rule (matches .* path)
    let other_req = create_test_request("GET", "/no-match", vec![]);
    assert!(config.should_log_request(&other_req, "").is_some());
}

fn check_should_drop_request() {
    let config = shipped_config();

    // Test matching deprecated API
    let deprecated_req = create_test_request("GET", "/api/v1/deprecated/old", vec![]);
    let drop_resp = config.should_drop_request(&deprecated_req, "").unwrap();
    assert_eq!(drop_resp.status_code, 410);
    assert!(drop_resp.body.is_some());

    // Test matching unauthorized admin
    let admin_req = create_test_request("GET", "/admin/dashboard", vec![("authorization", "Bearer token")]);
    let drop_resp = config.should_drop_request(&admin_req, "").unwrap();
    assert_eq!(drop_resp.status_code, 403);

    // Test non-matching request
    let normal_req = create_test_request("GET", "/api/v2/normal", vec![]);
    assert!(config.should_drop_request(&normal_req, "").is_none());
}

#[test]
fn config_test_should_drop_request() {
    check_should_drop_request();
}

#[test]
fn config_tests_test_should_drop_request() {
    check_should_drop_request();
}

fn check_matches_rule_method() {
    let config = shipped_config();
    let post_req = create_test_request("POST", "/test", vec![]);
    let conditions = conditions(&[], &["POST"], &[], &[]);
    assert!(config.matches_rule(&post_req, &conditions, ""));
    let get_req = create_test_request("GET", "/test", vec![]);
    assert!(!config.matches_rule(&get_req, &conditions, ""));
}

#[test]
fn config_test_matches_rule_method() {
    check_matches_rule_method();
}

#[test]
fn config_tests_test_matches_rule_method() {
    check_matches_rule_method();
}

fn check_matches_rule_path() {
    let config = shipped_config();
    let req = create_test_request("GET", "/health", vec![]);
    let conditions = conditions(&["^/health$"], &[], &[], &[]);
    assert!(config.matches_rule(&req, &conditions, ""));
    let req2 = create_test_request("GET", "/nothealth", vec![]);
    assert!(!config.matches_rule(&req2, &conditions, ""));
}

#[test]
fn config_test_matches_rule_path() {
    check_matches_rule_path();
}

#[test]
fn config_tests_test_matches_rule_path() {
    check_matches_rule_path();
}

fn check_matches_rule_headers() {
    let config = shipped_config();
    let req = create_test_request("GET", "/test", vec![("content-type", "application/json")]);
    let conditions = conditions(&[], &[], &[("content-type", "application/json.*")], &[]);
    assert!(config.matches_rule(&req, &conditions, ""));
    let req2 = create_test_request("GET", "/test", vec![("content-type", "text/plain")]);
    assert!(!config.matches_rule(&req2, &conditions, ""));
    let req3 = create_test_request("GET", "/test", vec![]);
    assert!(!config.matches_rule(&req3, &conditions, ""));
}

#[test]
fn config_test_matches_rule_headers() {
    check_matches_rule_headers();
}

#[test]
fn config_tests_test_matches_rule_headers() {
    check_matches_rule_headers();
}

fn check_matches_rule_combined_conditions() {
    let config = shipped_config();
    let req = create_test_request("POST", "/anything/test", vec![("content-type", "application/json")]);
    let conditions = conditions(&["/anything.*"], &["POST"], &[("content-type", "application/json.*")], &[]);
    assert!(config.matches_rule(&req, &conditions, ""));
    let req2 = create_test_request("GET", "/anything/test", vec![("content-type", "application/json")]);
    assert!(!config.matches_rule(&req2, &conditions, ""));
}

#[test]
fn config_test_matches_rule_combined_conditions() {
    check_matches_rule_combined_conditions();
}

#[test]
fn config_tests_test_matches_rule_combined_conditions() {
    check_matches_rule_combined_conditions();
}

#[test]
fn test_matches_rule_body() {
    let config = shipped_config();

    // Test body regex match
    let req = create_test_request("POST", "/test", vec![]);
    let conditions_one = conditions(&[], &[], &[], &[r#""amount":\s*\d+"#]);
    let body_with_amount = r#"{"amount": 123, "user": "test"}"#;
    assert!(config.matches_rule(&req, &conditions_one, body_with_amount));

    // Test body no match
    let body_without_amount = r#"{"user": "test", "status": "ok"}"#;
    assert!(!config.matches_rule(&req, &conditions_one, body_without_amount));

    // Test multiple patterns (any match)
    let conditions_multi = conditions(&[], &[], &[], &["admin", "secret"]);
    assert!(config.matches_rule(&req, &conditions_multi, "user admin access"));
    assert!(config.matches_rule(&req, &conditions_multi, "contains secret data"));
    assert!(!config.matches_rule(&req, &conditions_multi, "normal user data"));
}

fn check_should_drop_request_default() {
    let mut config = empty_config();
    config.drop.default = true;
    let req = create_test_request("GET", "/any", vec![]);
    let drop_resp = config.should_drop_request(&req, "").unwrap();
    assert_eq!(drop_resp.status_code, 403);
    assert!(drop_resp.body.is_some());
}

#[test]
fn config_test_should_drop_request_default() {
    check_should_drop_request_default();
}

#[test]
fn config_tests_test_should_drop_request_default() {
    check_should_drop_request_default();
}

fn check_config_holder() {
    let holder_config = empty_config();
    let mut holder = ConfigHolder::new(holder_config);

    // Test getting config
    {
        let config = holder.get();
        assert_eq!(config.logging.default, false);
    }

    // Test reloading with a configuration that loaded
    let reload_result = holder.reload(Ok(shipped_config()), &vec![]);
    assert!(reload_result.is_ok());
    assert_eq!(holder.get().drop.rules.len(), 3);
}

#[test]
fn config_test_config_holder() {
    check_config_holder();
}

#[test]
fn config_tests_test_config_holder() {
    check_config_holder();
}

#[test]
fn test_env_substitution() {
    let env = vec![("TEST_SECRET".to_string(), "replaced_value".to_string())];
    let result = Config::substitute_env_in_string("prefix ${TEST_SECRET} suffix", &env);
    assert_eq!(result, "prefix replaced_value suffix");

    // Test missing var
    let result2 = Config::substitute_env_in_string("no ${MISSING_VAR} here", &env);
    assert_eq!(result2, "no ${MISSING_VAR} here");
}
