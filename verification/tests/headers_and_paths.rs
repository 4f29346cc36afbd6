use lm_proxy::headers::{Header, filter_headers, is_hop_by_hop_header};
use lm_proxy::models::{is_usage_tracked_path, Usage};
use lm_proxy::config::{Config, Args};

fn header(name: &str, value: &str) -> Header {
    Header { name: name.as_bytes().to_vec(), value: value.as_bytes().to_vec() }
}

fn names(hs: &[Header]) -> Vec<String> {
    hs.iter().map(|h| String::from_utf8(h.name.clone()).unwrap()).collect()
}

#[test]
fn hop_by_hop_names_are_recognized_case_insensitively() {
    assert!(is_hop_by_hop_header(b"connection"));
    assert!(is_hop_by_hop_header(b"Connection"));
    assert!(is_hop_by_hop_header(b"KEEP-ALIVE"));
    assert!(is_hop_by_hop_header(b"proxy-authenticate"));
    assert!(is_hop_by_hop_header(b"Proxy-Authorization"));
    assert!(is_hop_by_hop_header(b"te"));
    assert!(is_hop_by_hop_header(b"trailers"));
    assert!(is_hop_by_hop_header(b"Transfer-Encoding"));
    assert!(is_hop_by_hop_header(b"upgrade"));

    assert!(!is_hop_by_hop_header(b"content-type"));
    assert!(!is_hop_by_hop_header(b"authorization"));
    assert!(!is_hop_by_hop_header(b"x-custom-header"));
    assert!(!is_hop_by_hop_header(b"trailer"));
}

#[test]
fn filtering_drops_connection_and_keeps_the_rest() {
    let hs = vec![
        header("connection", "keep-alive"),
        header("authorization", "Bearer secret-token"),
        header("Transfer-Encoding", "chunked"),
        header("x-custom-header", "present"),
    ];
    let filtered = filter_headers(&hs);
    assert_eq!(names(&filtered), vec!["authorization", "x-custom-header"]);
    assert_eq!(filtered[0].value, b"Bearer secret-token".to_vec());
    assert_eq!(filtered[1].value, b"present".to_vec());
}

#[test]
fn filtering_twice_equals_filtering_once() {
    let hs = vec![
        header("Connection", "close"),
        header("content-type", "application/json"),
        header("upgrade", "h2c"),
        header("accept", "*/*"),
    ];
    let once = filter_headers(&hs);
    let twice = filter_headers(&once);
    assert_eq!(names(&once), names(&twice));
    assert_eq!(once.len(), twice.len());
    for (a, b) in once.iter().zip(twice.iter()) {
        assert_eq!(a.name, b.name);
        assert_eq!(a.value, b.value);
    }
}

#[test]
fn tracked_path_classification_matches_the_rule() {
    assert!(is_usage_tracked_path("/v1/chat/completions"));
    assert!(is_usage_tracked_path("/v2/chat/completions/extra"));
    assert!(is_usage_tracked_path("/v1/completions"));
    assert!(is_usage_tracked_path("/v1/text-completions"));
    assert!(is_usage_tracked_path("completions"));
    assert!(is_usage_tracked_path("/v1/embeddings"));
    assert!(is_usage_tracked_path("/v2/embeddings"));

    assert!(!is_usage_tracked_path("/v1/models"));
    assert!(!is_usage_tracked_path("/test/endpoint"));
    assert!(!is_usage_tracked_path("/v1/embeddings/extra"));
    assert!(!is_usage_tracked_path("embeddings"));
    assert!(!is_usage_tracked_path(""));
}

#[test]
fn log_format_prints_each_counter() {
    let u = Usage { prompt_tokens: Some(1), completion_tokens: None, total_tokens: Some(30) };
    assert_eq!(
        u.log_format(),
        "prompt_tokens=Some(1) completion_tokens=None total_tokens=Some(30)"
    );
    let empty = Usage::default();
    assert_eq!(
        empty.log_format(),
        "prompt_tokens=None completion_tokens=None total_tokens=None"
    );
}

#[test]
fn test_upstream_url_for_path() {
    let config = Config {
        upstream_url: "https://api.openai.com/v1".to_string(),
        telemetry_url: None,
    };

    assert_eq!(
        config.upstream_url_for_path("/chat/completions"),
        "https://api.openai.com/v1/chat/completions"
    );

    let config2 = Config {
        upstream_url: "http://localhost:8080/v1".to_string(),
        telemetry_url: None,
    };

    assert_eq!(
        config2.upstream_url_for_path("/chat/completions"),
        "http://localhost:8080/v1/chat/completions"
    );
}

#[test]
fn trailing_slashes_are_trimmed_from_the_base_url() {
    let config = Config { upstream_url: "http://localhost:8080/".to_string(), telemetry_url: None };
    assert_eq!(config.upstream_url_for_path("/x"), "http://localhost:8080/x");
    let config2 = Config { upstream_url: "http://h///".to_string(), telemetry_url: None };
    assert_eq!(config2.upstream_url_for_path("/x"), "http://h/x");
}

#[test]
fn args_become_a_config_and_a_listen_address() {
    let args = Args {
        upstream: "https://api.openai.com/v1".to_string(),
        host: "0.0.0.0".to_string(),
        port: 3000,
    };
    assert_eq!(args.listen_addr_string(), "0.0.0.0:3000");
    let config = args.into_config();
    assert_eq!(config.upstream_url, "https://api.openai.com/v1");
    assert!(config.telemetry_url.is_none());
}
