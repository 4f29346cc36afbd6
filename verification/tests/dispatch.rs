use lm_proxy::headers::Header;
use lm_proxy::config::Config;
use lm_proxy::proxy::{
    Strategy, plan_request, plan_response, process_stream_chunk, handle_buffered_body,
    stream_tracking_applies, telemetry_payload, ProxyError,
};

fn header(name: &str, value: &str) -> Header {
    Header { name: name.as_bytes().to_vec(), value: value.as_bytes().to_vec() }
}

#[test]
fn event_stream_content_type_selects_the_streaming_strategy() {
    let hs = vec![header("Content-Type", "text/event-stream; charset=utf-8")];
    let plan = plan_response(true, 200, &hs);
    assert_eq!(plan.strategy, Strategy::Streaming);
    let plan_untracked = plan_response(false, 200, &hs);
    assert_eq!(plan_untracked.strategy, Strategy::Streaming);
}

#[test]
fn tracked_json_response_selects_the_buffered_strategy() {
    let hs = vec![header("content-type", "application/json")];
    let plan = plan_response(true, 200, &hs);
    assert_eq!(plan.strategy, Strategy::BufferedTracked);
}

#[test]
fn untracked_response_selects_passthrough() {
    let hs = vec![header("content-type", "application/json")];
    let plan = plan_response(false, 200, &hs);
    assert_eq!(plan.strategy, Strategy::Passthrough);
    let none = plan_response(false, 204, &Vec::new());
    assert_eq!(none.strategy, Strategy::Passthrough);
}

#[test]
fn response_plan_copies_the_status_and_filters_headers() {
    let hs = vec![
        header("content-type", "application/json"),
        header("connection", "keep-alive"),
        header("x-extra", "1"),
    ];
    let plan = plan_response(false, 502, &hs);
    assert_eq!(plan.status, 502);
    let names: Vec<&[u8]> = plan.headers.iter().map(|h| h.name.as_slice()).collect();
    assert_eq!(names, vec![b"content-type".as_slice(), b"x-extra".as_slice()]);
}

#[test]
fn request_plan_builds_the_url_and_classifies_the_path() {
    let config = Config {
        upstream_url: "http://localhost:8080".to_string(),
        telemetry_url: None,
    };
    let hs = vec![header("connection", "keep-alive"), header("accept", "*/*")];
    let plan = plan_request(&config, "/api/search", Some("q=test&limit=10"), &hs);
    assert_eq!(plan.url, "http://localhost:8080/api/search?q=test&limit=10");
    assert!(!plan.track_usage);
    let names: Vec<&[u8]> = plan.headers.iter().map(|h| h.name.as_slice()).collect();
    assert_eq!(names, vec![b"accept".as_slice()]);

    let tracked_plan = plan_request(&config, "/v1/chat/completions", None, &Vec::new());
    assert_eq!(tracked_plan.url, "http://localhost:8080/v1/chat/completions");
    assert!(tracked_plan.track_usage);
}

#[test]
fn connection_header_never_reaches_the_upstream_header_set() {
    let config = Config { upstream_url: "http://upstream".to_string(), telemetry_url: None };
    let hs = vec![header("connection", "keep-alive"), header("x-custom-header", "present")];
    let plan = plan_request(&config, "/api/test", None, &hs);
    for h in &plan.headers {
        assert_ne!(h.name.to_ascii_lowercase(), b"connection".to_vec());
    }
    assert_eq!(plan.headers.len(), 1);
    assert_eq!(plan.headers[0].name, b"x-custom-header".to_vec());
}

#[test]
fn buffered_strategy_returns_the_body_bytes_unchanged() {
    let body = br#"{"id":"abc","usage":{"total_tokens":42},   "pad": [1,2,3]}"#.to_vec();
    let outcome = handle_buffered_body(body.clone(), &None);
    assert_eq!(outcome.body, body);
    let usage = outcome.usage.expect("usage should be extracted");
    assert_eq!(usage.total_tokens, Some(42));
    assert!(outcome.telemetry.is_none());
}

#[test]
fn buffered_strategy_plans_exactly_one_telemetry_post() {
    let body = br#"{"usage":{"total_tokens":42}}"#.to_vec();
    let telemetry_url = Some("http://metrics.example.com/ingest".to_string());
    let outcome = handle_buffered_body(body.clone(), &telemetry_url);
    assert_eq!(outcome.body, body);
    let post = outcome.telemetry.expect("a post should be planned");
    assert_eq!(post.url, "http://metrics.example.com/ingest");
    assert_eq!(post.payload, r#"{"name":"token-count","value":42}"#);

    // The payload is well-formed JSON carrying exactly the total.
    let parsed: serde_json::Value = serde_json::from_str(&post.payload).unwrap();
    assert_eq!(parsed.get("name").and_then(|v| v.as_str()), Some("token-count"));
    assert_eq!(parsed.get("value").and_then(|v| v.as_u64()), Some(42));
}

#[test]
fn no_telemetry_without_a_total_or_without_an_endpoint() {
    let telemetry_url = Some("http://metrics.example.com".to_string());
    let no_total = handle_buffered_body(br#"{"usage":{"prompt_tokens":1}}"#.to_vec(), &telemetry_url);
    assert!(no_total.telemetry.is_none());
    let no_url = handle_buffered_body(br#"{"usage":{"total_tokens":9}}"#.to_vec(), &None);
    assert!(no_url.telemetry.is_none());
}

#[test]
fn streaming_strategy_forwards_every_chunk_unchanged() {
    let chunks: Vec<Vec<u8>> = vec![
        b"data: {\"id\":\"x\",\"choices\":[]}\n\n".to_vec(),
        vec![0xff, 0xfe, 0x01],
        b"data: [DONE]\n\n".to_vec(),
    ];
    let mut forwarded: Vec<u8> = Vec::new();
    let mut upstream: Vec<u8> = Vec::new();
    for c in &chunks {
        upstream.extend_from_slice(c);
        let outcome = process_stream_chunk(true, c.clone(), &None);
        assert_eq!(&outcome.chunk, c);
        forwarded.extend_from_slice(&outcome.chunk);
    }
    assert_eq!(forwarded, upstream);
}

#[test]
fn streaming_strategy_sniffs_usage_only_when_tracking() {
    let chunk = b"data: {\"id\":\"x\",\"usage\":{\"total_tokens\":7}}\n\n".to_vec();
    let tracked_step = process_stream_chunk(true, chunk.clone(), &None);
    assert_eq!(tracked_step.usage.expect("usage should be extracted").total_tokens, Some(7));
    let untracked_step = process_stream_chunk(false, chunk.clone(), &None);
    assert!(untracked_step.usage.is_none());
}

#[test]
fn streaming_telemetry_is_planned_on_a_hit() {
    let chunk = b"data: {\"id\":\"x\",\"usage\":{\"total_tokens\":7}}".to_vec();
    let telemetry_url = Some("http://metrics.example.com".to_string());
    let outcome = process_stream_chunk(true, chunk.clone(), &telemetry_url);
    assert_eq!(outcome.chunk, chunk);
    let post = outcome.telemetry.expect("a post should be planned");
    assert_eq!(post.payload, r#"{"name":"token-count","value":7}"#);
}

#[test]
fn stream_inspection_applies_only_to_tracked_streams() {
    assert!(stream_tracking_applies(Strategy::Streaming, true));
    assert!(!stream_tracking_applies(Strategy::Streaming, false));
    assert!(!stream_tracking_applies(Strategy::Passthrough, true));
    assert!(!stream_tracking_applies(Strategy::BufferedTracked, true));
}

#[test]
fn telemetry_payload_is_exact() {
    assert_eq!(telemetry_payload(0), r#"{"name":"token-count","value":0}"#);
    assert_eq!(telemetry_payload(4294967295), r#"{"name":"token-count","value":4294967295}"#);
}

#[test]
fn proxy_errors_surface_as_bad_request_and_bad_gateway() {
    assert_eq!(ProxyError::BadRequest.status_code(), 400);
    assert_eq!(ProxyError::BadGateway.status_code(), 502);
}

#[test]
fn untracked_get_passes_through_unchanged() {
    // A GET to /test/endpoint with a JSON body is not tracked: the plan
    // is passthrough, the status is copied, and the chunks of the body
    // reach the caller unchanged.
    let config = Config { upstream_url: "http://upstream".to_string(), telemetry_url: None };
    let req = plan_request(&config, "/test/endpoint", None, &Vec::new());
    assert!(!req.track_usage);
    assert_eq!(req.url, "http://upstream/test/endpoint");

    let resp_headers = vec![header("content-type", "application/json")];
    let plan = plan_response(req.track_usage, 200, &resp_headers);
    assert_eq!(plan.status, 200);
    assert_eq!(plan.strategy, Strategy::Passthrough);

    let body = br#"{"message": "success"}"#.to_vec();
    let outcome = process_stream_chunk(false, body.clone(), &None);
    assert_eq!(outcome.chunk, body);
    assert!(outcome.usage.is_none());
    assert!(outcome.telemetry.is_none());
}
