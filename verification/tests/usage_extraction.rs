use lm_proxy::models::{
    try_parse_usage_from_body, try_parse_usage_from_chunk, usage_from_stream_chunk,
    decode_completion_response, decode_completion_chunk, Usage,
};

#[test]
fn body_with_bare_usage_object_yields_total_tokens() {
    let body = br#"{"usage": {"total_tokens": 42}}"#;
    let usage = try_parse_usage_from_body(body).expect("usage should be extracted");
    assert_eq!(usage.total_tokens, Some(42));
    assert_eq!(usage.prompt_tokens, None);
    assert_eq!(usage.completion_tokens, None);
}

#[test]
fn body_with_full_completion_response_yields_all_counters() {
    let body = br#"{"id":"abc","object":"chat.completion","created":123,"model":"m","usage":{"prompt_tokens":1,"completion_tokens":2,"total_tokens":3}}"#;
    let usage = try_parse_usage_from_body(body).expect("usage should be extracted");
    assert_eq!(usage.prompt_tokens, Some(1));
    assert_eq!(usage.completion_tokens, Some(2));
    assert_eq!(usage.total_tokens, Some(3));
}

#[test]
fn body_without_usage_yields_nothing() {
    assert_eq!(try_parse_usage_from_body(br#"{"id":"abc"}"#), None);
    assert_eq!(try_parse_usage_from_body(br#"{"message": "success"}"#), None);
}

#[test]
fn body_that_is_not_json_yields_nothing() {
    assert_eq!(try_parse_usage_from_body(b"not json at all"), None);
    assert_eq!(try_parse_usage_from_body(b""), None);
    assert_eq!(try_parse_usage_from_body(&[0xff, 0xfe, 0x00]), None);
}

#[test]
fn body_that_is_not_an_object_yields_nothing() {
    assert_eq!(try_parse_usage_from_body(b"[1, 2, 3]"), None);
    assert_eq!(try_parse_usage_from_body(b"42"), None);
    assert_eq!(try_parse_usage_from_body(b"\"usage\""), None);
}

#[test]
fn token_counter_too_large_for_u32_spoils_the_decode() {
    let body = br#"{"usage": {"total_tokens": 5000000000}}"#;
    assert_eq!(try_parse_usage_from_body(body), None);
}

#[test]
fn embeddings_body_yields_usage_even_when_completion_shape_fails() {
    // "created" must be an integer for the completion shape, so only the
    // embeddings shape decodes this body.
    let body = br#"{"data":[{"embedding":[0.25,-1.5],"index":0,"object":"embedding"}],"created":"not-a-number","usage":{"prompt_tokens":5,"total_tokens":5}}"#;
    let usage = try_parse_usage_from_body(body).expect("usage should be extracted");
    assert_eq!(usage.prompt_tokens, Some(5));
    assert_eq!(usage.completion_tokens, None);
    assert_eq!(usage.total_tokens, Some(5));
}

#[test]
fn embeddings_body_with_bad_entry_yields_nothing() {
    // The embedding member must be an array of numbers, and the
    // completion shape fails on the string "created".
    let body = br#"{"data":[{"embedding":["x"]}],"created":"not-a-number","usage":{"total_tokens":5}}"#;
    assert_eq!(try_parse_usage_from_body(body), None);
}

#[test]
fn stream_line_with_usage_yields_total_tokens() {
    let line = r#"data: {"id":"x","choices":[],"usage":{"total_tokens":7}}"#;
    let usage = try_parse_usage_from_chunk(line).expect("usage should be extracted");
    assert_eq!(usage.total_tokens, Some(7));
    assert_eq!(usage.prompt_tokens, None);
    assert_eq!(usage.completion_tokens, None);
}

#[test]
fn doubled_data_prefix_is_stripped_only_once() {
    // Only one leading marker is removed; the remainder still starts
    // with "data: ", is not valid JSON, and so yields nothing.
    let line = r#"data: data: {"id":"x","usage":{"total_tokens":1}}"#;
    assert_eq!(try_parse_usage_from_chunk(line), None);
}

#[test]
fn stream_done_marker_yields_nothing() {
    assert_eq!(try_parse_usage_from_chunk("data: [DONE]"), None);
    assert_eq!(try_parse_usage_from_chunk("[DONE]"), None);
}

#[test]
fn stream_line_without_usage_yields_nothing() {
    assert_eq!(
        try_parse_usage_from_chunk(r#"data: {"id":"x","choices":[{"index":0,"delta":{"content":"hi"}}]}"#),
        None
    );
    assert_eq!(try_parse_usage_from_chunk("data: "), None);
    assert_eq!(try_parse_usage_from_chunk("not json"), None);
}

#[test]
fn raw_stream_chunk_is_trimmed_and_unwrapped() {
    let raw = b"  data: {\"id\":\"x\",\"usage\":{\"total_tokens\":11}}\n\n";
    let usage = usage_from_stream_chunk(raw).expect("usage should be extracted");
    assert_eq!(usage.total_tokens, Some(11));

    assert_eq!(usage_from_stream_chunk(b"data: [DONE]\n"), None);
    assert_eq!(usage_from_stream_chunk(&[0xff, 0xfe]), None);
}

#[test]
fn decoded_completion_response_carries_the_fields() {
    let v: serde_json::Value =
        serde_json::from_str(r#"{"id":"abc","object":"text_completion","created":99,"model":"m"}"#)
            .unwrap();
    let c = decode_completion_response(&v).expect("shape should decode");
    assert_eq!(c.id.as_deref(), Some("abc"));
    assert_eq!(c.object.as_deref(), Some("text_completion"));
    assert_eq!(c.created, Some(99));
    assert_eq!(c.model.as_deref(), Some("m"));
    assert_eq!(c.usage, None);
}

#[test]
fn decoded_chunk_carries_choices_and_delta() {
    let v: serde_json::Value = serde_json::from_str(
        r#"{"id":"x","choices":[{"index":0,"delta":{"role":"assistant","content":"hi"},"finish_reason":null}]}"#,
    )
    .unwrap();
    let c = decode_completion_chunk(&v).expect("shape should decode");
    let choices = c.choices.expect("choices should be present");
    assert_eq!(choices.len(), 1);
    assert_eq!(choices[0].index, Some(0));
    assert_eq!(choices[0].finish_reason, None);
    let delta = choices[0].delta.as_ref().expect("delta should be present");
    assert_eq!(delta.role.as_deref(), Some("assistant"));
    assert_eq!(delta.content.as_deref(), Some("hi"));
}

#[test]
fn chunk_with_malformed_choices_still_decodes_as_completion() {
    // The chunk shape rejects a non-array "choices"; the completion
    // shape ignores the member, so its usage is still found.
    let line = r#"data: {"id":"x","choices":"bad","usage":{"total_tokens":4}}"#;
    let usage = try_parse_usage_from_chunk(line).expect("usage should be extracted");
    assert_eq!(usage.total_tokens, Some(4));
}

#[test]
fn default_usage_is_empty() {
    let u = Usage::default();
    assert_eq!(u.prompt_tokens, None);
    assert_eq!(u.completion_tokens, None);
    assert_eq!(u.total_tokens, None);
}
