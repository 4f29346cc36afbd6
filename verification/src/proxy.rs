use vstd::prelude::*;
use vstd::string::StringSliceAdditionalSpecFns;
use vstd::string::StringExecFns;
use crate::bytes::{contains_seq, slice_contains, lower_bytes};
use crate::config::{Config, trim_trailing_slashes};
use crate::headers::{
    Header, hdr_pairs, is_hop_by_hop, filter_headers, filter_headers_spec,
    lemma_filter_headers_excludes,
};
use crate::models::{
    Usage, tracked_path_spec, is_usage_tracked_path, usage_from_body_spec,
    try_parse_usage_from_body, usage_from_stream_chunk_spec, usage_from_stream_chunk,
};
use crate::numfmt::{dec_digits, append_u32_decimal};

verus! {

// ---------------------------------------------------------------------------
// Strategy selection.
// ---------------------------------------------------------------------------

/// The three ways a response is handled; exactly one is chosen per
/// request, once, from the tracked-path flag and the content type.
#[derive(Debug, Clone, Copy, PartialEq, Eq, Structural)]
pub enum Strategy {
    Streaming,
    BufferedTracked,
    Passthrough,
}

/// Whether a content-type value declares an event stream.
pub open spec fn event_stream_content_type(ct: Seq<u8>) -> bool {
    contains_seq(ct, "text/event-stream".spec_bytes())
}

/// Whether a content-type value declares an event stream.
pub fn content_type_is_event_stream(ct: &[u8]) -> (r: bool)
    ensures
        r == event_stream_content_type(ct@),
{
    slice_contains(ct, "text/event-stream".as_bytes())
}

/// The strategy chosen for a response: streaming for an event stream,
/// buffered inspection for a tracked path, plain passthrough otherwise.
pub open spec fn strategy_spec(track_usage: bool, content_type: Option<Seq<u8>>) -> Strategy {
    if content_type matches Some(ct) && event_stream_content_type(ct) {
        Strategy::Streaming
    } else if track_usage {
        Strategy::BufferedTracked
    } else {
        Strategy::Passthrough
    }
}

/// The first header value named `content-type`, compared
/// case-insensitively.
pub open spec fn content_type_of(hs: Seq<(Seq<u8>, Seq<u8>)>) -> Option<Seq<u8>>
    decreases hs.len(),
{
    if hs.len() == 0 {
        None
    } else if lower_bytes(hs[0].0) == "content-type".spec_bytes() {
        Some(hs[0].1)
    } else {
        content_type_of(hs.drop_first())
    }
}

/// Chooses the strategy for a response from its headers.
pub fn response_strategy(track_usage: bool, headers: &Vec<Header>) -> (r: Strategy)
    ensures
        r == strategy_spec(track_usage, content_type_of(hdr_pairs(headers@))),
{
    let n = headers.len();
    let mut i: usize = 0;
    proof {
        assert(hdr_pairs(headers@).skip(0) =~= hdr_pairs(headers@));
    }
    while i < n
        invariant
            n == headers@.len(),
            i <= n,
            content_type_of(hdr_pairs(headers@)) == content_type_of(
                hdr_pairs(headers@).skip(i as int),
            ),
        decreases n - i,
    {
        let ghost rest = hdr_pairs(headers@).skip(i as int);
        proof {
            assert(rest.len() == n - i);
            assert(rest[0] == hdr_pairs(headers@)[i as int]);
            assert(rest.drop_first() =~= hdr_pairs(headers@).skip(i + 1));
        }
        let lowered = crate::bytes::to_lower(headers[i].name.as_slice());
        if crate::bytes::slice_eq(lowered.as_slice(), "content-type".as_bytes()) {
            let streaming = content_type_is_event_stream(headers[i].value.as_slice());
            if streaming {
                return Strategy::Streaming;
            } else if track_usage {
                return Strategy::BufferedTracked;
            } else {
                return Strategy::Passthrough;
            }
        }
        i += 1;
    }
    proof {
        assert(hdr_pairs(headers@).skip(n as int) =~= Seq::<(Seq<u8>, Seq<u8>)>::empty());
    }
    if track_usage {
        Strategy::BufferedTracked
    } else {
        Strategy::Passthrough
    }
}

/// Whether the chunks of a response stream are inspected for usage:
/// only under the streaming strategy, and only when the request path is
/// tracked.
pub fn stream_tracking_applies(strategy: Strategy, track_usage: bool) -> (r: bool)
    ensures
        r == (strategy is Streaming && track_usage),
{
    match strategy {
        Strategy::Streaming => track_usage,
        _ => false,
    }
}

// ---------------------------------------------------------------------------
// Request planning.
// ---------------------------------------------------------------------------

/// The path with its query string, as forwarded upstream.
pub open spec fn full_path_spec(path: Seq<char>, query: Option<Seq<char>>) -> Seq<char> {
    match query {
        Some(q) => path + "?"@ + q,
        None => path,
    }
}

/// Everything the outbound call needs: the upstream URL, the filtered
/// headers, and whether usage tracking applies to this request.
pub struct RequestPlan {
    pub url: String,
    pub headers: Vec<Header>,
    pub track_usage: bool,
}

/// Plans the outbound call for one inbound request: classifies the path,
/// filters the inbound headers, and builds the upstream URL from the
/// base URL (trailing slashes trimmed), the path and the query string.
pub fn plan_request(config: &Config, path: &str, query: Option<&str>, headers: &Vec<Header>) -> (r:
    RequestPlan)
    ensures
        r.track_usage == tracked_path_spec(path.spec_bytes()),
        hdr_pairs(r.headers@) == filter_headers_spec(hdr_pairs(headers@)),
        forall|i: int| 0 <= i < r.headers@.len() ==> !is_hop_by_hop(#[trigger] r.headers@[i].name@),
        r.url@ == trim_trailing_slashes(config.upstream_url@) + full_path_spec(
            path@,
            match query {
                Some(q) => Some(q@),
                None => None,
            },
        ),
{
    let track_usage = is_usage_tracked_path(path);
    let filtered = filter_headers(headers);
    let mut full = path.to_owned();
    match query {
        Some(q) => {
            full.append("?");
            full.append(q);
            proof {
                assert(full@ =~= path@ + "?"@ + q@);
            }
        },
        None => {},
    }
    let url = config.upstream_url_for_path(full.as_str());
    proof {
        lemma_filter_headers_excludes(hdr_pairs(headers@));
        assert forall|i: int| 0 <= i < filtered@.len() implies !is_hop_by_hop(
            #[trigger] filtered@[i].name@,
        ) by {
            assert(hdr_pairs(filtered@)[i].0 == filtered@[i].name@);
        }
    }
    RequestPlan { url, headers: filtered, track_usage }
}

// ---------------------------------------------------------------------------
// Response planning.
// ---------------------------------------------------------------------------

/// The outbound response frame: the status copied verbatim, the headers
/// with hop-by-hop names removed, and the chosen strategy.
pub struct ResponsePlan {
    pub status: u16,
    pub headers: Vec<Header>,
    pub strategy: Strategy,
}

/// Plans the outbound response from the upstream status and headers.
pub fn plan_response(track_usage: bool, status: u16, headers: &Vec<Header>) -> (r: ResponsePlan)
    ensures
        r.status == status,
        hdr_pairs(r.headers@) == filter_headers_spec(hdr_pairs(headers@)),
        forall|i: int| 0 <= i < r.headers@.len() ==> !is_hop_by_hop(#[trigger] r.headers@[i].name@),
        r.strategy == strategy_spec(track_usage, content_type_of(hdr_pairs(headers@))),
{
    let strategy = response_strategy(track_usage, headers);
    let filtered = filter_headers(headers);
    proof {
        lemma_filter_headers_excludes(hdr_pairs(headers@));
        assert forall|i: int| 0 <= i < filtered@.len() implies !is_hop_by_hop(
            #[trigger] filtered@[i].name@,
        ) by {
            assert(hdr_pairs(filtered@)[i].0 == filtered@[i].name@);
        }
    }
    ResponsePlan { status, headers: filtered, strategy }
}

// ---------------------------------------------------------------------------
// Telemetry.
// ---------------------------------------------------------------------------

/// The JSON payload posted to the telemetry endpoint for a token total.
pub open spec fn telemetry_payload_spec(total: u32) -> Seq<char> {
    "{\"name\":\"token-count\",\"value\":"@ + dec_digits(total as nat) + "}"@
}

/// Builds the telemetry payload `{"name":"token-count","value":<total>}`.
pub fn telemetry_payload(total: u32) -> (r: String)
    ensures
        r@ == telemetry_payload_spec(total),
{
    let mut s = String::from_str("{\"name\":\"token-count\",\"value\":");
    append_u32_decimal(&mut s, total);
    s.append("}");
    proof {
        assert(s@ =~= telemetry_payload_spec(total));
    }
    s
}

/// One telemetry post: where to send it and the exact payload.
pub struct TelemetryPost {
    pub url: String,
    pub payload: String,
}

/// Whether a telemetry post is owed: an endpoint is configured and the
/// extracted usage carries a token total.
pub open spec fn telemetry_due(telemetry_url: Option<String>, usage: Option<Usage>) -> bool {
    &&& telemetry_url is Some
    &&& usage matches Some(u) && u.total_tokens is Some
}

/// Plans the telemetry post for an extracted usage record: exactly one
/// post, to the configured endpoint, carrying the token total; none when
/// no endpoint is configured or no total was extracted.
pub fn plan_telemetry(telemetry_url: &Option<String>, usage: &Option<Usage>) -> (r: Option<
    TelemetryPost,
>)
    ensures
        r is Some <==> telemetry_due(*telemetry_url, *usage),
        r matches Some(p) ==> {
            &&& telemetry_url matches Some(url) && p.url@ == url@
            &&& usage matches Some(u) && u.total_tokens matches Some(t) && p.payload@
                == telemetry_payload_spec(t)
        },
{
    match telemetry_url {
        None => None,
        Some(url) => {
            match usage {
                None => None,
                Some(u) => {
                    match u.total_tokens {
                        None => None,
                        Some(t) => Some(
                            TelemetryPost { url: url.clone(), payload: telemetry_payload(t) },
                        ),
                    }
                },
            }
        },
    }
}

// ---------------------------------------------------------------------------
// The buffered-tracked strategy.
// ---------------------------------------------------------------------------

/// What the buffered-tracked strategy yields: the body to return, the
/// usage extracted from it, and the telemetry post owed, if any.
pub struct BufferedOutcome {
    pub body: Vec<u8>,
    pub usage: Option<Usage>,
    pub telemetry: Option<TelemetryPost>,
}

/// Runs the buffered-tracked strategy on a fully read body: extracts
/// usage from it and returns the body's own bytes unchanged.
pub fn handle_buffered_body(body: Vec<u8>, telemetry_url: &Option<String>) -> (r: BufferedOutcome)
    ensures
        r.body@ == body@,
        r.usage == usage_from_body_spec(body@),
        r.telemetry is Some <==> telemetry_due(*telemetry_url, usage_from_body_spec(body@)),
        r.telemetry matches Some(p) ==> {
            &&& telemetry_url matches Some(url) && p.url@ == url@
            &&& usage_from_body_spec(body@) matches Some(u) && u.total_tokens matches Some(t)
                && p.payload@ == telemetry_payload_spec(t)
        },
{
    let usage = try_parse_usage_from_body(body.as_slice());
    let telemetry = plan_telemetry(telemetry_url, &usage);
    BufferedOutcome { body, usage, telemetry }
}

// ---------------------------------------------------------------------------
// The streaming strategy.
// ---------------------------------------------------------------------------

/// What the streaming strategy delivers for one upstream chunk: the
/// chunk itself, unchanged.
pub open spec fn delivered_chunk(chunk: Seq<u8>) -> Seq<u8> {
    chunk
}

/// What one step of the streaming strategy yields: the chunk to forward,
/// the usage sniffed out of it, and the telemetry post owed, if any.
pub struct ChunkOutcome {
    pub chunk: Vec<u8>,
    pub usage: Option<Usage>,
    pub telemetry: Option<TelemetryPost>,
}

/// Runs one step of the streaming strategy: the chunk is forwarded
/// unchanged; when tracking applies it is also inspected for usage.
pub fn process_stream_chunk(track_usage: bool, chunk: Vec<u8>, telemetry_url: &Option<String>) -> (r:
    ChunkOutcome)
    ensures
        r.chunk@ == delivered_chunk(chunk@),
        r.usage == if track_usage {
            usage_from_stream_chunk_spec(chunk@)
        } else {
            None::<Usage>
        },
        r.telemetry is Some <==> (track_usage && telemetry_due(
            *telemetry_url,
            usage_from_stream_chunk_spec(chunk@),
        )),
        r.telemetry matches Some(p) ==> {
            &&& telemetry_url matches Some(url) && p.url@ == url@
            &&& usage_from_stream_chunk_spec(chunk@) matches Some(u) && u.total_tokens matches Some(
                t,
            ) && p.payload@ == telemetry_payload_spec(t)
        },
{
    let usage = if track_usage {
        usage_from_stream_chunk(chunk.as_slice())
    } else {
        None
    };
    let telemetry = plan_telemetry(telemetry_url, &usage);
    ChunkOutcome { chunk, usage, telemetry }
}

/// Law: the streaming strategy preserves the stream byte for byte; the
/// chunks it delivers, concatenated, equal the upstream chunks
/// concatenated, whether or not usage was found in any of them.
pub proof fn lemma_streaming_fidelity(chunks: Seq<Seq<u8>>)
    ensures
        chunks.map_values(|c: Seq<u8>| delivered_chunk(c)).flatten() == chunks.flatten(),
{
    assert(chunks.map_values(|c: Seq<u8>| delivered_chunk(c)) =~= chunks);
}

// ---------------------------------------------------------------------------
// Errors surfaced to the caller.
// ---------------------------------------------------------------------------

/// The two failures that become an observable result: the inbound body
/// could not be read, or the upstream could not be reached.
#[derive(Debug, Clone, Copy, PartialEq, Eq, Structural)]
pub enum ProxyError {
    BadRequest,
    BadGateway,
}

impl ProxyError {
    /// The HTTP status that the failure is surfaced as.
    pub fn status_code(&self) -> (r: u16)
        ensures
            r == match self {
                ProxyError::BadRequest => 400u16,
                ProxyError::BadGateway => 502u16,
            },
    {
        match self {
            ProxyError::BadRequest => 400,
            ProxyError::BadGateway => 502,
        }
    }
}

} // verus!
