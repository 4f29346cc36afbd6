use vstd::prelude::*;
use vstd::string::StringSliceAdditionalSpecFns;
use vstd::string::StringExecFns;
use crate::bytes::{
    contains_seq, ends_with_seq, slice_contains, slice_ends_with, slice_eq, strip_prefix_once,
    strip_prefix_once_exec, trim_ascii, trim_ascii_ws,
};
use crate::json::{
    Json, json_model, json_parse, parse_json, json_is_object, json_is_null, json_get, json_as_u64,
    json_as_str, json_as_array, json_is_number,
};
use crate::numfmt::{dec_digits, append_u32_decimal};

verus! {

/// Usage statistics carried by upstream API responses.
#[derive(Debug, Clone, Copy, PartialEq, Eq)]
pub struct Usage {
    pub prompt_tokens: Option<u32>,
    pub completion_tokens: Option<u32>,
    pub total_tokens: Option<u32>,
}

impl Default for Usage {
    /// A usage record with every field absent.
    fn default() -> (r: Self)
        ensures
            r.prompt_tokens is None,
            r.completion_tokens is None,
            r.total_tokens is None,
    {
        Usage { prompt_tokens: None, completion_tokens: None, total_tokens: None }
    }
}

// ---------------------------------------------------------------------------
// Field shapes: what a decode of each optional field tolerates, mirroring
// an optional integer or string member of a JSON object.
// ---------------------------------------------------------------------------

/// An optional string member: absent, null, or a string.
pub open spec fn opt_text_field_ok(m: Map<Seq<char>, Json>, k: Seq<char>) -> bool {
    m.contains_key(k) ==> (m[k] is Null || m[k] is Text)
}

/// An optional u64 member: absent, null, or an integer that fits u64.
pub open spec fn opt_u64_field_ok(m: Map<Seq<char>, Json>, k: Seq<char>) -> bool {
    m.contains_key(k) ==> (m[k] is Null || m[k] is UInt)
}

/// An optional u32 member: absent, null, or an integer that fits u32.
pub open spec fn opt_u32_field_ok(m: Map<Seq<char>, Json>, k: Seq<char>) -> bool {
    m.contains_key(k) ==> (m[k] is Null || (m[k] matches Json::UInt(n) && n <= u32::MAX))
}

/// The value of an optional string member, when present and a string.
pub open spec fn text_field_of(m: Map<Seq<char>, Json>, k: Seq<char>) -> Option<Seq<char>> {
    if m.contains_key(k) && m[k] is Text {
        Some(m[k]->Text_0)
    } else {
        None
    }
}

/// The value of an optional u64 member, when present and in range.
pub open spec fn u64_field_of(m: Map<Seq<char>, Json>, k: Seq<char>) -> Option<u64> {
    if m.contains_key(k) && m[k] is UInt {
        Some(m[k]->UInt_0)
    } else {
        None
    }
}

/// The value of an optional u32 member, when present and in range.
pub open spec fn u32_field_of(m: Map<Seq<char>, Json>, k: Seq<char>) -> Option<u32> {
    if m.contains_key(k) && m[k] is UInt && m[k]->UInt_0 <= u32::MAX {
        Some(m[k]->UInt_0 as u32)
    } else {
        None
    }
}

// ---------------------------------------------------------------------------
// The usage envelope.
// ---------------------------------------------------------------------------

/// Whether `j` decodes as a usage record: an object whose three token
/// counters, where present, are integers that fit u32.
pub open spec fn valid_usage_json(j: Json) -> bool {
    &&& j matches Json::Obj(m)
    &&& opt_u32_field_ok(m, "prompt_tokens"@)
    &&& opt_u32_field_ok(m, "completion_tokens"@)
    &&& opt_u32_field_ok(m, "total_tokens"@)
}

/// The usage record that `j` decodes to.
pub open spec fn usage_of_json(j: Json) -> Usage {
    match j {
        Json::Obj(m) => Usage {
            prompt_tokens: u32_field_of(m, "prompt_tokens"@),
            completion_tokens: u32_field_of(m, "completion_tokens"@),
            total_tokens: u32_field_of(m, "total_tokens"@),
        },
        _ => Usage { prompt_tokens: None, completion_tokens: None, total_tokens: None },
    }
}

/// Whether the optional `usage` member of `m` decodes: absent, null, or a
/// valid usage record.
pub open spec fn usage_field_ok(m: Map<Seq<char>, Json>) -> bool {
    m.contains_key("usage"@) ==> (m["usage"@] is Null || valid_usage_json(m["usage"@]))
}

/// The usage record carried by the `usage` member of `m`, if any.
pub open spec fn usage_result_of(m: Map<Seq<char>, Json>) -> Option<Usage> {
    if m.contains_key("usage"@) && valid_usage_json(m["usage"@]) {
        Some(usage_of_json(m["usage"@]))
    } else {
        None
    }
}

// ---------------------------------------------------------------------------
// Verified field readers over a parsed JSON object.
// ---------------------------------------------------------------------------

/// Reads an optional u32 member; `Err` when the member is there but is not
/// null and not an integer that fits u32.
fn read_opt_u32(v: &serde_json::Value, key: &str) -> (r: Result<Option<u32>, ()>)
    requires
        json_model(*v) is Obj,
    ensures
        ({
            let m = json_model(*v)->Obj_0;
            match r {
                Ok(o) => opt_u32_field_ok(m, key@) && o == u32_field_of(m, key@),
                Err(_) => !opt_u32_field_ok(m, key@),
            }
        }),
{
    match json_get(v, key) {
        None => Ok(None),
        Some(f) => {
            if json_is_null(f) {
                Ok(None)
            } else {
                match json_as_u64(f) {
                    Some(n) => {
                        if n <= u32::MAX as u64 {
                            Ok(Some(n as u32))
                        } else {
                            Err(())
                        }
                    },
                    None => Err(()),
                }
            }
        },
    }
}

/// Reads an optional u64 member; `Err` when the member is there but is not
/// null and not an integer that fits u64.
fn read_opt_u64(v: &serde_json::Value, key: &str) -> (r: Result<Option<u64>, ()>)
    requires
        json_model(*v) is Obj,
    ensures
        ({
            let m = json_model(*v)->Obj_0;
            match r {
                Ok(o) => opt_u64_field_ok(m, key@) && o == u64_field_of(m, key@),
                Err(_) => !opt_u64_field_ok(m, key@),
            }
        }),
{
    match json_get(v, key) {
        None => Ok(None),
        Some(f) => {
            if json_is_null(f) {
                Ok(None)
            } else {
                match json_as_u64(f) {
                    Some(n) => Ok(Some(n)),
                    None => Err(()),
                }
            }
        },
    }
}

/// Whether an `Option<String>` carries exactly the given optional text.
pub open spec fn opt_string_matches(o: Option<String>, t: Option<Seq<char>>) -> bool {
    match o {
        Some(s) => t == Some(s@),
        None => t is None,
    }
}

/// Reads an optional string member; `Err` when the member is there but is
/// not null and not a string.
fn read_opt_string(v: &serde_json::Value, key: &str) -> (r: Result<Option<String>, ()>)
    requires
        json_model(*v) is Obj,
    ensures
        ({
            let m = json_model(*v)->Obj_0;
            match r {
                Ok(o) => opt_text_field_ok(m, key@) && opt_string_matches(
                    o,
                    text_field_of(m, key@),
                ),
                Err(_) => !opt_text_field_ok(m, key@),
            }
        }),
{
    match json_get(v, key) {
        None => Ok(None),
        Some(f) => {
            if json_is_null(f) {
                Ok(None)
            } else {
                match json_as_str(f) {
                    Some(s) => Ok(Some(s.to_owned())),
                    None => Err(()),
                }
            }
        },
    }
}

/// Decodes `v` as a usage record.
pub fn decode_usage(v: &serde_json::Value) -> (r: Option<Usage>)
    ensures
        r == if valid_usage_json(json_model(*v)) {
            Some(usage_of_json(json_model(*v)))
        } else {
            None::<Usage>
        },
{
    if !json_is_object(v) {
        return None;
    }
    let prompt = match read_opt_u32(v, "prompt_tokens") {
        Ok(o) => o,
        Err(_) => {
            return None;
        },
    };
    let completion = match read_opt_u32(v, "completion_tokens") {
        Ok(o) => o,
        Err(_) => {
            return None;
        },
    };
    let total = match read_opt_u32(v, "total_tokens") {
        Ok(o) => o,
        Err(_) => {
            return None;
        },
    };
    Some(Usage { prompt_tokens: prompt, completion_tokens: completion, total_tokens: total })
}

// ---------------------------------------------------------------------------
// Response envelopes: a non-streaming completion, a streaming chunk, and
// an embeddings response. A decode succeeds exactly when the document is
// an object and every recognised member, where present, has the expected
// shape; unrecognised members are ignored.
// ---------------------------------------------------------------------------

/// Non-streaming completion response.
#[derive(Debug, Clone, PartialEq, Eq)]
pub struct CompletionResponse {
    pub id: Option<String>,
    pub object: Option<String>,
    pub created: Option<u64>,
    pub model: Option<String>,
    pub usage: Option<Usage>,
}

/// Streaming completion chunk (one event of a server-sent event stream).
#[derive(Debug, Clone, PartialEq, Eq)]
pub struct CompletionChunk {
    pub id: Option<String>,
    pub object: Option<String>,
    pub created: Option<u64>,
    pub model: Option<String>,
    pub choices: Option<Vec<Choice>>,
    pub usage: Option<Usage>,
}

/// Individual choice in a streaming chunk.
#[derive(Debug, Clone, PartialEq, Eq)]
pub struct Choice {
    pub index: Option<u32>,
    pub delta: Option<Delta>,
    pub finish_reason: Option<String>,
}

/// Delta content in a streaming response.
#[derive(Debug, Clone, PartialEq, Eq)]
pub struct Delta {
    pub role: Option<String>,
    pub content: Option<String>,
}

/// Whether `j` decodes as a delta: an object with optional string members
/// `role` and `content`.
pub open spec fn valid_delta_json(j: Json) -> bool {
    &&& j matches Json::Obj(m)
    &&& opt_text_field_ok(m, "role"@)
    &&& opt_text_field_ok(m, "content"@)
}

/// Whether the decoded delta carries exactly what `j` holds.
pub open spec fn delta_matches(d: Delta, j: Json) -> bool {
    &&& j matches Json::Obj(m)
    &&& opt_string_matches(d.role, text_field_of(m, "role"@))
    &&& opt_string_matches(d.content, text_field_of(m, "content"@))
}

/// Whether `j` decodes as a choice.
pub open spec fn valid_choice_json(j: Json) -> bool {
    &&& j matches Json::Obj(m)
    &&& opt_u32_field_ok(m, "index"@)
    &&& (m.contains_key("delta"@) ==> (m["delta"@] is Null || valid_delta_json(m["delta"@])))
    &&& opt_text_field_ok(m, "finish_reason"@)
}

/// Whether the decoded choice carries exactly what `j` holds.
pub open spec fn choice_matches(c: Choice, j: Json) -> bool {
    &&& j matches Json::Obj(m)
    &&& c.index == u32_field_of(m, "index"@)
    &&& (match c.delta {
        Some(d) => m.contains_key("delta"@) && m["delta"@] is Obj && delta_matches(
            d,
            m["delta"@],
        ),
        None => !m.contains_key("delta"@) || m["delta"@] is Null,
    })
    &&& opt_string_matches(c.finish_reason, text_field_of(m, "finish_reason"@))
}

/// The members shared by the completion response and the streaming chunk.
pub open spec fn completion_fields_ok(m: Map<Seq<char>, Json>) -> bool {
    &&& opt_text_field_ok(m, "id"@)
    &&& opt_text_field_ok(m, "object"@)
    &&& opt_u64_field_ok(m, "created"@)
    &&& opt_text_field_ok(m, "model"@)
    &&& usage_field_ok(m)
}

/// Whether `j` decodes as a non-streaming completion response: an object
/// carrying an optional usage record.
pub open spec fn valid_completion_json(j: Json) -> bool {
    &&& j matches Json::Obj(m)
    &&& completion_fields_ok(m)
}

/// Whether the decoded completion response carries exactly what `j` holds.
pub open spec fn completion_matches(c: CompletionResponse, j: Json) -> bool {
    &&& j matches Json::Obj(m)
    &&& opt_string_matches(c.id, text_field_of(m, "id"@))
    &&& opt_string_matches(c.object, text_field_of(m, "object"@))
    &&& c.created == u64_field_of(m, "created"@)
    &&& opt_string_matches(c.model, text_field_of(m, "model"@))
    &&& c.usage == usage_result_of(m)
}

/// Whether the optional `choices` member of `m` decodes: absent, null, or
/// an array of valid choices.
pub open spec fn choices_field_ok(m: Map<Seq<char>, Json>) -> bool {
    m.contains_key("choices"@) ==> {
        ||| m["choices"@] is Null
        ||| (m["choices"@] matches Json::Arr(items) && forall|i: int|
            0 <= i < items.len() ==> valid_choice_json(#[trigger] items[i]))
    }
}

/// Whether `j` decodes as a streaming chunk: an object with an optional
/// choices array and an optional usage record.
pub open spec fn valid_chunk_json(j: Json) -> bool {
    &&& j matches Json::Obj(m)
    &&& completion_fields_ok(m)
    &&& choices_field_ok(m)
}

/// Whether the decoded chunk carries exactly what `j` holds.
pub open spec fn chunk_matches(c: CompletionChunk, j: Json) -> bool {
    &&& j matches Json::Obj(m)
    &&& opt_string_matches(c.id, text_field_of(m, "id"@))
    &&& opt_string_matches(c.object, text_field_of(m, "object"@))
    &&& c.created == u64_field_of(m, "created"@)
    &&& opt_string_matches(c.model, text_field_of(m, "model"@))
    &&& (match c.choices {
        Some(cv) => m.contains_key("choices"@) && (m["choices"@] matches Json::Arr(items)
            && cv@.len() == items.len() && forall|i: int|
            0 <= i < items.len() ==> choice_matches(#[trigger] cv@[i], items[i])),
        None => !m.contains_key("choices"@) || m["choices"@] is Null,
    })
    &&& c.usage == usage_result_of(m)
}

/// Whether `j` decodes as one embedding entry: an object whose optional
/// `embedding` member is an array of numbers.
pub open spec fn valid_embedding_data_json(j: Json) -> bool {
    &&& j matches Json::Obj(m)
    &&& (m.contains_key("embedding"@) ==> {
        ||| m["embedding"@] is Null
        ||| (m["embedding"@] matches Json::Arr(items) && forall|i: int|
            0 <= i < items.len() ==> (#[trigger] items[i] is UInt || items[i] is NumOther))
    })
    &&& opt_u32_field_ok(m, "index"@)
    &&& opt_text_field_ok(m, "object"@)
}

/// Whether `j` decodes as an embeddings response: an object with a
/// required `data` array and an optional usage record.
pub open spec fn valid_embeddings_json(j: Json) -> bool {
    &&& j matches Json::Obj(m)
    &&& m.contains_key("data"@)
    &&& (m["data"@] matches Json::Arr(items) && forall|i: int|
        0 <= i < items.len() ==> valid_embedding_data_json(#[trigger] items[i]))
    &&& opt_text_field_ok(m, "model"@)
    &&& usage_field_ok(m)
}

// ---------------------------------------------------------------------------
// Verified decoders.
// ---------------------------------------------------------------------------

/// Reads the optional `usage` member; `Err` when it is there but decodes
/// as neither null nor a usage record.
fn read_usage_field(v: &serde_json::Value) -> (r: Result<Option<Usage>, ()>)
    requires
        json_model(*v) is Obj,
    ensures
        ({
            let m = json_model(*v)->Obj_0;
            match r {
                Ok(o) => usage_field_ok(m) && o == usage_result_of(m),
                Err(_) => !usage_field_ok(m),
            }
        }),
{
    match json_get(v, "usage") {
        None => Ok(None),
        Some(u) => {
            if json_is_null(u) {
                Ok(None)
            } else {
                match decode_usage(u) {
                    Some(x) => Ok(Some(x)),
                    None => Err(()),
                }
            }
        },
    }
}

/// Decodes `v` as a non-streaming completion response.
pub fn decode_completion_response(v: &serde_json::Value) -> (r: Option<CompletionResponse>)
    ensures
        r is Some <==> valid_completion_json(json_model(*v)),
        r matches Some(c) ==> completion_matches(c, json_model(*v)),
{
    if !json_is_object(v) {
        return None;
    }
    let id = match read_opt_string(v, "id") {
        Ok(o) => o,
        Err(_) => {
            return None;
        },
    };
    let object = match read_opt_string(v, "object") {
        Ok(o) => o,
        Err(_) => {
            return None;
        },
    };
    let created = match read_opt_u64(v, "created") {
        Ok(o) => o,
        Err(_) => {
            return None;
        },
    };
    let model = match read_opt_string(v, "model") {
        Ok(o) => o,
        Err(_) => {
            return None;
        },
    };
    let usage = match read_usage_field(v) {
        Ok(o) => o,
        Err(_) => {
            return None;
        },
    };
    Some(CompletionResponse { id, object, created, model, usage })
}

/// Decodes `v` as a delta.
fn decode_delta(v: &serde_json::Value) -> (r: Option<Delta>)
    ensures
        r is Some <==> valid_delta_json(json_model(*v)),
        r matches Some(d) ==> delta_matches(d, json_model(*v)),
{
    if !json_is_object(v) {
        return None;
    }
    let role = match read_opt_string(v, "role") {
        Ok(o) => o,
        Err(_) => {
            return None;
        },
    };
    let content = match read_opt_string(v, "content") {
        Ok(o) => o,
        Err(_) => {
            return None;
        },
    };
    Some(Delta { role, content })
}

/// Decodes `v` as a choice.
fn decode_choice(v: &serde_json::Value) -> (r: Option<Choice>)
    ensures
        r is Some <==> valid_choice_json(json_model(*v)),
        r matches Some(c) ==> choice_matches(c, json_model(*v)),
{
    if !json_is_object(v) {
        return None;
    }
    let index = match read_opt_u32(v, "index") {
        Ok(o) => o,
        Err(_) => {
            return None;
        },
    };
    let delta = match json_get(v, "delta") {
        None => None,
        Some(d) => {
            if json_is_null(d) {
                None
            } else {
                match decode_delta(d) {
                    Some(x) => Some(x),
                    None => {
                        return None;
                    },
                }
            }
        },
    };
    let finish_reason = match read_opt_string(v, "finish_reason") {
        Ok(o) => o,
        Err(_) => {
            return None;
        },
    };
    Some(Choice { index, delta, finish_reason })
}

/// Decodes `v` as a streaming chunk.
pub fn decode_completion_chunk(v: &serde_json::Value) -> (r: Option<CompletionChunk>)
    ensures
        r is Some <==> valid_chunk_json(json_model(*v)),
        r matches Some(c) ==> chunk_matches(c, json_model(*v)),
{
    if !json_is_object(v) {
        return None;
    }
    let id = match read_opt_string(v, "id") {
        Ok(o) => o,
        Err(_) => {
            return None;
        },
    };
    let object = match read_opt_string(v, "object") {
        Ok(o) => o,
        Err(_) => {
            return None;
        },
    };
    let created = match read_opt_u64(v, "created") {
        Ok(o) => o,
        Err(_) => {
            return None;
        },
    };
    let model = match read_opt_string(v, "model") {
        Ok(o) => o,
        Err(_) => {
            return None;
        },
    };
    let choices = match json_get(v, "choices") {
        None => None,
        Some(cv) => {
            if json_is_null(cv) {
                None
            } else {
                match json_as_array(cv) {
                    None => {
                        return None;
                    },
                    Some(arr) => {
                        let ghost items = json_model(*cv)->Arr_0;
                        let n = arr.len();
                        let mut out: Vec<Choice> = Vec::new();
                        let mut i: usize = 0;
                        while i < n
                            invariant
                                json_model(*v) is Obj,
                                json_model(*v)->Obj_0.contains_key("choices"@),
                                json_model(*v)->Obj_0["choices"@] == Json::Arr(items),
                                n == arr@.len(),
                                n == items.len(),
                                forall|k: int|
                                    0 <= k < n ==> json_model(#[trigger] arr@[k]) == items[k],
                                i <= n,
                                out@.len() == i,
                                forall|k: int|
                                    0 <= k < i ==> valid_choice_json(#[trigger] items[k]),
                                forall|k: int|
                                    0 <= k < i ==> choice_matches(#[trigger] out@[k], items[k]),
                            decreases n - i,
                        {
                            match decode_choice(&arr[i]) {
                                Some(c) => {
                                    out.push(c);
                                },
                                None => {
                                    proof {
                                        let m = json_model(*v)->Obj_0;
                                        let inner = m["choices"@]->Arr_0;
                                        assert(inner == items);
                                        assert(!valid_choice_json(inner[i as int]));
                                        assert(!choices_field_ok(m));
                                    }
                                    return None;
                                },
                            }
                            i += 1;
                        }
                        Some(out)
                    },
                }
            }
        },
    };
    let usage = match read_usage_field(v) {
        Ok(o) => o,
        Err(_) => {
            return None;
        },
    };
    Some(CompletionChunk { id, object, created, model, choices, usage })
}

/// Whether `v` decodes as one embedding entry.
fn check_embedding_data(v: &serde_json::Value) -> (r: bool)
    ensures
        r == valid_embedding_data_json(json_model(*v)),
{
    if !json_is_object(v) {
        return false;
    }
    let emb_ok = match json_get(v, "embedding") {
        None => true,
        Some(e) => {
            if json_is_null(e) {
                true
            } else {
                match json_as_array(e) {
                    None => false,
                    Some(arr) => {
                        let ghost items = json_model(*e)->Arr_0;
                        let n = arr.len();
                        let mut i: usize = 0;
                        let mut all_nums = true;
                        while i < n && all_nums
                            invariant
                                n == arr@.len(),
                                n == items.len(),
                                forall|k: int|
                                    0 <= k < n ==> json_model(#[trigger] arr@[k]) == items[k],
                                i <= n,
                                all_nums ==> forall|k: int|
                                    0 <= k < i ==> (#[trigger] items[k] is UInt
                                        || items[k] is NumOther),
                                !all_nums ==> exists|k: int|
                                    0 <= k < n && !(#[trigger] items[k] is UInt
                                        || items[k] is NumOther),
                            decreases n - i,
                        {
                            if !json_is_number(&arr[i]) {
                                assert(!(items[i as int] is UInt || items[i as int] is NumOther));
                                all_nums = false;
                            }
                            i += 1;
                        }
                        if all_nums {
                            true
                        } else {
                            false
                        }
                    },
                }
            }
        },
    };
    if !emb_ok {
        return false;
    }
    let index_ok = match read_opt_u32(v, "index") {
        Ok(_) => true,
        Err(_) => false,
    };
    if !index_ok {
        return false;
    }
    match read_opt_string(v, "object") {
        Ok(_) => true,
        Err(_) => false,
    }
}

/// Whether `v` decodes as an embeddings response.
pub fn check_embeddings_response(v: &serde_json::Value) -> (r: bool)
    ensures
        r == valid_embeddings_json(json_model(*v)),
{
    if !json_is_object(v) {
        return false;
    }
    let data_ok = match json_get(v, "data") {
        None => false,
        Some(d) => {
            match json_as_array(d) {
                None => false,
                Some(arr) => {
                    let ghost items = json_model(*d)->Arr_0;
                    let n = arr.len();
                    let mut i: usize = 0;
                    let mut all_ok = true;
                    while i < n && all_ok
                        invariant
                            n == arr@.len(),
                            n == items.len(),
                            forall|k: int| 0 <= k < n ==> json_model(#[trigger] arr@[k]) == items[k],
                            i <= n,
                            all_ok ==> forall|k: int|
                                0 <= k < i ==> valid_embedding_data_json(#[trigger] items[k]),
                            !all_ok ==> exists|k: int|
                                0 <= k < n && !valid_embedding_data_json(#[trigger] items[k]),
                        decreases n - i,
                    {
                        if !check_embedding_data(&arr[i]) {
                            assert(!valid_embedding_data_json(items[i as int]));
                            all_ok = false;
                        }
                        i += 1;
                    }
                    all_ok
                },
            }
        },
    };
    if !data_ok {
        return false;
    }
    let model_ok = match read_opt_string(v, "model") {
        Ok(_) => true,
        Err(_) => false,
    };
    if !model_ok {
        return false;
    }
    match read_usage_field(v) {
        Ok(_) => true,
        Err(_) => false,
    }
}

/// The usage record carried by the `usage` member of the object `v`.
fn usage_member_of(v: &serde_json::Value) -> (r: Option<Usage>)
    requires
        json_model(*v) is Obj,
    ensures
        r == usage_result_of(json_model(*v)->Obj_0),
{
    match json_get(v, "usage") {
        None => None,
        Some(u) => decode_usage(u),
    }
}

// ---------------------------------------------------------------------------
// Usage extraction entry points.
// ---------------------------------------------------------------------------

/// What extracting usage from a fully buffered body yields: the first of
/// the completion and embeddings shapes that decodes determines the
/// result; anything else yields nothing.
pub open spec fn usage_from_body_json(j: Json) -> Option<Usage> {
    if valid_completion_json(j) {
        usage_result_of(j->Obj_0)
    } else if valid_embeddings_json(j) {
        usage_result_of(j->Obj_0)
    } else {
        None
    }
}

/// Usage extracted from a fully buffered response body.
pub open spec fn usage_from_body_spec(b: Seq<u8>) -> Option<Usage> {
    match json_parse(b) {
        Some(j) => usage_from_body_json(j),
        None => None,
    }
}

/// Attempts to parse usage from a complete JSON body (non-streaming).
pub fn try_parse_usage_from_body(body: &[u8]) -> (r: Option<Usage>)
    ensures
        r == usage_from_body_spec(body@),
{
    match parse_json(body) {
        None => None,
        Some(v) => {
            match decode_completion_response(&v) {
                Some(c) => c.usage,
                None => {
                    if check_embeddings_response(&v) {
                        usage_member_of(&v)
                    } else {
                        None
                    }
                },
            }
        },
    }
}

/// What extracting usage from one parsed event-stream document yields:
/// the streaming-chunk shape is tried first, then the completion shape.
pub open spec fn usage_from_chunk_json(j: Json) -> Option<Usage> {
    if valid_chunk_json(j) {
        usage_result_of(j->Obj_0)
    } else if valid_completion_json(j) {
        usage_result_of(j->Obj_0)
    } else {
        None
    }
}

/// Usage extracted from one event-stream line: one leading `data: `
/// marker is removed if it is there, the `[DONE]` marker yields nothing,
/// else the result is whatever the parsed document carries.
pub open spec fn usage_from_chunk_line(b: Seq<u8>) -> Option<Usage> {
    let t = strip_prefix_once(b, "data: ".spec_bytes());
    if t == "[DONE]".spec_bytes() {
        None
    } else {
        match json_parse(t) {
            Some(j) => usage_from_chunk_json(j),
            None => None,
        }
    }
}

/// Extracts usage from one parsed event-stream document.
fn usage_from_parsed_chunk(v: &serde_json::Value) -> (r: Option<Usage>)
    ensures
        r == usage_from_chunk_json(json_model(*v)),
{
    match decode_completion_chunk(v) {
        Some(c) => c.usage,
        None => {
            match decode_completion_response(v) {
                Some(c) => c.usage,
                None => None,
            }
        },
    }
}

/// Attempts to parse usage from a chunk of SSE data.
/// Returns None if the chunk doesn't contain usage (most chunks don't).
pub fn try_parse_usage_from_chunk(chunk: &str) -> (r: Option<Usage>)
    ensures
        r == usage_from_chunk_line(chunk.spec_bytes()),
{
    let b = chunk.as_bytes();
    let t = strip_prefix_once_exec(b, "data: ".as_bytes());
    if slice_eq(t, "[DONE]".as_bytes()) {
        return None;
    }
    match parse_json(t) {
        Some(v) => usage_from_parsed_chunk(&v),
        None => None,
    }
}

/// Usage extracted from one raw chunk of an event stream: surrounding
/// whitespace is trimmed (deliberately the ASCII whitespace bytes —
/// space, tab, CR, LF — the only padding an event stream frames with),
/// one leading `data: ` marker is removed, the `[DONE]` marker yields
/// nothing, and the rest is parsed as JSON.
pub open spec fn usage_from_stream_chunk_spec(raw: Seq<u8>) -> Option<Usage> {
    let t = strip_prefix_once(trim_ascii(raw), "data: ".spec_bytes());
    if t == "[DONE]".spec_bytes() {
        None
    } else {
        match json_parse(t) {
            Some(j) => usage_from_chunk_json(j),
            None => None,
        }
    }
}

/// Extracts usage from one raw chunk of an event stream. A chunk that is
/// not valid text, not valid JSON, or of no known shape yields nothing.
pub fn usage_from_stream_chunk(raw: &[u8]) -> (r: Option<Usage>)
    ensures
        r == usage_from_stream_chunk_spec(raw@),
{
    let trimmed = trim_ascii_ws(raw);
    let t = strip_prefix_once_exec(trimmed, "data: ".as_bytes());
    if slice_eq(t, "[DONE]".as_bytes()) {
        return None;
    }
    match parse_json(t) {
        Some(v) => usage_from_parsed_chunk(&v),
        None => None,
    }
}

// ---------------------------------------------------------------------------
// Path classification.
// ---------------------------------------------------------------------------

/// Whether usage tracking applies to a request path: it contains
/// "/chat/completions", or ends with "completions", or ends with
/// "/embeddings".
pub open spec fn tracked_path_spec(path: Seq<u8>) -> bool {
    ||| contains_seq(path, "/chat/completions".spec_bytes())
    ||| ends_with_seq(path, "completions".spec_bytes())
    ||| ends_with_seq(path, "/embeddings".spec_bytes())
}

/// Check if a request path should have usage tracked (completions/embeddings).
pub fn is_usage_tracked_path(path: &str) -> (r: bool)
    ensures
        r == tracked_path_spec(path.spec_bytes()),
{
    let b = path.as_bytes();
    slice_contains(b, "/chat/completions".as_bytes()) || slice_ends_with(
        b,
        "completions".as_bytes(),
    ) || slice_ends_with(b, "/embeddings".as_bytes())
}

// ---------------------------------------------------------------------------
// Logging format.
// ---------------------------------------------------------------------------

/// How one optional token counter is printed: `None`, or `Some(n)`.
pub open spec fn opt_u32_dbg(o: Option<u32>) -> Seq<char> {
    match o {
        None => "None"@,
        Some(n) => "Some("@ + dec_digits(n as nat) + ")"@,
    }
}

/// The log line for a usage record.
pub open spec fn log_format_spec(u: Usage) -> Seq<char> {
    "prompt_tokens="@ + opt_u32_dbg(u.prompt_tokens) + " completion_tokens="@ + opt_u32_dbg(
        u.completion_tokens,
    ) + " total_tokens="@ + opt_u32_dbg(u.total_tokens)
}

/// Appends `None` or `Some(n)` to `s`.
fn append_opt_u32_dbg(s: &mut String, o: Option<u32>)
    ensures
        final(s)@ == old(s)@ + opt_u32_dbg(o),
{
    match o {
        None => {
            s.append("None");
        },
        Some(n) => {
            s.append("Some(");
            append_u32_decimal(s, n);
            s.append(")");
            proof {
                assert(s@ =~= old(s)@ + opt_u32_dbg(o));
            }
        },
    }
}

impl Usage {
    /// Returns a formatted string for logging.
    pub fn log_format(&self) -> (r: String)
        ensures
            r@ == log_format_spec(*self),
    {
        let mut s = String::new();
        s.append("prompt_tokens=");
        append_opt_u32_dbg(&mut s, self.prompt_tokens);
        s.append(" completion_tokens=");
        append_opt_u32_dbg(&mut s, self.completion_tokens);
        s.append(" total_tokens=");
        append_opt_u32_dbg(&mut s, self.total_tokens);
        proof {
            assert(s@ =~= log_format_spec(*self));
        }
        s
    }
}

} // verus!
