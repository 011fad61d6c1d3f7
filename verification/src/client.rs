//! Classification and parsing of the send endpoint's HTTP response.
//!
//! The transport itself (the POST, TLS, DNS) is the caller's collaborator;
//! this module decides what a status code and body mean: a success body is
//! parsed into a structured [`FcmResponse`], everything else becomes the
//! matching [`FcmError`].

use vstd::prelude::*;

use crate::json::{json_as_array, json_as_i64, json_as_str, json_get, json_parse, parse_of, rep,
    JsonRep};

verus! {

/// Everything that can go wrong while building or sending a request.
#[derive(Debug, PartialEq)]
pub enum FcmError {
    /// A custom data payload could not be converted to JSON.
    Serialization { detail: String },
    /// A network-level failure, wrapped as text by the transport.
    Transport { detail: String },
    /// A response outside the 2xx range, with its status code and raw body.
    Http { status: u16, body: String },
    /// A 2xx response whose body is not valid JSON.
    ResponseParse,
}

/// One per-recipient entry of a response's `results` list.
#[derive(Debug, PartialEq)]
pub struct MessageResult {
    pub message_id: Option<String>,
    pub registration_id: Option<String>,
    pub error: Option<String>,
}

/// The mathematical value of a [`MessageResult`].
pub struct MessageResultView {
    pub message_id: Option<Seq<char>>,
    pub registration_id: Option<Seq<char>>,
    pub error: Option<Seq<char>>,
}

impl View for MessageResult {
    type V = MessageResultView;

    open spec fn view(&self) -> MessageResultView {
        MessageResultView {
            message_id: self.message_id.deep_view(),
            registration_id: self.registration_id.deep_view(),
            error: self.error.deep_view(),
        }
    }
}

/// A parsed success response: message id and multicast id, the success,
/// failure and canonical-id counts, and the per-recipient results.
#[derive(Debug, PartialEq)]
pub struct FcmResponse {
    pub message_id: Option<i64>,
    pub multicast_id: Option<i64>,
    pub success: Option<i64>,
    pub failure: Option<i64>,
    pub canonical_ids: Option<i64>,
    pub results: Option<Vec<MessageResult>>,
}

/// The mathematical value of an [`FcmResponse`].
pub struct FcmResponseView {
    pub message_id: Option<i64>,
    pub multicast_id: Option<i64>,
    pub success: Option<i64>,
    pub failure: Option<i64>,
    pub canonical_ids: Option<i64>,
    pub results: Option<Seq<MessageResultView>>,
}

impl View for FcmResponse {
    type V = FcmResponseView;

    open spec fn view(&self) -> FcmResponseView {
        FcmResponseView {
            message_id: self.message_id,
            multicast_id: self.multicast_id,
            success: self.success,
            failure: self.failure,
            canonical_ids: self.canonical_ids,
            results: match self.results {
                Some(rs) => Some(rs@.map_values(|r: MessageResult| r@)),
                None => None,
            },
        }
    }
}

/// The value under a key of a JSON object, if the document is an object and
/// holds the key.
pub open spec fn obj_field(r: JsonRep, k: Seq<char>) -> Option<JsonRep> {
    match r {
        JsonRep::Obj { entries } => if entries.contains_key(k) {
            Some(entries[k])
        } else {
            None
        },
        _ => None,
    }
}

/// The text under a key of a JSON object, if present and a string.
pub open spec fn str_field(r: JsonRep, k: Seq<char>) -> Option<Seq<char>> {
    match obj_field(r, k) {
        Some(JsonRep::Str { text }) => Some(text),
        _ => None,
    }
}

/// The integer under a key of a JSON object, if present, an integer, and
/// within `i64` range.
pub open spec fn i64_field(r: JsonRep, k: Seq<char>) -> Option<i64> {
    match obj_field(r, k) {
        Some(JsonRep::Int { i }) => if i64::MIN <= i <= i64::MAX {
            Some(i as i64)
        } else {
            None
        },
        _ => None,
    }
}

/// What one entry of the `results` list parses to.
pub open spec fn result_of(r: JsonRep) -> MessageResultView {
    MessageResultView {
        message_id: str_field(r, "message_id"@),
        registration_id: str_field(r, "registration_id"@),
        error: str_field(r, "error"@),
    }
}

/// What a success body parses to: each scalar field read if present and of
/// the right shape, and the `results` list read entry by entry if present
/// and an array.
pub open spec fn response_of(r: JsonRep) -> FcmResponseView {
    FcmResponseView {
        message_id: i64_field(r, "message_id"@),
        multicast_id: i64_field(r, "multicast_id"@),
        success: i64_field(r, "success"@),
        failure: i64_field(r, "failure"@),
        canonical_ids: i64_field(r, "canonical_ids"@),
        results: match obj_field(r, "results"@) {
            Some(JsonRep::Arr { items }) => Some(items.map_values(|it: JsonRep| result_of(it))),
            _ => None,
        },
    }
}

/// Reads the string field under the given key, if it is there.
fn read_str_field(v: &serde_json::Value, key: &str) -> (r: Option<String>)
    ensures
        r.deep_view() == str_field(rep(*v), key@),
{
    match json_get(v, key) {
        Some(x) => json_as_str(x),
        None => None,
    }
}

/// Reads the integer field under the given key, if it is there and fits.
fn read_i64_field(v: &serde_json::Value, key: &str) -> (r: Option<i64>)
    ensures
        r == i64_field(rep(*v), key@),
{
    match json_get(v, key) {
        Some(x) => json_as_i64(x),
        None => None,
    }
}

/// Reads one entry of the `results` list.
fn read_result(v: &serde_json::Value) -> (r: MessageResult)
    ensures
        r@ == result_of(rep(*v)),
{
    MessageResult {
        message_id: read_str_field(v, "message_id"),
        registration_id: read_str_field(v, "registration_id"),
        error: read_str_field(v, "error"),
    }
}

/// Parses a JSON document into the structured response.
pub fn response_from_value(v: &serde_json::Value) -> (r: FcmResponse)
    ensures
        r@ == response_of(rep(*v)),
{
    let results: Option<Vec<MessageResult>> = match json_get(v, "results") {
        Some(list) => match json_as_array(list) {
            Some(items) => {
                let mut out: Vec<MessageResult> = Vec::new();
                let mut idx: usize = 0;
                while idx < items.len()
                    invariant
                        idx <= items.len(),
                        out@.len() == idx,
                        forall|j: int|
                            0 <= j < idx as int ==> (#[trigger] out@[j])@ == result_of(
                                rep(items@[j]),
                            ),
                    decreases items.len() - idx,
                {
                    let item = &items[idx];
                    out.push(read_result(item));
                    idx = idx + 1;
                }
                proof {
                    assert(out@.map_values(|r: MessageResult| r@) =~= rep(
                        *v,
                    )->entries["results"@]->items.map_values(|it: JsonRep| result_of(it)));
                }
                Some(out)
            },
            None => None,
        },
        None => None,
    };
    FcmResponse {
        message_id: read_i64_field(v, "message_id"),
        multicast_id: read_i64_field(v, "multicast_id"),
        success: read_i64_field(v, "success"),
        failure: read_i64_field(v, "failure"),
        canonical_ids: read_i64_field(v, "canonical_ids"),
        results,
    }
}

/// Whether a status code counts as success.
pub open spec fn is_success_status(status: u16) -> bool {
    200 <= status < 300
}

/// Classifies the send endpoint's HTTP response.
///
/// A response outside the 2xx range always becomes [`FcmError::Http`] with
/// the original status code and raw body, never a silent success. A 2xx
/// response is parsed: a JSON body becomes the structured response, any
/// other body [`FcmError::ResponseParse`].
pub fn handle_response(status: u16, body: String) -> (r: Result<FcmResponse, FcmError>)
    ensures
        !is_success_status(status) ==> r == Err::<FcmResponse, FcmError>(
            FcmError::Http { status, body },
        ),
        is_success_status(status) ==> match parse_of(body@) {
            Some(doc) => r matches Ok(resp) && resp@ == response_of(doc),
            None => r == Err::<FcmResponse, FcmError>(FcmError::ResponseParse),
        },
{
    if status < 200 || status >= 300 {
        return Err(FcmError::Http { status, body });
    }
    match json_parse(body.as_str()) {
        Ok(v) => Ok(response_from_value(&v)),
        Err(_) => Err(FcmError::ResponseParse),
    }
}

} // verus!
