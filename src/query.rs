use vstd::prelude::*;
use vstd::string::*;

verus! {

pub const STATUS_OK: u16 = 200;

pub const STATUS_SERVER_ERROR: u16 = 500;

pub const JSON_CONTENT_TYPE: &'static str = "application/json";

pub const ANY_ORIGIN: &'static str = "*";

/// The answer to a snapshot request, before it is written to the wire.
pub struct HttpResponse {
    pub status: u16,
    /// The `Content-Type` header, if one is sent.
    pub content_type: Option<String>,
    /// The `Access-Control-Allow-Origin` header, if one is sent.
    pub allow_origin: Option<String>,
    pub body: String,
}

/// The JSON object whose one field, `list`, holds the encoded matrix `list`.
pub open spec fn envelope_of(list: Seq<char>) -> Seq<char> {
    "{\"list\":"@ + list + "}"@
}

/// Wraps an encoded matrix in the `{"list": ...}` object.
pub fn envelope(list_json: &str) -> (r: String)
    ensures
        r@ == envelope_of(list_json@),
{
    let mut r = String::from_str("{\"list\":");
    r.append(list_json);
    r.append("}");
    r
}

/// The response to a snapshot request, given the matrix encoded as a JSON
/// array of rows, or `None` where encoding failed.
pub fn query_response(encoded: Option<String>) -> (r: HttpResponse)
    ensures
        match encoded {
            Some(list) => {
                &&& r.status == STATUS_OK
                &&& r.content_type matches Some(t) && t@ == JSON_CONTENT_TYPE@
                &&& r.allow_origin matches Some(o) && o@ == ANY_ORIGIN@
                &&& r.body@ == envelope_of(list@)
            },
            None => {
                &&& r.status == STATUS_SERVER_ERROR
                &&& r.content_type is None
                &&& r.allow_origin is None
                &&& r.body@.len() == 0
            },
        },
{
    match encoded {
        Some(list) => HttpResponse {
            status: STATUS_OK,
            content_type: Some(String::from_str(JSON_CONTENT_TYPE)),
            allow_origin: Some(String::from_str(ANY_ORIGIN)),
            body: envelope(list.as_str()),
        },
        None => HttpResponse {
            status: STATUS_SERVER_ERROR,
            content_type: None,
            allow_origin: None,
            body: String::new(),
        },
    }
}

} // verus!
