//! The wire codec: one JSON object per request, one per response.
//!
//! A request names its kind in the member `request_type`:
//!
//! ```text
//! {"request_type": "store", "key": <string>, "hash": <string>}
//! {"request_type": "load",  "key": <string>}
//! ```
//!
//! Members that the kind does not ask for are ignored. A response is written
//! without a delimiter after it.

use crate::json::{parse, parsed_members, quote, quoted, text_member};
use vstd::prelude::*;
use vstd::string::{StrSliceExecFns, StringSliceAdditionalSpecFns};

verus! {

/// A key and the hash stored under it.
#[derive(Debug, Clone, PartialEq, Eq)]
pub struct Record {
    pub key: String,
    pub hash: String,
}

/// The request to put a hash under a key.
#[derive(Debug, Clone, PartialEq, Eq)]
pub struct StoreRequest {
    pub key: String,
    pub hash: String,
}

/// The request for the hash under a key.
#[derive(Debug, Clone, PartialEq, Eq)]
pub struct LoadRequest {
    pub key: String,
}

/// What a client can ask for.
#[derive(Debug, Clone, PartialEq, Eq)]
pub enum Request {
    Store(StoreRequest),
    Load(LoadRequest),
}

/// What a client is told.
#[derive(Debug, Clone, PartialEq, Eq)]
pub enum Response {
    /// The hash was stored.
    StoreAck,
    /// The key holds this hash.
    LoadFound(Record),
    /// The key holds no hash.
    LoadNotFound,
    /// The store could not be asked. This is never a `LoadNotFound`.
    Unavailable,
}

/// Why a message is no request.
#[derive(Debug, Clone, Copy, PartialEq, Eq)]
pub enum DecodeError {
    /// The bytes are not one JSON document.
    InvalidJson,
    /// The document has no member `request_type` that is a string.
    MissingRequestType,
    /// `request_type` is neither `store` nor `load`.
    UnknownRequestType,
    /// The request has no member `key` that is a string.
    MissingKey,
    /// The store request has a key, but no member `hash` that is a string.
    MissingHash,
}

/// A request as contracts see it.
pub enum RequestView {
    Store { key: Seq<char>, hash: Seq<char> },
    Load { key: Seq<char> },
}

/// A response as contracts see it.
pub enum ResponseView {
    StoreAck,
    LoadFound { key: Seq<char>, hash: Seq<char> },
    LoadNotFound,
    Unavailable,
}

impl View for Request {
    type V = RequestView;

    open spec fn view(&self) -> RequestView {
        match *self {
            Request::Store(request) => RequestView::Store {
                key: request.key@,
                hash: request.hash@,
            },
            Request::Load(request) => RequestView::Load { key: request.key@ },
        }
    }
}

impl View for Response {
    type V = ResponseView;

    open spec fn view(&self) -> ResponseView {
        match *self {
            Response::StoreAck => ResponseView::StoreAck,
            Response::LoadFound(record) => ResponseView::LoadFound {
                key: record.key@,
                hash: record.hash@,
            },
            Response::LoadNotFound => ResponseView::LoadNotFound,
            Response::Unavailable => ResponseView::Unavailable,
        }
    }
}

/// The text of a member that may be absent.
pub open spec fn text_of(member: Option<&str>) -> Option<Seq<char>> {
    match member {
        Some(text) => Some(text@),
        None => None,
    }
}

/// The member `name` among `members`, if there is one.
pub open spec fn member_named(members: Map<Seq<char>, Seq<char>>, name: Seq<char>) -> Option<
    Seq<char>,
> {
    if members.contains_key(name) {
        Some(members[name])
    } else {
        None
    }
}

/// The request that three members make, or why they make none. The kind is
/// looked at first, then the key, then the hash; a load request asks for no
/// hash.
pub open spec fn request_of(
    request_type: Option<Seq<char>>,
    key: Option<Seq<char>>,
    hash: Option<Seq<char>>,
) -> Result<RequestView, DecodeError> {
    match request_type {
        None => Err(DecodeError::MissingRequestType),
        Some(kind) => if kind == "store"@ {
            match (key, hash) {
                (None, _) => Err(DecodeError::MissingKey),
                (Some(_), None) => Err(DecodeError::MissingHash),
                (Some(key), Some(hash)) => Ok(RequestView::Store { key, hash }),
            }
        } else if kind == "load"@ {
            match key {
                None => Err(DecodeError::MissingKey),
                Some(key) => Ok(RequestView::Load { key }),
            }
        } else {
            Err(DecodeError::UnknownRequestType)
        },
    }
}

/// The request that a message spells, or why it spells none.
pub open spec fn decoded(bytes: Seq<u8>) -> Result<RequestView, DecodeError> {
    match parsed_members(bytes) {
        None => Err(DecodeError::InvalidJson),
        Some(members) => request_of(
            member_named(members, "request_type"@),
            member_named(members, "key"@),
            member_named(members, "hash"@),
        ),
    }
}

/// Whether two strings are the same text, byte by byte.
fn same_text(left: &str, right: &str) -> (same: bool)
    ensures
        same == (left@ == right@),
{
    let a = left.as_bytes();
    let b = right.as_bytes();
    proof {
        vstd::utf8::encode_utf8_decode_utf8(left@);
        vstd::utf8::encode_utf8_decode_utf8(right@);
    }
    if a.len() != b.len() {
        return false;
    }
    let mut i: usize = 0;
    while i < a.len()
        invariant
            i <= a.len(),
            a.len() == b.len(),
            a@ == left.spec_bytes(),
            b@ == right.spec_bytes(),
            forall|j: int| 0 <= j < i ==> a@[j] == b@[j],
        decreases a.len() - i,
    {
        if a[i] != b[i] {
            return false;
        }
        i += 1;
    }
    assert(a@ =~= b@);
    true
}

/// Makes a request of the three members that the protocol reads.
pub fn request_from_fields(
    request_type: Option<&str>,
    key: Option<&str>,
    hash: Option<&str>,
) -> (r: Result<Request, DecodeError>)
    ensures
        match r {
            Ok(request) => request_of(text_of(request_type), text_of(key), text_of(hash)) == Ok::<
                RequestView,
                DecodeError,
            >(request@),
            Err(error) => request_of(text_of(request_type), text_of(key), text_of(hash)) == Err::<
                RequestView,
                DecodeError,
            >(error),
        },
{
    let kind = match request_type {
        Some(kind) => kind,
        None => { return Err(DecodeError::MissingRequestType); },
    };
    if same_text(kind, "store") {
        match (key, hash) {
            (None, _) => Err(DecodeError::MissingKey),
            (Some(_), None) => Err(DecodeError::MissingHash),
            (Some(key), Some(hash)) => Ok(
                Request::Store(StoreRequest { key: key.to_owned(), hash: hash.to_owned() }),
            ),
        }
    } else if same_text(kind, "load") {
        match key {
            None => Err(DecodeError::MissingKey),
            Some(key) => Ok(Request::Load(LoadRequest { key: key.to_owned() })),
        }
    } else {
        Err(DecodeError::UnknownRequestType)
    }
}

/// Reads one message. The bytes must be one JSON document, an object with
/// the members of a request.
pub fn decode(bytes: &[u8]) -> (r: Result<Request, DecodeError>)
    ensures
        match r {
            Ok(request) => decoded(bytes@) == Ok::<RequestView, DecodeError>(request@),
            Err(error) => decoded(bytes@) == Err::<RequestView, DecodeError>(error),
        },
{
    match parse(bytes) {
        Err(_) => Err(DecodeError::InvalidJson),
        Ok(value) => request_from_fields(
            text_member(&value, "request_type"),
            text_member(&value, "key"),
            text_member(&value, "hash"),
        ),
    }
}

/// The response that tells of a record, written around its key and its hash
/// as JSON strings.
pub open spec fn found_frame(key_json: Seq<u8>, hash_json: Seq<u8>) -> Seq<u8> {
    "{\"response_status\":\"success\",\"requested_key\":".spec_bytes() + key_json
        + ",\"requested_hash\":".spec_bytes() + hash_json + "}".spec_bytes()
}

/// The bytes that a response is on the wire.
pub open spec fn wire(response: ResponseView) -> Seq<u8> {
    match response {
        ResponseView::StoreAck => "{\"response_status\":\"success\"}".spec_bytes(),
        ResponseView::LoadFound { key, hash } => found_frame(quoted(key), quoted(hash)),
        ResponseView::LoadNotFound => "{\"response_status\":\"failed\"}".spec_bytes(),
        ResponseView::Unavailable => "{\"response_status\":\"error\"}".spec_bytes(),
    }
}

/// Writes the response that tells of a record. `key_json` and `hash_json` are
/// the key and the hash as JSON strings, quotes included.
pub fn frame_found(key_json: &[u8], hash_json: &[u8]) -> (out: Vec<u8>)
    ensures
        out@ == found_frame(key_json@, hash_json@),
{
    let mut out: Vec<u8> = Vec::new();
    out.extend_from_slice("{\"response_status\":\"success\",\"requested_key\":".as_bytes());
    out.extend_from_slice(key_json);
    out.extend_from_slice(",\"requested_hash\":".as_bytes());
    out.extend_from_slice(hash_json);
    out.extend_from_slice("}".as_bytes());
    out
}

/// Writes a response as the bytes that go on the wire.
pub fn encode(response: &Response) -> (out: Vec<u8>)
    ensures
        out@ == wire(response@),
{
    match response {
        Response::StoreAck => "{\"response_status\":\"success\"}".as_bytes_vec(),
        Response::LoadFound(record) => {
            let key_json = quote(record.key.as_str()).unwrap();
            let hash_json = quote(record.hash.as_str()).unwrap();
            frame_found(key_json.as_slice(), hash_json.as_slice())
        },
        Response::LoadNotFound => "{\"response_status\":\"failed\"}".as_bytes_vec(),
        Response::Unavailable => "{\"response_status\":\"error\"}".as_bytes_vec(),
    }
}

/// Whether two responses are of one kind.
pub open spec fn same_kind(left: ResponseView, right: ResponseView) -> bool {
    match (left, right) {
        (ResponseView::StoreAck, ResponseView::StoreAck) => true,
        (ResponseView::LoadFound { .. }, ResponseView::LoadFound { .. }) => true,
        (ResponseView::LoadNotFound, ResponseView::LoadNotFound) => true,
        (ResponseView::Unavailable, ResponseView::Unavailable) => true,
        _ => false,
    }
}

/// The wire tells the kinds of response apart: two responses of different
/// kinds are never the same bytes. So a store that could not be asked is not
/// mistaken for a key without a hash, whatever the key.
pub proof fn law_wire_tells_kinds_apart(left: ResponseView, right: ResponseView)
    requires
        !same_kind(left, right),
    ensures
        wire(left) != wire(right),
{
    lemma_wire_marks_its_kind(left);
    lemma_wire_marks_its_kind(right);
}

/// Where the bytes of a response show its kind: the status starts at byte 20
/// with `s`, `f` or `e`, and after `success` comes `}` for an acknowledged
/// store and `,` for a record.
proof fn lemma_wire_marks_its_kind(response: ResponseView)
    ensures
        wire(response).len() > 20,
        response is StoreAck || response is LoadFound ==> wire(response).len() > 28,
        (response is StoreAck || response is LoadFound) <==> wire(response)[20] == 0x73,
        response is LoadNotFound <==> wire(response)[20] == 0x66,
        response is Unavailable <==> wire(response)[20] == 0x65,
        response is StoreAck ==> wire(response)[28] == 0x7d,
        response is LoadFound ==> wire(response)[28] == 0x2c,
{
    reveal_strlit("{\"response_status\":\"success\"}");
    reveal_strlit("{\"response_status\":\"failed\"}");
    reveal_strlit("{\"response_status\":\"error\"}");
    reveal_strlit("{\"response_status\":\"success\",\"requested_key\":");
    vstd::string::is_ascii_spec_bytes("{\"response_status\":\"success\"}");
    vstd::string::is_ascii_spec_bytes("{\"response_status\":\"failed\"}");
    vstd::string::is_ascii_spec_bytes("{\"response_status\":\"error\"}");
    vstd::string::is_ascii_spec_bytes("{\"response_status\":\"success\",\"requested_key\":");
}

} // verus!
