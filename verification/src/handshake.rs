//! Judging the server's answer to the `initialize` request.
//!
//! The response frame is parsed as JSON by `serde_json`; the library keeps of
//! the parsed document what the judgement reads, its top-level members, and
//! decides from those.

use vstd::prelude::*;
use vstd::string::*;
use crate::report::Handshake;

verus! {

/// A top-level member value of a JSON document, as far as the judgement reads it.
#[derive(Debug)]
pub enum JsonMember {
    /// A string.
    Text(String),
    /// A number: its value where it is a non-negative integer that fits in `u64`,
    /// `None` for any other number.
    Number(Option<u64>),
    /// Any other value: null, a boolean, an array or an object.
    Other,
}

/// A parsed JSON document: the members of a top-level object in the parser's
/// order, or the mark of a document whose top level is not an object.
#[derive(Debug)]
pub enum JsonDocument {
    Object(Vec<(String, JsonMember)>),
    NotObject,
}

/// The mathematical form of [`JsonMember`].
pub enum JsonMemberView {
    Text(Seq<char>),
    Number(Option<u64>),
    Other,
}

/// The mathematical form of [`JsonDocument`].
pub enum JsonDocumentView {
    Object(Seq<(Seq<char>, JsonMemberView)>),
    NotObject,
}

impl View for JsonMember {
    type V = JsonMemberView;

    open spec fn view(&self) -> JsonMemberView {
        match self {
            JsonMember::Text(text) => JsonMemberView::Text(text@),
            JsonMember::Number(n) => JsonMemberView::Number(*n),
            JsonMember::Other => JsonMemberView::Other,
        }
    }
}

/// The mathematical form of a document's members.
pub open spec fn members_view(members: Seq<(String, JsonMember)>) -> Seq<(Seq<char>, JsonMemberView)> {
    members.map_values(|entry: (String, JsonMember)| (entry.0@, entry.1@))
}

impl View for JsonDocument {
    type V = JsonDocumentView;

    open spec fn view(&self) -> JsonDocumentView {
        match self {
            JsonDocument::Object(members) => JsonDocumentView::Object(members_view(members@)),
            JsonDocument::NotObject => JsonDocumentView::NotObject,
        }
    }
}

/// The document that `serde_json` parses from `bytes`, `None` where the bytes
/// are not one JSON document.
pub uninterp spec fn parsed_json(bytes: Seq<u8>) -> Option<JsonDocumentView>;

/// The mathematical form of a parse result.
pub open spec fn parse_view(document: Option<JsonDocument>) -> Option<JsonDocumentView> {
    match document {
        Some(d) => Some(d@),
        None => None,
    }
}

/// Parses `frame` with `serde_json::from_slice` into a `serde_json::Value` and
/// keeps its top-level members. Claimed: the result is a function of the bytes
/// alone, named [`parsed_json`]; a string member is kept as its text and a
/// number member as `Number::as_u64` gives it.
#[verifier::external_body]
fn parse_json_document(frame: &[u8]) -> (document: Option<JsonDocument>)
    ensures
        parse_view(document) == parsed_json(frame@),
{
    match serde_json::from_slice::<serde_json::Value>(frame) {
        Ok(serde_json::Value::Object(map)) => Some(JsonDocument::Object(map.into_iter().map(|(key, value)| (key, match value {
            serde_json::Value::String(text) => JsonMember::Text(text),
            serde_json::Value::Number(number) => JsonMember::Number(number.as_u64()),
            serde_json::Value::Null => JsonMember::Other,
            serde_json::Value::Bool(_) => JsonMember::Other,
            serde_json::Value::Array(_) => JsonMember::Other,
            serde_json::Value::Object(_) => JsonMember::Other,
        })).collect())),
        Ok(_) => Some(JsonDocument::NotObject),
        Err(_) => None,
    }
}

/// The value of the first member named `key`, if any.
pub open spec fn member(members: Seq<(Seq<char>, JsonMemberView)>, key: Seq<char>) -> Option<JsonMemberView>
    decreases members.len(),
{
    if members.len() == 0 {
        None
    } else if members[0].0 == key {
        Some(members[0].1)
    } else {
        member(members.drop_first(), key)
    }
}

/// A document answers `initialize` successfully: it is an object whose
/// `jsonrpc` member is the string `2.0`, whose `id` member is the number 1,
/// and which has a `result` member.
pub open spec fn initialize_accepted(document: JsonDocumentView) -> bool {
    match document {
        JsonDocumentView::Object(members) => {
            &&& member(members, "jsonrpc"@) == Some(JsonMemberView::Text("2.0"@))
            &&& member(members, "id"@) == Some(JsonMemberView::Number(Some(1u64)))
            &&& member(members, "result"@) is Some
        },
        JsonDocumentView::NotObject => false,
    }
}

/// The handshake status that a response frame earns.
pub open spec fn response_status(frame: Seq<u8>) -> Handshake {
    match parsed_json(frame) {
        Some(document) => if initialize_accepted(document) {
            Handshake::Succeeded
        } else {
            Handshake::Failed
        },
        None => Handshake::Failed,
    }
}

/// The handshake status that a frame read with limit `max_bytes` earns: a frame
/// longer than the limit, or one that does not end with a newline, fails.
pub open spec fn frame_status(frame: Seq<u8>, max_bytes: nat) -> Handshake {
    if 0 < frame.len() <= max_bytes && frame.last() == 10u8 {
        response_status(frame)
    } else {
        Handshake::Failed
    }
}

/// The value of the first member named `key`.
fn find_member<'a>(members: &'a Vec<(String, JsonMember)>, key: &String) -> (found: Option<&'a JsonMember>)
    ensures
        match found {
            Some(m) => member(members_view(members@), key@) == Some(m@),
            None => member(members_view(members@), key@) is None,
        },
{
    let ghost whole = members_view(members@);
    let mut i: usize = 0;
    assert(whole.subrange(0, whole.len() as int) =~= whole);
    while i < members.len()
        invariant
            i <= members.len(),
            whole == members_view(members@),
            member(whole, key@) == member(whole.subrange(i as int, whole.len() as int), key@),
        decreases members.len() - i,
    {
        let ghost rest = whole.subrange(i as int, whole.len() as int);
        assert(rest[0] == (members@[i as int].0@, members@[i as int].1@));
        if members[i].0 == *key {
            return Some(&members[i].1);
        }
        assert(rest.drop_first() =~= whole.subrange(i + 1, whole.len() as int));
        i = i + 1;
    }
    assert(whole.subrange(i as int, whole.len() as int).len() == 0);
    None
}

/// Judges a parsed document as the answer to `initialize`.
pub fn check_initialize_document(document: &JsonDocument) -> (status: Handshake)
    ensures
        status == (if initialize_accepted(document@) {
            Handshake::Succeeded
        } else {
            Handshake::Failed
        }),
{
    match document {
        JsonDocument::Object(members) => {
            let version_key = String::from_str("jsonrpc");
            let id_key = String::from_str("id");
            let result_key = String::from_str("result");
            let version_ok = match find_member(members, &version_key) {
                Some(JsonMember::Text(text)) => *text == String::from_str("2.0"),
                _ => false,
            };
            let id_ok = match find_member(members, &id_key) {
                Some(JsonMember::Number(Some(n))) => *n == 1,
                _ => false,
            };
            let has_result = find_member(members, &result_key).is_some();
            proof {
                reveal_strlit("2.0");
            }
            if version_ok && id_ok && has_result {
                Handshake::Succeeded
            } else {
                Handshake::Failed
            }
        },
        JsonDocument::NotObject => Handshake::Failed,
    }
}

/// Judges one response frame as the answer to `initialize`: it succeeds when
/// it parses as a JSON object with `"jsonrpc": "2.0"`, `"id": 1` and a
/// `result` member, and fails otherwise (an error response, another id, or
/// text that is not JSON).
pub fn validate_initialize_response(frame: &[u8]) -> (status: Handshake)
    ensures
        status == response_status(frame@),
{
    match parse_json_document(frame) {
        Some(document) => check_initialize_document(&document),
        None => Handshake::Failed,
    }
}

/// Judges a frame read with limit `max_bytes`: too long a frame, or one
/// without its closing newline, fails; any other is judged as a response.
pub fn judge_frame(frame: &[u8], max_bytes: usize) -> (status: Handshake)
    ensures
        status == frame_status(frame@, max_bytes as nat),
{
    let n = frame.len();
    if 0 < n && n <= max_bytes && frame[n - 1] == 10u8 {
        validate_initialize_response(frame)
    } else {
        Handshake::Failed
    }
}

/// A frame within the limit that ends with a newline is judged on its content
/// alone: its status is that of the response it holds, whatever bytes (a
/// carriage return among them) precede the newline. Any other frame fails.
pub proof fn framed_responses_are_judged_by_content(frame: Seq<u8>, max_bytes: nat)
    ensures
        0 < frame.len() <= max_bytes && frame.last() == 10u8 ==> frame_status(frame, max_bytes)
            == response_status(frame),
        frame.len() > max_bytes ==> frame_status(frame, max_bytes) == Handshake::Failed,
        frame.len() == 0 || frame.last() != 10u8 ==> frame_status(frame, max_bytes)
            == Handshake::Failed,
{
}

} // verus!
