//! What is said to the two outside services of a session, and what is read
//! from their answers.
//!
//! The stream authority is told when a stream starts and when it ends. The
//! allocation service hands out the UDP port for the media and takes it back.
//! The caller does the talking; this module decides the words.

use crate::text::decimal_text;
use crate::text::push_decimal;
use vstd::prelude::*;
use vstd::string::StringExecFns;

verus! {

/// Where the stream authority listens.
pub const AUTHORITY_ENDPOINT: &'static str = "wss://meow.com/stream/auth";

/// The environment variable that names the allocation service.
pub const ALLOCATOR_VARIABLE: &'static str = "WEBRTC_SERVER_URL";

/// Where the allocation service is looked for when nothing is configured.
pub const DEFAULT_ALLOCATOR: &'static str = "http://localhost:8080";

/// The compact JSON text of an object whose members are `members`, in this
/// order, each value a JSON string.
pub uninterp spec fn json_object_text(members: Seq<(Seq<char>, Seq<char>)>) -> Seq<char>;

/// The member `key` of the JSON object that `body` spells, where `body` is
/// one JSON object and that member is an integer that fits 64 bits unsigned.
pub uninterp spec fn json_u64_member(body: Seq<u8>, key: Seq<char>) -> Option<u64>;

/// The announcement that the stream `stream_key` has started.
pub open spec fn start_message_text(stream_key: Seq<char>) -> Seq<char> {
    json_object_text(seq![("stream_key"@, stream_key)])
}

/// The announcement that the stream `stream_key` has ended.
pub open spec fn end_message_text(stream_key: Seq<char>) -> Seq<char> {
    json_object_text(seq![("stream_key"@, stream_key), ("status"@, "ended"@)])
}

/// The address of the allocation service: the configured one, or the local
/// default.
pub open spec fn allocator_base(configured: Option<Seq<char>>) -> Seq<char> {
    match configured {
        Some(base) => base,
        None => DEFAULT_ALLOCATOR@,
    }
}

/// The port that an answer of the allocation service grants: its `port`
/// member where that is a port number, 0 to 65535. Any other answer grants
/// nothing.
pub open spec fn granted_port(member: Option<u64>) -> Option<u16> {
    match member {
        Some(number) => if number <= u16::MAX {
            Some(number as u16)
        } else {
            None
        },
        None => None,
    }
}

/// `serde_json::Map::insert` for each member, then `to_string` of the
/// `serde_json::Value::Object` made of them: the object's compact JSON text.
/// Members keep the order in which they were inserted.
#[verifier::external_body]
fn json_object(members: &Vec<(String, String)>) -> (text: String)
    ensures
        text@ == json_object_text(members.deep_view()),
{
    let mut object = serde_json::Map::new();
    for member in members.iter() {
        object.insert(member.0.clone(), serde_json::Value::String(member.1.clone()));
    }
    serde_json::Value::Object(object).to_string()
}

/// `serde_json::from_slice` to a `serde_json::Value`, then `Value::get` and
/// `Value::as_u64`: `None` where `body` is no JSON text, has no member `key`,
/// or that member is no such integer.
#[verifier::external_body]
fn json_member_u64(body: &[u8], key: &str) -> (member: Option<u64>)
    ensures
        member == json_u64_member(body@, key@),
{
    match serde_json::from_slice::<serde_json::Value>(body) {
        Ok(value) => match value.get(key) {
            Some(found) => found.as_u64(),
            None => None,
        },
        Err(_) => None,
    }
}

/// The message that announces the start of the stream `stream_key`.
pub fn stream_start_message(stream_key: &str) -> (message: String)
    ensures
        message@ == start_message_text(stream_key@),
{
    let mut members: Vec<(String, String)> = Vec::new();
    members.push((String::from_str("stream_key"), String::from_str(stream_key)));
    assert(members.deep_view() =~= seq![("stream_key"@, stream_key@)]);
    json_object(&members)
}

/// The message that announces the end of the stream `stream_key`.
pub fn stream_end_message(stream_key: &str) -> (message: String)
    ensures
        message@ == end_message_text(stream_key@),
{
    let mut members: Vec<(String, String)> = Vec::new();
    members.push((String::from_str("stream_key"), String::from_str(stream_key)));
    members.push((String::from_str("status"), String::from_str("ended")));
    assert(members.deep_view() =~= seq![("stream_key"@, stream_key@), ("status"@, "ended"@)]);
    json_object(&members)
}

/// The address to which a port request is posted.
pub fn allocation_url(configured: Option<&str>) -> (url: String)
    ensures
        url@ == allocator_base(configured.deep_view()) + "/stream"@,
{
    let mut url = match configured {
        Some(base) => String::from_str(base),
        None => String::from_str(DEFAULT_ALLOCATOR),
    };
    url.append("/stream");
    url
}

/// The address at which `port` is given back.
pub fn release_url(configured: Option<&str>, port: u16) -> (url: String)
    ensures
        url@ == allocator_base(configured.deep_view()) + "/stream?port="@ + decimal_text(
            port as nat,
        ),
{
    let mut url = match configured {
        Some(base) => String::from_str(base),
        None => String::from_str(DEFAULT_ALLOCATOR),
    };
    url.append("/stream?port=");
    push_decimal(&mut url, port);
    url
}

/// The port that the `port` member of an answer grants.
pub fn port_from_member(member: Option<u64>) -> (port: Option<u16>)
    ensures
        port == granted_port(member),
{
    match member {
        Some(number) => if number <= 0xFFFF {
            Some(number as u16)
        } else {
            None
        },
        None => None,
    }
}

/// The port that the answer `body` of the allocation service grants, if it
/// grants one.
pub fn allocated_port(body: &[u8]) -> (port: Option<u16>)
    ensures
        port == granted_port(json_u64_member(body@, "port"@)),
{
    port_from_member(json_member_u64(body, "port"))
}

} // verus!
