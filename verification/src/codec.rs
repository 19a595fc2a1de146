use vstd::prelude::*;

use crate::peer::{AnnounceMessage, AnnounceView};

verus! {

// The wire format of an announce is JSON and belongs to an outside
// serializer; its exact byte shape is not restated here. The two names below
// stand for what that serializer produces and what its parser accepts, and
// the wrappers tie the library's values to them.

/// The bytes the wire encoder produces for an announce: a function of the
/// announced fields alone.
pub uninterp spec fn wire_of(a: AnnounceView) -> Seq<u8>;

/// What the wire decoder makes of a datagram payload: the announce it
/// carries, or nothing when the payload is malformed.
pub uninterp spec fn parse_announce(b: Seq<u8>) -> Option<AnnounceView>;

/// Relies on serde_json::Value::to_string: rendering a string-keyed object
/// of the four announce fields depends on those fields alone and cannot
/// fail; and on serde_json::from_str, which parses the rendered object back
/// to the same four fields.
#[verifier::external_body]
pub(crate) fn encode_wire(a: &AnnounceMessage) -> (r: Vec<u8>)
    ensures
        r@ == wire_of(a@),
        parse_announce(r@) == Some(a@),
{
    let mut m = serde_json::Map::new();
    m.insert("alias".to_owned(), serde_json::Value::String(a.alias.clone()));
    m.insert("fingerprint".to_owned(), serde_json::Value::String(a.fingerprint.clone()));
    m.insert("port".to_owned(), serde_json::Value::from(a.port));
    m.insert("protocol".to_owned(), serde_json::Value::String(a.protocol.clone()));
    serde_json::Value::Object(m).to_string().into_bytes()
}

/// Relies on serde_json::from_str: what it parses from a payload depends on
/// the bytes alone; a payload it rejects, or one whose fields are missing or
/// of the wrong shape, decodes to nothing.
#[verifier::external_body]
pub(crate) fn decode_wire(buf: &[u8]) -> (r: Option<AnnounceMessage>)
    ensures
        r matches Some(a) ==> parse_announce(buf@) == Some(a@),
        r is None ==> parse_announce(buf@) is None,
{
    let text = String::from_utf8_lossy(buf);
    let v: serde_json::Value = serde_json::from_str(&text).ok()?;
    Some(AnnounceMessage {
        alias: v.get("alias")?.as_str()?.to_owned(),
        fingerprint: v.get("fingerprint")?.as_str()?.to_owned(),
        port: u16::try_from(v.get("port")?.as_u64()?).ok()?,
        protocol: v.get("protocol")?.as_str()?.to_owned(),
    })
}

} // verus!
