//! Opcodes and the fixed frames of the gateway protocol: the
//! greeting payload read during handshake, and the heartbeat and
//! identify frames this client sends.

use vstd::prelude::*;

use crate::envelope::{encode_frame, frame_model};
use crate::json::{
    empty_obj, jmodel, json_as_u64, json_bool, json_get, json_null, json_obj_insert,
    json_obj_new, json_object, json_parse, json_string, nested_within, JsonVal,
};

verus! {

/// Dispatch: the envelope class carrying application events.
pub const OP_DISPATCH: u8 = 0;

/// Heartbeat: the periodic liveness frame this client sends.
pub const OP_HEARTBEAT: u8 = 1;

/// Identify: the one-time frame authenticating the streaming session.
pub const OP_IDENTIFY: u8 = 2;

/// Hello: the server's greeting, carrying the heartbeat interval.
pub const OP_HELLO: u8 = 10;

/// Heartbeat acknowledgment: informational only.
pub const OP_HEARTBEAT_ACK: u8 = 11;

/// The content of the heartbeat frame: `{"op": 1, "d": null}`.
pub open spec fn heartbeat_frame() -> JsonVal {
    frame_model(OP_HEARTBEAT, JsonVal::Null)
}

/// Encodes the heartbeat frame.
pub fn heartbeat_text() -> (r: String)
    ensures
        json_parse(r@) == Some(heartbeat_frame()),
{
    encode_frame(OP_HEARTBEAT, json_null())
}

/// The platform triple sent inside the identify payload.
pub open spec fn identify_properties() -> JsonVal {
    JsonVal::Obj(
        empty_obj().insert("$os"@, JsonVal::Str("linux"@)).insert(
            "$browser"@,
            JsonVal::Str("noob"@),
        ).insert("$device"@, JsonVal::Str("noob"@)),
    )
}

/// The identify payload: the credential, the platform triple, and
/// `compress: false`.
pub open spec fn identify_payload(token: Seq<char>) -> JsonVal {
    JsonVal::Obj(
        empty_obj().insert("token"@, JsonVal::Str(token)).insert(
            "properties"@,
            identify_properties(),
        ).insert("compress"@, JsonVal::Bool(false)),
    )
}

/// The full identify frame for a given credential.
pub open spec fn identify_frame(token: Seq<char>) -> JsonVal {
    frame_model(OP_IDENTIFY, identify_payload(token))
}

/// Encodes the identify frame for the given credential.
pub fn identify_text(token: &str) -> (r: String)
    ensures
        json_parse(r@) == Some(identify_frame(token@)),
{
    let mut props = json_obj_new();
    json_obj_insert(&mut props, "$os".to_owned(), json_string("linux".to_owned()));
    json_obj_insert(&mut props, "$browser".to_owned(), json_string("noob".to_owned()));
    json_obj_insert(&mut props, "$device".to_owned(), json_string("noob".to_owned()));
    let mut payload = json_obj_new();
    json_obj_insert(&mut payload, "token".to_owned(), json_string(token.to_owned()));
    json_obj_insert(&mut payload, "properties".to_owned(), json_object(props));
    json_obj_insert(&mut payload, "compress".to_owned(), json_bool(false));
    proof {
        lemma_identify_payload_is_shallow(token@);
    }
    encode_frame(OP_IDENTIFY, json_object(payload))
}

/// The identify payload is three levels deep, far within the
/// serializer's nesting allowance.
proof fn lemma_identify_payload_is_shallow(token: Seq<char>)
    ensures
        nested_within(identify_payload(token), 127),
{
    let pm = empty_obj().insert("$os"@, JsonVal::Str("linux"@)).insert(
        "$browser"@,
        JsonVal::Str("noob"@),
    ).insert("$device"@, JsonVal::Str("noob"@));
    assert forall|k: Seq<char>| pm.contains_key(k) implies nested_within(
        #[trigger] pm[k],
        125,
    ) by {
        assert(pm[k] is Str);
    }
    let dm = empty_obj().insert("token"@, JsonVal::Str(token)).insert(
        "properties"@,
        identify_properties(),
    ).insert("compress"@, JsonVal::Bool(false));
    assert forall|k: Seq<char>| dm.contains_key(k) implies nested_within(
        #[trigger] dm[k],
        126,
    ) by {
        if k == "properties"@ && dm[k] == identify_properties() {
            assert(nested_within(identify_properties(), 126));
        } else {
            assert(dm[k] is Str || dm[k] is Bool);
        }
    }
}

/// What the greeting payload holds: `Some` exactly when the payload
/// is an object whose `heartbeat_interval` is an unsigned number.
pub open spec fn hello_interval_of(d: JsonVal) -> Option<u64> {
    match d {
        JsonVal::Obj(m) => {
            if m.contains_key("heartbeat_interval"@) {
                match m["heartbeat_interval"@] {
                    JsonVal::UInt(n) => Some(n),
                    _ => None,
                }
            } else {
                None
            }
        },
        _ => None,
    }
}

/// Reads the heartbeat interval from a greeting payload.
pub fn hello_interval(d: &serde_json::Value) -> (r: Option<u64>)
    ensures
        r == hello_interval_of(jmodel(*d)),
{
    match json_get(d, "heartbeat_interval") {
        None => None,
        Some(v) => json_as_u64(v),
    }
}

} // verus!
