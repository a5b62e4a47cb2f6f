//! The four-field wire envelope and its codec.
//!
//! Every gateway message, in either direction, is a JSON object
//! `{"op": <small integer>, "d": <payload>, "s": <sequence or null>,
//! "t": <event tag or null>}`. The codec is stateless: decoding
//! classifies text as either a well-formed envelope or malformed, and
//! encoding produces text that parses back to the intended frame.

use vstd::prelude::*;

use crate::error::Error;
use crate::json::{
    empty_obj, jmodel, json_as_str, json_as_u64, json_clone, json_from_text, json_get,
    json_is_null, json_obj_insert, json_obj_new, json_object, json_parse, json_to_text,
    json_uint, nested_within, JsonVal,
};

verus! {

/// An inbound or outbound envelope, with its payload still opaque:
/// `d` is reinterpreted per opcode by the packet handler.
#[derive(Debug, PartialEq)]
pub struct Envelope {
    /// Opcode: which class of message this is.
    pub op: u8,
    /// The payload, opaque until the opcode is known.
    pub d: serde_json::Value,
    /// Monotonic sequence number; present only on dispatches.
    pub s: Option<u64>,
    /// Event-type tag; present only on dispatches.
    pub t: Option<String>,
}

/// Spec-level content of an envelope.
pub struct EnvModel {
    pub op: u8,
    pub d: JsonVal,
    pub s: Option<u64>,
    pub t: Option<Seq<char>>,
}

impl View for Envelope {
    type V = EnvModel;

    open spec fn view(&self) -> EnvModel {
        EnvModel {
            op: self.op,
            d: jmodel(self.d),
            s: self.s,
            t: match self.t {
                Some(ts) => Some(ts@),
                None => None,
            },
        }
    }
}

impl EnvModel {
    /// The data-model invariant of the wire format: the tag and the
    /// sequence number ride only on dispatch envelopes. Outbound
    /// frames built by this crate satisfy it by construction; inbound
    /// envelopes that break it are semantically unexpected, not
    /// malformed, and the packet handler drops the stray fields.
    pub open spec fn dispatch_fields_only(self, dispatch_op: u8) -> bool {
        (self.s is Some || self.t is Some) ==> self.op == dispatch_op
    }
}

/// How an optional unsigned field reads from an object: absent or
/// null is "no value", an unsigned number is its value, and any other
/// content makes the whole envelope malformed.
pub open spec fn u64_opt_field(m: Map<Seq<char>, JsonVal>, key: Seq<char>) -> Option<
    Option<u64>,
> {
    if !m.contains_key(key) {
        Some(None)
    } else {
        match m[key] {
            JsonVal::Null => Some(None),
            JsonVal::UInt(n) => Some(Some(n)),
            _ => None,
        }
    }
}

/// How an optional text field reads from an object, as
/// [`u64_opt_field`] does for numbers.
pub open spec fn text_opt_field(m: Map<Seq<char>, JsonVal>, key: Seq<char>) -> Option<
    Option<Seq<char>>,
> {
    if !m.contains_key(key) {
        Some(None)
    } else {
        match m[key] {
            JsonVal::Null => Some(None),
            JsonVal::Str(s) => Some(Some(s)),
            _ => None,
        }
    }
}

/// Which JSON content is a well-formed envelope, and what it holds.
/// The value must be an object with an unsigned `op` of at most 255
/// and a `d` of any content; `s` and `t` may be absent or null.
/// Unknown extra keys are ignored.
pub open spec fn env_of(j: JsonVal) -> Option<EnvModel> {
    match j {
        JsonVal::Obj(m) => {
            if !m.contains_key("op"@) || !m.contains_key("d"@) {
                None
            } else {
                match (m["op"@], u64_opt_field(m, "s"@), text_opt_field(m, "t"@)) {
                    (JsonVal::UInt(op), Some(s), Some(t)) => {
                        if op <= 255 {
                            Some(EnvModel { op: op as u8, d: m["d"@], s, t })
                        } else {
                            None
                        }
                    },
                    _ => None,
                }
            }
        },
        _ => None,
    }
}

/// Decodes wire text into an envelope.
///
/// Fails with [`Error::Decode`] exactly when the text is not
/// well-formed JSON or its content is not a well-formed envelope;
/// otherwise returns the envelope that the text holds.
pub fn decode_envelope(text: &str) -> (r: Result<Envelope, Error>)
    ensures
        match json_parse(text@) {
            None => r matches Err(e) && e == Error::Decode,
            Some(j) => match env_of(j) {
                None => r matches Err(e) && e == Error::Decode,
                Some(m) => r matches Ok(env) && env@ == m,
            },
        },
{
    let root = match json_from_text(text) {
        None => { return Err(Error::Decode) },
        Some(v) => v,
    };
    let op_val = match json_get(&root, "op") {
        None => { return Err(Error::Decode) },
        Some(x) => x,
    };
    let op64 = match json_as_u64(op_val) {
        None => { return Err(Error::Decode) },
        Some(n) => n,
    };
    if op64 > 255 {
        return Err(Error::Decode);
    }
    let d = match json_get(&root, "d") {
        None => { return Err(Error::Decode) },
        Some(x) => json_clone(x),
    };
    let s = match json_get(&root, "s") {
        None => None,
        Some(sv) => {
            if json_is_null(sv) {
                None
            } else {
                match json_as_u64(sv) {
                    None => { return Err(Error::Decode) },
                    Some(n) => Some(n),
                }
            }
        },
    };
    let t = match json_get(&root, "t") {
        None => None,
        Some(tv) => {
            if json_is_null(tv) {
                None
            } else {
                match json_as_str(tv) {
                    None => { return Err(Error::Decode) },
                    Some(x) => Some(x.to_owned()),
                }
            }
        },
    };
    Ok(Envelope { op: op64 as u8, d, s, t })
}

/// The content of an outbound frame: an envelope carrying only an
/// opcode and a payload, as every frame this client sends does.
pub open spec fn frame_model(op: u8, d: JsonVal) -> JsonVal {
    JsonVal::Obj(empty_obj().insert("op"@, JsonVal::UInt(op as u64)).insert("d"@, d))
}

/// Encodes an outbound frame. The produced text parses back to
/// exactly the two-field envelope `{"op": op, "d": d}`. The payload
/// must stay within the serializer's nesting allowance; every
/// payload this client sends is a handful of levels deep.
pub fn encode_frame(op: u8, d: serde_json::Value) -> (r: String)
    requires
        nested_within(jmodel(d), 127),
    ensures
        json_parse(r@) == Some(frame_model(op, jmodel(d))),
{
    let mut m = json_obj_new();
    json_obj_insert(&mut m, "op".to_owned(), json_uint(op as u64));
    json_obj_insert(&mut m, "d".to_owned(), d);
    let obj = json_object(m);
    proof {
        let gm = empty_obj().insert("op"@, JsonVal::UInt(op as u64)).insert("d"@, jmodel(d));
        assert forall|k: Seq<char>| gm.contains_key(k) implies nested_within(
            #[trigger] gm[k],
            127,
        ) by {
            if k == "d"@ {
            } else {
                assert(gm[k] == JsonVal::UInt(op as u64));
            }
        }
        assert(nested_within(jmodel(obj), 128));
    }
    json_to_text(&obj)
}

/// The codec round trip: every outbound frame decodes back to
/// exactly its opcode and payload, with no sequence number and no
/// tag — so outbound frames keep the dispatch-only-fields invariant
/// whatever the dispatch opcode is.
pub proof fn lemma_frame_round_trip(op: u8, d: JsonVal)
    ensures
        env_of(frame_model(op, d)) == Some(EnvModel { op, d, s: None, t: None }),
        forall|dispatch_op: u8|
            #[trigger] (EnvModel { op, d, s: None, t: None }).dispatch_fields_only(dispatch_op),
{
    reveal_strlit("op");
    reveal_strlit("d");
    reveal_strlit("s");
    reveal_strlit("t");
    let m = empty_obj().insert("op"@, JsonVal::UInt(op as u64)).insert("d"@, d);
    assert("op"@.len() == 2 && "d"@.len() == 1 && "s"@.len() == 1 && "t"@.len() == 1);
    assert("s"@[0] == 's' && "d"@[0] == 'd' && "t"@[0] == 't');
    assert("op"@ != "d"@);
    assert("s"@ != "op"@ && "s"@ != "d"@);
    assert("t"@ != "op"@ && "t"@ != "d"@);
    assert(!m.contains_key("s"@));
    assert(!m.contains_key("t"@));
    assert(m["op"@] == JsonVal::UInt(op as u64));
    assert(m["d"@] == d);
}

} // verus!
