//! The Interface: the capability handed to event callbacks.
//!
//! A callback emits outbound work in two ways. Streamed frames go
//! through the shared [`crate::outbound::OutboundQueue`]. REST
//! commands are built here as plain request values — path, JSON
//! body, bearer credential — for the embedding application's HTTP
//! caller to issue; the reply comes back through
//! [`classify_command_response`]. The one command built in full is
//! the exemplar, message send; further commands extend the same
//! contract.

use vstd::prelude::*;
use vstd::string::StringExecFns;

use crate::error::{Error, ErrorModel};
use crate::json::{
    empty_obj, json_bool, json_obj_insert, json_obj_new, json_object, json_parse, json_string,
    json_to_text, nested_within, JsonVal,
};

verus! {

/// An authenticated REST command, ready for the HTTP caller: a POST
/// of a JSON body.
pub struct RestCommand {
    /// Request path under the API root.
    pub path: String,
    /// The JSON body.
    pub body: String,
    /// The value of the authorization header.
    pub bearer: String,
}

/// The body of a message-send command: content, text-to-speech flag,
/// and an optional nonce.
pub open spec fn message_body(content: Seq<char>, tts: bool, nonce: Option<Seq<char>>) -> JsonVal {
    let base = empty_obj().insert("content"@, JsonVal::Str(content)).insert(
        "tts"@,
        JsonVal::Bool(tts),
    );
    JsonVal::Obj(
        match nonce {
            Some(n) => base.insert("nonce"@, JsonVal::Str(n)),
            None => base,
        },
    )
}

/// The path of a message-send command.
pub open spec fn message_path(channel_id: Seq<char>) -> Seq<char> {
    "/channels/"@ + channel_id + "/messages"@
}

/// The capability a callback holds for the duration of one
/// invocation: the credential for REST commands. Streamed sends go
/// through the shared outbound queue.
pub struct Interface {
    /// The credential, attached to every REST command.
    pub token: String,
}

impl Interface {
    /// A fresh capability around the credential.
    pub fn new(token: String) -> (r: Interface)
        ensures
            r.token@ == token@,
    {
        Interface { token }
    }

    /// Builds the message-send exemplar: POST
    /// `/channels/{channel_id}/messages` with the JSON body
    /// `{"content", "tts", "nonce"?}` and the bearer credential.
    pub fn send_message(&self, channel_id: &str, content: &str, tts: bool, nonce: Option<
        String,
    >) -> (r: RestCommand)
        ensures
            r.path@ == message_path(channel_id@),
            json_parse(r.body@) == Some(
                message_body(
                    content@,
                    tts,
                    match nonce {
                        Some(n) => Some(n@),
                        None => None,
                    },
                ),
            ),
            r.bearer@ == self.token@,
    {
        proof {
            lemma_message_body_is_shallow(
                content@,
                tts,
                match nonce {
                    Some(ref n) => Some(n@),
                    None => None,
                },
            );
        }
        let mut path = "/channels/".to_owned();
        path.append(channel_id);
        path.append("/messages");
        let mut m = json_obj_new();
        json_obj_insert(&mut m, "content".to_owned(), json_string(content.to_owned()));
        json_obj_insert(&mut m, "tts".to_owned(), json_bool(tts));
        match nonce {
            Some(n) => {
                json_obj_insert(&mut m, "nonce".to_owned(), json_string(n));
            },
            None => {},
        }
        let obj = json_object(m);
        let body = json_to_text(&obj);
        RestCommand { path, body, bearer: self.token.clone() }
    }
}

/// The message body is two levels deep, far within the serializer's
/// nesting allowance.
proof fn lemma_message_body_is_shallow(content: Seq<char>, tts: bool, nonce: Option<Seq<char>>)
    ensures
        nested_within(message_body(content, tts, nonce), 128),
{
    let base = empty_obj().insert("content"@, JsonVal::Str(content)).insert(
        "tts"@,
        JsonVal::Bool(tts),
    );
    let m = match nonce {
        Some(n) => base.insert("nonce"@, JsonVal::Str(n)),
        None => base,
    };
    assert forall|k: Seq<char>| m.contains_key(k) implies nested_within(
        #[trigger] m[k],
        127,
    ) by {
        assert(m[k] is Str || m[k] is Bool);
    }
    assert(nested_within(JsonVal::Obj(m), 128));
}

/// Classifies a REST command's reply: a success status is an empty
/// result; anything else surfaces the reply body as that command's
/// error, never a crash, and touches no connection state.
pub fn classify_command_response(status: u16, body: String) -> (r: Result<(), Error>)
    ensures
        200 <= status < 300 <==> r is Ok,
        !(200 <= status < 300) ==> (r matches Err(e) && e@ == ErrorModel::UnexpectedResponse(
            body@,
        )),
{
    if 200 <= status && status < 300 {
        Ok(())
    } else {
        Err(Error::UnexpectedResponse(body))
    }
}

} // verus!
