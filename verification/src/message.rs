//! The frames of the relay: what a session tells its peer, what it accepts
//! from it, and what it passes on.

use vstd::prelude::*;
use vstd::string::StringExecFns;
use vstd::utf8::encode_utf8;
use crate::json::{
    json_is_object, json_parse, json_text, json_to_text, json_with_string, parse_json,
    set_string_member,
};
use crate::limits::MAX_MSG_SIZE;

verus! {

/// A frame on its way through a room, tagged with the connection that sent it.
/// The tag stays inside the server; the payload is what goes over the wire.
#[derive(Debug, PartialEq, Eq)]
pub struct BroadcastMsg {
    pub sender_id: String,
    pub payload: String,
}

/// `str`'s `==`. Believed: two string slices are equal exactly when they hold
/// the same characters.
pub assume_specification[ <str as PartialEq>::eq ](this: &str, other: &str) -> (same: bool)
    ensures
        same == (this@ == other@),
;

/// The first frame a peer receives: its own identity.
pub open spec fn identity_frame_text(id: Seq<char>) -> Seq<char> {
    "{\"type\":\"identity\",\"senderId\":\""@ + id + "\"}"@
}

/// The frame that tells a room that the connection `id` has left.
pub open spec fn leave_frame_text(id: Seq<char>) -> Seq<char> {
    "{\"type\":\"leave\",\"senderId\":\""@ + id + "\"}"@
}

/// The payload under which a client's frame `text` is relayed for the
/// connection `id`, or `None` where the frame is dropped: one of more than
/// `MAX_MSG_SIZE` bytes, one that is no JSON, one that is no JSON object.
/// A relayed frame is the client's object with `senderId` set to `id`.
pub open spec fn relayed_payload(text: Seq<char>, id: Seq<char>) -> Option<Seq<char>> {
    if encode_utf8(text).len() > MAX_MSG_SIZE {
        None
    } else {
        stamped_payload(json_parse(text), id)
    }
}

/// The payload that is relayed for the connection `id` once its frame has been
/// read as `parsed`.
pub open spec fn stamped_payload(parsed: Option<serde_json::Value>, id: Seq<char>) -> Option<
    Seq<char>,
> {
    match parsed {
        Some(value) => if json_is_object(value) {
            Some(json_text(json_with_string(value, "senderId"@, id)))
        } else {
            None
        },
        None => None,
    }
}

/// Writes the identity frame of the connection `id`.
pub fn identity_frame(id: &str) -> (frame: String)
    ensures
        frame@ == identity_frame_text(id@),
{
    let mut frame = "{\"type\":\"identity\",\"senderId\":\"".to_owned();
    frame.append(id);
    frame.append("\"}");
    frame
}

/// Writes the leave frame of the connection `id`.
pub fn leave_frame(id: &str) -> (frame: String)
    ensures
        frame@ == leave_frame_text(id@),
{
    let mut frame = "{\"type\":\"leave\",\"senderId\":\"".to_owned();
    frame.append(id);
    frame.append("\"}");
    frame
}

/// The announcement that a departing session publishes to its room.
pub fn leave_message(id: &str) -> (msg: BroadcastMsg)
    ensures
        msg.sender_id@ == id@,
        msg.payload@ == leave_frame_text(id@),
{
    BroadcastMsg { sender_id: id.to_owned(), payload: leave_frame(id) }
}

/// Turns a parsed client frame into the message that is relayed for the
/// connection `my_id`. A frame that did not parse, or that is no object, gives
/// nothing; an object is relayed with its `senderId` overwritten by `my_id`.
pub fn stamp_sender(parsed: Result<serde_json::Value, serde_json::Error>, my_id: &str) -> (relayed:
    Option<BroadcastMsg>)
    ensures
        match parsed {
            Ok(value) => if json_is_object(value) {
                relayed matches Some(msg) && msg.sender_id@ == my_id@ && msg.payload@ == json_text(
                    json_with_string(value, "senderId"@, my_id@),
                )
            } else {
                relayed is None
            },
            Err(_) => relayed is None,
        },
{
    match parsed {
        Err(_) => None,
        Ok(value) => {
            if !value.is_object() {
                return None;
            }
            let mut object = value;
            set_string_member(&mut object, "senderId", my_id);
            Some(BroadcastMsg { sender_id: my_id.to_owned(), payload: json_to_text(&object) })
        },
    }
}

/// Validates a text frame from the peer of connection `my_id` and prepares it
/// for its room. Whatever `senderId` the client wrote, the relayed frame
/// carries `my_id`.
pub fn process_client_text(text: String, my_id: &str) -> (relayed: Option<BroadcastMsg>)
    ensures
        match relayed_payload(text@, my_id@) {
            Some(payload) => relayed matches Some(msg) && msg.sender_id@ == my_id@ && msg.payload@
                == payload,
            None => relayed is None,
        },
{
    if text.as_str().as_bytes().len() > MAX_MSG_SIZE {
        return None;
    }
    stamp_sender(parse_json(text.as_str()), my_id)
}

/// Whether a message from a room goes out to the peer of connection `my_id`:
/// every message but the connection's own.
pub fn should_forward(msg: &BroadcastMsg, my_id: &str) -> (forward: bool)
    ensures
        forward == (msg.sender_id@ != my_id@),
{
    !(*msg.sender_id.as_str() == *my_id)
}

} // verus!
