//! Serializer and deserializer for the data of one WebSocket frame.
//!
//! Incoming frames are decoded to text, parsed as JSON and validated;
//! outgoing text is wrapped as a text frame. The parsed request is handed
//! on as an [`Envelope`] of plain values.

use vstd::prelude::*;

use crate::error::PathfinderError;
use vstd::pervasive::unreached;
use crate::rawjson::{has_member, json_has_member, json_member_dump, json_reserialize,
    json_str_member, member_dump, normal_json, str_member};

verus! {

/// One WebSocket message, as far as the proxy reads it: a text frame or a
/// binary frame.
#[derive(Debug, PartialEq, Eq)]
pub enum Frame {
    Text(String),
    Binary(Vec<u8>),
}

/// What bytes decode to as UTF-8 text; `None` when they are not valid
/// UTF-8. Named here because the decoding itself is done by the standard
/// library.
pub uninterp spec fn utf8_decode(b: Seq<u8>) -> Option<Seq<char>>;

/// Relies on `String::from_utf8`: whether bytes decode as UTF-8, and to
/// which characters, depends on the bytes alone.
#[verifier::external_body]
pub fn decode_utf8(bytes: &Vec<u8>) -> (r: Option<String>)
    ensures
        match r {
            Some(s) => utf8_decode(bytes@) == Some(s@),
            None => utf8_decode(bytes@) is None,
        },
{
    String::from_utf8(bytes.clone()).ok()
}

/// The text a frame carries: the text itself for a text frame, the decoded
/// bytes for a binary frame, `None` for a binary frame that is not UTF-8.
pub open spec fn frame_text(f: &Frame) -> Option<Seq<char>> {
    match f {
        Frame::Text(t) => Some(t@),
        Frame::Binary(b) => utf8_decode(b@),
    }
}

/// The request envelope: the fields of the inbound JSON object that the
/// proxy reads, each reduced to a plain value.
#[derive(Debug)]
pub struct Envelope {
    /// The requested URL; always present, the codec rejects frames
    /// without it.
    pub url: String,
    /// The client's token, when one was sent as a string.
    pub token: Option<String>,
    /// The `event-name` member, copied into the AMQP correlation id.
    pub event_name: Option<String>,
    /// The `permissions` member, copied into the default headers.
    pub permissions: Option<String>,
    /// The `user_id` member, copied into the default headers.
    pub user_id: Option<String>,
    /// The compact JSON text of the `content` member, the actual upstream
    /// payload; `"null"` when the member is absent.
    pub content: String,
}

impl Clone for Envelope {
    fn clone(&self) -> (r: Envelope)
        ensures
            r == *self,
    {
        Envelope {
            url: self.url.clone(),
            token: match &self.token {
                Some(t) => Some(t.clone()),
                None => None,
            },
            event_name: match &self.event_name {
                Some(t) => Some(t.clone()),
                None => None,
            },
            permissions: match &self.permissions {
                Some(t) => Some(t.clone()),
                None => None,
            },
            user_id: match &self.user_id {
                Some(t) => Some(t.clone()),
                None => None,
            },
            content: self.content.clone(),
        }
    }
}

/// The envelope holds exactly the fields that the `json` crate reads out
/// of the frame text.
pub open spec fn envelope_of(env: &Envelope, text: Seq<char>) -> bool {
    &&& Some(env.url@) == str_member(text, "url"@)
    &&& env.token.deep_view() == str_member(text, "token"@)
    &&& env.event_name.deep_view() == str_member(text, "event-name"@)
    &&& env.permissions.deep_view() == str_member(text, "permissions"@)
    &&& env.user_id.deep_view() == str_member(text, "user_id"@)
    &&& Some(env.content@) == member_dump(text, "content"@)
}

/// What `Serializer::deserialize` returns for a given frame: the envelope
/// for a valid request, and for each way a frame can be malformed, the
/// exact decoding error.
pub open spec fn deserialize_spec(f: &Frame, r: Result<Envelope, PathfinderError>) -> bool {
    match frame_text(f) {
        None => r matches Err(PathfinderError::DecodingError(m)) && m@ == "UTF-8 encoding error"@,
        Some(text) => match normal_json(text) {
            Err(e) => r matches Err(PathfinderError::DecodingError(m)) && m@ == e,
            Ok(_) => if str_member(text, "url"@) is None {
                r matches Err(PathfinderError::DecodingError(m)) && m@
                    == "The `url` field is missing or value is `null`"@
            } else if has_member(text, "microservice"@) == Some(true) {
                r matches Err(PathfinderError::DecodingError(m)) && m@
                    == "The `microservice` field must not be specified"@
            } else {
                r matches Ok(env) && envelope_of(&env, text)
            },
        },
    }
}

/// A specialized struct for deserializing incoming frames into request
/// envelopes and serializing response text into frames.
pub struct Serializer;

impl Serializer {
    /// Returns a new instance of `Serializer`.
    pub fn new() -> Serializer {
        Serializer {  }
    }

    /// Wraps a UTF-8 encoded string as a text frame, so that it can be
    /// sent to a client. Never fails.
    pub fn serialize(&self, message: String) -> (r: Result<Frame, PathfinderError>)
        ensures
            r matches Ok(f) && f matches Frame::Text(t) && t@ == message@,
    {
        Ok(Frame::Text(message))
    }

    /// Transforms an incoming frame into a validated request envelope.
    pub fn deserialize(&self, message: &Frame) -> (r: Result<Envelope, PathfinderError>)
        ensures
            deserialize_spec(message, r),
    {
        let text = match self.parse_into_text(message) {
            Ok(text) => text,
            Err(err) => {
                return Err(err);
            },
        };
        if let Err(parse_error) = json_reserialize(text.as_str()) {
            return Err(PathfinderError::DecodingError(parse_error));
        }
        self.validate_json(text.as_str())
    }

    /// Extracts the UTF-8 text that a frame carries.
    fn parse_into_text(&self, message: &Frame) -> (r: Result<String, PathfinderError>)
        ensures
            match frame_text(message) {
                Some(text) => r matches Ok(t) && t@ == text,
                None => r matches Err(PathfinderError::DecodingError(m)) && m@
                    == "UTF-8 encoding error"@,
            },
    {
        match message {
            Frame::Text(t) => Ok(t.clone()),
            Frame::Binary(b) => match decode_utf8(b) {
                Some(t) => Ok(t),
                None => Err(
                    PathfinderError::DecodingError("UTF-8 encoding error".to_owned()),
                ),
            },
        }
    }

    /// Validates a parsed JSON text on required fields and values and
    /// reads the envelope out of it.
    fn validate_json(&self, text: &str) -> (r: Result<Envelope, PathfinderError>)
        requires
            normal_json(text@) is Ok,
        ensures
            if str_member(text@, "url"@) is None {
                r matches Err(PathfinderError::DecodingError(m)) && m@
                    == "The `url` field is missing or value is `null`"@
            } else if has_member(text@, "microservice"@) == Some(true) {
                r matches Err(PathfinderError::DecodingError(m)) && m@
                    == "The `microservice` field must not be specified"@
            } else {
                r matches Ok(env) && envelope_of(&env, text@)
            },
    {
        let url = match json_str_member(text, "url") {
            Some(url) => url,
            None => {
                return Err(
                    PathfinderError::DecodingError(
                        "The `url` field is missing or value is `null`".to_owned(),
                    ),
                );
            },
        };
        if let Some(true) = json_has_member(text, "microservice") {
            return Err(
                PathfinderError::DecodingError(
                    "The `microservice` field must not be specified".to_owned(),
                ),
            );
        }
        // The text was checked to be valid JSON before any member is
        // read, so every member has a compact serialization; a missing
        // member still dumps as `null`.
        let content = match json_member_dump(text, "content") {
            Some(content) => content,
            None => unreached(),
        };
        Ok(
            Envelope {
                url,
                token: json_str_member(text, "token"),
                event_name: json_str_member(text, "event-name"),
                permissions: json_str_member(text, "permissions"),
                user_id: json_str_member(text, "user_id"),
                content,
            },
        )
    }
}

} // verus!
