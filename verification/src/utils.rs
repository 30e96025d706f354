//! Utilities for preparing outbound frames.
//!
//! Every proxy-originated failure is sent to the client as the JSON
//! envelope `{"error":{"type":<kind>,"details":<details>}}`; a
//! microservice's own error JSON is forwarded verbatim instead. The
//! envelope is written here, string escaping included, by verified code.

use vstd::prelude::*;
use vstd::string::StrSliceExecFns;
use vstd::string::StringExecFns;

use crate::error::{PathfinderError, MESSAGE_BROKER_ERROR_TEXT};
use crate::rawjson::{json_reserialize, normal_json};
use crate::serializer::{decode_utf8, deserialize_spec, utf8_decode, Envelope, Frame, Serializer};

verus! {

/// The hexadecimal digit for `d`.
pub open spec fn spec_hex_digit(d: int) -> char {
    if d == 0 {
        '0'
    } else if d == 1 {
        '1'
    } else if d == 2 {
        '2'
    } else if d == 3 {
        '3'
    } else if d == 4 {
        '4'
    } else if d == 5 {
        '5'
    } else if d == 6 {
        '6'
    } else if d == 7 {
        '7'
    } else if d == 8 {
        '8'
    } else if d == 9 {
        '9'
    } else if d == 10 {
        'a'
    } else if d == 11 {
        'b'
    } else if d == 12 {
        'c'
    } else if d == 13 {
        'd'
    } else if d == 14 {
        'e'
    } else {
        'f'
    }
}

/// How one character is written inside a JSON string: quote, backslash and
/// the named control characters get a two-character escape, any other
/// control character a `\u00..` escape, and everything else stands as it is.
pub open spec fn spec_escape_char(c: char) -> Seq<char> {
    if c == '"' {
        seq!['\\', '"']
    } else if c == '\\' {
        seq!['\\', '\\']
    } else if c == '\u{8}' {
        seq!['\\', 'b']
    } else if c == '\u{c}' {
        seq!['\\', 'f']
    } else if c == '\n' {
        seq!['\\', 'n']
    } else if c == '\r' {
        seq!['\\', 'r']
    } else if c == '\t' {
        seq!['\\', 't']
    } else if (c as u32) < 32 {
        seq!['\\', 'u', '0', '0', spec_hex_digit(c as u32 as int / 16), spec_hex_digit(
            c as u32 as int % 16,
        )]
    } else {
        seq![c]
    }
}

/// A text escaped for use inside a JSON string literal.
pub open spec fn spec_escape(s: Seq<char>) -> Seq<char>
    decreases s.len(),
{
    if s.len() == 0 {
        Seq::empty()
    } else {
        spec_escape(s.drop_last()) + spec_escape_char(s.last())
    }
}

/// The digit characters for values below sixteen.
pub(crate) fn hex_digit_str(d: u8) -> (r: &'static str)
    requires
        d < 16,
    ensures
        r@ == seq![spec_hex_digit(d as int)],
{
    proof {
        reveal_strlit("0");
        reveal_strlit("1");
        reveal_strlit("2");
        reveal_strlit("3");
        reveal_strlit("4");
        reveal_strlit("5");
        reveal_strlit("6");
        reveal_strlit("7");
        reveal_strlit("8");
        reveal_strlit("9");
        reveal_strlit("a");
        reveal_strlit("b");
        reveal_strlit("c");
        reveal_strlit("d");
        reveal_strlit("e");
        reveal_strlit("f");
    }
    match d {
        0 => "0",
        1 => "1",
        2 => "2",
        3 => "3",
        4 => "4",
        5 => "5",
        6 => "6",
        7 => "7",
        8 => "8",
        9 => "9",
        10 => "a",
        11 => "b",
        12 => "c",
        13 => "d",
        14 => "e",
        _ => "f",
    }
}

/// Escapes a text for use inside a JSON string literal.
pub fn json_escape(s: &str) -> (r: String)
    ensures
        r@ == spec_escape(s@),
{
    let n = s.unicode_len();
    let mut out = String::new();
    let mut i: usize = 0;
    while i < n
        invariant
            i <= n,
            n == s@.len(),
            out@ == spec_escape(s@.take(i as int)),
        decreases n - i,
    {
        let c = s.get_char(i);
        proof {
            assert(s@.take(i as int + 1).drop_last() =~= s@.take(i as int));
            assert(s@.take(i as int + 1).last() == s@[i as int]);
        }
        if c == '"' {
            proof {
                reveal_strlit("\\\"");
            }
            out.append("\\\"");
        } else if c == '\\' {
            proof {
                reveal_strlit("\\\\");
            }
            out.append("\\\\");
        } else if c == '\u{8}' {
            proof {
                reveal_strlit("\\b");
            }
            out.append("\\b");
        } else if c == '\u{c}' {
            proof {
                reveal_strlit("\\f");
            }
            out.append("\\f");
        } else if c == '\n' {
            proof {
                reveal_strlit("\\n");
            }
            out.append("\\n");
        } else if c == '\r' {
            proof {
                reveal_strlit("\\r");
            }
            out.append("\\r");
        } else if c == '\t' {
            proof {
                reveal_strlit("\\t");
            }
            out.append("\\t");
        } else if (c as u32) < 32 {
            proof {
                reveal_strlit("\\u00");
                reveal_strlit("0");
                reveal_strlit("1");
            }
            out.append("\\u00");
            if (c as u32) < 16 {
                out.append("0");
            } else {
                out.append("1");
            }
            out.append(hex_digit_str((c as u32 % 16) as u8));
            proof {
                assert(out@ =~= spec_escape(s@.take(i as int)) + spec_escape_char(s@[i as int]));
            }
        } else {
            let piece = s.substring_char(i, i + 1);
            proof {
                assert(s@.subrange(i as int, i as int + 1) =~= seq![s@[i as int]]);
            }
            out.append(piece);
        }
        i = i + 1;
    }
    proof {
        assert(s@.take(n as int) =~= s@);
    }
    out
}

/// The outbound JSON envelope for a proxy-originated error.
pub open spec fn spec_error_envelope(kind: Seq<char>, details: Seq<char>) -> Seq<char> {
    "{\"error\":{\"type\":\""@ + spec_escape(kind) + "\",\"details\":\""@ + spec_escape(details)
        + "\"}}"@
}

/// Transforms an error kind and its detail text into a JSON error envelope
/// wrapped as a text frame.
pub fn wrap_an_error(kind: &str, details: &str) -> (r: Frame)
    ensures
        r matches Frame::Text(t) && t@ == spec_error_envelope(kind@, details@),
{
    let mut out = "{\"error\":{\"type\":\"".to_owned();
    out.append(json_escape(kind).as_str());
    out.append("\",\"details\":\"");
    out.append(json_escape(details).as_str());
    out.append("\"}}");
    Frame::Text(out)
}

/// The text of the single outbound frame for a failed request: a
/// microservice's own error JSON verbatim, any other error as an error
/// envelope of its kind and details.
pub open spec fn spec_error_frame(err: &PathfinderError) -> Seq<char> {
    match err {
        PathfinderError::MicroserviceError(j) => j@,
        _ => spec_error_envelope(err.spec_kind(), err.spec_details()),
    }
}

/// Prepares the single outbound frame for a failed request.
pub fn error_frame(err: &PathfinderError) -> (r: Frame)
    ensures
        r matches Frame::Text(t) && t@ == spec_error_frame(err),
{
    match err {
        PathfinderError::MicroserviceError(j) => Frame::Text(j.clone()),
        _ => wrap_an_error(err.kind(), err.details().as_str()),
    }
}

/// Whether a microservice's response body is readable: UTF-8 text that
/// parses as JSON.
pub open spec fn spec_response_ok(body: Seq<u8>) -> bool {
    match utf8_decode(body) {
        Some(text) => normal_json(text) is Ok,
        None => false,
    }
}

/// The text of the outbound frame for a microservice response: the body
/// re-serialized as compact JSON, or the broker error envelope when the
/// body is not readable.
pub open spec fn spec_response_text(body: Seq<u8>) -> Seq<char> {
    match utf8_decode(body) {
        None => spec_error_envelope("MessageBrokerError"@, MESSAGE_BROKER_ERROR_TEXT@),
        Some(text) => match normal_json(text) {
            Ok(t) => t,
            Err(_) => spec_error_envelope("MessageBrokerError"@, MESSAGE_BROKER_ERROR_TEXT@),
        },
    }
}

/// Prepares the outbound frame for a microservice response: the response
/// body is forwarded, re-serialized as compact JSON; an unreadable body is
/// reported as a broker failure.
pub fn prepare_response(body: &Vec<u8>) -> (r: Frame)
    ensures
        r matches Frame::Text(t) && t@ == spec_response_text(body@),
{
    let text = match decode_utf8(body) {
        Some(t) => t,
        None => {
            return error_frame(
                &PathfinderError::MessageBrokerError(MESSAGE_BROKER_ERROR_TEXT.to_owned()),
            );
        },
    };
    match json_reserialize(text.as_str()) {
        Ok(t) => Frame::Text(t),
        Err(_) => error_frame(
            &PathfinderError::MessageBrokerError(MESSAGE_BROKER_ERROR_TEXT.to_owned()),
        ),
    }
}

/// The outbound text of a round-trip whose reply was readable is the
/// microservice's response itself: valid JSON, verbatim but for the
/// whitespace that re-serialization drops.
pub proof fn law_response_verbatim(body: Seq<u8>)
    requires
        spec_response_ok(body),
    ensures
        normal_json(utf8_decode(body)->Some_0) == Ok::<Seq<char>, Seq<char>>(
            spec_response_text(body),
        ),
{
}

/// Serializes a JSON text into an outbound frame.
pub fn serialize_message(json_text: String) -> (r: Frame)
    ensures
        r matches Frame::Text(t) && t@ == json_text@,
{
    Frame::Text(json_text)
}

/// Deserializes a frame into a validated request envelope.
pub fn deserialize_message(message: &Frame) -> (r: Result<Envelope, PathfinderError>)
    ensures
        deserialize_spec(message, r),
{
    let serializer = Serializer::new();
    serializer.deserialize(message)
}

} // verus!
