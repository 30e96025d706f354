//! Middleware applied to a request before its primary round-trip.
//!
//! Two variants exist: the empty middleware passes every request through
//! with no extra headers, and the JWT middleware verifies the client's
//! token and fetches its permissions through two sub-requests against the
//! auth microservice, sequenced verify first. Each sub-request uses the
//! same reply-queue round-trip as the primary request; what its reply
//! means is decided here, over plain values.

use vstd::prelude::*;
use vstd::pervasive::unreached;
use vstd::string::StringExecFns;

use crate::error::{PathfinderError, MESSAGE_BROKER_ERROR_TEXT};
use crate::headers::CustomUserHeaders;
use crate::rawjson::{bool_member2, json_bool_member2, json_member_dump, json_reserialize,
    json_str_items2, member_dump, normal_json, str_items2};
use crate::rpc::{spec_correlation_id, spec_publish_shape, PublishRequest};
use crate::serializer::{decode_utf8, utf8_decode, Envelope};
use crate::utils::{json_escape, spec_error_envelope, spec_error_frame, spec_escape};

verus! {

/// Routing key of the token verify endpoint of the auth microservice.
pub const TOKEN_VERIFY_ROUTING_KEY: &'static str = "auth.token.verify";

/// Exchange of the token verify endpoint of the auth microservice.
pub const TOKEN_VERIFY_EXCHANGE: &'static str = "open-matchmaking.auth.token.verify.direct";

/// Routing key of the user profile endpoint of the auth microservice.
pub const TOKEN_USER_PROFILE_ROUTING_KEY: &'static str = "auth.users.retrieve";

/// Exchange of the user profile endpoint of the auth microservice.
pub const TOKEN_USER_PROFILE_EXCHANGE: &'static str =
    "open-matchmaking.auth.users.retrieve.direct";

/// The JSON body of an auth sub-request: the client's token.
pub open spec fn spec_token_body(token: Seq<char>) -> Seq<char> {
    "{\"access_token\":\""@ + spec_escape(token) + "\"}"@
}

/// Writes the JSON body of an auth sub-request.
pub fn build_token_body(token: &str) -> (r: String)
    ensures
        r@ == spec_token_body(token@),
{
    let mut out = "{\"access_token\":\"".to_owned();
    out.append(json_escape(token).as_str());
    out.append("\"}");
    out
}

/// A middleware used for cases when it is not necessary to validate
/// tokens or permissions.
pub struct EmptyMiddleware;

impl EmptyMiddleware {
    /// Returns a new instance of `EmptyMiddleware`.
    pub fn new() -> EmptyMiddleware {
        EmptyMiddleware {  }
    }

    /// Applies no check and supplies no extra headers.
    pub fn process_request(&self, _message: &Envelope) -> (r: Result<
        CustomUserHeaders,
        PathfinderError,
    >)
        ensures
            r matches Ok(h) && h@ == Seq::<(String, String)>::empty(),
    {
        Ok(Vec::new())
    }
}

/// A middleware that checks a JSON Web Token carried in the request
/// envelope. When the token is missing or invalid the request is refused
/// with a `PathfinderError`.
pub struct JwtTokenMiddleware;

/// Whether the verify sub-request accepted the token: its reply is JSON
/// with a null `error` member and `content.is_valid` true.
pub open spec fn spec_verify_accepts(body: Seq<u8>) -> bool {
    match utf8_decode(body) {
        Some(text) => {
            &&& normal_json(text) is Ok
            &&& member_dump(text, "error"@) == Some("null"@)
            &&& bool_member2(text, "content"@, "is_valid"@) == Some(true)
        },
        None => false,
    }
}

/// The text of the outbound frame when the verify sub-request did not
/// accept the token: an unreadable reply is a broker error, a reply with a
/// non-null `error` member is forwarded verbatim, and anything else means
/// the token is invalid.
pub open spec fn spec_verify_error_text(body: Seq<u8>) -> Seq<char> {
    match utf8_decode(body) {
        None => spec_error_envelope("MessageBrokerError"@, MESSAGE_BROKER_ERROR_TEXT@),
        Some(text) => match normal_json(text) {
            Err(_) => spec_error_envelope("MessageBrokerError"@, MESSAGE_BROKER_ERROR_TEXT@),
            Ok(_) => if member_dump(text, "error"@) != Some("null"@) {
                member_dump(text, "error"@)->Some_0
            } else {
                spec_error_envelope("AuthenticationError"@, "Token is invalid."@)
            },
        },
    }
}

/// Whether the profile sub-request succeeded: its reply is JSON with a
/// null `error` member.
pub open spec fn spec_profile_accepts(body: Seq<u8>) -> bool {
    match utf8_decode(body) {
        Some(text) => normal_json(text) is Ok && member_dump(text, "error"@) == Some("null"@),
        None => false,
    }
}

/// The extra headers a successful profile reply supplies: none when its
/// `content` is null, otherwise one `permissions` header joining the
/// string items of `content.permissions` with semicolons.
pub open spec fn spec_profile_extra(body: Seq<u8>, h: Seq<(String, String)>) -> bool {
    match utf8_decode(body) {
        Some(text) => if member_dump(text, "content"@) == Some("null"@) {
            h.len() == 0
        } else {
            &&& h.len() == 1
            &&& h[0].0@ == "permissions"@
            &&& h[0].1@ == spec_joined(spec_kept(str_items2(text, "content"@, "permissions"@)->Some_0))
        },
        None => false,
    }
}

/// The text of the outbound frame when the profile sub-request failed.
pub open spec fn spec_profile_error_text(body: Seq<u8>) -> Seq<char> {
    match utf8_decode(body) {
        None => spec_error_envelope("MessageBrokerError"@, MESSAGE_BROKER_ERROR_TEXT@),
        Some(text) => match normal_json(text) {
            Err(_) => spec_error_envelope("MessageBrokerError"@, MESSAGE_BROKER_ERROR_TEXT@),
            Ok(_) => member_dump(text, "error"@)->Some_0,
        },
    }
}

/// The string items of an array, the others left out.
pub open spec fn spec_kept(items: Seq<Option<Seq<char>>>) -> Seq<Seq<char>>
    decreases items.len(),
{
    if items.len() == 0 {
        Seq::empty()
    } else {
        spec_kept(items.drop_last()) + match items.last() {
            Some(s) => seq![s],
            None => Seq::empty(),
        }
    }
}

/// Texts joined with semicolons.
pub open spec fn spec_joined(parts: Seq<Seq<char>>) -> Seq<char>
    decreases parts.len(),
{
    if parts.len() == 0 {
        Seq::empty()
    } else if parts.len() == 1 {
        parts[0]
    } else {
        spec_joined(parts.drop_last()) + ";"@ + parts.last()
    }
}

/// Joins the string items of a permissions array with semicolons, leaving
/// non-string items out.
pub fn get_permissions(items: &Vec<Option<String>>) -> (r: String)
    ensures
        r@ == spec_joined(spec_kept(items.deep_view())),
{
    let ghost all = items.deep_view();
    let mut out = String::new();
    let mut first = true;
    let mut i: usize = 0;
    proof {
        assert(all.take(0) =~= Seq::<Option<Seq<char>>>::empty());
    }
    while i < items.len()
        invariant
            i <= items.len(),
            all == items.deep_view(),
            all.len() == items@.len(),
            out@ == spec_joined(spec_kept(all.take(i as int))),
            first <==> spec_kept(all.take(i as int)).len() == 0,
        decreases items.len() - i,
    {
        proof {
            assert(all.take(i as int + 1).drop_last() =~= all.take(i as int));
            assert(all.take(i as int + 1).last() == all[i as int]);
            assert(all[i as int] == items@[i as int].deep_view());
        }
        match &items[i] {
            Some(s) => {
                if first {
                    out = s.clone();
                    first = false;
                } else {
                    out.append(";");
                    out.append(s.as_str());
                }
                proof {
                    reveal_strlit(";");
                    let kept_old = spec_kept(all.take(i as int));
                    let kept_new = spec_kept(all.take(i as int + 1));
                    assert(all[i as int] == Some(s@));
                    assert(kept_new =~= kept_old + seq![s@]);
                    if kept_old.len() == 0 {
                        assert(kept_new =~= seq![s@]);
                        assert(spec_joined(kept_new) == kept_new[0]);
                    } else {
                        assert(kept_new.len() >= 2);
                        assert(kept_new.drop_last() =~= kept_old);
                        assert(kept_new.last() == s@);
                        assert(spec_joined(kept_new) == spec_joined(kept_old) + ";"@ + s@);
                    }
                }
            },
            None => {
                proof {
                    assert(spec_kept(all.take(i as int + 1)) =~= spec_kept(all.take(i as int)));
                }
            },
        }
        i = i + 1;
    }
    proof {
        assert(all.take(all.len() as int) =~= all);
    }
    out
}

impl JwtTokenMiddleware {
    /// Returns a new instance of `JwtTokenMiddleware`.
    pub fn new() -> JwtTokenMiddleware {
        JwtTokenMiddleware {  }
    }

    /// Takes the token out of the request envelope; a request without one
    /// is refused.
    pub fn extract_token(&self, message: &Envelope) -> (r: Result<String, PathfinderError>)
        ensures
            match message.token {
                Some(t) => r matches Ok(s) && s@ == t@,
                None => r matches Err(PathfinderError::AuthenticationError(m)) && m@
                    == "The `token` field must be specified."@,
            },
    {
        match &message.token {
            Some(token) => Ok(token.clone()),
            None => Err(
                PathfinderError::AuthenticationError(
                    "The `token` field must be specified.".to_owned(),
                ),
            ),
        }
    }

    /// Reads a token handed over as raw header bytes.
    pub fn extract_token_from_header(&self, raw_token: &Vec<u8>) -> (r: Result<
        String,
        PathfinderError,
    >)
        ensures
            match utf8_decode(raw_token@) {
                Some(t) => r matches Ok(s) && s@ == t,
                None => r matches Err(PathfinderError::AuthenticationError(m)) && m@
                    == "Token is invalid."@,
            },
    {
        match decode_utf8(raw_token) {
            Some(parsed) => Ok(parsed),
            None => Err(PathfinderError::AuthenticationError("Token is invalid.".to_owned())),
        }
    }

    /// Prepares the publish of the verify sub-request.
    pub fn build_verify_publish(&self, message: &Envelope, token: &str, queue_name: &str) -> (r:
        PublishRequest)
        ensures
            spec_publish_shape(
                r,
                TOKEN_VERIFY_EXCHANGE@,
                TOKEN_VERIFY_ROUTING_KEY@,
                spec_token_body(token@),
                queue_name@,
                spec_correlation_id(message.event_name),
            ),
            r.headers@.len() == 2,
            r.headers@[0].0@ == "routing_key"@ && r.headers@[0].1@ == "auth.token.verify"@,
            r.headers@[1].0@ == "request_url"@ && r.headers@[1].1@ == "/auth/api/token/verify"@,
    {
        let mut headers: Vec<(String, String)> = Vec::new();
        headers.push(("routing_key".to_owned(), "auth.token.verify".to_owned()));
        headers.push(("request_url".to_owned(), "/auth/api/token/verify".to_owned()));
        PublishRequest {
            exchange: TOKEN_VERIFY_EXCHANGE.to_owned(),
            routing_key: TOKEN_VERIFY_ROUTING_KEY.to_owned(),
            body: build_token_body(token),
            reply_to: queue_name.to_owned(),
            correlation_id: match &message.event_name {
                Some(s) => s.clone(),
                None => "null".to_owned(),
            },
            headers,
            content_type: "application/json".to_owned(),
            delivery_mode: 2,
            mandatory: true,
            immediate: false,
        }
    }

    /// Prepares the publish of the profile sub-request.
    pub fn build_profile_publish(&self, message: &Envelope, token: &str, queue_name: &str) -> (r:
        PublishRequest)
        ensures
            spec_publish_shape(
                r,
                TOKEN_USER_PROFILE_EXCHANGE@,
                TOKEN_USER_PROFILE_ROUTING_KEY@,
                spec_token_body(token@),
                queue_name@,
                spec_correlation_id(message.event_name),
            ),
            r.headers@.len() == 2,
            r.headers@[0].0@ == "microservice_name"@ && r.headers@[0].1@ == "microservice-auth"@,
            r.headers@[1].0@ == "request_url"@ && r.headers@[1].1@ == "/auth/api/users/profile"@,
    {
        let mut headers: Vec<(String, String)> = Vec::new();
        headers.push(("microservice_name".to_owned(), "microservice-auth".to_owned()));
        headers.push(("request_url".to_owned(), "/auth/api/users/profile".to_owned()));
        PublishRequest {
            exchange: TOKEN_USER_PROFILE_EXCHANGE.to_owned(),
            routing_key: TOKEN_USER_PROFILE_ROUTING_KEY.to_owned(),
            body: build_token_body(token),
            reply_to: queue_name.to_owned(),
            correlation_id: match &message.event_name {
                Some(s) => s.clone(),
                None => "null".to_owned(),
            },
            headers,
            content_type: "application/json".to_owned(),
            delivery_mode: 2,
            mandatory: true,
            immediate: false,
        }
    }

    /// Decides what the verify sub-request's reply means. The reply must
    /// be JSON with a null `error` member and `content.is_valid` true;
    /// a non-null `error` is the auth microservice's own error, carried
    /// verbatim, and an unreadable reply counts as a broker failure.
    pub fn interpret_verify(&self, body: &Vec<u8>) -> (r: Result<(), PathfinderError>)
        ensures
            match r {
                Ok(_) => spec_verify_accepts(body@),
                Err(e) => !spec_verify_accepts(body@) && spec_error_frame(&e)
                    == spec_verify_error_text(body@),
            },
    {
        let text = match decode_utf8(body) {
            Some(t) => t,
            None => {
                return Err(
                    PathfinderError::MessageBrokerError(MESSAGE_BROKER_ERROR_TEXT.to_owned()),
                );
            },
        };
        if let Err(_) = json_reserialize(text.as_str()) {
            return Err(PathfinderError::MessageBrokerError(MESSAGE_BROKER_ERROR_TEXT.to_owned()));
        }
        let error_dump = match json_member_dump(text.as_str(), "error") {
            Some(d) => d,
            None => unreached(),
        };
        if !(error_dump == "null".to_owned()) {
            return Err(PathfinderError::MicroserviceError(error_dump));
        }
        match json_bool_member2(text.as_str(), "content", "is_valid") {
            Some(true) => Ok(()),
            _ => Err(PathfinderError::AuthenticationError("Token is invalid.".to_owned())),
        }
    }

    /// Decides what the profile sub-request's reply means and reads the
    /// extra headers out of it: a null `content` supplies none, otherwise
    /// the string items of `content.permissions` are joined with
    /// semicolons into one `permissions` header.
    pub fn interpret_profile(&self, body: &Vec<u8>) -> (r: Result<
        CustomUserHeaders,
        PathfinderError,
    >)
        ensures
            match r {
                Ok(h) => spec_profile_accepts(body@) && spec_profile_extra(body@, h@),
                Err(e) => !spec_profile_accepts(body@) && spec_error_frame(&e)
                    == spec_profile_error_text(body@),
            },
    {
        let text = match decode_utf8(body) {
            Some(t) => t,
            None => {
                return Err(
                    PathfinderError::MessageBrokerError(MESSAGE_BROKER_ERROR_TEXT.to_owned()),
                );
            },
        };
        if let Err(_) = json_reserialize(text.as_str()) {
            return Err(PathfinderError::MessageBrokerError(MESSAGE_BROKER_ERROR_TEXT.to_owned()));
        }
        let error_dump = match json_member_dump(text.as_str(), "error") {
            Some(d) => d,
            None => unreached(),
        };
        if !(error_dump == "null".to_owned()) {
            return Err(PathfinderError::MicroserviceError(error_dump));
        }
        let content_dump = match json_member_dump(text.as_str(), "content") {
            Some(d) => d,
            None => unreached(),
        };
        if content_dump == "null".to_owned() {
            return Ok(Vec::new());
        }
        let items = match json_str_items2(text.as_str(), "content", "permissions") {
            Some(items) => items,
            None => unreached(),
        };
        let mut extra: Vec<(String, String)> = Vec::new();
        extra.push(("permissions".to_owned(), get_permissions(&items)));
        Ok(extra)
    }
}

} // verus!
