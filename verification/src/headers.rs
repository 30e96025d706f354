//! Default and auth-supplied AMQP headers of an upstream publish.

use vstd::prelude::*;

use crate::endpoint::Endpoint;
use crate::kvtable::{clone_pairs, extend_pairs, lemma_lookup_concat, spec_lookup};
use crate::serializer::Envelope;

verus! {

/// Extra headers handed back by an auth middleware, to be merged into the
/// default headers of the upstream publish.
pub type CustomUserHeaders = Vec<(String, String)>;

/// The text carried by an optional member, with the empty text standing in
/// for an absent one.
pub open spec fn spec_or_empty(v: Option<String>) -> Seq<char> {
    match v {
        Some(s) => s@,
        None => ""@,
    }
}

/// The default headers of one upstream publish: the endpoint's routing key
/// and URL, and the permissions and user id the client sent.
pub open spec fn spec_default_headers(h: Seq<(String, String)>, json: &Envelope, endpoint: &Endpoint) -> bool {
    &&& h.len() == 4
    &&& h[0].0@ == "routing_key"@ && h[0].1@ == endpoint.spec_routing_key()
    &&& h[1].0@ == "request_url"@ && h[1].1@ == endpoint.spec_url()
    &&& h[2].0@ == "permissions"@ && h[2].1@ == spec_or_empty(json.permissions)
    &&& h[3].0@ == "user_id"@ && h[3].1@ == spec_or_empty(json.user_id)
}

/// Generates the default headers for a message.
pub fn generate_default_headers(json: &Envelope, endpoint: &Endpoint) -> (r: Vec<(String, String)>)
    ensures
        spec_default_headers(r@, json, endpoint),
{
    let mut r: Vec<(String, String)> = Vec::new();
    r.push(("routing_key".to_owned(), endpoint.get_routing_key()));
    r.push(("request_url".to_owned(), endpoint.get_url()));
    r.push(
        (
            "permissions".to_owned(),
            match &json.permissions {
                Some(s) => s.clone(),
                None => "".to_owned(),
            },
        ),
    );
    r.push(
        (
            "user_id".to_owned(),
            match &json.user_id {
                Some(s) => s.clone(),
                None => "".to_owned(),
            },
        ),
    );
    r
}

/// Merges auth-supplied headers into the default ones; on a key collision
/// the auth-supplied value wins.
pub fn merge_headers(defaults: &Vec<(String, String)>, extra: &Vec<(String, String)>) -> (r: Vec<
    (String, String),
>)
    ensures
        r@ == extra@ + defaults@,
        forall|key: Seq<char>|
            #[trigger] spec_lookup(r@, key) == match spec_lookup(extra@, key) {
                Some(v) => Some(v),
                None => spec_lookup(defaults@, key),
            },
{
    let mut r = clone_pairs(extra);
    extend_pairs(&mut r, defaults);
    proof {
        assert forall|key: Seq<char>|
            #[trigger] spec_lookup(r@, key) == match spec_lookup(extra@, key) {
                Some(v) => Some(v),
                None => spec_lookup(defaults@, key),
            } by {
            lemma_lookup_concat(extra@, defaults@, key);
        }
    }
    r
}

} // verus!
