//! An endpoint descriptor: the immutable record that maps a client URL to
//! the AMQP coordinates of a microservice and an authentication policy.

use vstd::prelude::*;
use vstd::pervasive::VecAdditionalExecFns;

use crate::kvtable::{lookup_field, spec_lookup};

verus! {

/// Default AMQP exchange point for requests.
pub const REQUEST_EXCHANGE: &'static str = "open-matchmaking.direct";

/// Default AMQP exchange point for responses.
pub const RESPONSE_EXCHANGE: &'static str = "open-matchmaking.responses.direct";

/// A mapping from an original request URL onto the AMQP coordinates
/// (routing key and exchange pair) of the microservice that serves it.
#[derive(Debug)]
pub struct Endpoint {
    url: String,
    routing_key: String,
    request_exchange: String,
    response_exchange: String,
    is_token_required: bool,
}

impl Clone for Endpoint {
    fn clone(&self) -> (r: Endpoint)
        ensures
            r == *self,
    {
        Endpoint {
            url: self.url.clone(),
            routing_key: self.routing_key.clone(),
            request_exchange: self.request_exchange.clone(),
            response_exchange: self.response_exchange.clone(),
            is_token_required: self.is_token_required,
        }
    }
}

impl Endpoint {
    /// The request URL this endpoint answers for.
    pub closed spec fn spec_url(&self) -> Seq<char> {
        self.url@
    }

    /// The AMQP routing key used when publishing the upstream request.
    pub closed spec fn spec_routing_key(&self) -> Seq<char> {
        self.routing_key@
    }

    /// The exchange for outbound (to the microservice) messages.
    pub closed spec fn spec_request_exchange(&self) -> Seq<char> {
        self.request_exchange@
    }

    /// The exchange the per-request reply queue is bound to.
    pub closed spec fn spec_response_exchange(&self) -> Seq<char> {
        self.response_exchange@
    }

    /// Whether requests to this endpoint must carry a token.
    pub closed spec fn spec_token_required(&self) -> bool {
        self.is_token_required
    }

    /// Returns a new instance of `Endpoint`.
    pub fn new(
        url: &str,
        routing_key: &str,
        request_exchange: &str,
        response_exchange: &str,
        is_token_required: bool,
    ) -> (r: Endpoint)
        ensures
            r.spec_url() == url@,
            r.spec_routing_key() == routing_key@,
            r.spec_request_exchange() == request_exchange@,
            r.spec_response_exchange() == response_exchange@,
            r.spec_token_required() == is_token_required,
    {
        Endpoint {
            url: url.to_owned(),
            routing_key: routing_key.to_owned(),
            request_exchange: request_exchange.to_owned(),
            response_exchange: response_exchange.to_owned(),
            is_token_required,
        }
    }

    /// Returns the original URL for which the transformation is done.
    pub fn get_url(&self) -> (r: String)
        ensures
            r@ == self.spec_url(),
    {
        self.url.clone()
    }

    /// Returns the name of the microservice the endpoint routes to, which
    /// is its routing key.
    pub fn get_microservice(&self) -> (r: String)
        ensures
            r@ == self.spec_routing_key(),
    {
        self.routing_key.clone()
    }

    /// Returns the routing key (which can be considered as the microservice name).
    pub fn get_routing_key(&self) -> (r: String)
        ensures
            r@ == self.spec_routing_key(),
    {
        self.routing_key.clone()
    }

    /// Returns the request exchange point name.
    pub fn get_request_exchange(&self) -> (r: String)
        ensures
            r@ == self.spec_request_exchange(),
    {
        self.request_exchange.clone()
    }

    /// Returns the response exchange point name.
    pub fn get_response_exchange(&self) -> (r: String)
        ensures
            r@ == self.spec_response_exchange(),
    {
        self.response_exchange.clone()
    }

    /// Determines whether to check tokens or not.
    pub fn is_token_required(&self) -> (r: bool)
        ensures
            r == self.spec_token_required(),
    {
        self.is_token_required
    }
}

/// One element of the `endpoints` array of the configuration: the
/// key/value pairs found under the endpoint's name, each value carried as
/// raw text, or `Invalid` for an element of any other shape.
#[derive(Debug)]
pub enum ConfigEntry {
    Table(Vec<(String, String)>),
    Invalid,
}

/// What a raw configuration value means as a boolean: exactly `true` and
/// `false` parse, anything else does not.
pub open spec fn spec_parse_bool(s: Seq<char>) -> Option<bool> {
    if s == "true"@ {
        Some(true)
    } else if s == "false"@ {
        Some(false)
    } else {
        None
    }
}

/// Extracts a value from a configuration block as a string if it exists,
/// otherwise returns the given default.
pub fn get_value_as_str(conf: &Vec<(String, String)>, key: &str, default: &str) -> (r: String)
    ensures
        r@ == match spec_lookup(conf@, key@) {
            Some(v) => v,
            None => default@,
        },
{
    match lookup_field(conf, key) {
        Some(value) => value,
        None => default.to_owned(),
    }
}

/// Extracts a value from a configuration block as a string, with the empty
/// string standing in for a missing key.
pub fn get_value_from_config_as_str(conf: &Vec<(String, String)>, key: &str) -> (r: String)
    ensures
        r@ == match spec_lookup(conf@, key@) {
            Some(v) => v,
            None => ""@,
        },
{
    get_value_as_str(conf, key, "")
}

/// Parses a raw value as a boolean; `None` when it is neither `true` nor
/// `false`.
pub fn parse_bool(s: &str) -> (r: Option<bool>)
    ensures
        r == spec_parse_bool(s@),
{
    let v = s.to_owned();
    if v == "true".to_owned() {
        Some(true)
    } else if v == "false".to_owned() {
        Some(false)
    } else {
        None
    }
}

/// Extracts a value from a configuration block and tries to convert it to
/// the boolean type; in the case of parsing errors or a missing key the
/// default is returned.
pub fn get_value_as_bool(conf: &Vec<(String, String)>, key: &str, default: bool) -> (r: bool)
    ensures
        r == match spec_lookup(conf@, key@) {
            Some(v) => match spec_parse_bool(v) {
                Some(b) => b,
                None => default,
            },
            None => default,
        },
{
    match lookup_field(conf, key) {
        Some(value) => match parse_bool(value.as_str()) {
            Some(b) => b,
            None => default,
        },
        None => default,
    }
}

/// A configuration entry that carries both required fields, `url` and
/// `routing_key`.
pub open spec fn spec_valid_entry(entry: &ConfigEntry) -> bool {
    match entry {
        ConfigEntry::Table(f) => spec_lookup(f@, "url"@) is Some && spec_lookup(
            f@,
            "routing_key"@,
        ) is Some,
        ConfigEntry::Invalid => false,
    }
}

/// The URL a valid entry declares.
pub open spec fn spec_entry_url(entry: &ConfigEntry) -> Seq<char>
    recommends
        spec_valid_entry(entry),
{
    spec_lookup(entry->Table_0@, "url"@)->Some_0
}

/// How an endpoint mirrors a valid entry: the required fields taken as
/// they stand, the exchanges defaulted to the well-known ones, the token
/// requirement defaulted to true.
pub open spec fn spec_entry_endpoint(entry: &ConfigEntry, e: &Endpoint) -> bool {
    match entry {
        ConfigEntry::Table(f) => {
            &&& Some(e.spec_url()) == spec_lookup(f@, "url"@)
            &&& Some(e.spec_routing_key()) == spec_lookup(f@, "routing_key"@)
            &&& e.spec_request_exchange() == match spec_lookup(f@, "request_exchange"@) {
                Some(v) => v,
                None => REQUEST_EXCHANGE@,
            }
            &&& e.spec_response_exchange() == match spec_lookup(f@, "response_exchange"@) {
                Some(v) => v,
                None => RESPONSE_EXCHANGE@,
            }
            &&& e.spec_token_required() == match spec_lookup(f@, "token_required"@) {
                Some(v) => match spec_parse_bool(v) {
                    Some(b) => b,
                    None => true,
                },
                None => true,
            }
        },
        ConfigEntry::Invalid => false,
    }
}

/// Whether `e` mirrors the last valid entry, among the first `upto`
/// entries of the configuration, that declares its URL.
pub open spec fn spec_from_last_entry(conf: Seq<ConfigEntry>, upto: int, e: &Endpoint) -> bool {
    exists|j: int|
        {
            &&& 0 <= j < upto
            &&& spec_valid_entry(&conf[j])
            &&& #[trigger] spec_entry_endpoint(&conf[j], e)
            &&& forall|j2: int|
                j < j2 < upto && spec_valid_entry(&conf[j2]) ==> spec_entry_url(&conf[j2])
                    != e.spec_url()
        }
}

/// How an upsert relates the registry before and after: an endpoint
/// already registered under the URL of `e` is overwritten in place,
/// otherwise `e` is appended.
pub open spec fn spec_upserted(pre: Seq<Endpoint>, e: Endpoint, post: Seq<Endpoint>) -> bool {
    if exists|i: int| 0 <= i < pre.len() && (#[trigger] pre[i]).spec_url() == e.spec_url() {
        exists|i: int|
            {
                &&& 0 <= i < pre.len()
                &&& (#[trigger] pre[i]).spec_url() == e.spec_url()
                &&& post =~= pre.update(i, e)
            }
    } else {
        post =~= pre.push(e)
    }
}

/// An endpoint that mirrors the last valid entry among the first `upto`
/// still does so when the next entry is invalid or declares another URL.
proof fn lemma_from_last_entry_extend(conf: Seq<ConfigEntry>, upto: int, e: &Endpoint)
    requires
        spec_from_last_entry(conf, upto, e),
        0 <= upto < conf.len(),
        !spec_valid_entry(&conf[upto]) || spec_entry_url(&conf[upto]) != e.spec_url(),
    ensures
        spec_from_last_entry(conf, upto + 1, e),
{
    let j = choose|j: int|
        {
            &&& 0 <= j < upto
            &&& spec_valid_entry(&conf[j])
            &&& #[trigger] spec_entry_endpoint(&conf[j], e)
            &&& forall|j2: int|
                j < j2 < upto && spec_valid_entry(&conf[j2]) ==> spec_entry_url(&conf[j2])
                    != e.spec_url()
        };
    assert(0 <= j < upto + 1);
    assert(spec_entry_endpoint(&conf[j], e));
    assert(forall|j2: int|
        j < j2 < upto + 1 && spec_valid_entry(&conf[j2]) ==> spec_entry_url(&conf[j2])
            != e.spec_url());
}

/// Inserts an endpoint into the registry; an endpoint already registered
/// under the same URL is overwritten.
fn upsert(endpoints: &mut Vec<Endpoint>, e: Endpoint)
    ensures
        spec_upserted(old(endpoints)@, e, final(endpoints)@),
{
    let mut i: usize = 0;
    while i < endpoints.len()
        invariant
            i <= endpoints.len(),
            endpoints@ == old(endpoints)@,
            forall|j: int|
                0 <= j < i ==> (#[trigger] endpoints@[j]).spec_url() != e.spec_url(),
        decreases endpoints.len() - i,
    {
        if endpoints[i].get_url() == e.get_url() {
            endpoints.set(i, e);
            return ;
        }
        i = i + 1;
    }
    endpoints.push(e);
}

/// Builds the endpoint registry out of the `endpoints` array of the
/// configuration. A malformed entry is skipped; a later entry overwrites
/// an earlier one that declares the same URL.
pub fn extract_endpoints(conf: &Vec<ConfigEntry>) -> (r: Vec<Endpoint>)
    ensures
        forall|i: int, k: int|
            0 <= i < k < r@.len() ==> (#[trigger] r@[i]).spec_url() != (#[trigger] r@[k]).spec_url(),
        forall|i: int|
            0 <= i < r@.len() ==> #[trigger] spec_from_last_entry(conf@, conf@.len() as int, &r@[i]),
        forall|j: int|
            0 <= j < conf@.len() && spec_valid_entry(&conf@[j]) ==> exists|i: int|
                0 <= i < r@.len() && (#[trigger] r@[i]).spec_url() == spec_entry_url(&conf@[j]),
{
    let mut endpoints: Vec<Endpoint> = Vec::new();
    let mut k: usize = 0;
    while k < conf.len()
        invariant
            k <= conf.len(),
            forall|i: int, k2: int|
                0 <= i < k2 < endpoints@.len() ==> (#[trigger] endpoints@[i]).spec_url() != (
                #[trigger] endpoints@[k2]).spec_url(),
            forall|i: int|
                0 <= i < endpoints@.len() ==> #[trigger] spec_from_last_entry(
                    conf@,
                    k as int,
                    &endpoints@[i],
                ),
            forall|j: int|
                0 <= j < k && spec_valid_entry(&conf@[j]) ==> exists|i: int|
                    0 <= i < endpoints@.len() && (#[trigger] endpoints@[i]).spec_url()
                        == spec_entry_url(&conf@[j]),
        decreases conf.len() - k,
    {
        match &conf[k] {
            ConfigEntry::Invalid => {
                proof {
                    assert(!spec_valid_entry(&conf@[k as int]));
                    assert forall|i: int| 0 <= i < endpoints@.len() implies spec_from_last_entry(
                        conf@,
                        k as int + 1,
                        &endpoints@[i],
                    ) by {
                        lemma_from_last_entry_extend(conf@, k as int, &endpoints@[i]);
                    }
                }
            },
            ConfigEntry::Table(fields) => {
                let url = lookup_field(fields, "url");
                let routing_key = lookup_field(fields, "routing_key");
                match (url, routing_key) {
                    (Some(url), Some(routing_key)) => {
                        let request_exchange = get_value_as_str(
                            fields,
                            "request_exchange",
                            REQUEST_EXCHANGE,
                        );
                        let response_exchange = get_value_as_str(
                            fields,
                            "response_exchange",
                            RESPONSE_EXCHANGE,
                        );
                        let is_token_required = get_value_as_bool(fields, "token_required", true);
                        let endpoint = Endpoint::new(
                            url.as_str(),
                            routing_key.as_str(),
                            request_exchange.as_str(),
                            response_exchange.as_str(),
                            is_token_required,
                        );
                        proof {
                            assert(spec_valid_entry(&conf@[k as int]));
                            assert(spec_entry_endpoint(&conf@[k as int], &endpoint));
                            assert(spec_entry_url(&conf@[k as int]) == endpoint.spec_url());
                        }
                        let ghost pre = endpoints@;
                        let ghost newcomer = endpoint;
                        upsert(&mut endpoints, endpoint);
                        proof {
                            let cn = conf@;
                            let ki = k as int;
                            if exists|i: int|
                                0 <= i < pre.len() && (#[trigger] pre[i]).spec_url()
                                    == newcomer.spec_url() {
                                let ri = choose|i: int|
                                    {
                                        &&& 0 <= i < pre.len()
                                        &&& (#[trigger] pre[i]).spec_url() == newcomer.spec_url()
                                        &&& endpoints@ =~= pre.update(i, newcomer)
                                    };
                                // every slot keeps its URL: the replaced one
                                // had the newcomer's URL already
                                assert(forall|i: int|
                                    0 <= i < endpoints@.len() ==> (#[trigger] endpoints@[i]).spec_url()
                                        == pre[i].spec_url());
                                assert forall|i: int|
                                    0 <= i < endpoints@.len() implies spec_from_last_entry(
                                    cn,
                                    ki + 1,
                                    &endpoints@[i],
                                ) by {
                                    if i == ri {
                                        assert(spec_entry_endpoint(&cn[ki], &endpoints@[i]));
                                    } else {
                                        assert(endpoints@[i] == pre[i]);
                                        assert(pre[i].spec_url() != newcomer.spec_url());
                                        lemma_from_last_entry_extend(cn, ki, &endpoints@[i]);
                                    }
                                }
                                assert forall|j: int|
                                    0 <= j < ki + 1 && spec_valid_entry(&cn[j]) implies exists|i: int|
                                    0 <= i < endpoints@.len() && (#[trigger] endpoints@[i]).spec_url()
                                        == spec_entry_url(&cn[j]) by {
                                    if j == ki {
                                        assert(endpoints@[ri].spec_url() == spec_entry_url(&cn[j]));
                                    } else {
                                        let i0 = choose|i: int|
                                            0 <= i < pre.len() && (#[trigger] pre[i]).spec_url()
                                                == spec_entry_url(&cn[j]);
                                        assert(endpoints@[i0].spec_url() == spec_entry_url(&cn[j]));
                                    }
                                }
                            } else {
                                assert(endpoints@ =~= pre.push(newcomer));
                                assert forall|i: int|
                                    0 <= i < endpoints@.len() implies spec_from_last_entry(
                                    cn,
                                    ki + 1,
                                    &endpoints@[i],
                                ) by {
                                    if i < pre.len() {
                                        assert(endpoints@[i] == pre[i]);
                                        assert(pre[i].spec_url() != newcomer.spec_url());
                                        lemma_from_last_entry_extend(cn, ki, &endpoints@[i]);
                                    } else {
                                        assert(endpoints@[i] == newcomer);
                                        assert(spec_entry_endpoint(&cn[ki], &endpoints@[i]));
                                    }
                                }
                                assert forall|j: int|
                                    0 <= j < ki + 1 && spec_valid_entry(&cn[j]) implies exists|i: int|
                                    0 <= i < endpoints@.len() && (#[trigger] endpoints@[i]).spec_url()
                                        == spec_entry_url(&cn[j]) by {
                                    if j == ki {
                                        assert(endpoints@[pre.len() as int].spec_url()
                                            == spec_entry_url(&cn[j]));
                                    } else {
                                        let i0 = choose|i: int|
                                            0 <= i < pre.len() && (#[trigger] pre[i]).spec_url()
                                                == spec_entry_url(&cn[j]);
                                        assert(endpoints@[i0].spec_url() == spec_entry_url(&cn[j]));
                                    }
                                }
                            }
                        }
                    },
                    _ => {
                        proof {
                            assert(!spec_valid_entry(&conf@[k as int]));
                            assert forall|i: int|
                                0 <= i < endpoints@.len() implies spec_from_last_entry(
                                conf@,
                                k as int + 1,
                                &endpoints@[i],
                            ) by {
                                lemma_from_last_entry_extend(conf@, k as int, &endpoints@[i]);
                            }
                        }
                    },
                }
            },
        }
        k = k + 1;
    }
    endpoints
}

} // verus!
