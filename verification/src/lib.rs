//! A verified core for a WebSocket-to-AMQP reverse proxy.
//!
//! Inbound WebSocket frames are decoded and validated, resolved to an
//! endpoint, optionally authenticated through sub-requests to an auth
//! microservice, and answered through a request/response round-trip over
//! an AMQP broker with a per-request reply queue.

mod cli;
mod endpoint;
mod engine;
mod error;
mod headers;
mod kvtable;
mod middleware;
mod options;
mod rawjson;
mod router;
mod rpc;
mod serializer;
mod token;
mod utils;

pub use cli::{get_uri, u16_decimal, CliOptions};
pub use endpoint::{extract_endpoints, get_value_as_bool, get_value_as_str,
    get_value_from_config_as_str, parse_bool, ConfigEntry, Endpoint, REQUEST_EXCHANGE,
    RESPONSE_EXCHANGE};
pub use engine::{law_no_auth_for_open_endpoints, law_one_outbound_frame,
    law_rejected_token_never_published, law_verify_rejection_finishes, Engine, ProcessStart,
    RequestTask, TaskPhase};
pub use error::{PathfinderError, MESSAGE_BROKER_ERROR_TEXT};
pub use headers::{generate_default_headers, merge_headers, CustomUserHeaders};
pub use kvtable::lookup_field;
pub use middleware::{build_token_body, get_permissions, EmptyMiddleware, JwtTokenMiddleware,
    TOKEN_USER_PROFILE_EXCHANGE, TOKEN_USER_PROFILE_ROUTING_KEY, TOKEN_VERIFY_EXCHANGE,
    TOKEN_VERIFY_ROUTING_KEY};
pub use options::RpcOptions;
pub use router::Router;
pub use rpc::{build_publish_request, law_reply_queue_reclaimed, PublishRequest, RpcAction,
    RpcEvent, RpcFlow, RpcState};
pub use serializer::{Envelope, Frame, Serializer};
pub use token::{Claims, DEFAULT_ISSUER};
pub use utils::{deserialize_message, error_frame, law_response_verbatim, prepare_response,
    serialize_message, wrap_an_error};
