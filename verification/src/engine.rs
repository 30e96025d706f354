//! The proxy engine: one inbound frame in, one outbound frame out.
//!
//! [`Engine::process_request`] deserializes an incoming frame, resolves its
//! endpoint and either refuses the request at once — the outbound error
//! frame is returned — or starts a [`RequestTask`]. The task is the
//! per-request pipeline: for an endpoint that requires a token, the verify
//! and profile sub-requests against the auth microservice run first, in
//! that order; then the primary round-trip publishes the request and the
//! microservice's reply is forwarded. A driver outside the library
//! performs each [`RpcAction`] and feeds the broker's answer back through
//! [`RequestTask::step`]; the task hands out at most one broker call at a
//! time and exactly one outbound frame over its whole life.

use vstd::prelude::*;
use vstd::pervasive::unreached;

use crate::endpoint::{Endpoint, RESPONSE_EXCHANGE};
use crate::error::{PathfinderError, MESSAGE_BROKER_ERROR_TEXT};
use crate::headers::{generate_default_headers, merge_headers, spec_default_headers};
use crate::middleware::{spec_profile_accepts, spec_profile_error_text, spec_profile_extra,
    spec_token_body, spec_verify_accepts, spec_verify_error_text, EmptyMiddleware,
    JwtTokenMiddleware, TOKEN_USER_PROFILE_EXCHANGE, TOKEN_USER_PROFILE_ROUTING_KEY,
    TOKEN_VERIFY_EXCHANGE, TOKEN_VERIFY_ROUTING_KEY};
use crate::rawjson::{has_member, normal_json, str_member};
use crate::router::Router;
use crate::rpc::{build_publish_request, spec_correlation_id, spec_publish_shape, spec_rpc_step,
    RpcAction, RpcEvent, RpcFlow, RpcState};
use crate::serializer::{envelope_of, frame_text, Envelope, Frame, Serializer};
use crate::utils::{error_frame, prepare_response, spec_error_envelope, spec_response_text};

verus! {

/// Relies on `uuid::Uuid::new_v4` and its hyphenated rendering: a reply
/// queue is named by a fresh random UUID, and nothing is assumed of the
/// name's value.
#[verifier::external_body]
fn fresh_queue_name() -> (r: String) {
    uuid::Uuid::new_v4().to_string()
}

/// Where a request stands.
#[derive(Debug, Clone, Copy, PartialEq, Eq)]
pub enum TaskPhase {
    /// The verify sub-request is in flight.
    AuthVerify,
    /// The profile sub-request is in flight.
    AuthProfile,
    /// The primary round-trip is in flight.
    Primary,
    /// The single outbound frame has been handed out.
    Finished,
}

/// The per-request pipeline, driven by broker events.
pub struct RequestTask {
    /// The endpoint the request resolved to.
    pub endpoint: Endpoint,
    /// The validated request envelope.
    pub message: Envelope,
    /// The client's token, held while auth sub-requests run.
    pub token: Option<String>,
    /// The default headers of the primary publish.
    pub default_headers: Vec<(String, String)>,
    /// Where the request stands.
    pub phase: TaskPhase,
    /// The round-trip in flight.
    pub flow: Option<RpcFlow>,
    /// How many outbound frames have been handed out.
    pub emitted: Ghost<nat>,
    /// How many auth sub-requests have been started.
    pub sub_rpcs: Ghost<nat>,
    /// Whether the primary round-trip has been started.
    pub primary_started: Ghost<bool>,
    /// Whether the verify sub-request refused the request.
    pub verify_rejected: Ghost<bool>,
}

impl RequestTask {
    /// What holds of a task in every reachable state.
    pub open spec fn wf(&self) -> bool {
        &&& (self.phase is Finished ==> self.emitted@ == 1 && self.flow is None)
        &&& (!(self.phase is Finished) ==> self.emitted@ == 0)
        &&& (!(self.phase is Finished) ==> (self.flow matches Some(f) && f.wf() && !(f.state
            is Done)))
        &&& ((self.phase is AuthVerify || self.phase is AuthProfile) ==> {
            &&& self.endpoint.spec_token_required()
            &&& !self.primary_started@
            &&& (self.token matches Some(t) && self.message.token matches Some(t0) && t@ == t0@)
        })
        &&& (!self.endpoint.spec_token_required() ==> self.sub_rpcs@ == 0)
        &&& (self.verify_rejected@ ==> self.phase is Finished && !self.primary_started@)
        &&& spec_default_headers(self.default_headers@, &self.message, &self.endpoint)
        &&& (self.phase is AuthVerify ==> (self.flow matches Some(f) && spec_publish_shape(
            f.publish,
            TOKEN_VERIFY_EXCHANGE@,
            TOKEN_VERIFY_ROUTING_KEY@,
            spec_token_body((self.token->Some_0)@),
            f.queue_name@,
            spec_correlation_id(self.message.event_name),
        ) && f.response_exchange@ == RESPONSE_EXCHANGE@))
        &&& (self.phase is AuthProfile ==> (self.flow matches Some(f) && spec_publish_shape(
            f.publish,
            TOKEN_USER_PROFILE_EXCHANGE@,
            TOKEN_USER_PROFILE_ROUTING_KEY@,
            spec_token_body((self.token->Some_0)@),
            f.queue_name@,
            spec_correlation_id(self.message.event_name),
        ) && f.response_exchange@ == RESPONSE_EXCHANGE@))
        &&& (self.phase is Primary ==> self.primary_started@ && (self.flow matches Some(f)
            && spec_publish_shape(
            f.publish,
            self.endpoint.spec_request_exchange(),
            self.endpoint.spec_routing_key(),
            self.message.content@,
            f.queue_name@,
            spec_correlation_id(self.message.event_name),
        ) && f.response_exchange@ == self.endpoint.spec_response_exchange()))
    }

    /// Feeds the broker's answer to the outstanding call into the task.
    /// Returns the next broker call to perform, and the outbound frame
    /// once the request is answered.
    pub fn step(&mut self, event: RpcEvent) -> (r: (Option<RpcAction>, Option<Frame>))
        requires
            old(self).wf(),
        ensures
            final(self).wf(),
            spec_task_step(*old(self), event, *final(self), r.0, r.1),
    {
        match self.phase {
            TaskPhase::Finished => (None, None),
            _ => {
                let inner_action = match &mut self.flow {
                    Some(flow) => flow.step(event),
                    None => unreached(),
                };
                match inner_action {
                    Some(a) => {
                        return (Some(a), None);
                    },
                    None => {},
                }
                // the round-trip has finished; take it apart
                let mut taken: Option<RpcFlow> = None;
                core::mem::swap(&mut taken, &mut self.flow);
                let flow = match taken {
                    Some(f) => f,
                    None => unreached(),
                };
                if flow.failed {
                    self.phase = TaskPhase::Finished;
                    self.emitted = Ghost(self.emitted@ + 1);
                    let frame = error_frame(
                        &PathfinderError::MessageBrokerError(MESSAGE_BROKER_ERROR_TEXT.to_owned()),
                    );
                    return (None, Some(frame));
                }
                let body = match flow.delivered {
                    Some(b) => b,
                    None => unreached(),
                };
                match self.phase {
                    TaskPhase::AuthVerify => {
                        let jwt = JwtTokenMiddleware::new();
                        match jwt.interpret_verify(&body) {
                            Ok(_) => {
                                let token = match &self.token {
                                    Some(t) => t.clone(),
                                    None => unreached(),
                                };
                                let queue_name = fresh_queue_name();
                                let publish = jwt.build_profile_publish(
                                    &self.message,
                                    token.as_str(),
                                    queue_name.as_str(),
                                );
                                let (flow2, action) = RpcFlow::start(
                                    publish,
                                    queue_name,
                                    RESPONSE_EXCHANGE.to_owned(),
                                );
                                self.flow = Some(flow2);
                                self.phase = TaskPhase::AuthProfile;
                                self.sub_rpcs = Ghost(self.sub_rpcs@ + 1);
                                (Some(action), None)
                            },
                            Err(e) => {
                                self.phase = TaskPhase::Finished;
                                self.verify_rejected = Ghost(true);
                                self.emitted = Ghost(self.emitted@ + 1);
                                (None, Some(error_frame(&e)))
                            },
                        }
                    },
                    TaskPhase::AuthProfile => {
                        let jwt = JwtTokenMiddleware::new();
                        match jwt.interpret_profile(&body) {
                            Ok(extra) => {
                                let headers = merge_headers(&self.default_headers, &extra);
                                let queue_name = fresh_queue_name();
                                let publish = build_publish_request(
                                    &self.endpoint,
                                    &self.message,
                                    queue_name.as_str(),
                                    headers,
                                );
                                let (flow2, action) = RpcFlow::start(
                                    publish,
                                    queue_name,
                                    self.endpoint.get_response_exchange(),
                                );
                                self.flow = Some(flow2);
                                self.phase = TaskPhase::Primary;
                                self.primary_started = Ghost(true);
                                (Some(action), None)
                            },
                            Err(e) => {
                                self.phase = TaskPhase::Finished;
                                self.emitted = Ghost(self.emitted@ + 1);
                                (None, Some(error_frame(&e)))
                            },
                        }
                    },
                    TaskPhase::Primary => {
                        self.phase = TaskPhase::Finished;
                        self.emitted = Ghost(self.emitted@ + 1);
                        (None, Some(prepare_response(&body)))
                    },
                    TaskPhase::Finished => unreached(),
                }
            },
        }
    }
}

/// Whether this event ends the round-trip: only a failing declare and the
/// answer to the delete do.
pub open spec fn spec_flow_finishes(f: RpcFlow, event: RpcEvent) -> bool {
    match f.state {
        RpcState::Declaring => !(event is Completed),
        RpcState::Deleting => true,
        _ => false,
    }
}

/// Whether the round-trip ends as a failure.
pub open spec fn spec_flow_fails(f: RpcFlow, event: RpcEvent) -> bool {
    (f.state is Declaring && !(event is Completed)) || (f.state is Deleting && f.failed)
}

/// The full transition relation of a task: how one broker event advances
/// the pipeline, which broker call comes next and which outbound frame is
/// handed out.
pub open spec fn spec_task_step(
    pre: RequestTask,
    event: RpcEvent,
    post: RequestTask,
    action: Option<RpcAction>,
    frame: Option<Frame>,
) -> bool {
    &&& post.endpoint == pre.endpoint
    &&& post.message == pre.message
    &&& post.token == pre.token
    &&& post.default_headers == pre.default_headers
    &&& post.emitted@ == pre.emitted@ + (if frame is Some {
        1nat
    } else {
        0nat
    })
    &&& (frame is Some <==> (post.phase is Finished && !(pre.phase is Finished)))
    &&& match pre.phase {
        TaskPhase::Finished => {
            &&& post.phase is Finished
            &&& action is None && frame is None
            &&& post.flow is None <==> pre.flow is None
            &&& post.sub_rpcs == pre.sub_rpcs && post.primary_started == pre.primary_started
            &&& post.verify_rejected == pre.verify_rejected
        },
        _ => {
            let f = pre.flow->Some_0;
            if !spec_flow_finishes(f, event) {
                &&& post.phase == pre.phase
                &&& (post.flow matches Some(f2) && spec_rpc_step(f, event, f2, action))
                &&& action is Some && frame is None
                &&& post.sub_rpcs == pre.sub_rpcs && post.primary_started == pre.primary_started
                &&& post.verify_rejected == pre.verify_rejected
            } else if spec_flow_fails(f, event) {
                &&& post.phase is Finished && post.flow is None && action is None
                &&& (frame matches Some(fr) && fr matches Frame::Text(t) && t@
                    == spec_error_envelope("MessageBrokerError"@, MESSAGE_BROKER_ERROR_TEXT@))
                &&& post.sub_rpcs == pre.sub_rpcs && post.primary_started == pre.primary_started
                &&& post.verify_rejected == pre.verify_rejected
            } else {
                let body = (f.delivered->Some_0)@;
                match pre.phase {
                    TaskPhase::AuthVerify => if spec_verify_accepts(body) {
                        &&& post.phase is AuthProfile
                        &&& post.sub_rpcs@ == pre.sub_rpcs@ + 1
                        &&& post.primary_started == pre.primary_started
                        &&& post.verify_rejected == pre.verify_rejected
                        &&& frame is None
                        &&& (post.flow matches Some(nf) && nf.wf() && nf.state is Declaring
                            && spec_publish_shape(
                            nf.publish,
                            TOKEN_USER_PROFILE_EXCHANGE@,
                            TOKEN_USER_PROFILE_ROUTING_KEY@,
                            spec_token_body((pre.token->Some_0)@),
                            nf.queue_name@,
                            spec_correlation_id(pre.message.event_name),
                        ) && nf.response_exchange@ == RESPONSE_EXCHANGE@)
                        &&& (action matches Some(RpcAction::DeclareQueue { queue }) && queue@ == (
                        post.flow->Some_0).queue_name@)
                    } else {
                        &&& post.phase is Finished && post.flow is None && action is None
                        &&& post.verify_rejected@
                        &&& post.sub_rpcs == pre.sub_rpcs
                        &&& post.primary_started == pre.primary_started
                        &&& (frame matches Some(fr) && fr matches Frame::Text(t) && t@
                            == spec_verify_error_text(body))
                    },
                    TaskPhase::AuthProfile => if spec_profile_accepts(body) {
                        &&& post.phase is Primary
                        &&& post.primary_started@
                        &&& post.sub_rpcs == pre.sub_rpcs
                        &&& post.verify_rejected == pre.verify_rejected
                        &&& frame is None
                        &&& (post.flow matches Some(nf) && nf.wf() && nf.state is Declaring
                            && spec_publish_shape(
                            nf.publish,
                            pre.endpoint.spec_request_exchange(),
                            pre.endpoint.spec_routing_key(),
                            pre.message.content@,
                            nf.queue_name@,
                            spec_correlation_id(pre.message.event_name),
                        ) && nf.response_exchange@ == pre.endpoint.spec_response_exchange() && (
                        exists|extra: Seq<(String, String)>|
                            #[trigger] spec_profile_extra(body, extra) && nf.publish.headers@
                                == extra + pre.default_headers@))
                        &&& (action matches Some(RpcAction::DeclareQueue { queue }) && queue@ == (
                        post.flow->Some_0).queue_name@)
                    } else {
                        &&& post.phase is Finished && post.flow is None && action is None
                        &&& post.sub_rpcs == pre.sub_rpcs
                        &&& post.primary_started == pre.primary_started
                        &&& post.verify_rejected == pre.verify_rejected
                        &&& (frame matches Some(fr) && fr matches Frame::Text(t) && t@
                            == spec_profile_error_text(body))
                    },
                    TaskPhase::Primary => {
                        &&& post.phase is Finished && post.flow is None && action is None
                        &&& post.sub_rpcs == pre.sub_rpcs
                        &&& post.primary_started == pre.primary_started
                        &&& post.verify_rejected == pre.verify_rejected
                        &&& (frame matches Some(fr) && fr matches Frame::Text(t) && t@
                            == spec_response_text(body))
                    },
                    TaskPhase::Finished => false,
                }
            }
        },
    }
}

/// What handling one inbound frame begins with: an immediate refusal, or a
/// started task together with its first broker call.
pub enum ProcessStart {
    /// The request was refused at once; the outbound error frame is the
    /// whole answer.
    Refused(Frame),
    /// The request entered its pipeline; the action declares the reply
    /// queue of the first round-trip.
    Started(RequestTask, RpcAction),
}

/// A refusal carrying exactly this error envelope.
pub open spec fn spec_refused(r: &ProcessStart, kind: Seq<char>, details: Seq<char>) -> bool {
    r matches ProcessStart::Refused(f) && (f matches Frame::Text(t) && t@ == spec_error_envelope(
        kind,
        details,
    ))
}

/// What `Engine::process_request` returns for a given frame: each way the
/// request can be refused at once comes with its exact error envelope, and
/// an accepted request starts a well-formed task for its endpoint.
pub open spec fn spec_process_request(router: &Router, message: &Frame, r: &ProcessStart) -> bool {
    match frame_text(message) {
        None => spec_refused(r, "DecodingError"@, "UTF-8 encoding error"@),
        Some(text) => match normal_json(text) {
            Err(e) => spec_refused(r, "DecodingError"@, e),
            Ok(_) => if str_member(text, "url"@) is None {
                spec_refused(r, "DecodingError"@, "The `url` field is missing or value is `null`"@)
            } else if has_member(text, "microservice"@) == Some(true) {
                spec_refused(
                    r,
                    "DecodingError"@,
                    "The `microservice` field must not be specified"@,
                )
            } else if !router.spec_has_url(str_member(text, "url"@)->Some_0) {
                spec_refused(
                    r,
                    "EndpointNotFound"@,
                    "Endpoint \""@ + str_member(text, "url"@)->Some_0 + "\" was not found"@,
                )
            } else {
                match r {
                    ProcessStart::Refused(f) => exists|i: int|
                        {
                            &&& 0 <= i < router.spec_endpoints().len()
                            &&& (#[trigger] router.spec_endpoints()[i]).spec_url() == str_member(
                                text,
                                "url"@,
                            )->Some_0
                            &&& router.spec_endpoints()[i].spec_token_required()
                            &&& str_member(text, "token"@) is None
                            &&& (f matches Frame::Text(t) && t@ == spec_error_envelope(
                                "AuthenticationError"@,
                                "The `token` field must be specified."@,
                            ))
                        },
                    ProcessStart::Started(task, action) => {
                        &&& task.wf()
                        &&& envelope_of(&task.message, text)
                        &&& (exists|i: int|
                            0 <= i < router.spec_endpoints().len() && (
                            #[trigger] router.spec_endpoints()[i]) == task.endpoint)
                        &&& task.endpoint.spec_url() == str_member(text, "url"@)->Some_0
                        &&& task.emitted@ == 0 && !task.verify_rejected@
                        &&& (task.flow matches Some(flow) && flow.state is Declaring
                            && !flow.created@ && (action matches RpcAction::DeclareQueue { queue }
                            && queue@ == flow.queue_name@))
                        &&& if task.endpoint.spec_token_required() {
                            &&& task.phase is AuthVerify
                            &&& task.sub_rpcs@ == 1
                            &&& !task.primary_started@
                        } else {
                            &&& task.phase is Primary
                            &&& task.sub_rpcs@ == 0
                            &&& task.primary_started@
                            &&& (task.flow matches Some(flow) && flow.publish.headers@
                                == task.default_headers@)
                        }
                    },
                }
            },
        },
    }
}

/// Proxy engine for processing messages, handling errors and preparing the
/// round-trips over the message broker.
pub struct Engine {
    router: Router,
}

impl Engine {
    /// Returns a new instance of `Engine` answering from the given router.
    pub fn new(router: Router) -> (r: Engine)
        ensures
            r.spec_router() == router,
    {
        Engine { router }
    }

    /// The router the engine answers from.
    pub closed spec fn spec_router(&self) -> Router {
        self.router
    }

    /// Handles one inbound frame: deserializes it, resolves the endpoint,
    /// applies the middleware the endpoint asks for and starts the
    /// request's pipeline — or refuses the request with the single
    /// outbound error frame.
    pub fn process_request(&self, message: &Frame) -> (r: ProcessStart)
        ensures
            spec_process_request(&self.spec_router(), message, &r),
    {
        let serializer = Serializer::new();
        let envelope = match serializer.deserialize(message) {
            Ok(env) => env,
            Err(e) => {
                return ProcessStart::Refused(error_frame(&e));
            },
        };
        let endpoint = match self.router.match_url(envelope.url.as_str()) {
            Ok(ep) => ep,
            Err(e) => {
                return ProcessStart::Refused(error_frame(&e));
            },
        };
        let default_headers = generate_default_headers(&envelope, &endpoint);
        if endpoint.is_token_required() {
            let jwt = JwtTokenMiddleware::new();
            let token = match jwt.extract_token(&envelope) {
                Ok(t) => t,
                Err(e) => {
                    return ProcessStart::Refused(error_frame(&e));
                },
            };
            let queue_name = fresh_queue_name();
            let publish = jwt.build_verify_publish(&envelope, token.as_str(), queue_name.as_str());
            let (flow, action) = RpcFlow::start(publish, queue_name, RESPONSE_EXCHANGE.to_owned());
            let task = RequestTask {
                endpoint,
                message: envelope,
                token: Some(token),
                default_headers,
                phase: TaskPhase::AuthVerify,
                flow: Some(flow),
                emitted: Ghost(0),
                sub_rpcs: Ghost(1),
                primary_started: Ghost(false),
                verify_rejected: Ghost(false),
            };
            ProcessStart::Started(task, action)
        } else {
            let empty = EmptyMiddleware::new();
            let extra = match empty.process_request(&envelope) {
                Ok(h) => h,
                Err(e) => {
                    return ProcessStart::Refused(error_frame(&e));
                },
            };
            let headers = merge_headers(&default_headers, &extra);
            proof {
                assert(headers@ =~= default_headers@);
            }
            let queue_name = fresh_queue_name();
            let publish = build_publish_request(
                &endpoint,
                &envelope,
                queue_name.as_str(),
                headers,
            );
            let (flow, action) = RpcFlow::start(
                publish,
                queue_name,
                endpoint.get_response_exchange(),
            );
            let task = RequestTask {
                endpoint,
                message: envelope,
                token: None,
                default_headers,
                phase: TaskPhase::Primary,
                flow: Some(flow),
                emitted: Ghost(0),
                sub_rpcs: Ghost(0),
                primary_started: Ghost(true),
                verify_rejected: Ghost(false),
            };
            ProcessStart::Started(task, action)
        }
    }
}

/// Every inbound frame that starts a task is answered by exactly one
/// outbound frame: none while the task runs, one exactly when it has
/// finished. A refused frame is answered by its single error frame at
/// once.
pub proof fn law_one_outbound_frame(t: &RequestTask)
    requires
        t.wf(),
    ensures
        t.emitted@ <= 1,
        t.phase is Finished <==> t.emitted@ == 1,
{
}

/// An endpoint that does not require a token never triggers auth
/// sub-requests.
pub proof fn law_no_auth_for_open_endpoints(t: &RequestTask)
    requires
        t.wf(),
        !t.endpoint.spec_token_required(),
    ensures
        t.sub_rpcs@ == 0,
{
}

/// Once the verify sub-request has refused a request, the request is
/// finished — answered by its single error frame — and its primary
/// round-trip, the publish to the target exchange included, was never
/// started.
pub proof fn law_rejected_token_never_published(t: &RequestTask)
    requires
        t.wf(),
        t.verify_rejected@,
    ensures
        t.phase is Finished,
        !t.primary_started@,
{
}

/// The step that consumes a verify reply that does not accept the token
/// finishes the request: the client gets the verify error as its single
/// frame, no further broker call is handed out, and the primary round-trip
/// has not been started.
pub proof fn law_verify_rejection_finishes(
    pre: RequestTask,
    event: RpcEvent,
    post: RequestTask,
    action: Option<RpcAction>,
    frame: Option<Frame>,
)
    requires
        pre.wf(),
        spec_task_step(pre, event, post, action, frame),
        pre.phase is AuthVerify,
        pre.flow matches Some(f) && f.state is Deleting && !f.failed && (f.delivered matches Some(b)
            && !spec_verify_accepts(b@)),
    ensures
        post.phase is Finished && post.verify_rejected@ && !post.primary_started@,
        action is None,
        frame matches Some(fr) && fr matches Frame::Text(t) && t@ == spec_verify_error_text(
            ((pre.flow->Some_0).delivered->Some_0)@,
        ),
{
}

} // verus!
