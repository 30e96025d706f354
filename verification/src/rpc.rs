//! The per-request round-trip over the message broker.
//!
//! One round-trip serves one published request: declare a reply queue named
//! by the request's fresh queue name, bind it to the response exchange
//! under that same name, publish the request, take exactly one delivery
//! from the reply queue, acknowledge it, then unbind and delete the queue.
//! A failure before the acknowledgement makes the round-trip fail, but the
//! reply queue is still reclaimed: whatever of {unbind, delete} is still
//! meaningful is requested, and errors during that cleanup (as well as
//! during unbind and delete after a delivered response) are swallowed.
//!
//! The round-trip is a state machine: every broker call is handed out as an
//! [`RpcAction`] and its result comes back as an [`RpcEvent`]. The driver
//! that performs the actions lives outside the library; everything the
//! machine decides is verified here.

use vstd::prelude::*;

use crate::endpoint::Endpoint;
use crate::kvtable::clone_pairs;
use crate::serializer::Envelope;

verus! {

/// Everything one AMQP publish carries.
#[derive(Debug, PartialEq, Eq)]
pub struct PublishRequest {
    /// The exchange published to.
    pub exchange: String,
    /// The routing key published under.
    pub routing_key: String,
    /// The JSON text of the message body.
    pub body: String,
    /// The reply queue's name, carried as the `reply_to` property.
    pub reply_to: String,
    /// The envelope's `event-name`, or the text `null` when it carries none.
    pub correlation_id: String,
    /// The message headers.
    pub headers: Vec<(String, String)>,
    /// Always `application/json`.
    pub content_type: String,
    /// Always two: the message must be persistent.
    pub delivery_mode: u8,
    /// The publish is mandatory: an unroutable request surfaces as an error.
    pub mandatory: bool,
    /// The publish is never immediate.
    pub immediate: bool,
}

/// Two publishes that carry the same request: every field equal, the
/// headers pair for pair.
pub open spec fn same_publish(a: PublishRequest, b: PublishRequest) -> bool {
    &&& a.exchange == b.exchange
    &&& a.routing_key == b.routing_key
    &&& a.body == b.body
    &&& a.reply_to == b.reply_to
    &&& a.correlation_id == b.correlation_id
    &&& a.headers@ == b.headers@
    &&& a.content_type == b.content_type
    &&& a.delivery_mode == b.delivery_mode
    &&& a.mandatory == b.mandatory
    &&& a.immediate == b.immediate
}

impl Clone for PublishRequest {
    fn clone(&self) -> (r: PublishRequest)
        ensures
            same_publish(r, *self),
    {
        PublishRequest {
            exchange: self.exchange.clone(),
            routing_key: self.routing_key.clone(),
            body: self.body.clone(),
            reply_to: self.reply_to.clone(),
            correlation_id: self.correlation_id.clone(),
            headers: clone_pairs(&self.headers),
            content_type: self.content_type.clone(),
            delivery_mode: self.delivery_mode,
            mandatory: self.mandatory,
            immediate: self.immediate,
        }
    }
}

/// The fixed frame of one publish: its coordinates, body, reply queue and
/// correlation id, along with the properties every publish of the proxy
/// carries.
pub open spec fn spec_publish_shape(
    p: PublishRequest,
    exchange: Seq<char>,
    routing_key: Seq<char>,
    body: Seq<char>,
    reply_to: Seq<char>,
    correlation_id: Seq<char>,
) -> bool {
    &&& p.exchange@ == exchange
    &&& p.routing_key@ == routing_key
    &&& p.body@ == body
    &&& p.reply_to@ == reply_to
    &&& p.correlation_id@ == correlation_id
    &&& p.content_type@ == "application/json"@
    &&& p.delivery_mode == 2
    &&& p.mandatory
    &&& !p.immediate
}

/// The AMQP correlation id of a request: its `event-name`, or the text
/// `null` when the envelope carries none.
pub open spec fn spec_correlation_id(event_name: Option<String>) -> Seq<char> {
    match event_name {
        Some(s) => s@,
        None => "null"@,
    }
}

/// Prepares the publish of one client request to its microservice: the
/// envelope's content as the body, the coordinates from the endpoint, the
/// reply queue as `reply_to`, and the correlation id from `event-name`.
pub fn build_publish_request(
    endpoint: &Endpoint,
    message: &Envelope,
    queue_name: &str,
    headers: Vec<(String, String)>,
) -> (r: PublishRequest)
    ensures
        r.exchange@ == endpoint.spec_request_exchange(),
        r.routing_key@ == endpoint.spec_routing_key(),
        r.body@ == message.content@,
        r.reply_to@ == queue_name@,
        r.correlation_id@ == spec_correlation_id(message.event_name),
        r.headers == headers,
        r.content_type@ == "application/json"@,
        r.delivery_mode == 2,
        r.mandatory == true,
        r.immediate == false,
{
    PublishRequest {
        exchange: endpoint.get_request_exchange(),
        routing_key: endpoint.get_routing_key(),
        body: message.content.clone(),
        reply_to: queue_name.to_owned(),
        correlation_id: match &message.event_name {
            Some(s) => s.clone(),
            None => "null".to_owned(),
        },
        headers,
        content_type: "application/json".to_owned(),
        delivery_mode: 2,
        mandatory: true,
        immediate: false,
    }
}

/// Where a round-trip stands: each non-terminal state has one broker call
/// outstanding.
#[derive(Debug, Clone, Copy, PartialEq, Eq)]
pub enum RpcState {
    /// Declaring the reply queue.
    Declaring,
    /// Binding the reply queue to the response exchange.
    Binding,
    /// Publishing the request.
    Publishing,
    /// Waiting for the first delivery on the reply queue.
    Consuming,
    /// Acknowledging the delivery.
    Acking,
    /// Unbinding the reply queue.
    Unbinding,
    /// Deleting the reply queue.
    Deleting,
    /// Finished.
    Done,
}

/// What the broker answered to the outstanding call.
#[derive(Debug)]
pub enum RpcEvent {
    /// The call completed.
    Completed,
    /// A message was delivered from the reply queue.
    Delivered(Vec<u8>),
    /// The call failed.
    Failed,
}

/// One broker call for the driver to perform. Queue operations belong on
/// the consume channel, the publish on the publish channel.
#[derive(Debug, PartialEq, Eq)]
pub enum RpcAction {
    /// Declare the reply queue: not passive, durable, exclusive, not
    /// auto-deleted.
    DeclareQueue { queue: String },
    /// Bind the reply queue to the response exchange, with the queue's own
    /// name as the routing key.
    BindQueue { queue: String, exchange: String, routing_key: String },
    /// Publish the request.
    Publish(PublishRequest),
    /// Start consuming and take exactly the first delivery.
    ConsumeOne { queue: String },
    /// Acknowledge the delivery just taken.
    Ack,
    /// Unbind the reply queue from the response exchange.
    UnbindQueue { queue: String, exchange: String, routing_key: String },
    /// Delete the reply queue, neither `if_unused` nor `if_empty`.
    DeleteQueue { queue: String },
}

/// One request/response round-trip over the broker.
pub struct RpcFlow {
    /// The publish this round-trip performs.
    pub publish: PublishRequest,
    /// The reply queue's name, also its routing key on the response
    /// exchange.
    pub queue_name: String,
    /// The exchange the reply queue is bound to.
    pub response_exchange: String,
    /// Where the round-trip stands.
    pub state: RpcState,
    /// Whether a step up to and including the acknowledgement failed.
    pub failed: bool,
    /// The delivery taken from the reply queue.
    pub delivered: Option<Vec<u8>>,
    /// Whether the reply queue was created on the broker.
    pub created: Ghost<bool>,
    /// Whether deleting the reply queue has been requested.
    pub delete_attempted: Ghost<bool>,
}

impl RpcFlow {
    /// What holds of a round-trip in every reachable state; in particular,
    /// a finished round-trip whose reply queue was created has requested
    /// the queue's deletion.
    pub open spec fn wf(&self) -> bool {
        &&& (match self.state {
            RpcState::Declaring => !self.failed && self.delivered is None && !self.created@,
            RpcState::Binding | RpcState::Publishing | RpcState::Consuming => !self.failed
                && self.delivered is None && self.created@,
            RpcState::Acking => self.created@ && !self.failed && self.delivered is Some,
            RpcState::Unbinding | RpcState::Deleting => self.created@ && (!self.failed
                ==> self.delivered is Some),
            RpcState::Done => self.created@ ==> self.delete_attempted@,
        })
        &&& (self.state is Deleting ==> self.delete_attempted@)
        &&& (self.state is Done && !self.failed ==> self.delivered is Some)
    }

    /// Starts a round-trip; the first action declares the reply queue.
    pub fn start(publish: PublishRequest, queue_name: String, response_exchange: String) -> (r: (
        RpcFlow,
        RpcAction,
    ))
        ensures
            r.0.wf(),
            r.0.state is Declaring,
            !r.0.failed && r.0.delivered is None,
            !r.0.created@ && !r.0.delete_attempted@,
            r.0.publish == publish,
            r.0.queue_name == queue_name,
            r.0.response_exchange == response_exchange,
            r.1 matches RpcAction::DeclareQueue { queue } && queue@ == queue_name@,
    {
        let action = RpcAction::DeclareQueue { queue: queue_name.clone() };
        let flow = RpcFlow {
            publish,
            queue_name,
            response_exchange,
            state: RpcState::Declaring,
            failed: false,
            delivered: None,
            created: Ghost(false),
            delete_attempted: Ghost(false),
        };
        (flow, action)
    }

    /// Feeds the broker's answer to the outstanding call into the machine
    /// and returns the next call to perform, if any.
    pub fn step(&mut self, event: RpcEvent) -> (action: Option<RpcAction>)
        requires
            old(self).wf(),
        ensures
            final(self).wf(),
            spec_rpc_step(*old(self), event, *final(self), action),
    {
        match self.state {
            RpcState::Declaring => match event {
                RpcEvent::Completed => {
                    self.state = RpcState::Binding;
                    self.created = Ghost(true);
                    Some(
                        RpcAction::BindQueue {
                            queue: self.queue_name.clone(),
                            exchange: self.response_exchange.clone(),
                            routing_key: self.queue_name.clone(),
                        },
                    )
                },
                _ => {
                    self.state = RpcState::Done;
                    self.failed = true;
                    None
                },
            },
            RpcState::Binding => match event {
                RpcEvent::Completed => {
                    self.state = RpcState::Publishing;
                    Some(RpcAction::Publish(self.publish.clone()))
                },
                _ => {
                    self.state = RpcState::Deleting;
                    self.failed = true;
                    self.delete_attempted = Ghost(true);
                    Some(RpcAction::DeleteQueue { queue: self.queue_name.clone() })
                },
            },
            RpcState::Publishing => match event {
                RpcEvent::Completed => {
                    self.state = RpcState::Consuming;
                    Some(RpcAction::ConsumeOne { queue: self.queue_name.clone() })
                },
                _ => {
                    self.state = RpcState::Unbinding;
                    self.failed = true;
                    Some(
                        RpcAction::UnbindQueue {
                            queue: self.queue_name.clone(),
                            exchange: self.response_exchange.clone(),
                            routing_key: self.queue_name.clone(),
                        },
                    )
                },
            },
            RpcState::Consuming => match event {
                RpcEvent::Delivered(body) => {
                    self.state = RpcState::Acking;
                    self.delivered = Some(body);
                    Some(RpcAction::Ack)
                },
                _ => {
                    self.state = RpcState::Unbinding;
                    self.failed = true;
                    Some(
                        RpcAction::UnbindQueue {
                            queue: self.queue_name.clone(),
                            exchange: self.response_exchange.clone(),
                            routing_key: self.queue_name.clone(),
                        },
                    )
                },
            },
            RpcState::Acking => {
                // A failed acknowledgement fails the round-trip, but unbind
                // and delete are still requested.
                let ok = match event {
                    RpcEvent::Completed => true,
                    _ => false,
                };
                self.state = RpcState::Unbinding;
                self.failed = self.failed || !ok;
                Some(
                    RpcAction::UnbindQueue {
                        queue: self.queue_name.clone(),
                        exchange: self.response_exchange.clone(),
                        routing_key: self.queue_name.clone(),
                    },
                )
            },
            RpcState::Unbinding => {
                // Errors of the unbind are swallowed; the delete is
                // requested either way.
                self.state = RpcState::Deleting;
                self.delete_attempted = Ghost(true);
                Some(RpcAction::DeleteQueue { queue: self.queue_name.clone() })
            },
            RpcState::Deleting => {
                // Errors of the delete are swallowed.
                self.state = RpcState::Done;
                None
            },
            RpcState::Done => None,
        }
    }
}

/// The full transition relation of the round-trip: what the next state and
/// the returned action are for every state and event.
pub open spec fn spec_rpc_step(
    pre: RpcFlow,
    event: RpcEvent,
    post: RpcFlow,
    action: Option<RpcAction>,
) -> bool {
    &&& post.publish == pre.publish
    &&& post.queue_name == pre.queue_name
    &&& post.response_exchange == pre.response_exchange
    &&& match pre.state {
        RpcState::Declaring => if event is Completed {
            &&& post.state is Binding
            &&& post.created@
            &&& post.failed == pre.failed && post.delivered == pre.delivered
            &&& post.delete_attempted == pre.delete_attempted
            &&& (action matches Some(RpcAction::BindQueue { queue, exchange, routing_key })
                && queue@ == pre.queue_name@ && exchange@ == pre.response_exchange@
                && routing_key@ == pre.queue_name@)
        } else {
            &&& post.state is Done
            &&& post.failed
            &&& post.created == pre.created && post.delete_attempted == pre.delete_attempted
            &&& post.delivered == pre.delivered
            &&& action is None
        },
        RpcState::Binding => if event is Completed {
            &&& post.state is Publishing
            &&& post.failed == pre.failed && post.delivered == pre.delivered
            &&& post.created == pre.created && post.delete_attempted == pre.delete_attempted
            &&& (action matches Some(RpcAction::Publish(p)) && same_publish(p, pre.publish))
        } else {
            &&& post.state is Deleting
            &&& post.failed
            &&& post.created == pre.created && post.delete_attempted@
            &&& post.delivered == pre.delivered
            &&& (action matches Some(RpcAction::DeleteQueue { queue }) && queue@
                == pre.queue_name@)
        },
        RpcState::Publishing => if event is Completed {
            &&& post.state is Consuming
            &&& post.failed == pre.failed && post.delivered == pre.delivered
            &&& post.created == pre.created && post.delete_attempted == pre.delete_attempted
            &&& (action matches Some(RpcAction::ConsumeOne { queue }) && queue@
                == pre.queue_name@)
        } else {
            &&& post.state is Unbinding
            &&& post.failed
            &&& post.created == pre.created && post.delete_attempted == pre.delete_attempted
            &&& post.delivered == pre.delivered
            &&& (action matches Some(RpcAction::UnbindQueue { queue, exchange, routing_key })
                && queue@ == pre.queue_name@ && exchange@ == pre.response_exchange@
                && routing_key@ == pre.queue_name@)
        },
        RpcState::Consuming => match event {
            RpcEvent::Delivered(body) => {
                &&& post.state is Acking
                &&& post.delivered == Some(body)
                &&& post.failed == pre.failed
                &&& post.created == pre.created && post.delete_attempted == pre.delete_attempted
                &&& action == Some(RpcAction::Ack)
            },
            _ => {
                &&& post.state is Unbinding
                &&& post.failed
                &&& post.created == pre.created && post.delete_attempted == pre.delete_attempted
                &&& post.delivered == pre.delivered
                &&& (action matches Some(RpcAction::UnbindQueue { queue, exchange, routing_key })
                    && queue@ == pre.queue_name@ && exchange@ == pre.response_exchange@
                    && routing_key@ == pre.queue_name@)
            },
        },
        RpcState::Acking => {
            &&& post.state is Unbinding
            &&& post.failed == (pre.failed || !(event is Completed))
            &&& post.delivered == pre.delivered
            &&& post.created == pre.created && post.delete_attempted == pre.delete_attempted
            &&& (action matches Some(RpcAction::UnbindQueue { queue, exchange, routing_key })
                && queue@ == pre.queue_name@ && exchange@ == pre.response_exchange@
                && routing_key@ == pre.queue_name@)
        },
        RpcState::Unbinding => {
            &&& post.state is Deleting
            &&& post.failed == pre.failed && post.delivered == pre.delivered
            &&& post.created == pre.created && post.delete_attempted@
            &&& (action matches Some(RpcAction::DeleteQueue { queue }) && queue@
                == pre.queue_name@)
        },
        RpcState::Deleting => {
            &&& post.state is Done
            &&& post.failed == pre.failed && post.delivered == pre.delivered
            &&& post.created == pre.created && post.delete_attempted == pre.delete_attempted
            &&& action is None
        },
        RpcState::Done => post == pre && action is None,
    }
}

/// For every round-trip that created its reply queue, deleting the queue
/// has been requested by the time the round-trip finishes — after success
/// and failure alike.
pub proof fn law_reply_queue_reclaimed(flow: &RpcFlow)
    requires
        flow.wf(),
        flow.state is Done,
        flow.created@,
    ensures
        flow.delete_attempted@,
{
}

} // verus!
