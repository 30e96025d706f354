use pathfinder::get_permissions;
use pathfinder::merge_headers;
use pathfinder::Endpoint;
use pathfinder::Engine;
use pathfinder::Frame;
use pathfinder::ProcessStart;
use pathfinder::RequestTask;
use pathfinder::Router;
use pathfinder::RpcAction;
use pathfinder::RpcEvent;

fn log_action(action: &RpcAction, log: &mut Vec<String>) {
    match action {
        RpcAction::DeclareQueue { queue } => log.push(format!("declare {}", queue)),
        RpcAction::BindQueue { queue, exchange, routing_key } => {
            log.push(format!("bind {} {} {}", queue, exchange, routing_key))
        },
        RpcAction::Publish(p) => {
            let headers: Vec<String> =
                p.headers.iter().map(|(k, v)| format!("{}:{}", k, v)).collect();
            log.push(format!(
                "publish exchange={} routing_key={} body={} reply_to={} correlation_id={} content_type={} delivery_mode={} mandatory={} immediate={} headers=[{}]",
                p.exchange,
                p.routing_key,
                p.body,
                p.reply_to,
                p.correlation_id,
                p.content_type,
                p.delivery_mode,
                p.mandatory,
                p.immediate,
                headers.join(", ")
            ))
        },
        RpcAction::ConsumeOne { queue } => log.push(format!("consume {}", queue)),
        RpcAction::Ack => log.push("ack".to_string()),
        RpcAction::UnbindQueue { queue, exchange, routing_key } => {
            log.push(format!("unbind {} {} {}", queue, exchange, routing_key))
        },
        RpcAction::DeleteQueue { queue } => log.push(format!("delete {}", queue)),
    }
}

/// Feeds `Completed` to every outstanding call until a delivery is awaited
/// or the outbound frame is produced.
fn pump(task: &mut RequestTask, pending: &mut Option<RpcAction>, log: &mut Vec<String>) -> Option<Frame> {
    loop {
        let action = pending.take().expect("a broker call must be outstanding");
        if matches!(action, RpcAction::ConsumeOne { .. }) {
            log_action(&action, log);
            *pending = Some(action);
            return None;
        }
        log_action(&action, log);
        let (next, frame) = task.step(RpcEvent::Completed);
        if frame.is_some() {
            assert!(next.is_none());
            return frame;
        }
        *pending = next;
    }
}

/// Runs one inbound frame against a scripted broker: each awaited delivery
/// is answered with the next reply. Returns the single outbound frame.
fn run(engine: &Engine, frame_text: &str, replies: &[&str], log: &mut Vec<String>) -> Frame {
    match engine.process_request(&Frame::Text(frame_text.to_string())) {
        ProcessStart::Refused(f) => f,
        ProcessStart::Started(mut task, first) => {
            let mut pending = Some(first);
            let mut idx = 0;
            loop {
                if let Some(f) = pump(&mut task, &mut pending, log) {
                    return f;
                }
                // a delivery is awaited
                let body = replies[idx].as_bytes().to_vec();
                idx += 1;
                pending.take();
                let (next, frame) = task.step(RpcEvent::Delivered(body));
                if let Some(f) = frame {
                    return f;
                }
                pending = next;
            }
        },
    }
}

fn search_engine() -> Engine {
    let endpoint = Endpoint::new(
        "/api/matchmaking/search",
        "matchmaking.search",
        "open-matchmaking.direct",
        "open-matchmaking.responses.direct",
        false,
    );
    Engine::new(Router::new(vec![endpoint]))
}

fn secure_engine() -> Engine {
    let endpoint = Endpoint::new(
        "/api/secure",
        "secure.svc",
        "open-matchmaking.direct",
        "open-matchmaking.responses.direct",
        true,
    );
    Engine::new(Router::new(vec![endpoint]))
}

fn frame_text(frame: &Frame) -> String {
    match frame {
        Frame::Text(t) => t.clone(),
        Frame::Binary(_) => panic!("expected a text frame"),
    }
}

#[test]
fn test_happy_path_round_trip() {
    let engine = search_engine();
    let mut log = Vec::new();
    let out = run(
        &engine,
        "{\"url\":\"/api/matchmaking/search\",\"event-name\":\"search.v1\",\"content\":{\"q\":\"x\"}}",
        &["{\"result\":[1,2,3]}"],
        &mut log,
    );
    assert_eq!(frame_text(&out), "{\"result\":[1,2,3]}");

    // the reply queue is named by the declare and used all the way through
    let queue = log[0].strip_prefix("declare ").unwrap().to_string();
    assert_eq!(log[1], format!("bind {} open-matchmaking.responses.direct {}", queue, queue));
    assert!(log[2].starts_with("publish exchange=open-matchmaking.direct routing_key=matchmaking.search "));
    assert!(log[2].contains("body={\"q\":\"x\"}"));
    assert!(log[2].contains(&format!("reply_to={}", queue)));
    assert!(log[2].contains("correlation_id=search.v1"));
    assert!(log[2].contains("content_type=application/json delivery_mode=2 mandatory=true immediate=false"));
    assert_eq!(log[3], format!("consume {}", queue));
    assert_eq!(log[4], "ack");
    assert_eq!(log[5], format!("unbind {} open-matchmaking.responses.direct {}", queue, queue));
    assert_eq!(log[6], format!("delete {}", queue));
    assert_eq!(log.len(), 7);
}

#[test]
fn test_missing_url_gets_decoding_error() {
    let engine = search_engine();
    let start = engine.process_request(&Frame::Text("{\"event-name\":\"x\"}".to_string()));
    match start {
        ProcessStart::Refused(f) => {
            assert_eq!(
                frame_text(&f),
                "{\"error\":{\"type\":\"DecodingError\",\"details\":\"The `url` field is missing or value is `null`\"}}"
            );
        },
        ProcessStart::Started(_, _) => panic!("a frame without a url must be refused"),
    }
}

#[test]
fn test_unknown_endpoint_gets_endpoint_not_found() {
    let engine = search_engine();
    let start = engine.process_request(&Frame::Text("{\"url\":\"/nope\"}".to_string()));
    match start {
        ProcessStart::Refused(f) => {
            assert_eq!(
                frame_text(&f),
                "{\"error\":{\"type\":\"EndpointNotFound\",\"details\":\"Endpoint \\\"/nope\\\" was not found\"}}"
            );
        },
        ProcessStart::Started(_, _) => panic!("an unknown url must be refused"),
    }
}

#[test]
fn test_token_required_and_missing_gets_authentication_error() {
    let engine = secure_engine();
    let start = engine.process_request(
        &Frame::Text("{\"url\":\"/api/secure\",\"content\":{}}".to_string()),
    );
    match start {
        ProcessStart::Refused(f) => {
            assert_eq!(
                frame_text(&f),
                "{\"error\":{\"type\":\"AuthenticationError\",\"details\":\"The `token` field must be specified.\"}}"
            );
        },
        ProcessStart::Started(_, _) => panic!("a missing token must refuse the request"),
    }
}

#[test]
fn test_invalid_token_stops_the_request() {
    let engine = secure_engine();
    let mut log = Vec::new();
    let out = run(
        &engine,
        "{\"url\":\"/api/secure\",\"token\":\"abc\",\"content\":{}}",
        &["{\"content\":{\"is_valid\":false}}"],
        &mut log,
    );
    assert_eq!(
        frame_text(&out),
        "{\"error\":{\"type\":\"AuthenticationError\",\"details\":\"Token is invalid.\"}}"
    );
    // the verify sub-request went to the auth exchange and nowhere else
    assert!(log[2].starts_with(
        "publish exchange=open-matchmaking.auth.token.verify.direct routing_key=auth.token.verify "
    ));
    assert!(log[2].contains("body={\"access_token\":\"abc\"}"));
    // no publish to the target exchange happened
    assert!(log.iter().all(|line| !line.contains("exchange=open-matchmaking.direct ")));
    // the verify reply queue was reclaimed
    let queue = log[0].strip_prefix("declare ").unwrap().to_string();
    assert!(log.contains(&format!("delete {}", queue)));
}

#[test]
fn test_auth_sub_requests_run_verify_then_profile() {
    let engine = secure_engine();
    let mut log = Vec::new();
    let out = run(
        &engine,
        "{\"url\":\"/api/secure\",\"token\":\"abc\",\"event-name\":\"sec.v1\",\"permissions\":\"\",\"user_id\":\"u1\",\"content\":{\"k\":1}}",
        &[
            "{\"error\":null,\"content\":{\"is_valid\":true}}",
            "{\"error\":null,\"content\":{\"permissions\":[\"matchmaking.search\",\"matchmaking.leaderboard\"]}}",
            "{\"ok\":true}",
        ],
        &mut log,
    );
    assert_eq!(frame_text(&out), "{\"ok\":true}");

    let publishes: Vec<&String> = log.iter().filter(|l| l.starts_with("publish ")).collect();
    assert_eq!(publishes.len(), 3);
    assert!(publishes[0].starts_with(
        "publish exchange=open-matchmaking.auth.token.verify.direct routing_key=auth.token.verify "
    ));
    assert!(publishes[0].contains("headers=[routing_key:auth.token.verify, request_url:/auth/api/token/verify]"));
    assert!(publishes[1].starts_with(
        "publish exchange=open-matchmaking.auth.users.retrieve.direct routing_key=auth.users.retrieve "
    ));
    assert!(publishes[1].contains("body={\"access_token\":\"abc\"}"));
    assert!(publishes[1].contains("headers=[microservice_name:microservice-auth, request_url:/auth/api/users/profile]"));
    assert!(publishes[2].starts_with(
        "publish exchange=open-matchmaking.direct routing_key=secure.svc "
    ));
    assert!(publishes[2].contains("body={\"k\":1}"));
    assert!(publishes[2].contains("correlation_id=sec.v1"));
    // the auth-supplied permissions overwrite the default header
    assert!(publishes[2].contains(
        "headers=[permissions:matchmaking.search;matchmaking.leaderboard, routing_key:secure.svc, request_url:/api/secure, permissions:, user_id:u1]"
    ));
    // every round-trip reclaimed its own reply queue
    let declares: Vec<String> = log.iter()
        .filter(|l| l.starts_with("declare "))
        .map(|l| l.strip_prefix("declare ").unwrap().to_string())
        .collect();
    assert_eq!(declares.len(), 3);
    for queue in &declares {
        assert!(log.contains(&format!("delete {}", queue)));
    }
}

#[test]
fn test_profile_with_null_content_supplies_no_headers() {
    let engine = secure_engine();
    let mut log = Vec::new();
    let out = run(
        &engine,
        "{\"url\":\"/api/secure\",\"token\":\"abc\",\"content\":{}}",
        &[
            "{\"content\":{\"is_valid\":true}}",
            "{\"error\":null,\"content\":null}",
            "{\"done\":1}",
        ],
        &mut log,
    );
    assert_eq!(frame_text(&out), "{\"done\":1}");
    let target: Vec<&String> =
        log.iter().filter(|l| l.contains("exchange=open-matchmaking.direct ")).collect();
    assert_eq!(target.len(), 1);
    assert!(target[0].contains(
        "headers=[routing_key:secure.svc, request_url:/api/secure, permissions:, user_id:]"
    ));
}

#[test]
fn test_microservice_error_is_forwarded_verbatim() {
    let engine = secure_engine();
    let mut log = Vec::new();
    let out = run(
        &engine,
        "{\"url\":\"/api/secure\",\"token\":\"abc\",\"content\":{}}",
        &["{\"error\":{\"type\":\"TokenExpired\",\"code\":401}}"],
        &mut log,
    );
    assert_eq!(frame_text(&out), "{\"type\":\"TokenExpired\",\"code\":401}");
    assert!(log.iter().all(|line| !line.contains("exchange=open-matchmaking.direct ")));
}

#[test]
fn test_correlation_id_defaults_to_null() {
    let engine = search_engine();
    let mut log = Vec::new();
    let _ = run(
        &engine,
        "{\"url\":\"/api/matchmaking/search\",\"content\":{}}",
        &["{\"r\":0}"],
        &mut log,
    );
    assert!(log[2].contains("correlation_id=null"));
}

#[test]
fn test_response_body_is_reserialized_compactly() {
    let engine = search_engine();
    let mut log = Vec::new();
    let out = run(
        &engine,
        "{\"url\":\"/api/matchmaking/search\",\"content\":{}}",
        &["{\"result\": [1, 2,  3]}"],
        &mut log,
    );
    assert_eq!(frame_text(&out), "{\"result\":[1,2,3]}");
}

#[test]
fn test_unreadable_reply_is_a_broker_error() {
    let engine = search_engine();
    let mut log = Vec::new();
    let out = run(
        &engine,
        "{\"url\":\"/api/matchmaking/search\",\"content\":{}}",
        &["not json"],
        &mut log,
    );
    assert_eq!(
        frame_text(&out),
        "{\"error\":{\"type\":\"MessageBrokerError\",\"details\":\"The request wasn't processed. Please, try once again.\"}}"
    );
}

#[test]
fn test_broker_failure_yields_one_error_frame_and_cleanup() {
    let engine = search_engine();
    let start = engine.process_request(
        &Frame::Text("{\"url\":\"/api/matchmaking/search\",\"content\":{}}".to_string()),
    );
    let (mut task, first) = match start {
        ProcessStart::Started(task, action) => (task, action),
        ProcessStart::Refused(_) => panic!("the request must start"),
    };
    let queue = match &first {
        RpcAction::DeclareQueue { queue } => queue.clone(),
        _ => panic!("the first call declares the reply queue"),
    };
    // declare and bind succeed, the publish fails
    let (bind, none1) = task.step(RpcEvent::Completed);
    assert!(none1.is_none());
    assert!(matches!(bind, Some(RpcAction::BindQueue { .. })));
    let (publish, none2) = task.step(RpcEvent::Completed);
    assert!(none2.is_none());
    assert!(matches!(publish, Some(RpcAction::Publish(_))));
    let (unbind, none3) = task.step(RpcEvent::Failed);
    assert!(none3.is_none());
    match unbind {
        Some(RpcAction::UnbindQueue { queue: q, .. }) => assert_eq!(q, queue),
        _ => panic!("a failed publish must still unbind the reply queue"),
    }
    let (delete, none4) = task.step(RpcEvent::Completed);
    assert!(none4.is_none());
    match delete {
        Some(RpcAction::DeleteQueue { queue: q }) => assert_eq!(q, queue),
        _ => panic!("a failed publish must still delete the reply queue"),
    }
    let (after, frame) = task.step(RpcEvent::Completed);
    assert!(after.is_none());
    assert_eq!(
        frame_text(&frame.expect("the request is answered by exactly one frame")),
        "{\"error\":{\"type\":\"MessageBrokerError\",\"details\":\"The request wasn't processed. Please, try once again.\"}}"
    );
    // the task is finished: no further events produce actions or frames
    let (a, f) = task.step(RpcEvent::Completed);
    assert!(a.is_none() && f.is_none());
}

#[test]
fn test_out_of_order_replies_stay_independent() {
    let engine = search_engine();
    let mut log_a = Vec::new();
    let mut log_b = Vec::new();

    let start_a = engine.process_request(
        &Frame::Text("{\"url\":\"/api/matchmaking/search\",\"event-name\":\"a\",\"content\":{\"n\":1}}".to_string()),
    );
    let start_b = engine.process_request(
        &Frame::Text("{\"url\":\"/api/matchmaking/search\",\"event-name\":\"b\",\"content\":{\"n\":2}}".to_string()),
    );
    let (mut task_a, first_a) = match start_a {
        ProcessStart::Started(t, a) => (t, a),
        ProcessStart::Refused(_) => panic!("request a must start"),
    };
    let (mut task_b, first_b) = match start_b {
        ProcessStart::Started(t, a) => (t, a),
        ProcessStart::Refused(_) => panic!("request b must start"),
    };

    // advance both requests until each awaits its delivery
    let mut pending_a = Some(first_a);
    let mut pending_b = Some(first_b);
    assert!(pump(&mut task_a, &mut pending_a, &mut log_a).is_none());
    assert!(pump(&mut task_b, &mut pending_b, &mut log_b).is_none());

    let queue_a = log_a[0].strip_prefix("declare ").unwrap().to_string();
    let queue_b = log_b[0].strip_prefix("declare ").unwrap().to_string();
    assert_ne!(queue_a, queue_b);

    // the broker answers request b first; the proxy does not reorder
    pending_b.take();
    let (next_b, _) = task_b.step(RpcEvent::Delivered(b"{\"answer\":\"b\"}".to_vec()));
    pending_b = next_b;
    let frame_b = pump(&mut task_b, &mut pending_b, &mut log_b).expect("b finishes first");
    assert_eq!(frame_text(&frame_b), "{\"answer\":\"b\"}");

    pending_a.take();
    let (next_a, _) = task_a.step(RpcEvent::Delivered(b"{\"answer\":\"a\"}".to_vec()));
    pending_a = next_a;
    let frame_a = pump(&mut task_a, &mut pending_a, &mut log_a).expect("a finishes after b");
    assert_eq!(frame_text(&frame_a), "{\"answer\":\"a\"}");

    // both reply queues were reclaimed
    assert!(log_a.contains(&format!("delete {}", queue_a)));
    assert!(log_b.contains(&format!("delete {}", queue_b)));
}

#[test]
fn test_reply_queue_names_are_unique_across_requests() {
    let engine = search_engine();
    let mut names = Vec::new();
    for _ in 0..32 {
        let start = engine.process_request(
            &Frame::Text("{\"url\":\"/api/matchmaking/search\",\"content\":{}}".to_string()),
        );
        match start {
            ProcessStart::Started(_, RpcAction::DeclareQueue { queue }) => names.push(queue),
            _ => panic!("every request starts by declaring its reply queue"),
        }
    }
    for i in 0..names.len() {
        for j in (i + 1)..names.len() {
            assert_ne!(names[i], names[j]);
        }
    }
}

#[test]
fn test_empty_registry_rejects_every_request() {
    let engine = Engine::new(Router::new(Vec::new()));
    let start = engine.process_request(
        &Frame::Text("{\"url\":\"/api/matchmaking/search\"}".to_string()),
    );
    match start {
        ProcessStart::Refused(f) => {
            assert_eq!(
                frame_text(&f),
                "{\"error\":{\"type\":\"EndpointNotFound\",\"details\":\"Endpoint \\\"/api/matchmaking/search\\\" was not found\"}}"
            );
        },
        ProcessStart::Started(_, _) => panic!("an empty registry must reject every request"),
    }
}

#[test]
fn test_get_permissions_joins_string_items() {
    let items = vec![
        Some("matchmaking.search".to_string()),
        None,
        Some("matchmaking.leaderboard".to_string()),
    ];
    assert_eq!(get_permissions(&items), "matchmaking.search;matchmaking.leaderboard");
    assert_eq!(get_permissions(&Vec::new()), "");
    assert_eq!(get_permissions(&vec![Some("solo".to_string())]), "solo");
}

#[test]
fn test_merge_headers_lets_the_extra_value_win() {
    let defaults = vec![
        ("permissions".to_string(), "".to_string()),
        ("user_id".to_string(), "u1".to_string()),
    ];
    let extra = vec![("permissions".to_string(), "a;b".to_string())];
    let merged = merge_headers(&defaults, &extra);
    assert_eq!(merged[0], ("permissions".to_string(), "a;b".to_string()));
    assert_eq!(merged.len(), 3);
    // the first occurrence of a key decides
    let winner = merged.iter().find(|(k, _)| k == "permissions").unwrap();
    assert_eq!(winner.1, "a;b");
}
