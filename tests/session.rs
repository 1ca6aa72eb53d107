use jsonrpc_rs::client::{request_id, CallPoll, ClientSession, RecvAction};
use jsonrpc_rs::json::Json;
use jsonrpc_rs::object::{Error, ErrorCode, Request, Response};
use jsonrpc_rs::timer::TimerExecutor;
use jsonrpc_rs::server::{
    normalize_params, reply, Dispatch, HandlerClonerRegister, ServiceSession,
};

fn s(t: &str) -> Json {
    Json::Str(t.to_string())
}

fn obj(fields: Vec<(&str, Json)>) -> Json {
    Json::Object(fields.into_iter().map(|(k, v)| (k.to_string(), v)).collect())
}

/// A handler kind tag stands for the factory that the server would hold.
fn echo_server() -> ServiceSession<&'static str, &'static str> {
    let mut methods = HandlerClonerRegister::new();
    methods.register_handler("event".to_string(), "event");
    let mut async_methods = HandlerClonerRegister::new();
    async_methods.register_handler("echo".to_string(), "echo");
    ServiceSession { methods, async_methods }
}

/// Runs one frame through the server with an echo handler.
fn serve(server: &ServiceSession<&'static str, &'static str>, frame: Json) -> Option<Json> {
    match server.dispatch(frame) {
        Dispatch::Reply(r) => Some(r),
        Dispatch::Skip => None,
        Dispatch::InvokeSync { id, .. } => reply(id, Ok(None)),
        Dispatch::InvokeAsync { id, params, .. } => match params {
            Json::Str(_) => reply(id, Ok(Some(params))),
            _ => reply(
                id,
                Err(Error::new(ErrorCode::InvalidParams, "expected a string")),
            ),
        },
    }
}

fn result_of(client: &mut ClientSession, id: usize) -> Result<Json, Error> {
    match client.poll(id) {
        CallPoll::Done(r) => r,
        CallPoll::Pending => panic!("call {} still pending", id),
    }
}

#[test]
fn pingpong() {
    let server = echo_server();
    let mut client = ClientSession::new();
    for word in ["hello", "world", "clone_instance"] {
        let (id, frame) = client.send("echo".to_string(), s(word)).unwrap();
        let back = serve(&server, frame).unwrap();
        assert_eq!(client.on_frame(back), RecvAction::Continue);
        assert_eq!(result_of(&mut client, id).unwrap(), s(word));
    }
    let note = client.notification("event".to_string(), s("hi")).unwrap();
    assert!(serve(&server, note).is_none());
}

#[test]
fn echo_call() {
    let server = echo_server();
    let mut client = ClientSession::new();
    let (id, frame) = client.send("echo".to_string(), s("world")).unwrap();
    assert_eq!(id, 1);
    assert_eq!(
        frame,
        obj(vec![
            ("jsonrpc", s("2.0")),
            ("method", s("echo")),
            ("params", s("world")),
            ("id", Json::PosInt(1)),
        ])
    );
    let back = serve(&server, frame).unwrap();
    assert_eq!(
        back,
        obj(vec![("id", Json::PosInt(1)), ("jsonrpc", s("2.0")), ("result", s("world"))])
    );
    client.on_frame(back);
    assert_eq!(result_of(&mut client, 1).unwrap(), s("world"));
}

#[test]
fn sequential_ids() {
    let mut client = ClientSession::new();
    let (a, fa) = client.send("echo".to_string(), s("a")).unwrap();
    let (b, fb) = client.send("echo".to_string(), s("b")).unwrap();
    assert_eq!((a, b), (1, 2));
    assert_eq!(request_id(&fa), Some(1));
    assert_eq!(request_id(&fb), Some(2));
}

#[test]
fn notification_frame() {
    let client = ClientSession::new();
    let frame = client.notification("event".to_string(), s("hi")).unwrap();
    assert_eq!(
        frame,
        obj(vec![("jsonrpc", s("2.0")), ("method", s("event")), ("params", s("hi"))])
    );
    assert_eq!(request_id(&frame), None);
}

#[test]
fn responses_route_by_id() {
    let mut client = ClientSession::new();
    let (a, _) = client.send("echo".to_string(), s("a")).unwrap();
    let (b, _) = client.send("echo".to_string(), s("b")).unwrap();
    client.on_frame(Response::ok(b, s("second")).encode());
    assert!(matches!(client.poll(a), CallPoll::Pending));
    client.on_frame(Response::ok(a, s("first")).encode());
    client.on_frame(Response::ok(a, s("late")).encode());
    client.on_frame(Response::ok(77, s("stray")).encode());
    assert_eq!(result_of(&mut client, a).unwrap(), s("first"));
    assert_eq!(result_of(&mut client, b).unwrap(), s("second"));
    let (c, _) = client.send("echo".to_string(), s("c")).unwrap();
    assert_eq!(c, 3);
}

#[test]
fn empty_response_is_null() {
    let mut client = ClientSession::new();
    let (a, _) = client.send("echo".to_string(), s("a")).unwrap();
    client.on_frame(obj(vec![("id", Json::PosInt(a as u64)), ("jsonrpc", s("2.0"))]));
    assert_eq!(result_of(&mut client, a).unwrap(), Json::Null);
}

#[test]
fn timeout_fails_only_its_call() {
    let mut timers = TimerExecutor::new();
    let timer = timers.timeout(2).id();
    assert!(!timers.poll(timer));
    let mut client = ClientSession::new();
    let (a, _) = client.send_with_timer("echo".to_string(), s("x"), timer).unwrap();
    let (b, _) = client.send("echo".to_string(), s("y")).unwrap();
    let mut ticks = 0;
    loop {
        ticks += 1;
        let woken = timers.tick();
        assert!(matches!(client.poll(a), CallPoll::Pending) || !woken.is_empty());
        if !woken.is_empty() {
            for t in woken {
                client.fire_timer(t);
            }
            break;
        }
    }
    assert_eq!(ticks, 3);
    let e = result_of(&mut client, a).unwrap_err();
    assert_eq!(e.code, ErrorCode::InternalError);
    assert!(e.message.contains("timeout"));
    assert!(matches!(client.poll(b), CallPoll::Pending));
    client.on_frame(Response::ok(b, s("y")).encode());
    assert_eq!(result_of(&mut client, b).unwrap(), s("y"));
}

#[test]
fn channel_broken() {
    let mut client = ClientSession::new();
    let (a, _) = client.send("echo".to_string(), s("a")).unwrap();
    let (b, _) = client.send("echo".to_string(), s("b")).unwrap();
    client.close();
    for id in [a, b] {
        let e = result_of(&mut client, id).unwrap_err();
        assert_eq!(e.code, ErrorCode::InternalError);
        assert_eq!(e.message, "channel broken");
    }
    let refused = client.send("echo".to_string(), s("c")).unwrap_err();
    assert_eq!(refused.code, ErrorCode::InternalError);
    assert!(!client.is_running());
}

#[test]
fn corrupt_frame_stops_session() {
    let mut client = ClientSession::new();
    let (a, _) = client.send("echo".to_string(), s("a")).unwrap();
    assert_eq!(client.on_frame(s("garbage")), RecvAction::Stop);
    let e = result_of(&mut client, a).unwrap_err();
    assert_eq!(e.message, "channel broken");
}

#[test]
fn send_failure_fails_the_call() {
    let mut client = ClientSession::new();
    let (a, frame) = client.send("echo".to_string(), s("a")).unwrap();
    let (b, _) = client.send("echo".to_string(), s("b")).unwrap();
    client.on_send_failed(&frame);
    assert_eq!(result_of(&mut client, a).unwrap_err().message, "send failed");
    assert_eq!(result_of(&mut client, b).unwrap_err().message, "channel broken");
    assert!(client.notification("event".to_string(), Json::Null).is_err());
}

#[test]
fn unknown_method() {
    let server = echo_server();
    let mut client = ClientSession::new();
    let (id, frame) = client.send("nope".to_string(), Json::Null).unwrap();
    let back = serve(&server, frame).unwrap();
    client.on_frame(back);
    let e = result_of(&mut client, id).unwrap_err();
    assert_eq!(e.code, ErrorCode::MethodNotFound);
    assert!(e.message.contains("nope"));

    let note = Request::new(None, "nope".to_string(), Json::Null).encode();
    assert!(serve(&server, note).is_none());
}

#[test]
fn params_unwrap() {
    let server = echo_server();
    for params in [s("world"), Json::Array(vec![s("world")])] {
        let frame = Request::new(Some(1), "echo".to_string(), params).encode();
        match server.dispatch(frame) {
            Dispatch::InvokeAsync { id, method, params } => {
                assert_eq!(id, Some(1));
                assert_eq!(method, "echo");
                assert_eq!(params, s("world"));
            }
            other => panic!("unexpected dispatch {:?}", other),
        }
    }
    let pair = Json::Array(vec![s("a"), s("b")]);
    assert_eq!(normalize_params(Json::Array(vec![s("a"), s("b")])), pair);
    assert_eq!(normalize_params(obj(vec![("a", Json::Null)])), obj(vec![("a", Json::Null)]));
}

#[test]
fn malformed_request_with_id_gets_parse_error() {
    let server = echo_server();
    let frame = obj(vec![("jsonrpc", s("1.0")), ("method", s("echo")), ("id", Json::PosInt(4))]);
    let back = server.dispatch(frame);
    match back {
        Dispatch::Reply(j) => {
            let r = Response::decode(j).unwrap();
            assert_eq!(r.id, 4);
            assert_eq!(r.error.unwrap().code, ErrorCode::ParseError);
        }
        other => panic!("unexpected dispatch {:?}", other),
    }
    assert_eq!(server.dispatch(s("junk")), Dispatch::Skip);
}

#[test]
fn handler_results_shape_replies() {
    assert_eq!(reply(None, Ok(Some(s("x")))), None);
    assert_eq!(reply(Some(2), Ok(None)), None);
    let e = Error {
        code: ErrorCode::InvalidParams,
        message: "bad".to_string(),
        data: Some(Json::Null),
    };
    let r = Response::decode(reply(Some(2), Err(e)).unwrap()).unwrap();
    let err = r.error.unwrap();
    assert_eq!(err.code, ErrorCode::InvalidParams);
    assert_eq!(err.message, "bad");
    assert_eq!(err.data, None);
    assert_eq!(reply(None, Err(Error::new(ErrorCode::InternalError, "x"))), None);
}

#[test]
fn registry_replaces_handlers() {
    let mut methods: HandlerClonerRegister<u32> = HandlerClonerRegister::new();
    assert_eq!(methods.clone_from(&"a".to_string()), None);
    methods.register_handler("a".to_string(), 1);
    methods.register_handler("b".to_string(), 2);
    methods.register_handler("a".to_string(), 3);
    assert_eq!(methods.clone_from(&"a".to_string()), Some(&3));
    assert_eq!(methods.clone_from(&"b".to_string()), Some(&2));
}
