use jsonrpc_rs::json::Json;
use jsonrpc_rs::object::{Error, ErrorCode, Request, Response, Version};

fn s(t: &str) -> Json {
    Json::Str(t.to_string())
}

fn obj(fields: Vec<(&str, Json)>) -> Json {
    Json::Object(fields.into_iter().map(|(k, v)| (k.to_string(), v)).collect())
}

/// Renders a value as serde_json sees it, to compare with JSON text.
fn to_value(j: &Json) -> serde_json::Value {
    match j {
        Json::Null => serde_json::Value::Null,
        Json::Bool(b) => serde_json::Value::Bool(*b),
        Json::PosInt(n) => serde_json::Value::from(*n),
        Json::NegInt(n) => serde_json::Value::from(*n),
        Json::OtherNumber(t) => serde_json::from_str(t).unwrap(),
        Json::Str(t) => serde_json::Value::String(t.clone()),
        Json::Array(v) => serde_json::Value::Array(v.iter().map(to_value).collect()),
        Json::Object(f) => {
            let mut m = serde_json::Map::new();
            for (k, v) in f {
                m.insert(k.clone(), to_value(v));
            }
            serde_json::Value::Object(m)
        }
    }
}

fn text(j: &Json) -> String {
    serde_json::to_string(&to_value(j)).unwrap()
}

fn same_json(j: &Json, expected: &str) -> bool {
    to_value(j) == serde_json::from_str::<serde_json::Value>(expected).unwrap()
}

#[test]
fn test_serialize() {
    let request = Request {
        method: "hello".to_string(),
        params: Json::Array(vec![Json::PosInt(10), s("world")]),
        id: None,
        jsonrpc: Version,
    };
    let json = text(&request.encode());
    assert_eq!(
        r#"{"jsonrpc":"2.0","method":"hello","params":[10,"world"]}"#,
        json
    );
}

#[test]
fn test_array_params() {
    let request = Request::new(
        None,
        "hello".to_string(),
        Json::Array(vec![Json::PosInt(10), s("world")]),
    );
    let json = text(&request.encode());
    assert_eq!(
        r#"{"jsonrpc":"2.0","method":"hello","params":[10,"world"]}"#,
        json
    );

    let request = Request::decode(obj(vec![
        ("jsonrpc", s("2.0")),
        ("method", s("hello")),
        ("params", Json::Array(vec![Json::PosInt(20), s("hello")])),
    ]))
    .expect("deserialize json");
    match request.params {
        Json::Array(p) => {
            assert_eq!(p[0], Json::PosInt(20));
            assert_eq!(p[1], s("hello"));
        }
        other => panic!("params are not an array: {:?}", other),
    }
}

#[test]
fn test_version_check() {
    let request = Request::decode(obj(vec![
        ("jsonrpc", s("3.0")),
        ("method", s("hello")),
        ("params", Json::Array(vec![Json::PosInt(10), s("world")])),
    ]));
    assert_eq!(
        request.unwrap_err().message,
        "Version string MUST be exactly 2.0, but got `3.0`",
    );
}

#[test]
fn test_tuple_params() {
    let request = Request::decode(obj(vec![
        ("jsonrpc", s("2.0")),
        ("method", s("hello")),
        ("params", Json::Array(vec![Json::PosInt(10), s("world")])),
    ]))
    .expect("parse tuple params");
    assert_eq!(
        request.params,
        Json::Array(vec![Json::PosInt(10), s("world")])
    );
}

#[test]
fn test_object_params() {
    let request = Request::new(
        None,
        "hello".to_string(),
        obj(vec![("id", Json::PosInt(10)), ("name", s("world"))]),
    );
    let json = text(&request.encode());
    assert_eq!(
        r#"{"jsonrpc":"2.0","method":"hello","params":{"id":10,"name":"world"}}"#,
        json
    );

    let request = Request::decode(obj(vec![
        ("jsonrpc", s("2.0")),
        ("method", s("hello")),
        ("params", obj(vec![("id", Json::PosInt(20)), ("name", s("hello"))])),
    ]))
    .expect("deserialize json");
    assert_eq!(
        request.params,
        obj(vec![("id", Json::PosInt(20)), ("name", s("hello"))])
    );
}

#[test]
fn request_round_trip() {
    let call = Request::new(Some(7), "echo".to_string(), s("world"));
    let back = Request::decode(call.encode()).unwrap();
    assert_eq!(back, Request::new(Some(7), "echo".to_string(), s("world")));

    let note = Request::new(None, "event".to_string(), Json::Array(vec![]));
    let back = Request::decode(note.encode()).unwrap();
    assert_eq!(back, Request::new(None, "event".to_string(), Json::Array(vec![])));
}

#[test]
fn response_round_trip() {
    let ok = Response::ok(3, s("world"));
    assert_eq!(Response::decode(ok.encode()).unwrap(), Response::ok(3, s("world")));

    let err = Response::err(
        4,
        Error {
            code: ErrorCode::ServerError(-32050),
            message: "busy".to_string(),
            data: Some(Json::Bool(true)),
        },
    );
    let back = Response::decode(err.encode()).unwrap();
    assert_eq!(back.id, 4);
    assert_eq!(back.result, None);
    let e = back.error.unwrap();
    assert_eq!(e.code, ErrorCode::ServerError(-32050));
    assert_eq!(e.message, "busy");
    assert_eq!(e.data, Some(Json::Bool(true)));
}

#[test]
fn encoded_frames_hold_version_once() {
    let frame = Request::new(Some(1), "echo".to_string(), s("world")).encode();
    assert!(same_json(
        &frame,
        r#"{"jsonrpc":"2.0","method":"echo","params":"world","id":1}"#
    ));
    match &frame {
        Json::Object(f) => {
            assert_eq!(f.iter().filter(|(k, _)| k == "jsonrpc").count(), 1);
            assert_eq!(f[0], ("jsonrpc".to_string(), s("2.0")));
        }
        _ => panic!("not an object"),
    }
    let reply = Response::ok(1, s("world")).encode();
    assert!(same_json(&reply, r#"{"id":1,"jsonrpc":"2.0","result":"world"}"#));
    match &reply {
        Json::Object(f) => assert_eq!(f.iter().filter(|(k, _)| k == "jsonrpc").count(), 1),
        _ => panic!("not an object"),
    }
}

#[test]
fn missing_or_wrong_version_is_rejected() {
    let missing = Request::decode(obj(vec![("method", s("hello")), ("params", Json::Null)]));
    let e = missing.unwrap_err();
    assert_eq!(e.code, ErrorCode::InvalidRequest);
    assert_eq!(e.message, "missing field `jsonrpc`");

    let number = Response::decode(obj(vec![("id", Json::PosInt(1)), ("jsonrpc", Json::PosInt(2))]));
    assert_eq!(number.unwrap_err().code, ErrorCode::InvalidRequest);

    let wrong = Response::decode(obj(vec![("id", Json::PosInt(1)), ("jsonrpc", s("1.0"))]));
    assert_eq!(
        wrong.unwrap_err().message,
        "Version string MUST be exactly 2.0, but got `1.0`"
    );
}

#[test]
fn notification_has_no_id() {
    let frame = Request::new(None, "event".to_string(), s("hi")).encode();
    assert!(same_json(&frame, r#"{"jsonrpc":"2.0","method":"event","params":"hi"}"#));
    match &frame {
        Json::Object(f) => assert!(f.iter().all(|(k, _)| k != "id")),
        _ => panic!("not an object"),
    }
}

#[test]
fn request_decode_errors() {
    let not_object = Request::decode(s("x")).unwrap_err();
    assert_eq!(not_object.code, ErrorCode::InvalidRequest);

    let no_method = Request::decode(obj(vec![("jsonrpc", s("2.0"))])).unwrap_err();
    assert_eq!(no_method.message, "missing field `method`");

    let bad_id = Request::decode(obj(vec![
        ("jsonrpc", s("2.0")),
        ("method", s("m")),
        ("id", Json::NegInt(-1)),
    ]))
    .unwrap_err();
    assert_eq!(bad_id.code, ErrorCode::InvalidRequest);

    let null_id = Request::decode(obj(vec![
        ("jsonrpc", s("2.0")),
        ("method", s("m")),
        ("id", Json::Null),
    ]))
    .unwrap();
    assert_eq!(null_id.id, None);
    assert_eq!(null_id.params, Json::Null);
}

#[test]
fn response_decode_errors() {
    let no_id = Response::decode(obj(vec![("jsonrpc", s("2.0")), ("result", Json::Null)]));
    assert_eq!(no_id.unwrap_err().message, "missing field `id`");

    let bad_code = Response::decode(obj(vec![
        ("id", Json::PosInt(1)),
        ("jsonrpc", s("2.0")),
        ("error", obj(vec![("code", Json::NegInt(-1)), ("message", s("x"))])),
    ]));
    assert_eq!(bad_code.unwrap_err().message, "Invalid JSONRPC error code");

    let both_absent = Response::decode(obj(vec![("id", Json::PosInt(9)), ("jsonrpc", s("2.0"))]))
        .unwrap();
    assert_eq!(both_absent.result, None);
    assert_eq!(both_absent.error, None);
}

#[test]
fn error_codes_map_both_ways() {
    let table = [
        (ErrorCode::ParseError, -32700),
        (ErrorCode::InvalidRequest, -32600),
        (ErrorCode::MethodNotFound, -32601),
        (ErrorCode::InvalidParams, -32602),
        (ErrorCode::InternalError, -32603),
        (ErrorCode::ServerError(-32099), -32099),
        (ErrorCode::ServerError(-32000), -32000),
    ];
    for (code, n) in table {
        assert_eq!(code.code(), n);
        assert_eq!(ErrorCode::from_code(n), Some(code));
    }
    assert_eq!(ErrorCode::from_code(-32100), None);
    assert_eq!(ErrorCode::from_code(-31999), None);
    assert_eq!(ErrorCode::from_code(0), None);
    assert_eq!(ErrorCode::ParseError.to_json(), Json::NegInt(-32700));
    assert_eq!(
        ErrorCode::MethodNotFound.description(),
        "The method does not exist / is not available."
    );
}
