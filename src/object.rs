//! JSON-RPC 2.0 request, response and error objects, and their encoding to
//! and decoding from JSON values.
use crate::json::{field_of, key_count, lemma_keys_distinct, members, Json};
use vstd::prelude::*;

verus! {

/// Error codes of JSON-RPC 2.0.
#[derive(Debug, PartialEq, Eq, Clone)]
pub enum ErrorCode {
    /// Invalid JSON was received.
    ParseError,
    /// The JSON sent is not a valid Request object.
    InvalidRequest,
    /// The method does not exist or is not available.
    MethodNotFound,
    /// Invalid method parameters.
    InvalidParams,
    /// Internal JSON-RPC error.
    InternalError,
    /// Reserved for implementation-defined server errors, from -32099 to -32000.
    ServerError(i64),
}

pub const SERVER_ERROR_MIN: i64 = -32099;

pub const SERVER_ERROR_MAX: i64 = -32000;

/// The numeric wire form of a code.
pub open spec fn code_value(c: ErrorCode) -> i64 {
    match c {
        ErrorCode::ParseError => -32700i64,
        ErrorCode::InvalidRequest => -32600i64,
        ErrorCode::MethodNotFound => -32601i64,
        ErrorCode::InvalidParams => -32602i64,
        ErrorCode::InternalError => -32603i64,
        ErrorCode::ServerError(n) => n,
    }
}

/// The code that a number stands for, if any.
pub open spec fn code_from(n: i64) -> Option<ErrorCode> {
    if n == -32700 {
        Some(ErrorCode::ParseError)
    } else if n == -32600 {
        Some(ErrorCode::InvalidRequest)
    } else if n == -32601 {
        Some(ErrorCode::MethodNotFound)
    } else if n == -32602 {
        Some(ErrorCode::InvalidParams)
    } else if n == -32603 {
        Some(ErrorCode::InternalError)
    } else if SERVER_ERROR_MIN <= n <= SERVER_ERROR_MAX {
        Some(ErrorCode::ServerError(n))
    } else {
        None
    }
}

/// A code is valid unless it is a server error outside the reserved range.
pub open spec fn code_valid(c: ErrorCode) -> bool {
    match c {
        ErrorCode::ServerError(n) => SERVER_ERROR_MIN <= n <= SERVER_ERROR_MAX,
        _ => true,
    }
}

/// The JSON number of a code.
pub open spec fn code_json(c: ErrorCode) -> Json {
    let n = code_value(c);
    if n < 0 {
        Json::NegInt(n)
    } else {
        Json::PosInt(n as u64)
    }
}

/// The code that a JSON value stands for, if any.
pub open spec fn code_of_json(j: Json) -> Option<ErrorCode> {
    match j {
        Json::NegInt(n) => code_from(n),
        _ => None,
    }
}

impl ErrorCode {
    /// The numeric wire form.
    pub fn code(&self) -> (r: i64)
        ensures
            r == code_value(*self),
    {
        match self {
            ErrorCode::ParseError => -32700,
            ErrorCode::InvalidRequest => -32600,
            ErrorCode::MethodNotFound => -32601,
            ErrorCode::InvalidParams => -32602,
            ErrorCode::InternalError => -32603,
            ErrorCode::ServerError(n) => *n,
        }
    }

    /// The code for a number: the five standard codes, a server error in the
    /// reserved range, or nothing.
    pub fn from_code(n: i64) -> (r: Option<ErrorCode>)
        ensures
            r == code_from(n),
    {
        if n == -32700 {
            Some(ErrorCode::ParseError)
        } else if n == -32600 {
            Some(ErrorCode::InvalidRequest)
        } else if n == -32601 {
            Some(ErrorCode::MethodNotFound)
        } else if n == -32602 {
            Some(ErrorCode::InvalidParams)
        } else if n == -32603 {
            Some(ErrorCode::InternalError)
        } else if SERVER_ERROR_MIN <= n && n <= SERVER_ERROR_MAX {
            Some(ErrorCode::ServerError(n))
        } else {
            None
        }
    }

    /// The standard description of the code.
    pub fn description(&self) -> (r: String)
        ensures
            r@ == match *self {
                ErrorCode::ParseError => "Invalid JSON was received by the server."@,
                ErrorCode::InvalidRequest => "The JSON sent is not a valid Request object."@,
                ErrorCode::MethodNotFound => "The method does not exist / is not available."@,
                ErrorCode::InvalidParams => "Invalid method parameter(s)."@,
                ErrorCode::InternalError => "Internal JSON-RPC error."@,
                ErrorCode::ServerError(_) => "Server error"@,
            },
    {
        match self {
            ErrorCode::ParseError => String::from_str("Invalid JSON was received by the server."),
            ErrorCode::InvalidRequest => String::from_str(
                "The JSON sent is not a valid Request object.",
            ),
            ErrorCode::MethodNotFound => String::from_str(
                "The method does not exist / is not available.",
            ),
            ErrorCode::InvalidParams => String::from_str("Invalid method parameter(s)."),
            ErrorCode::InternalError => String::from_str("Internal JSON-RPC error."),
            ErrorCode::ServerError(_) => String::from_str("Server error"),
        }
    }

    /// The JSON number of the code.
    pub fn to_json(&self) -> (r: Json)
        ensures
            r == code_json(*self),
    {
        let n = self.code();
        if n < 0 {
            Json::NegInt(n)
        } else {
            Json::PosInt(n as u64)
        }
    }
}

/// Every valid code survives its numeric wire form.
pub proof fn lemma_code_round_trip(c: ErrorCode)
    requires
        code_valid(c),
    ensures
        code_from(code_value(c)) == Some(c),
        code_of_json(code_json(c)) == Some(c),
{
}

/// The marker of the protocol version: it encodes as the string "2.0", and
/// decoding accepts exactly that string.
#[derive(Debug, PartialEq, Eq, Clone, Copy, Default)]
pub struct Version;

/// Whether a member holds the version string "2.0".
pub open spec fn version_ok(v: Option<Json>) -> bool {
    match v {
        Some(Json::Str(s)) => s@ == "2.0"@,
        _ => false,
    }
}

/// The text of the error raised for a version string other than "2.0".
pub open spec fn wrong_version_message(s: Seq<char>) -> Seq<char> {
    "Version string MUST be exactly 2.0, but got `"@ + s + "`"@
}

/// The message for a `jsonrpc` member that holds a string other than "2.0".
pub open spec fn wrong_version(v: Option<Json>) -> Option<Seq<char>> {
    match v {
        Some(Json::Str(s)) => if s@ != "2.0"@ {
            Some(wrong_version_message(s@))
        } else {
            None
        },
        _ => None,
    }
}

impl Version {
    /// The JSON form of the version: the string "2.0".
    pub fn to_json(&self) -> (r: Json)
        ensures
            r is Str,
            r->Str_0@ == "2.0"@,
    {
        Json::Str(String::from_str("2.0"))
    }

    /// Checks the `jsonrpc` member of an object.
    pub fn check(v: Option<Json>) -> (r: Result<Version, Error>)
        ensures
            r is Ok <==> version_ok(v),
            r is Err ==> r->Err_0.code == ErrorCode::InvalidRequest,
            r is Err ==> r->Err_0.data is None,
            wrong_version(v) is Some ==> r->Err_0.message@ == wrong_version(v)->0,
    {
        match v {
            Some(Json::Str(s)) => {
                let expected = String::from_str("2.0");
                if s == expected {
                    Ok(Version)
                } else {
                    let mut message = String::from_str(
                        "Version string MUST be exactly 2.0, but got `",
                    );
                    message.append(s.as_str());
                    message.append("`");
                    Err(Error { code: ErrorCode::InvalidRequest, message, data: None })
                }
            },
            Some(_) => Err(Error::invalid_request("Version string MUST be exactly 2.0")),
            None => Err(Error::invalid_request("missing field `jsonrpc`")),
        }
    }
}

/// The error object of a failed call.
#[derive(Debug, PartialEq)]
pub struct Error {
    pub code: ErrorCode,
    /// A short description of the error.
    pub message: String,
    /// Additional information, defined by the server.
    pub data: Option<Json>,
}

/// Whether `j` is the JSON object that `e` encodes to: `code`, `message`, and
/// `data` where there is some.
pub open spec fn is_error_object(j: Json, e: Error) -> bool {
    &&& j is Object
    &&& {
        let f = j->Object_0@;
        &&& f.len() == (if e.data is Some {
            3int
        } else {
            2int
        })
        &&& f[0].0@ == "code"@ && f[0].1 == code_json(e.code)
        &&& f[1].0@ == "message"@ && f[1].1 == Json::Str(e.message)
        &&& e.data is Some ==> f[2].0@ == "data"@ && f[2].1 == e.data->0
    }
}

/// The error object that a JSON value decodes to, if any.
pub open spec fn error_of(j: Json) -> Option<Error> {
    match j {
        Json::Object(fields) => {
            let f = fields@;
            match (field_of(f, "code"@), field_of(f, "message"@)) {
                (Some(c), Some(Json::Str(m))) => match code_of_json(c) {
                    Some(code) => Some(Error { code, message: m, data: field_of(f, "data"@) }),
                    None => None,
                },
                _ => None,
            }
        },
        _ => None,
    }
}

impl Error {
    /// An error with the given code and message and no data.
    pub fn new(code: ErrorCode, message: &str) -> (r: Error)
        ensures
            r.code == code,
            r.message@ == message@,
            r.data is None,
    {
        Error { code, message: String::from_str(message), data: None }
    }

    /// An `InvalidRequest` error with the given message.
    pub fn invalid_request(message: &str) -> (r: Error)
        ensures
            r.code == ErrorCode::InvalidRequest,
            r.message@ == message@,
            r.data is None,
    {
        Error::new(ErrorCode::InvalidRequest, message)
    }

    /// Encodes the error object.
    pub fn encode(self) -> (r: Json)
        ensures
            is_error_object(r, self),
    {
        let mut fields: Vec<(String, Json)> = Vec::new();
        fields.push((String::from_str("code"), self.code.to_json()));
        fields.push((String::from_str("message"), Json::Str(self.message)));
        match self.data {
            Some(d) => fields.push((String::from_str("data"), d)),
            None => {},
        }
        Json::Object(fields)
    }

    /// Decodes an error object: it needs a valid `code` and a string
    /// `message`; `data` is kept where present.
    pub fn decode(j: Json) -> (r: Result<Error, Error>)
        ensures
            r is Ok <==> error_of(j) is Some,
            r is Ok ==> r->Ok_0 == error_of(j)->0,
            r is Err ==> r->Err_0.code == ErrorCode::InvalidRequest,
    {
        match j {
            Json::Object(fields) => {
                let m = members(fields);
                let code = match m.code {
                    Some(Json::NegInt(n)) => ErrorCode::from_code(n),
                    _ => None,
                };
                match (code, m.message) {
                    (Some(code), Some(Json::Str(message))) => Ok(
                        Error { code, message, data: m.data },
                    ),
                    (None, _) => Err(Error::invalid_request("Invalid JSONRPC error code")),
                    _ => Err(Error::invalid_request("missing field `message`")),
                }
            },
            _ => Err(Error::invalid_request("invalid type: the error member must be an object")),
        }
    }
}

/// A call or a notification.
#[derive(Debug, PartialEq)]
pub struct Request {
    /// The id of a call; none for a notification.
    pub id: Option<usize>,
    pub jsonrpc: Version,
    pub method: String,
    /// The parameters, forwarded as they are until the handler reads them.
    pub params: Json,
}

/// Whether `j` is the JSON object that `r` encodes to: `jsonrpc`, `method`,
/// `params`, and `id` for a call.
pub open spec fn is_request_object(j: Json, r: Request) -> bool {
    &&& j is Object
    &&& {
        let f = j->Object_0@;
        &&& f.len() == (if r.id is Some {
            4int
        } else {
            3int
        })
        &&& f[0].0@ == "jsonrpc"@ && f[0].1 is Str && f[0].1->Str_0@ == "2.0"@
        &&& f[1].0@ == "method"@ && f[1].1 == Json::Str(r.method)
        &&& f[2].0@ == "params"@ && f[2].1 == r.params
        &&& r.id is Some ==> f[3].0@ == "id"@ && f[3].1 == Json::PosInt(r.id->0 as u64)
    }
}

/// The id that a JSON value stands for: an unsigned integer that fits.
pub open spec fn id_of(j: Json) -> Option<usize> {
    match j {
        Json::PosInt(n) => if n <= usize::MAX {
            Some(n as usize)
        } else {
            None
        },
        _ => None,
    }
}

/// The request that a JSON value decodes to, if any. It must be an object
/// with `jsonrpc` "2.0" and a string `method`; an absent or null `id` makes a
/// notification, and absent `params` stand for null.
pub open spec fn request_of(j: Json) -> Option<Request> {
    match j {
        Json::Object(fields) => {
            let f = fields@;
            let params = match field_of(f, "params"@) {
                Some(p) => p,
                None => Json::Null,
            };
            if !version_ok(field_of(f, "jsonrpc"@)) {
                None
            } else {
                match field_of(f, "method"@) {
                    Some(Json::Str(m)) => match field_of(f, "id"@) {
                        None => Some(Request { id: None, jsonrpc: Version, method: m, params }),
                        Some(Json::Null) => Some(
                            Request { id: None, jsonrpc: Version, method: m, params },
                        ),
                        Some(i) => match id_of(i) {
                            Some(n) => Some(
                                Request { id: Some(n), jsonrpc: Version, method: m, params },
                            ),
                            None => None,
                        },
                    },
                    _ => None,
                }
            }
        },
        _ => None,
    }
}

impl Request {
    pub open spec fn new_spec(id: Option<usize>, method: String, params: Json) -> Request {
        Request { id, jsonrpc: Version, method, params }
    }

    /// A call with the given id, or a notification where there is none.
    pub fn new(id: Option<usize>, method: String, params: Json) -> (r: Request)
        ensures
            r == Request::new_spec(id, method, params),
    {
        Request { id, jsonrpc: Version, method, params }
    }

    /// Encodes the request. A notification has no `id` member.
    pub fn encode(self) -> (r: Json)
        ensures
            is_request_object(r, self),
    {
        let mut fields: Vec<(String, Json)> = Vec::new();
        fields.push((String::from_str("jsonrpc"), self.jsonrpc.to_json()));
        fields.push((String::from_str("method"), Json::Str(self.method)));
        fields.push((String::from_str("params"), self.params));
        match self.id {
            Some(id) => fields.push((String::from_str("id"), Json::PosInt(id as u64))),
            None => {},
        }
        Json::Object(fields)
    }

    /// Decodes a request. Anything but a well-formed request object fails
    /// with `InvalidRequest`.
    pub fn decode(j: Json) -> (r: Result<Request, Error>)
        ensures
            r is Ok <==> request_of(j) is Some,
            r is Ok ==> r->Ok_0 == request_of(j)->0,
            r is Err ==> r->Err_0.code == ErrorCode::InvalidRequest,
            j is Object && wrong_version(field_of(j->Object_0@, "jsonrpc"@)) is Some
                ==> r->Err_0.message@ == wrong_version(field_of(j->Object_0@, "jsonrpc"@))->0,
    {
        match j {
            Json::Object(fields) => {
                let m = members(fields);
                let jsonrpc = match Version::check(m.jsonrpc) {
                    Ok(v) => v,
                    Err(e) => {
                        return Err(e);
                    },
                };
                let params = match m.params {
                    Some(p) => p,
                    None => Json::Null,
                };
                let method = match m.method {
                    Some(Json::Str(s)) => s,
                    Some(_) => {
                        return Err(Error::invalid_request("invalid type: method must be a string"));
                    },
                    None => {
                        return Err(Error::invalid_request("missing field `method`"));
                    },
                };
                let id = match m.id {
                    None => None,
                    Some(Json::Null) => None,
                    Some(Json::PosInt(n)) => {
                        if n <= usize::MAX as u64 {
                            Some(n as usize)
                        } else {
                            return Err(Error::invalid_request("invalid value: id out of range"));
                        }
                    },
                    Some(_) => {
                        return Err(
                            Error::invalid_request("invalid type: id must be an unsigned integer"),
                        );
                    },
                };
                Ok(Request { id, jsonrpc, method, params })
            },
            _ => Err(Error::invalid_request("invalid type: a request must be an object")),
        }
    }
}

/// The reply to a call: exactly one of `result` and `error` is present on a
/// reply that a server sends.
#[derive(Debug, PartialEq)]
pub struct Response {
    pub id: usize,
    pub jsonrpc: Version,
    pub result: Option<Json>,
    pub error: Option<Error>,
}

/// Whether `j` is the JSON object that `r` encodes to: `id`, `jsonrpc`, then
/// `result` and `error` where present.
pub open spec fn is_response_object(j: Json, r: Response) -> bool {
    &&& j is Object
    &&& {
        let f = j->Object_0@;
        let e = if r.result is Some {
            3int
        } else {
            2int
        };
        &&& f.len() == e + (if r.error is Some {
            1int
        } else {
            0int
        })
        &&& f[0].0@ == "id"@ && f[0].1 == Json::PosInt(r.id as u64)
        &&& f[1].0@ == "jsonrpc"@ && f[1].1 is Str && f[1].1->Str_0@ == "2.0"@
        &&& r.result is Some ==> f[2].0@ == "result"@ && f[2].1 == r.result->0
        &&& r.error is Some ==> f[e].0@ == "error"@ && is_error_object(f[e].1, r.error->0)
    }
}

/// The response that a JSON value decodes to, if any. It must be an object
/// with `jsonrpc` "2.0" and an unsigned integer `id`; `result` is kept as it
/// is, and an `error` that is present and not null must be an error object.
pub open spec fn response_of(j: Json) -> Option<Response> {
    match j {
        Json::Object(fields) => {
            let f = fields@;
            if !version_ok(field_of(f, "jsonrpc"@)) {
                None
            } else {
                match field_of(f, "id"@) {
                    Some(i) => match id_of(i) {
                        Some(id) => {
                            let result = field_of(f, "result"@);
                            match field_of(f, "error"@) {
                                None => Some(
                                    Response { id, jsonrpc: Version, result, error: None },
                                ),
                                Some(Json::Null) => Some(
                                    Response { id, jsonrpc: Version, result, error: None },
                                ),
                                Some(e) => match error_of(e) {
                                    Some(err) => Some(
                                        Response { id, jsonrpc: Version, result, error: Some(err) },
                                    ),
                                    None => None,
                                },
                            }
                        },
                        None => None,
                    },
                    None => None,
                }
            }
        },
        _ => None,
    }
}

impl Response {
    /// A successful reply.
    pub fn ok(id: usize, result: Json) -> (r: Response)
        ensures
            r == (Response { id, jsonrpc: Version, result: Some(result), error: None }),
    {
        Response { id, jsonrpc: Version, result: Some(result), error: None }
    }

    /// A failed reply.
    pub fn err(id: usize, error: Error) -> (r: Response)
        ensures
            r == (Response { id, jsonrpc: Version, result: None, error: Some(error) }),
    {
        Response { id, jsonrpc: Version, result: None, error: Some(error) }
    }

    /// Encodes the response; absent members are left out.
    pub fn encode(self) -> (r: Json)
        ensures
            is_response_object(r, self),
    {
        let mut fields: Vec<(String, Json)> = Vec::new();
        fields.push((String::from_str("id"), Json::PosInt(self.id as u64)));
        fields.push((String::from_str("jsonrpc"), self.jsonrpc.to_json()));
        match self.result {
            Some(v) => fields.push((String::from_str("result"), v)),
            None => {},
        }
        match self.error {
            Some(e) => {
                let ej = e.encode();
                fields.push((String::from_str("error"), ej));
            },
            None => {},
        }
        Json::Object(fields)
    }

    /// Decodes a response. Anything but a well-formed response object fails
    /// with `InvalidRequest`.
    pub fn decode(j: Json) -> (r: Result<Response, Error>)
        ensures
            r is Ok <==> response_of(j) is Some,
            r is Ok ==> r->Ok_0 == response_of(j)->0,
            r is Err ==> r->Err_0.code == ErrorCode::InvalidRequest,
            j is Object && wrong_version(field_of(j->Object_0@, "jsonrpc"@)) is Some
                ==> r->Err_0.message@ == wrong_version(field_of(j->Object_0@, "jsonrpc"@))->0,
    {
        match j {
            Json::Object(fields) => {
                let m = members(fields);
                let jsonrpc = match Version::check(m.jsonrpc) {
                    Ok(v) => v,
                    Err(e) => {
                        return Err(e);
                    },
                };
                let id = match m.id {
                    Some(Json::PosInt(n)) => {
                        if n <= usize::MAX as u64 {
                            n as usize
                        } else {
                            return Err(Error::invalid_request("invalid value: id out of range"));
                        }
                    },
                    Some(_) => {
                        return Err(
                            Error::invalid_request("invalid type: id must be an unsigned integer"),
                        );
                    },
                    None => {
                        return Err(Error::invalid_request("missing field `id`"));
                    },
                };
                let error = match m.error {
                    None => None,
                    Some(Json::Null) => None,
                    Some(e) => match Error::decode(e) {
                        Ok(err) => Some(err),
                        Err(bad) => {
                            return Err(bad);
                        },
                    },
                };
                Ok(Response { id, jsonrpc, result: m.result, error })
            },
            _ => Err(Error::invalid_request("invalid type: a response must be an object")),
        }
    }
}

/// Decoding an encoded error object gives the error back, for a valid code.
pub proof fn lemma_error_round_trip(e: Error, j: Json)
    requires
        is_error_object(j, e),
        code_valid(e.code),
    ensures
        error_of(j) == Some(e),
{
    lemma_keys_distinct();
    reveal_with_fuel(field_of, 4);
    let f = j->Object_0@;
    assert(f.drop_first()[0] == f[1]);
    if e.data is Some {
        assert(f.drop_first().drop_first()[0] == f[2]);
    }
}

/// Decoding an encoded request gives the request back.
pub proof fn lemma_request_round_trip(r: Request, j: Json)
    requires
        is_request_object(j, r),
    ensures
        request_of(j) == Some(r),
{
    lemma_keys_distinct();
    reveal_with_fuel(field_of, 5);
    let f = j->Object_0@;
    assert(f.drop_first()[0] == f[1]);
    assert(f.drop_first().drop_first()[0] == f[2]);
    if r.id is Some {
        assert(f.drop_first().drop_first().drop_first()[0] == f[3]);
    }
}

/// Decoding an encoded response gives the response back, for a valid error
/// code.
pub proof fn lemma_response_round_trip(r: Response, j: Json)
    requires
        is_response_object(j, r),
        r.error is Some ==> code_valid(r.error->0.code),
    ensures
        response_of(j) == Some(r),
{
    lemma_keys_distinct();
    reveal_with_fuel(field_of, 5);
    let f = j->Object_0@;
    let e = if r.result is Some {
        3int
    } else {
        2int
    };
    assert(f.drop_first()[0] == f[1]);
    if f.len() > 2 {
        assert(f.drop_first().drop_first()[0] == f[2]);
    }
    if f.len() > 3 {
        assert(f.drop_first().drop_first().drop_first()[0] == f[3]);
    }
    if r.error is Some {
        lemma_error_round_trip(r.error->0, f[e].1);
    }
}

/// An encoded request holds the member `jsonrpc` exactly once, with the value
/// "2.0"; an encoded notification holds no `id` member at all.
pub proof fn lemma_request_members(r: Request, j: Json)
    requires
        is_request_object(j, r),
    ensures
        key_count(j->Object_0@, "jsonrpc"@) == 1,
        version_ok(field_of(j->Object_0@, "jsonrpc"@)),
        r.id is None ==> key_count(j->Object_0@, "id"@) == 0,
        r.id is Some ==> key_count(j->Object_0@, "id"@) == 1,
{
    lemma_keys_distinct();
    reveal_with_fuel(field_of, 5);
    reveal_with_fuel(key_count, 5);
    let f = j->Object_0@;
    assert(f.drop_first()[0] == f[1]);
    assert(f.drop_first().drop_first()[0] == f[2]);
    if r.id is Some {
        assert(f.drop_first().drop_first().drop_first()[0] == f[3]);
        assert(f.drop_first().drop_first().drop_first().drop_first().len() == 0);
    } else {
        assert(f.drop_first().drop_first().drop_first().len() == 0);
    }
}

/// An encoded response holds the member `jsonrpc` exactly once, with the
/// value "2.0".
pub proof fn lemma_response_members(r: Response, j: Json)
    requires
        is_response_object(j, r),
    ensures
        key_count(j->Object_0@, "jsonrpc"@) == 1,
        version_ok(field_of(j->Object_0@, "jsonrpc"@)),
{
    lemma_keys_distinct();
    reveal_with_fuel(field_of, 5);
    reveal_with_fuel(key_count, 5);
    let f = j->Object_0@;
    let d1 = f.drop_first();
    let d2 = d1.drop_first();
    let d3 = d2.drop_first();
    assert(d1[0] == f[1]);
    if f.len() > 2 {
        assert(d2[0] == f[2]);
    }
    if f.len() > 3 {
        assert(d3[0] == f[3]);
        assert(d3.drop_first().len() == 0);
    } else if f.len() > 2 {
        assert(d3.len() == 0);
    } else {
        assert(d2.len() == 0);
    }
}

/// An object whose `jsonrpc` member is absent or other than "2.0" decodes
/// neither as a request nor as a response.
pub proof fn lemma_version_required(j: Json)
    requires
        j is Object,
        !version_ok(field_of(j->Object_0@, "jsonrpc"@)),
    ensures
        request_of(j) is None,
        response_of(j) is None,
{
}

} // verus!
