//! The decisions of a server session: the registry of handler factories,
//! the dispatch of an inbound frame, and the shaping of replies.
use crate::json::{field_of, Json};
use crate::object::{
    id_of, is_response_object, request_of, Error, ErrorCode, Request, Response, Version,
};
use vstd::prelude::*;

verus! {

/// The entry registered under `name` in `s`: the first of that name.
pub open spec fn lookup<H>(s: Seq<(String, H)>, name: Seq<char>) -> Option<H>
    decreases s.len(),
{
    if s.len() == 0 {
        None
    } else if s[0].0@ == name {
        Some(s[0].1)
    } else {
        lookup(s.drop_first(), name)
    }
}

proof fn lemma_lookup_step<H>(s: Seq<(String, H)>, i: int, name: Seq<char>)
    requires
        0 <= i < s.len(),
    ensures
        lookup(s.skip(i), name) == (if s[i].0@ == name {
            Some(s[i].1)
        } else {
            lookup(s.skip(i + 1), name)
        }),
{
    assert(s.skip(i).drop_first() =~= s.skip(i + 1));
}

/// Index of the first entry named `name`, if any.
pub open spec fn first_index<H>(s: Seq<(String, H)>, name: Seq<char>, i: int) -> bool {
    0 <= i < s.len() && s[i].0@ == name && forall|j: int| 0 <= j < i ==> s[j].0@ != name
}

proof fn lemma_lookup_prefix<H>(s: Seq<(String, H)>, name: Seq<char>, i: int)
    requires
        0 <= i <= s.len(),
        forall|j: int| 0 <= j < i ==> s[j].0@ != name,
    ensures
        lookup(s, name) == lookup(s.skip(i), name),
    decreases i,
{
    if i > 0 {
        assert(s.skip(0) =~= s);
        lemma_lookup_prefix(s, name, i - 1);
        lemma_lookup_step(s, i - 1, name);
    } else {
        assert(s.skip(0) =~= s);
    }
}

/// Handler factories by method name. A factory yields a fresh handler for
/// each dispatch.
pub struct HandlerClonerRegister<H> {
    cloners: Vec<(String, H)>,
}

impl<H> Default for HandlerClonerRegister<H> {
    fn default() -> (r: Self)
        ensures
            forall|name: Seq<char>| r.spec_lookup(name) is None,
    {
        HandlerClonerRegister::new()
    }
}

impl<H> HandlerClonerRegister<H> {
    pub closed spec fn spec_entries(&self) -> Seq<(String, H)> {
        self.cloners@
    }

    /// The factory registered under `name`, if any.
    pub open spec fn spec_lookup(&self, name: Seq<char>) -> Option<H> {
        lookup(self.spec_entries(), name)
    }

    /// An empty registry.
    pub fn new() -> (r: Self)
        ensures
            forall|name: Seq<char>| r.spec_lookup(name) is None,
    {
        HandlerClonerRegister { cloners: Vec::new() }
    }

    /// The index of the first entry named `name`, if any.
    fn position(&self, name: &String) -> (r: Option<usize>)
        ensures
            r is Some ==> first_index(self.spec_entries(), name@, r->0 as int),
            r is None ==> self.spec_lookup(name@) is None,
            r is None ==> forall|j: int|
                0 <= j < self.spec_entries().len() ==> self.spec_entries()[j].0@ != name@,
    {
        let mut i: usize = 0;
        while i < self.cloners.len()
            invariant
                i <= self.cloners.len(),
                forall|j: int| 0 <= j < i ==> self.cloners@[j].0@ != name@,
            decreases self.cloners.len() - i,
        {
            if self.cloners[i].0 == *name {
                return Some(i);
            }
            i = i + 1;
        }
        proof {
            lemma_lookup_prefix(self.cloners@, name@, i as int);
            assert(self.cloners@.skip(i as int).len() == 0);
        }
        None
    }

    /// Registers `handler_cloner` under `method_name`, replacing any earlier
    /// factory of that name.
    pub fn register_handler(&mut self, method_name: String, handler_cloner: H)
        ensures
            final(self).spec_lookup(method_name@) == Some(handler_cloner),
            forall|n: Seq<char>|
                n != method_name@ ==> #[trigger] final(self).spec_lookup(n) == old(
                    self,
                ).spec_lookup(n),
    {
        let ghost name = method_name@;
        let ghost s0 = self.cloners@;
        match self.position(&method_name) {
            Some(i) => {
                self.cloners.set(i, (method_name, handler_cloner));
                proof {
                    let s1 = self.cloners@;
                    assert forall|j: int| 0 <= j < i implies s1[j].0@ != name by {}
                    lemma_lookup_prefix(s1, name, i as int);
                    lemma_lookup_step(s1, i as int, name);
                    assert forall|n: Seq<char>| n != name implies #[trigger] lookup(s1, n)
                        == lookup(s0, n) by {
                        lemma_lookup_unchanged(s0, s1, n, i as int);
                    }
                }
            },
            None => {
                self.cloners.push((method_name, handler_cloner));
                proof {
                    let s1 = self.cloners@;
                    assert(s1.subrange(0, s0.len() as int) =~= s0);
                    lemma_lookup_prefix(s1, name, s0.len() as int);
                    lemma_lookup_step(s1, s0.len() as int, name);
                    assert(s1.skip(s0.len() + 1int).len() == 0);
                    assert forall|n: Seq<char>| n != name implies #[trigger] lookup(s1, n)
                        == lookup(s0, n) by {
                        lemma_lookup_push(s0, s1, n);
                    }
                }
            },
        }
    }

    /// The factory registered under `method_name`, if any.
    pub fn clone_from(&self, method_name: &String) -> (r: Option<&H>)
        ensures
            r is Some <==> self.spec_lookup(method_name@) is Some,
            r is Some ==> *r->0 == self.spec_lookup(method_name@)->0,
    {
        match self.position(method_name) {
            Some(i) => {
                proof {
                    lemma_lookup_prefix(self.cloners@, method_name@, i as int);
                    lemma_lookup_step(self.cloners@, i as int, method_name@);
                }
                Some(&self.cloners[i].1)
            },
            None => None,
        }
    }
}

proof fn lemma_lookup_unchanged<H>(s0: Seq<(String, H)>, s1: Seq<(String, H)>, n: Seq<char>, i: int)
    requires
        0 <= i < s0.len(),
        s1.len() == s0.len(),
        s1[i].0@ == s0[i].0@,
        s0[i].0@ != n,
        forall|j: int| 0 <= j < s0.len() && j != i ==> s1[j] == s0[j],
    ensures
        lookup(s1, n) == lookup(s0, n),
    decreases s0.len(),
{
    if i == 0 {
        assert(s1.drop_first() =~= s0.drop_first());
    } else {
        lemma_lookup_unchanged(s0.drop_first(), s1.drop_first(), n, i - 1);
    }
}

proof fn lemma_lookup_push<H>(s0: Seq<(String, H)>, s1: Seq<(String, H)>, n: Seq<char>)
    requires
        s1.len() == s0.len() + 1,
        forall|j: int| 0 <= j < s0.len() ==> s1[j] == s0[j],
        s1[s0.len() as int].0@ != n,
    ensures
        lookup(s1, n) == lookup(s0, n),
    decreases s0.len(),
{
    if s0.len() == 0 {
        assert(s1.drop_first().len() == 0);
    } else {
        lemma_lookup_push(s0.drop_first(), s1.drop_first(), n);
    }
}

/// The parameters as a handler receives them: a one-element array is
/// unwrapped to its element; anything else passes unchanged.
pub open spec fn unwrapped_params(p: Json) -> Json {
    match p {
        Json::Array(v) => if v@.len() == 1 {
            v@[0]
        } else {
            p
        },
        _ => p,
    }
}

/// Unwraps a one-element array of parameters.
pub fn normalize_params(params: Json) -> (r: Json)
    ensures
        r == unwrapped_params(params),
{
    match params {
        Json::Array(mut v) => {
            if v.len() == 1 {
                v.pop().unwrap()
            } else {
                Json::Array(v)
            }
        },
        other => other,
    }
}

/// Where a dispatched request goes.
#[derive(Debug, PartialEq)]
pub enum Dispatch {
    /// Send this frame back, and handle nothing.
    Reply(Json),
    /// Send nothing, and handle nothing.
    Skip,
    /// Run the synchronous handler of `method` on `params`.
    InvokeSync { id: Option<usize>, method: String, params: Json },
    /// Run the asynchronous handler of `method` on `params`.
    InvokeAsync { id: Option<usize>, method: String, params: Json },
}

/// The id that a frame that failed to decode still carries, if any.
pub open spec fn recoverable_id(frame: Json) -> Option<usize> {
    match frame {
        Json::Object(f) => match field_of(f@, "id"@) {
            Some(i) => id_of(i),
            None => None,
        },
        _ => None,
    }
}

/// The message of the error sent for a method that nobody handles.
pub open spec fn not_found_message(method: Seq<char>) -> Seq<char> {
    "Method not found: "@ + method
}

/// The error reply shaped from a handler's error: its code and message.
pub open spec fn is_error_reply(j: Json, id: usize, e: Error) -> bool {
    is_response_object(
        j,
        Response {
            id,
            jsonrpc: Version,
            result: None,
            error: Some(Error { code: e.code, message: e.message, data: None }),
        },
    )
}

/// A server session: the handlers that it dispatches to. The sessions of
/// one server share their registries.
pub struct ServiceSession<S, A> {
    pub methods: HandlerClonerRegister<S>,
    pub async_methods: HandlerClonerRegister<A>,
}

impl<S, A> ServiceSession<S, A> {
    /// Decides what to do with one inbound frame. A frame that is no request
    /// gets a `ParseError` reply where its id can be recovered, and nothing
    /// otherwise; a request for a method that has no handler gets a
    /// `MethodNotFound` reply naming the method, unless it is a notification;
    /// any other request goes to its handler, synchronous ones first, with
    /// its parameters unwrapped.
    pub fn dispatch(&self, frame: Json) -> (r: Dispatch)
        ensures
            match request_of(frame) {
                None => match recoverable_id(frame) {
                    Some(id) => r is Reply && exists|e: Error|
                        e.code == ErrorCode::ParseError && is_error_reply(r->Reply_0, id, e),
                    None => r == Dispatch::Skip,
                },
                Some(req) => if self.methods.spec_lookup(req.method@) is Some {
                    r == Dispatch::InvokeSync {
                        id: req.id,
                        method: req.method,
                        params: unwrapped_params(req.params),
                    }
                } else if self.async_methods.spec_lookup(req.method@) is Some {
                    r == Dispatch::InvokeAsync {
                        id: req.id,
                        method: req.method,
                        params: unwrapped_params(req.params),
                    }
                } else {
                    match req.id {
                        Some(id) => r is Reply && exists|e: Error|
                            e.code == ErrorCode::MethodNotFound && e.message@ == not_found_message(
                                req.method@,
                            ) && is_error_reply(r->Reply_0, id, e),
                        None => r == Dispatch::Skip,
                    }
                },
            },
    {
        let id = crate::client::request_id(&frame);
        match Request::decode(frame) {
            Err(e) => match id {
                Some(id) => {
                    let e3 = Error { code: ErrorCode::ParseError, message: e.message, data: None };
                    let ghost g = e3;
                    let reply = Response::err(id, e3).encode();
                    proof {
                        assert(is_error_reply(reply, id, g));
                    }
                    Dispatch::Reply(reply)
                },
                None => Dispatch::Skip,
            },
            Ok(req) => {
                if self.methods.clone_from(&req.method).is_some() {
                    Dispatch::InvokeSync {
                        id: req.id,
                        method: req.method,
                        params: normalize_params(req.params),
                    }
                } else if self.async_methods.clone_from(&req.method).is_some() {
                    Dispatch::InvokeAsync {
                        id: req.id,
                        method: req.method,
                        params: normalize_params(req.params),
                    }
                } else {
                    match req.id {
                        Some(id) => {
                            let mut message = String::from_str("Method not found: ");
                            message.append(req.method.as_str());
                            let e = Error { code: ErrorCode::MethodNotFound, message, data: None };
                            let ghost g = e;
                            let reply = Response::err(id, e).encode();
                            proof {
                                assert(is_error_reply(reply, id, g));
                            }
                            Dispatch::Reply(reply)
                        },
                        None => Dispatch::Skip,
                    }
                }
            },
        }
    }
}

/// Shapes the reply to a handled request. A call whose handler produced a
/// value gets a success response; one whose handler failed gets an error
/// response with the error's code and message; a handler that produced
/// nothing, and any notification, get no reply.
pub fn reply(id: Option<usize>, outcome: Result<Option<Json>, Error>) -> (r: Option<Json>)
    ensures
        match (id, outcome) {
            (Some(id), Ok(Some(v))) => r is Some && is_response_object(r->0, Response {
                id,
                jsonrpc: Version,
                result: Some(v),
                error: None,
            }),
            (Some(id), Err(e)) => r is Some && is_error_reply(r->0, id, e),
            _ => r is None,
        },
{
    match id {
        Some(id) => match outcome {
            Ok(Some(v)) => Some(Response::ok(id, v).encode()),
            Ok(None) => None,
            Err(e) => Some(
                Response::err(id, Error { code: e.code, message: e.message, data: None }).encode(),
            ),
        },
        None => None,
    }
}

} // verus!
