//! The decisions of a client session: id assignment, request framing, routing
//! of responses to pending calls, and failure of calls when the transport
//! breaks. The loops that move frames run around these.
use crate::callback::{
    cancelled_all, completion_of, is_waiting, settled, taken, CallbackPool, Completion, SlotState,
    Slots,
};
use crate::json::{field_of, find_member, Json};
use crate::object::{
    id_of, is_request_object, response_of, Error, ErrorCode, Request, Response,
};
use vstd::prelude::*;

verus! {

/// What a call resolves to: the result value, or the error.
pub type CallResult = Result<Json, Error>;

/// What a response means for its call: the result where there is one, else
/// the error, else null.
pub open spec fn outcome_of(r: Response) -> CallResult {
    if r.result is Some {
        Ok(r.result->0)
    } else if r.error is Some {
        Err(r.error->0)
    } else {
        Ok(Json::Null)
    }
}

/// What the receive loop does after a frame.
#[derive(Debug, PartialEq, Eq)]
pub enum RecvAction {
    /// Go on with the next frame.
    Continue,
    /// The stream is corrupt: every call was cancelled; stop.
    Stop,
}

/// The state of one look at a pending call.
#[derive(Debug, PartialEq)]
pub enum CallPoll {
    Pending,
    Done(CallResult),
}

/// Whether `e` is an `InternalError` with the message `m`.
pub open spec fn is_internal(e: Error, m: Seq<char>) -> bool {
    e.code == ErrorCode::InternalError && e.message@ == m && e.data is None
}

/// The message that a consumer receives for a call that ended without output.
pub open spec fn ended_message(c: Completion<CallResult>) -> Seq<char> {
    match c {
        Completion::Cancelled => "channel broken"@,
        Completion::TimedOut => "timeout"@,
        _ => "unknown call"@,
    }
}

pub struct ClientSession {
    pending: CallbackPool<CallResult>,
    running: bool,
}

impl ClientSession {
    pub closed spec fn spec_pending(&self) -> Slots<CallResult> {
        self.pending.spec_slots()
    }

    /// The id that the next call gets.
    pub closed spec fn spec_next_id(&self) -> usize {
        self.pending.spec_seq()
    }

    /// Armed timers: timer id to call id.
    pub closed spec fn spec_timers(&self) -> Map<usize, usize> {
        self.pending.spec_timers()
    }

    /// Whether both loops still run; once not, calls are refused.
    pub closed spec fn spec_running(&self) -> bool {
        self.running
    }

    pub closed spec fn wf(&self) -> bool {
        self.pending.wf()
    }

    /// Ids are never reused while the session lives: every call still
    /// registered has an id below the next id, and each call that `send`
    /// registers takes the next id and raises it by one.
    pub proof fn lemma_ids_fresh(&self)
        requires
            self.wf(),
        ensures
            forall|k: usize| #[trigger]
                self.spec_pending().contains_key(k) ==> 1 <= k < self.spec_next_id(),
            !self.spec_pending().contains_key(self.spec_next_id()),
    {
        self.pending.lemma_ids_below_seq();
    }

    /// A running session with no calls; the first id is 1.
    pub fn new() -> (r: Self)
        ensures
            r.wf(),
            r.spec_running(),
            r.spec_next_id() == 1,
            r.spec_pending() == Slots::<CallResult>::empty(),
            r.spec_timers() == Map::<usize, usize>::empty(),
    {
        ClientSession { pending: CallbackPool::new(), running: true }
    }

    /// Whether the session still accepts calls.
    pub fn is_running(&self) -> (r: bool)
        ensures
            r == self.spec_running(),
    {
        self.running
    }

    /// Registers a call and frames its request. The call gets the next id,
    /// which no earlier call had; the frame is that request encoded. A
    /// session that no longer runs, or has no id left, refuses the call.
    pub fn send(&mut self, method: String, params: Json) -> (r: Result<(usize, Json), Error>)
        requires
            old(self).wf(),
        ensures
            final(self).wf(),
            final(self).spec_running() == old(self).spec_running(),
            final(self).spec_timers() == old(self).spec_timers(),
            r is Ok <==> old(self).spec_running() && old(self).spec_next_id() < usize::MAX,
            r is Ok ==> {
                let (id, frame) = r->Ok_0;
                &&& id == old(self).spec_next_id()
                &&& final(self).spec_next_id() == id + 1
                &&& !old(self).spec_pending().contains_key(id)
                &&& final(self).spec_pending() == old(self).spec_pending().insert(
                    id,
                    SlotState::Waiting,
                )
                &&& is_request_object(frame, Request::new_spec(Some(id), method, params))
            },
            r is Err ==> is_internal(r->Err_0, "send channel broken"@),
            r is Err ==> final(self).spec_pending() == old(self).spec_pending()
                && final(self).spec_next_id() == old(self).spec_next_id(),
    {
        if !self.running || self.pending.next_id() == usize::MAX {
            return Err(Error::new(ErrorCode::InternalError, "send channel broken"));
        }
        let call = self.pending.join();
        let frame = Request::new(Some(call.id), method, params).encode();
        Ok((call.id, frame))
    }

    /// As `send`, and binds the call to `timer`: when that timer fires, the
    /// call fails with a timeout.
    pub fn send_with_timer(&mut self, method: String, params: Json, timer: usize) -> (r: Result<
        (usize, Json),
        Error,
    >)
        requires
            old(self).wf(),
        ensures
            final(self).wf(),
            final(self).spec_running() == old(self).spec_running(),
            r is Ok <==> old(self).spec_running() && old(self).spec_next_id() < usize::MAX,
            r is Ok ==> {
                let (id, frame) = r->Ok_0;
                &&& id == old(self).spec_next_id()
                &&& final(self).spec_next_id() == id + 1
                &&& !old(self).spec_pending().contains_key(id)
                &&& final(self).spec_pending() == old(self).spec_pending().insert(
                    id,
                    SlotState::Waiting,
                )
                &&& final(self).spec_timers() == old(self).spec_timers().insert(timer, id)
                &&& is_request_object(frame, Request::new_spec(Some(id), method, params))
            },
            r is Err ==> is_internal(r->Err_0, "send channel broken"@),
            r is Err ==> final(self).spec_pending() == old(self).spec_pending()
                && final(self).spec_next_id() == old(self).spec_next_id()
                && final(self).spec_timers() == old(self).spec_timers(),
    {
        if !self.running || self.pending.next_id() == usize::MAX {
            return Err(Error::new(ErrorCode::InternalError, "send channel broken"));
        }
        let call = self.pending.join_with_timer(timer);
        let frame = Request::new(Some(call.id), method, params).encode();
        Ok((call.id, frame))
    }

    /// Frames a notification: a request without id, which registers nothing.
    pub fn notification(&self, method: String, params: Json) -> (r: Result<Json, Error>)
        ensures
            r is Ok <==> self.spec_running(),
            r is Ok ==> is_request_object(r->Ok_0, Request::new_spec(None, method, params)),
            r is Err ==> is_internal(r->Err_0, "send channel broken"@),
    {
        if !self.running {
            return Err(Error::new(ErrorCode::InternalError, "send channel broken"));
        }
        Ok(Request::new(None, method, params).encode())
    }

    /// Handles one frame from the transport input. A response completes the
    /// call whose id it carries, if that call still waits, and anything else
    /// is dropped; a frame that is no response cancels every call and stops
    /// the session.
    pub fn on_frame(&mut self, frame: Json) -> (r: RecvAction)
        requires
            old(self).wf(),
        ensures
            final(self).wf(),
            final(self).spec_next_id() == old(self).spec_next_id(),
            final(self).spec_timers() == old(self).spec_timers(),
            match response_of(frame) {
                Some(resp) => {
                    &&& r == RecvAction::Continue
                    &&& final(self).spec_running() == old(self).spec_running()
                    &&& final(self).spec_pending() == settled(
                        old(self).spec_pending(),
                        resp.id,
                        SlotState::Ready(outcome_of(resp)),
                    )
                },
                None => {
                    &&& r == RecvAction::Stop
                    &&& !final(self).spec_running()
                    &&& final(self).spec_pending() == cancelled_all(old(self).spec_pending())
                },
            },
    {
        match Response::decode(frame) {
            Ok(resp) => {
                let id = resp.id;
                let outcome = match resp.result {
                    Some(v) => Ok(v),
                    None => match resp.error {
                        Some(e) => Err(e),
                        None => Ok(Json::Null),
                    },
                };
                self.pending.complete(id, outcome);
                RecvAction::Continue
            },
            Err(_) => {
                self.close();
                RecvAction::Stop
            },
        }
    }

    /// The transport input ended or failed, or a loop stopped: every call
    /// that still waits fails with "channel broken", and later calls are
    /// refused.
    pub fn close(&mut self)
        requires
            old(self).wf(),
        ensures
            final(self).wf(),
            !final(self).spec_running(),
            final(self).spec_pending() == cancelled_all(old(self).spec_pending()),
            final(self).spec_next_id() == old(self).spec_next_id(),
            final(self).spec_timers() == old(self).spec_timers(),
    {
        self.pending.cancel_all();
        self.running = false;
    }

    /// The transport output refused `frame`: the call that it carries, if
    /// any, fails with "send failed", then the session closes.
    pub fn on_send_failed(&mut self, frame: &Json)
        requires
            old(self).wf(),
        ensures
            final(self).wf(),
            !final(self).spec_running(),
            final(self).spec_next_id() == old(self).spec_next_id(),
            final(self).spec_timers() == old(self).spec_timers(),
            match frame_id(*frame) {
                Some(id) => exists|e: Error|
                    is_internal(e, "send failed"@) && final(self).spec_pending() == cancelled_all(
                        settled(old(self).spec_pending(), id, SlotState::Ready(Err(e))),
                    ),
                None => final(self).spec_pending() == cancelled_all(old(self).spec_pending()),
            },
    {
        match request_id(frame) {
            Some(id) => {
                let e = Error::new(ErrorCode::InternalError, "send failed");
                let ghost ge = e;
                self.pending.complete(id, Err(e));
                self.close();
                assert(is_internal(ge, "send failed"@));
            },
            None => {
                self.close();
            },
        }
    }

    /// Fails the call `id` with a timeout if it still waits.
    pub fn time_out(&mut self, id: usize)
        requires
            old(self).wf(),
        ensures
            final(self).wf(),
            final(self).spec_running() == old(self).spec_running(),
            final(self).spec_pending() == settled(old(self).spec_pending(), id, SlotState::TimedOut),
            final(self).spec_next_id() == old(self).spec_next_id(),
            final(self).spec_timers() == old(self).spec_timers(),
    {
        self.pending.time_out(id);
    }

    /// Routes the expiry of `timer` to the call that it guards.
    pub fn fire_timer(&mut self, timer: usize)
        requires
            old(self).wf(),
        ensures
            final(self).wf(),
            final(self).spec_running() == old(self).spec_running(),
            final(self).spec_next_id() == old(self).spec_next_id(),
            final(self).spec_timers() == old(self).spec_timers().remove(timer),
            old(self).spec_timers().contains_key(timer) ==> final(self).spec_pending() == settled(
                old(self).spec_pending(),
                old(self).spec_timers()[timer],
                SlotState::TimedOut,
            ),
            !old(self).spec_timers().contains_key(timer) ==> final(self).spec_pending() == old(
                self,
            ).spec_pending(),
    {
        self.pending.fire_timer(timer);
    }

    /// The caller gave up on the call `id`: its slot is released.
    pub fn abandon(&mut self, id: usize)
        requires
            old(self).wf(),
        ensures
            final(self).wf(),
            final(self).spec_running() == old(self).spec_running(),
            final(self).spec_pending() == old(self).spec_pending().remove(id),
            final(self).spec_next_id() == old(self).spec_next_id(),
            final(self).spec_timers() == old(self).spec_timers(),
    {
        self.pending.abandon(id);
    }

    /// Looks at the call `id`. A waiting call stays pending; otherwise the
    /// call is released and resolves to its output, or to an `InternalError`
    /// with "channel broken" (cancelled), "timeout" (timed out) or "unknown
    /// call" (no such call).
    pub fn poll(&mut self, id: usize) -> (r: CallPoll)
        requires
            old(self).wf(),
        ensures
            final(self).wf(),
            final(self).spec_running() == old(self).spec_running(),
            final(self).spec_pending() == taken(old(self).spec_pending(), id),
            final(self).spec_next_id() == old(self).spec_next_id(),
            final(self).spec_timers() == old(self).spec_timers(),
            ({
                let c = completion_of(old(self).spec_pending(), id);
                match c {
                    Completion::Pending => r == CallPoll::Pending,
                    Completion::Ready(o) => r == CallPoll::Done(o),
                    _ => r is Done && r->Done_0 is Err && is_internal(
                        r->Done_0->Err_0,
                        ended_message(c),
                    ),
                }
            }),
    {
        match self.pending.poll(id) {
            Completion::Pending => CallPoll::Pending,
            Completion::Ready(o) => CallPoll::Done(o),
            Completion::Cancelled => CallPoll::Done(
                Err(Error::new(ErrorCode::InternalError, "channel broken")),
            ),
            Completion::TimedOut => CallPoll::Done(
                Err(Error::new(ErrorCode::InternalError, "timeout")),
            ),
            Completion::Unknown => CallPoll::Done(
                Err(Error::new(ErrorCode::InternalError, "unknown call")),
            ),
        }
    }
}

/// The id that a framed request carries, if any.
pub open spec fn frame_id(frame: Json) -> Option<usize> {
    match frame {
        Json::Object(f) => match field_of(f@, "id"@) {
            Some(i) => id_of(i),
            None => None,
        },
        _ => None,
    }
}

/// Recovers the id of a framed request.
pub fn request_id(frame: &Json) -> (r: Option<usize>)
    ensures
        r == frame_id(*frame),
{
    match frame {
        Json::Object(fields) => match find_member(fields, "id") {
            Some(Json::PosInt(n)) => {
                if *n <= usize::MAX as u64 {
                    Some(*n as usize)
                } else {
                    None
                }
            },
            _ => None,
        },
        _ => None,
    }
}

/// A response is routed by its id alone: it settles at most the call that
/// carries its id, with the outcome that it holds, and leaves what every
/// other call will resolve to unchanged.
pub proof fn lemma_response_routed_by_id(m: Slots<CallResult>, resp: Response, id: usize)
    ensures
        id != resp.id ==> completion_of(
            settled(m, resp.id, SlotState::Ready(outcome_of(resp))),
            id,
        ) == completion_of(m, id),
        is_waiting(m, id) && id == resp.id ==> completion_of(
            settled(m, resp.id, SlotState::Ready(outcome_of(resp))),
            id,
        ) == Completion::Ready(outcome_of(resp)),
        !is_waiting(m, id) ==> completion_of(
            settled(m, resp.id, SlotState::Ready(outcome_of(resp))),
            id,
        ) == completion_of(m, id),
{
}

} // verus!
