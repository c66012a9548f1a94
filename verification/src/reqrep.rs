//! Async request/reply gateway with per-request correlation.
//!
//! Arbitrarily many concurrent callers submit requests against one shared
//! bounded queue, and each caller awaits only its own reply. Every submission
//! wraps the request into a [`ReqRepMessage`] envelope carrying a fresh
//! [`MessageId`] and the sender half of a private one-shot reply slot; the
//! matching [`ReplyReceiver`] is handed back to the caller. The service task
//! consumes envelopes in submission order and may fulfill them in any order:
//! each reply travels through its own slot, never another caller's. The slot
//! lifecycle itself is modelled in [`crate::slot`].
//!
//! The queues are the bounded channels of the `futures` crate; the calls into
//! that crate stand behind trusted wrappers below.

use crate::ulid::{ulid_chars, ulid_u128, ulid_u128_into_string, ULID};
use vstd::prelude::*;

verus! {

/// Identifies one logical request/reply API: all messages of one gateway
/// carry the same `ReqRepId`, for tracing and dispatch-table lookups.
#[derive(Debug, Clone, Copy, PartialEq, Eq, Structural, Hash, PartialOrd, Ord)]
pub struct ReqRepId(pub u128);

impl ReqRepId {
    /// Returns the identifier as a ULID.
    pub fn ulid(&self) -> (u: ULID)
        ensures
            u == ULID(self.0),
    {
        ULID(self.0)
    }

    /// The identifier's 26-character Crockford base32 form.
    pub fn to_string(&self) -> (s: String)
        ensures
            s@ == ulid_chars(self.0),
    {
        ulid_u128_into_string(self.0)
    }
}

/// Identifies one specific request within a stream. Generated fresh per
/// submission, time-ordered, never reused.
#[derive(Debug, Clone, Copy, PartialEq, Eq, Structural, Hash, PartialOrd, Ord)]
pub struct MessageId(pub u128);

impl MessageId {
    /// Generates a fresh message identifier.
    pub fn generate() -> MessageId {
        MessageId(ulid_u128())
    }

    /// The identifier's 128-bit value.
    pub fn id(&self) -> (v: u128)
        ensures
            v == self.0,
    {
        self.0
    }

    /// Returns the identifier as a ULID.
    pub fn ulid(&self) -> (u: ULID)
        ensures
            u == ULID(self.0),
    {
        ULID(self.0)
    }

    /// The identifier's 26-character Crockford base32 form.
    pub fn to_string(&self) -> (s: String)
        ensures
            s@ == ulid_chars(self.0),
    {
        ulid_u128_into_string(self.0)
    }
}

/// A send failed because the other side has dropped every handle. Always
/// reported to the caller, never panicked.
#[derive(Debug, Clone, Copy, PartialEq, Eq, Structural)]
pub enum ChannelSendError {
    Disconnected,
}

/// The awaited reply will never arrive: the consumer dropped the envelope
/// without fulfilling the reply slot.
#[derive(Debug, Clone, Copy, PartialEq, Eq, Structural)]
pub enum RecvError {
    Cancelled,
}

#[verifier::external_type_specification]
#[verifier::external_body]
#[verifier::reject_recursive_types(T)]
pub struct ExMpscSender<T>(futures::channel::mpsc::Sender<T>);

#[verifier::external_type_specification]
#[verifier::external_body]
#[verifier::reject_recursive_types(T)]
pub struct ExMpscReceiver<T>(futures::channel::mpsc::Receiver<T>);

#[verifier::external_type_specification]
#[verifier::external_body]
#[verifier::reject_recursive_types(T)]
pub struct ExOneshotSender<T>(futures::channel::oneshot::Sender<T>);

#[verifier::external_type_specification]
#[verifier::external_body]
#[verifier::reject_recursive_types(T)]
pub struct ExOneshotReceiver<T>(futures::channel::oneshot::Receiver<T>);

// the `Future` impl of the oneshot receiver names this type, so Verus must
// have it declared even though no signature here holds it
#[verifier::external_type_specification]
#[verifier::external_body]
pub struct ExCanceled(futures::channel::oneshot::Canceled);

/// Relies on `futures::channel::mpsc::channel`: a bounded queue with `buffer`
/// first-come slots plus one guaranteed slot per sender handle. The queue
/// refuses buffers of a quarter of the address space or more, hence the
/// bound.
#[verifier::external_body]
fn mpsc_channel<T>(buffer: usize) -> (r: (
    futures::channel::mpsc::Sender<T>,
    futures::channel::mpsc::Receiver<T>,
))
    requires
        buffer < usize::MAX / 4,
{
    futures::channel::mpsc::channel(buffer)
}

/// Relies on `futures::SinkExt::send` run to completion: delivers the message
/// into the queue, waiting until the queue has accepted it within its bound
/// (this is the backpressure point); fails only when the receiver end is
/// gone, and then the message is lost.
#[verifier::external_body]
fn mpsc_send_blocking<T>(s: &mut futures::channel::mpsc::Sender<T>, msg: T) -> (r: Result<
    (),
    (),
>) {
    futures::executor::block_on(futures::sink::SinkExt::send(s, msg)).map_err(|_| ())
}

/// Relies on `futures::channel::mpsc::Sender::clone`: another producer handle
/// on the same queue.
#[verifier::external_body]
fn mpsc_sender_clone<T>(s: &futures::channel::mpsc::Sender<T>) -> (r: futures::channel::mpsc::Sender<
    T,
>) {
    s.clone()
}

/// Relies on `futures::channel::oneshot::channel`: the two halves of a fresh
/// single-use slot.
#[verifier::external_body]
fn oneshot_channel<T>() -> (r: (
    futures::channel::oneshot::Sender<T>,
    futures::channel::oneshot::Receiver<T>,
)) {
    futures::channel::oneshot::channel()
}

/// Relies on `futures::channel::oneshot::Sender::send`: hands the value to
/// the receiver half; if the receiver was dropped or closed, the value comes
/// back as the error instead.
#[verifier::external_body]
fn oneshot_send<T>(s: futures::channel::oneshot::Sender<T>, v: T) -> (r: Result<(), T>)
    ensures
        r matches Err(t) ==> t == v,
{
    s.send(v)
}

/// Relies on running the `futures` oneshot receiver future to completion: the
/// fulfilled value, or an error when the sender half was dropped without
/// sending.
#[verifier::external_body]
fn oneshot_recv_blocking<T>(r: futures::channel::oneshot::Receiver<T>) -> (res: Result<T, ()>) {
    futures::executor::block_on(r).map_err(|_| ())
}

/// Relies on `futures::channel::oneshot::Receiver::close`: any later send on
/// the sender half is guaranteed to fail.
#[verifier::external_body]
fn oneshot_close<T>(r: futures::channel::oneshot::Receiver<T>) {
    let mut r = r;
    r.close();
}

/// Message envelope of the request/reply gateway: the request itself, the
/// identifiers correlating it, and the sender half of the private reply slot.
#[verifier::reject_recursive_types(Rep)]
pub struct ReqRepMessage<Req, Rep> {
    reqrep_id: ReqRepId,
    msg_id: MessageId,
    req: Option<Req>,
    rep_sender: futures::channel::oneshot::Sender<Rep>,
}

impl<Req, Rep> ReqRepMessage<Req, Rep> {
    /// Builds the envelope for one submission: it carries the stream and
    /// message identifiers, still holds the request, and owns the sender
    /// half of the private reply slot whose receiver half goes back to the
    /// caller.
    fn new(
        reqrep_id: ReqRepId,
        msg_id: MessageId,
        req: Req,
        rep_sender: futures::channel::oneshot::Sender<Rep>,
    ) -> (m: ReqRepMessage<Req, Rep>)
        ensures
            m.reqrep_id_spec() == reqrep_id,
            m.message_id_spec() == msg_id,
            m.request_spec() == Some(req),
    {
        ReqRepMessage { reqrep_id, msg_id, req: Some(req), rep_sender }
    }

    /// The stream this envelope belongs to.
    pub closed spec fn reqrep_id_spec(&self) -> ReqRepId {
        self.reqrep_id
    }

    /// The identifier of this specific request.
    pub closed spec fn message_id_spec(&self) -> MessageId {
        self.msg_id
    }

    /// The request still held by the envelope, if it has not been taken.
    pub closed spec fn request_spec(&self) -> Option<Req> {
        self.req
    }

    /// Takes the request out of the envelope, transferring ownership. The
    /// request is returned exactly once: every later call yields `None`,
    /// which guards against processing the same envelope twice.
    pub fn take_request(&mut self) -> (r: Option<Req>)
        ensures
            r == old(self).request_spec(),
            final(self).request_spec() is None,
            final(self).message_id_spec() == old(self).message_id_spec(),
            final(self).reqrep_id_spec() == old(self).reqrep_id_spec(),
    {
        self.req.take()
    }

    /// Sends the reply through the envelope's private slot, consuming the
    /// envelope. If the caller has stopped waiting, the failure is reported
    /// as `Disconnected` — a loggable event, never a panic: the work was
    /// done, the caller simply went away.
    pub fn reply(self, rep: Rep) -> (r: Result<(), ChannelSendError>)
        ensures
            r matches Err(e) ==> e == ChannelSendError::Disconnected,
    {
        let ReqRepMessage { rep_sender, .. } = self;
        match oneshot_send(rep_sender, rep) {
            Ok(()) => Ok(()),
            Err(_) => Err(ChannelSendError::Disconnected),
        }
    }

    /// The stream this envelope belongs to.
    pub fn reqrep_id(&self) -> (id: ReqRepId)
        ensures
            id == self.reqrep_id_spec(),
    {
        self.reqrep_id
    }

    /// The identifier of this specific request.
    pub fn message_id(&self) -> (id: MessageId)
        ensures
            id == self.message_id_spec(),
    {
        self.msg_id
    }
}

/// The caller's handle on one in-flight request: the receiver half of the
/// private reply slot, tagged with the request's message identifier.
#[verifier::reject_recursive_types(Rep)]
pub struct ReplyReceiver<Rep> {
    msg_id: MessageId,
    receiver: futures::channel::oneshot::Receiver<Rep>,
}

impl<Rep> ReplyReceiver<Rep> {
    /// The identifier of the request this handle waits for.
    pub closed spec fn message_id_spec(&self) -> MessageId {
        self.msg_id
    }

    /// The identifier of the request this handle waits for. `recv` consumes
    /// the handle, so read the identifier out first if it is needed for
    /// tracing.
    pub fn message_id(&self) -> (id: MessageId)
        ensures
            id == self.message_id_spec(),
    {
        self.msg_id
    }

    /// Waits for the reply. Fails with `Cancelled` when the consumer dropped
    /// the envelope without fulfilling it.
    pub fn recv(self) -> (r: Result<Rep, RecvError>)
        ensures
            r matches Err(e) ==> e == RecvError::Cancelled,
    {
        let ReplyReceiver { receiver, .. } = self;
        match oneshot_recv_blocking(receiver) {
            Ok(rep) => Ok(rep),
            Err(()) => Err(RecvError::Cancelled),
        }
    }

    /// Stops waiting without receiving: any later fulfilment attempt by the
    /// consumer will observe a disconnected slot. Never blocks.
    pub fn close(self) {
        let ReplyReceiver { receiver, .. } = self;
        oneshot_close(receiver);
    }
}

/// Producer-side handle of one request/reply gateway. Cloning is cheap and
/// every clone feeds the same shared bounded queue.
#[verifier::reject_recursive_types(Req)]
#[verifier::reject_recursive_types(Rep)]
pub struct ReqRep<Req, Rep> {
    request_sender: futures::channel::mpsc::Sender<ReqRepMessage<Req, Rep>>,
    reqrep_id: ReqRepId,
}

impl<Req, Rep> ReqRep<Req, Rep> {
    /// The stream identifier this gateway was built with.
    pub closed spec fn reqrep_id_spec(&self) -> ReqRepId {
        self.reqrep_id
    }

    /// Builds a gateway over a bounded queue with `chan_buf_size` shared
    /// slots, returning the producer handle and the consumer's receiver. The
    /// two are the halves of one queue by construction: the sender half is a
    /// private field and this function and `clone` are its only sources. The
    /// receiver yields envelopes in submission order and ends for good once
    /// every producer handle has been dropped.
    pub fn new(reqrep_id: ReqRepId, chan_buf_size: usize) -> (r: (
        ReqRep<Req, Rep>,
        futures::channel::mpsc::Receiver<ReqRepMessage<Req, Rep>>,
    ))
        requires
            chan_buf_size < usize::MAX / 4,
        ensures
            r.0.reqrep_id_spec() == reqrep_id,
    {
        let (request_sender, request_receiver) = mpsc_channel(chan_buf_size);
        (ReqRep { reqrep_id, request_sender }, request_receiver)
    }

    /// Submits a request: wraps it into an envelope with a fresh message
    /// identifier and a private reply slot, and enqueues the envelope,
    /// waiting while the queue is full. On success the caller gets the
    /// receiver half of the slot, carrying the same message identifier as the
    /// envelope. Fails with `Disconnected` when the consumer side is gone.
    pub fn send(&mut self, req: Req) -> (r: Result<ReplyReceiver<Rep>, ChannelSendError>)
        ensures
            final(self).reqrep_id_spec() == old(self).reqrep_id_spec(),
            r matches Err(e) ==> e == ChannelSendError::Disconnected,
    {
        let (rep_sender, rep_receiver) = oneshot_channel::<Rep>();
        let msg_id = MessageId::generate();
        let msg = ReqRepMessage::new(self.reqrep_id, msg_id, req, rep_sender);
        match mpsc_send_blocking(&mut self.request_sender, msg) {
            Ok(()) => Ok(ReplyReceiver { msg_id, receiver: rep_receiver }),
            Err(()) => Err(ChannelSendError::Disconnected),
        }
    }
}

impl<Req, Rep> Clone for ReqRep<Req, Rep> {
    /// Another producer handle on the same stream: same identifier, same
    /// shared queue.
    fn clone(&self) -> (r: Self)
        ensures
            r.reqrep_id_spec() == self.reqrep_id_spec(),
    {
        ReqRep {
            request_sender: mpsc_sender_clone(&self.request_sender),
            reqrep_id: self.reqrep_id,
        }
    }
}

} // verus!
