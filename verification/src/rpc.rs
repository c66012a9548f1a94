//! Synchronous request/reply worker-pool model.
//!
//! [`channels`] builds one bounded request stream and one bounded reply
//! stream, shared between a client-side handle and a service-side handle.
//! Any number of workers bind to the service side and compete to drain the
//! request stream; replies go onto the shared reply stream in completion
//! order, with no per-request correlation (a caller must keep at most one
//! request outstanding at a time for request/reply pairing to hold).
//!
//! Sending on a full stream blocks the caller until space frees: a stalled
//! worker pool stalls producers instead of buffering without bound. A worker
//! keeps processing until the request stream is abandoned by every producer
//! *and* drained empty, so no accepted request is lost on shutdown; a reply
//! that nobody can consume any more is discarded, which is not fatal.
//!
//! The streams are the bounded channels of the `crossbeam` crate; the calls
//! into that crate stand behind trusted wrappers below. Spawning the worker
//! threads themselves is left to the caller, who drives [`process_next`] in
//! a loop from a thread of their own.

use crate::ulid::{
    lemma_ulid_round_trip, ulid_chars, ulid_u128, ulid_u128_into_string, valid_ulid_chars,
};
use vstd::prelude::*;

verus! {

#[verifier::external_type_specification]
#[verifier::external_body]
#[verifier::reject_recursive_types(T)]
pub struct ExCbSender<T>(crossbeam::channel::Sender<T>);

#[verifier::external_type_specification]
#[verifier::external_body]
#[verifier::reject_recursive_types(T)]
pub struct ExCbReceiver<T>(crossbeam::channel::Receiver<T>);

/// Relies on `crossbeam::channel::bounded`: one fresh stream holding at most
/// `cap` messages, its two halves handed back; with a capacity of zero every
/// send is a rendezvous with a receive. The call refuses capacities of a
/// quarter of the address space and more, hence the bound.
#[verifier::external_body]
fn cb_bounded<T>(cap: usize) -> (r: (crossbeam::channel::Sender<T>, crossbeam::channel::Receiver<T>))
    requires
        cap <= usize::MAX / 4,
{
    crossbeam::channel::bounded(cap)
}

/// Relies on `crossbeam::channel::Sender::send`: blocks while the stream is
/// full (backpressure); fails only when every receiver is gone, handing the
/// message back untouched.
#[verifier::external_body]
fn cb_send<T>(s: &crossbeam::channel::Sender<T>, msg: T) -> (r: Result<(), T>)
    ensures
        r matches Err(m) ==> m == msg,
{
    s.send(msg).map_err(|e| e.0)
}

/// Relies on `crossbeam::channel::Receiver::recv`: blocks until a message
/// arrives, and yields `None` only once the stream is both abandoned by every
/// sender and drained empty — messages already accepted are still delivered
/// after the senders are gone.
#[verifier::external_body]
fn cb_recv<T>(r: &crossbeam::channel::Receiver<T>) -> (msg: Option<T>) {
    r.recv().ok()
}

/// Relies on `crossbeam::channel::Sender::clone`: another sender handle on
/// the same stream, with the same bound.
#[verifier::external_body]
fn cb_sender_clone<T>(s: &crossbeam::channel::Sender<T>) -> (r: crossbeam::channel::Sender<T>) {
    s.clone()
}

/// Relies on `crossbeam::channel::Receiver::clone`: another receiver handle
/// on the same stream, with the same bound.
#[verifier::external_body]
fn cb_receiver_clone<T>(r: &crossbeam::channel::Receiver<T>) -> (c: crossbeam::channel::Receiver<
    T,
>) {
    r.clone()
}

/// Message handler implementing a request/reply protocol: transforms one
/// request message into one reply message, keeping whatever private state it
/// likes between invocations. Each worker owns its own instance, so handlers
/// never share mutable state.
pub trait MessageProcessor<Req, Rep>: Sized {
    /// Processes the request message and returns a reply message.
    fn process(&mut self, req: Req) -> Rep;
}

/// Constructs fresh [`MessageProcessor`] instances on demand, one per worker.
pub trait MessageProcessorFactory<T, Req, Rep> where T: MessageProcessor<Req, Rep> {
    /// Returns a new MessageProcessor instance.
    fn new(&self) -> T;
}

/// Service-side handle of one channel pair: receives requests, sends
/// replies. The handle carries the capacities its streams were built with.
#[derive(Debug)]
#[verifier::reject_recursive_types(Req)]
#[verifier::reject_recursive_types(Rep)]
pub struct MessageServiceChannel<Req, Rep> {
    request_channel: crossbeam::channel::Receiver<Req>,
    reply_channel: crossbeam::channel::Sender<Rep>,
    request_cap: usize,
    reply_cap: usize,
}

impl<Req, Rep> MessageServiceChannel<Req, Rep> {
    /// The bound of the request stream this handle drains.
    pub closed spec fn request_bound(&self) -> usize {
        self.request_cap
    }

    /// The bound of the reply stream this handle feeds.
    pub closed spec fn reply_bound(&self) -> usize {
        self.reply_cap
    }

    /// The bound of the request stream this handle drains.
    pub fn request_capacity(&self) -> (cap: usize)
        ensures
            cap == self.request_bound(),
    {
        self.request_cap
    }

    /// The bound of the reply stream this handle feeds.
    pub fn reply_capacity(&self) -> (cap: usize)
        ensures
            cap == self.reply_bound(),
    {
        self.reply_cap
    }

    /// Used by the service to receive messages.
    pub fn receiver(&self) -> &crossbeam::channel::Receiver<Req> {
        &self.request_channel
    }

    /// Used by the service to send replies.
    pub fn sender(&self) -> &crossbeam::channel::Sender<Rep> {
        &self.reply_channel
    }

    /// Receives the next request, blocking while the request stream is
    /// empty. Yields `None` only once every producer is gone and the stream
    /// is drained, so no accepted request is lost on producer shutdown.
    pub fn recv_request(&self) -> Option<Req> {
        cb_recv(&self.request_channel)
    }

    /// Sends one reply, blocking while the reply stream is full. When every
    /// reply receiver is gone the reply comes back as the error: nobody can
    /// consume it, and the caller decides whether that matters.
    pub fn send_reply(&self, reply: Rep) -> (r: Result<(), Rep>)
        ensures
            r matches Err(m) ==> m == reply,
    {
        cb_send(&self.reply_channel, reply)
    }
}

impl<Req, Rep> Clone for MessageServiceChannel<Req, Rep> {
    /// Another handle on the same two streams, for one more worker.
    fn clone(&self) -> (r: Self)
        ensures
            r.request_bound() == self.request_bound(),
            r.reply_bound() == self.reply_bound(),
    {
        MessageServiceChannel {
            request_channel: cb_receiver_clone(&self.request_channel),
            reply_channel: cb_sender_clone(&self.reply_channel),
            request_cap: self.request_cap,
            reply_cap: self.reply_cap,
        }
    }
}

/// Client-side handle of one channel pair: sends requests, receives replies.
/// The handle carries the capacities its streams were built with.
#[derive(Debug)]
#[verifier::reject_recursive_types(Req)]
#[verifier::reject_recursive_types(Rep)]
pub struct MessageClientChannel<Req, Rep> {
    request_channel: crossbeam::channel::Sender<Req>,
    reply_channel: crossbeam::channel::Receiver<Rep>,
    request_cap: usize,
    reply_cap: usize,
}

impl<Req, Rep> MessageClientChannel<Req, Rep> {
    /// The bound of the request stream this handle feeds.
    pub closed spec fn request_bound(&self) -> usize {
        self.request_cap
    }

    /// The bound of the reply stream this handle drains.
    pub closed spec fn reply_bound(&self) -> usize {
        self.reply_cap
    }

    /// The bound of the request stream this handle feeds.
    pub fn request_capacity(&self) -> (cap: usize)
        ensures
            cap == self.request_bound(),
    {
        self.request_cap
    }

    /// The bound of the reply stream this handle drains.
    pub fn reply_capacity(&self) -> (cap: usize)
        ensures
            cap == self.reply_bound(),
    {
        self.reply_cap
    }

    /// Used by the client to send requests.
    pub fn sender(&self) -> &crossbeam::channel::Sender<Req> {
        &self.request_channel
    }

    /// Used by the client to receive replies.
    pub fn receiver(&self) -> &crossbeam::channel::Receiver<Rep> {
        &self.reply_channel
    }

    /// Sends one request, blocking while the request stream is full: a slow
    /// worker pool stalls its producers instead of buffering without bound.
    /// When every worker is gone the request comes back as the error.
    pub fn send(&self, request: Req) -> (r: Result<(), Req>)
        ensures
            r matches Err(m) ==> m == request,
    {
        cb_send(&self.request_channel, request)
    }

    /// Receives the next available reply, blocking while the reply stream is
    /// empty; replies are handed out in completion order, not submission
    /// order. Yields `None` only once every service handle is gone and the
    /// stream is drained.
    pub fn recv_reply(&self) -> Option<Rep> {
        cb_recv(&self.reply_channel)
    }
}

impl<Req, Rep> Clone for MessageClientChannel<Req, Rep> {
    /// Another handle on the same two streams, for one more caller.
    fn clone(&self) -> (r: Self)
        ensures
            r.request_bound() == self.request_bound(),
            r.reply_bound() == self.reply_bound(),
    {
        MessageClientChannel {
            request_channel: cb_sender_clone(&self.request_channel),
            reply_channel: cb_receiver_clone(&self.reply_channel),
            request_cap: self.request_cap,
            reply_cap: self.reply_cap,
        }
    }
}

/// Constructs a pair of request/reply channels:
///
/// ```text
///     client ---req--> service
///     client <--rep--- service
/// ```
///
/// Each stream is bounded by the matching capacity: sending blocks while the
/// stream is full. The two handles hold opposite halves of the same two
/// streams — the fields are private and this function and `clone` are the
/// only constructors, so mismatched halves cannot be assembled. Both handles
/// report the capacities the pair was built with. Capacities of a quarter of
/// the address space and more are refused by the underlying channel, hence
/// the bounds.
pub fn channels<Req, Rep>(req_cap: usize, rep_cap: usize) -> (r: (
    MessageClientChannel<Req, Rep>,
    MessageServiceChannel<Req, Rep>,
))
    requires
        req_cap <= usize::MAX / 4,
        rep_cap <= usize::MAX / 4,
    ensures
        r.0.request_bound() == req_cap,
        r.1.request_bound() == req_cap,
        r.0.reply_bound() == rep_cap,
        r.1.reply_bound() == rep_cap,
{
    let (request_sender, request_receiver) = cb_bounded::<Req>(req_cap);
    let (reply_sender, reply_receiver) = cb_bounded::<Rep>(rep_cap);
    (
        MessageClientChannel {
            request_channel: request_sender,
            reply_channel: reply_receiver,
            request_cap: req_cap,
            reply_cap: rep_cap,
        },
        MessageServiceChannel {
            request_channel: request_receiver,
            reply_channel: reply_sender,
            request_cap: req_cap,
            reply_cap: rep_cap,
        },
    )
}

/// What one worker step does with the value the request stream yielded: a
/// dequeued request is processed exactly once and its reply offered to the
/// reply stream; a failed reply send (every receiver gone) is swallowed,
/// never fatal. The step says to continue exactly when the stream yielded a
/// request — so the binding loop goes on through reply failures, and stops
/// only on `None`, which the request stream yields only once abandoned by
/// every producer and drained empty.
pub fn process_dequeued<Req, Rep, P: MessageProcessor<Req, Rep>>(
    processor: &mut P,
    channels: &MessageServiceChannel<Req, Rep>,
    msg: Option<Req>,
) -> (more: bool)
    ensures
        more == (msg is Some),
{
    match msg {
        Some(req) => {
            let rep = processor.process(req);
            // the reply stream has no receivers left: the reply is dropped,
            // and the worker keeps draining
            let _ = channels.send_reply(rep);
            true
        },
        None => false,
    }
}

/// One step of a worker bound to the service side: receives the next request
/// (blocking while the stream is empty) and hands it to [`process_dequeued`].
/// Returns `false` exactly when the request stream has been abandoned by
/// every producer and drained empty: the binding loop driving this step then
/// terminates, with no accepted request left unprocessed.
pub fn process_next<Req, Rep, P: MessageProcessor<Req, Rep>>(
    processor: &mut P,
    channels: &MessageServiceChannel<Req, Rep>,
) -> bool {
    let msg = channels.recv_request();
    process_dequeued(processor, channels, msg)
}

/// Whitespace, as far as blank thread names are concerned: the characters
/// with the Unicode `White_Space` property.
pub open spec fn is_space_char(c: char) -> bool {
    c == '\u{9}' || c == '\u{a}' || c == '\u{b}' || c == '\u{c}' || c == '\u{d}' || c == ' '
        || c == '\u{85}' || c == '\u{a0}' || c == '\u{1680}' || c == '\u{2000}' || c == '\u{2001}'
        || c == '\u{2002}' || c == '\u{2003}' || c == '\u{2004}' || c == '\u{2005}'
        || c == '\u{2006}' || c == '\u{2007}' || c == '\u{2008}' || c == '\u{2009}'
        || c == '\u{200a}' || c == '\u{2028}' || c == '\u{2029}' || c == '\u{202f}'
        || c == '\u{205f}' || c == '\u{3000}'
}

/// Whether one character is whitespace.
fn is_space_char_exec(c: char) -> (b: bool)
    ensures
        b == is_space_char(c),
{
    match c {
        '\u{9}' | '\u{a}' | '\u{b}' | '\u{c}' | '\u{d}' | ' ' | '\u{85}' | '\u{a0}' | '\u{1680}'
            | '\u{2000}' | '\u{2001}' | '\u{2002}' | '\u{2003}' | '\u{2004}' | '\u{2005}'
            | '\u{2006}' | '\u{2007}' | '\u{2008}' | '\u{2009}' | '\u{200a}' | '\u{2028}'
            | '\u{2029}' | '\u{202f}' | '\u{205f}' | '\u{3000}' => true,
        _ => false,
    }
}

/// A name is blank when every character is whitespace; in particular the
/// empty name is blank.
pub open spec fn is_blank(s: Seq<char>) -> bool {
    forall|i: int| 0 <= i < s.len() ==> is_space_char(s[i])
}

fn is_blank_exec(name: &str) -> (b: bool)
    ensures
        b == is_blank(name@),
{
    let len = name.unicode_len();
    let mut i: usize = 0;
    while i < len
        invariant
            i <= len,
            len == name@.len(),
            forall|j: int| 0 <= j < i ==> is_space_char(name@[j]),
        decreases len - i,
    {
        let c = name.get_char(i);
        if !is_space_char_exec(c) {
            assert(!is_space_char(name@[i as int]));
            return false;
        }
        i = i + 1;
    }
    true
}

/// No generated identifier string is blank: its first character comes from
/// the Crockford alphabet, which holds no whitespace.
proof fn lemma_generated_name_not_blank(v: u128)
    ensures
        !is_blank(ulid_chars(v)),
{
    assert(!is_space_char(ulid_chars(v)[0]));
}

/// Configuration for the thread backing one worker.
#[derive(Debug, Clone, Eq, PartialEq)]
pub struct ThreadConfig {
    name: String,
    stack_size: Option<usize>,
}

impl ThreadConfig {
    /// The thread name. Never blank: the execution environment refuses to
    /// create a thread with an empty name.
    pub closed spec fn name_spec(&self) -> Seq<char> {
        self.name@
    }

    /// The requested stack size in bytes, if any; always positive.
    pub closed spec fn stack_size_spec(&self) -> Option<usize> {
        self.stack_size
    }

    /// The configuration is fit to create a thread from.
    pub open spec fn wf(&self) -> bool {
        &&& !is_blank(self.name_spec())
        &&& (self.stack_size_spec() matches Some(size) ==> size >= 1)
    }

    /// Constructor.
    /// - if the name is blank it is replaced with a generated identifier,
    ///   because creating a system thread with a blank name is disallowed by
    ///   the execution environment and the caller should not have to handle
    ///   that as an error
    pub fn new(name: &str) -> (config: ThreadConfig)
        ensures
            config.wf(),
            !is_blank(name@) ==> config.name_spec() == name@,
            is_blank(name@) ==> valid_ulid_chars(config.name_spec()),
            config.stack_size_spec() is None,
    {
        let name = if is_blank_exec(name) {
            let v = ulid_u128();
            proof {
                lemma_generated_name_not_blank(v);
                lemma_ulid_round_trip(v);
            }
            ulid_u128_into_string(v)
        } else {
            name.to_owned()
        };
        ThreadConfig { name, stack_size: None }
    }

    /// Sets the size of the stack (in bytes) for the new thread. The actual
    /// stack size may be greater if the platform demands a minimal one.
    pub fn set_stack_size(self, stack_size: usize) -> (config: ThreadConfig)
        requires
            stack_size >= 1,
        ensures
            config.name_spec() == self.name_spec(),
            config.stack_size_spec() == Some(stack_size),
            self.wf() ==> config.wf(),
    {
        let mut config = self;
        config.stack_size = Some(stack_size);
        config
    }

    /// The configured thread name.
    pub fn name(&self) -> (name: &str)
        ensures
            name@ == self.name_spec(),
    {
        self.name.as_str()
    }

    /// The configured stack size in bytes, if any.
    pub fn stack_size(&self) -> (size: Option<usize>)
        ensures
            size == self.stack_size_spec(),
    {
        self.stack_size
    }
}

} // verus!
