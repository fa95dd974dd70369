//! A channel that is either blocking or async, chosen by the `ASYNC`
//! parameter: the blocking flavour runs on crossbeam-channel, the async one on
//! async-channel. An async operation hands back the channel's future for the
//! caller to await.

use vstd::prelude::*;
use crossbeam_channel::Receiver as BlockingReceiver;
use crossbeam_channel::Sender as BlockingSender;
use async_channel::Receiver as AsyncReceiver;
use async_channel::Sender as AsyncSender;
use async_channel::Recv as RecvFuture;
use async_channel::Send as SendFuture;
use async_channel::RecvError as AsyncRecvError;
use async_channel::SendError as AsyncSendError;

verus! {

/// crossbeam_channel::Sender, held opaquely.
#[verifier::external_type_specification]
#[verifier::external_body]
#[verifier::reject_recursive_types(T)]
pub struct ExBlockingSender<T>(BlockingSender<T>);

/// crossbeam_channel::Receiver, held opaquely.
#[verifier::external_type_specification]
#[verifier::external_body]
#[verifier::reject_recursive_types(T)]
pub struct ExBlockingReceiver<T>(BlockingReceiver<T>);

/// async_channel::Sender, held opaquely.
#[verifier::external_type_specification]
#[verifier::external_body]
#[verifier::reject_recursive_types(T)]
pub struct ExAsyncSender<T>(AsyncSender<T>);

/// async_channel::Receiver, held opaquely.
#[verifier::external_type_specification]
#[verifier::external_body]
#[verifier::reject_recursive_types(T)]
pub struct ExAsyncReceiver<T>(AsyncReceiver<T>);

/// async_channel::Send, the future returned by `send`, handed to the caller.
#[verifier::external_type_specification]
#[verifier::external_body]
#[verifier::reject_recursive_types(T)]
pub struct ExSendFuture<'a, T>(SendFuture<'a, T>);

/// async_channel::Recv, the future returned by `recv`, handed to the caller.
#[verifier::external_type_specification]
#[verifier::external_body]
#[verifier::reject_recursive_types(T)]
pub struct ExRecvFuture<'a, T>(RecvFuture<'a, T>);

/// async_channel::SendError, the output of the send future.
#[verifier::external_type_specification]
#[verifier::external_body]
#[verifier::reject_recursive_types(T)]
pub struct ExAsyncSendError<T>(AsyncSendError<T>);

/// async_channel::RecvError, the error output of the receive future.
#[verifier::external_type_specification]
#[verifier::external_body]
pub struct ExAsyncRecvError(AsyncRecvError);

/// A bounded channel of `T` with capacity `cap` can be built: its buffer,
/// one slot per message holding the message and a stamp, padded to the
/// message's alignment, stays within `isize::MAX` bytes.
pub open spec fn capacity_fits<T>(cap: usize) -> bool {
    cap * (vstd::layout::size_of::<T>() + vstd::layout::align_of::<T>() + 16) <= isize::MAX
}

/// Relies on crossbeam_channel::bounded, which builds a channel holding at
/// most `cap` messages (a rendezvous channel for 0), and panics only if its
/// buffer is too large.
#[verifier::external_body]
fn blocking_bounded<T>(cap: usize) -> (BlockingSender<T>, BlockingReceiver<T>)
    requires
        capacity_fits::<T>(cap),
{
    crossbeam_channel::bounded(cap)
}

/// Relies on crossbeam_channel::unbounded.
#[verifier::external_body]
fn blocking_unbounded<T>() -> (BlockingSender<T>, BlockingReceiver<T>) {
    crossbeam_channel::unbounded()
}

/// Relies on async_channel::bounded, which panics when `cap` is zero or its
/// buffer is too large.
#[verifier::external_body]
fn async_bounded<T>(cap: usize) -> (AsyncSender<T>, AsyncReceiver<T>)
    requires
        cap > 0,
        capacity_fits::<T>(cap),
{
    async_channel::bounded(cap)
}

/// Relies on async_channel::unbounded.
#[verifier::external_body]
fn async_unbounded<T>() -> (AsyncSender<T>, AsyncReceiver<T>) {
    async_channel::unbounded()
}

/// Relies on crossbeam_channel::Sender::send: it blocks until the message is
/// taken in, and when every receiver is gone it hands the message back.
#[verifier::external_body]
fn blocking_send<T>(s: &BlockingSender<T>, msg: T) -> (r: Result<(), T>)
    ensures
        r matches Err(m) ==> m == msg,
{
    s.send(msg).map_err(|e| e.0)
}

/// Relies on async_channel::Sender::send, which returns the future that sends.
#[verifier::external_body]
fn async_send<'a, T>(s: &'a AsyncSender<T>, msg: T) -> SendFuture<'a, T> {
    s.send(msg)
}

/// Relies on crossbeam_channel::Receiver::recv: the next message, or an error
/// once the channel is empty and every sender is gone.
#[verifier::external_body]
fn blocking_recv<T>(r: &BlockingReceiver<T>) -> Option<T> {
    r.recv().ok()
}

/// Relies on async_channel::Receiver::recv, which returns the future that
/// receives.
#[verifier::external_body]
fn async_recv<'a, T>(r: &'a AsyncReceiver<T>) -> RecvFuture<'a, T> {
    r.recv()
}

#[verifier::reject_recursive_types(T)]
enum SenderFlavor<T> {
    Blocking(BlockingSender<T>),
    Async(AsyncSender<T>),
}

#[verifier::reject_recursive_types(T)]
enum ReceiverFlavor<T> {
    Blocking(BlockingReceiver<T>),
    Async(AsyncReceiver<T>),
}

/// The sending side of a channel.
#[verifier::reject_recursive_types(T)]
pub struct Sender<T, const ASYNC: bool> {
    flavor: SenderFlavor<T>,
}

/// The receiving side of a channel.
#[verifier::reject_recursive_types(T)]
pub struct Receiver<T, const ASYNC: bool> {
    flavor: ReceiverFlavor<T>,
}

impl<T, const ASYNC: bool> Sender<T, ASYNC> {
    /// The flavour matches `ASYNC`.
    #[verifier::type_invariant]
    spec fn matches_effect(self) -> bool {
        (self.flavor is Async) == ASYNC
    }
}

impl<T, const ASYNC: bool> Receiver<T, ASYNC> {
    /// The flavour matches `ASYNC`.
    #[verifier::type_invariant]
    spec fn matches_effect(self) -> bool {
        (self.flavor is Async) == ASYNC
    }
}

/// A message that could not be sent because every receiver is gone.
pub struct SendError<T>(pub T);

/// What `send` returns: the outcome on a blocking channel, the future that
/// sends on an async one.
#[verifier::reject_recursive_types(T)]
pub enum SendResult<'a, T> {
    Done(Result<(), SendError<T>>),
    Pending(SendFuture<'a, T>),
}

/// What `next` returns: the next message on a blocking channel (`None` once
/// it is empty and every sender is gone), the future that receives on an
/// async one.
#[verifier::reject_recursive_types(T)]
pub enum NextResult<'a, T> {
    Ready(Option<T>),
    Pending(RecvFuture<'a, T>),
}

/// Creates a bounded channel, with space to hold at most `cap` messages at a
/// time. A blocking channel of capacity 0 hands each message over directly.
pub fn bounded<T, const ASYNC: bool>(cap: usize) -> (Sender<T, ASYNC>, Receiver<T, ASYNC>)
    requires
        ASYNC ==> cap > 0,
        capacity_fits::<T>(cap),
{
    if ASYNC {
        let (s, r) = async_bounded(cap);
        (Sender { flavor: SenderFlavor::Async(s) }, Receiver { flavor: ReceiverFlavor::Async(r) })
    } else {
        let (s, r) = blocking_bounded(cap);
        (
            Sender { flavor: SenderFlavor::Blocking(s) },
            Receiver { flavor: ReceiverFlavor::Blocking(r) },
        )
    }
}

/// Creates an unbounded channel, which can hold any number of messages.
pub fn unbounded<T, const ASYNC: bool>() -> (Sender<T, ASYNC>, Receiver<T, ASYNC>) {
    if ASYNC {
        let (s, r) = async_unbounded();
        (Sender { flavor: SenderFlavor::Async(s) }, Receiver { flavor: ReceiverFlavor::Async(r) })
    } else {
        let (s, r) = blocking_unbounded();
        (
            Sender { flavor: SenderFlavor::Blocking(s) },
            Receiver { flavor: ReceiverFlavor::Blocking(r) },
        )
    }
}

impl<T, const ASYNC: bool> Sender<T, ASYNC> {
    /// Sends a message on the channel. On a blocking channel this waits for
    /// room and fails, handing the message back, once every receiver is gone;
    /// on an async channel it returns the future that does so.
    pub fn send(&mut self, t: T) -> (r: SendResult<'_, T>)
        ensures
            !ASYNC ==> (r matches SendResult::Done(res) && (res matches Err(e) ==> e.0 == t)),
            ASYNC ==> r is Pending,
            *final(self) == *old(self),
    {
        proof {
            use_type_invariant(&*self);
        }
        match &self.flavor {
            SenderFlavor::Blocking(s) => match blocking_send(s, t) {
                Ok(()) => SendResult::Done(Ok(())),
                Err(m) => SendResult::Done(Err(SendError(m))),
            },
            SenderFlavor::Async(s) => SendResult::Pending(async_send(s, t)),
        }
    }
}

impl<T, const ASYNC: bool> Receiver<T, ASYNC> {
    /// Receives the next message. On a blocking channel this waits for one,
    /// and gives `None` once the channel is empty and every sender is gone; on
    /// an async channel it returns the future that does so.
    pub fn next(&mut self) -> (r: NextResult<'_, T>)
        ensures
            !ASYNC ==> r is Ready,
            ASYNC ==> r is Pending,
            *final(self) == *old(self),
    {
        proof {
            use_type_invariant(&*self);
        }
        match &self.flavor {
            ReceiverFlavor::Blocking(r) => NextResult::Ready(blocking_recv(r)),
            ReceiverFlavor::Async(r) => NextResult::Pending(async_recv(r)),
        }
    }
}

} // verus!
