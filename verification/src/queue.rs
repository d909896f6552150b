//! A first-in first-out queue that many threads put into and get from.
//!
//! The items wait in a `flume` channel of which the queue keeps both ends,
//! so neither end is ever the last one to go while the queue lives. Other
//! threads may put and get between any two calls, so the contracts below say
//! which results a call can have, never what the queue holds.

use crate::timeout::{duration_of, Seconds, WaitSpan};
use flume::{
    Receiver, RecvTimeoutError, SendTimeoutError, Sender, TryRecvError, TrySendError,
};
use std::time::{Duration, Instant};
use vstd::prelude::*;

verus! {

#[verifier::external_type_specification]
#[verifier::external_body]
#[verifier::reject_recursive_types(T)]
pub struct ExSender<T>(Sender<T>);

#[verifier::external_type_specification]
#[verifier::external_body]
#[verifier::reject_recursive_types(T)]
pub struct ExReceiver<T>(Receiver<T>);

#[verifier::external_type_specification]
#[verifier::external_body]
pub struct ExInstant(Instant);

/// What is wrong with a wait bound.
#[derive(Clone, Copy, Debug, PartialEq, Eq, Structural)]
pub enum TimeoutFault {
    /// The bound is an infinity or a NaN.
    NotFinite,
    /// The bound is below zero.
    Negative,
}

/// Why a put or a get failed.
#[derive(Clone, Copy, Debug, PartialEq, Eq, Structural)]
pub enum QueueError {
    /// Nothing was there to get, at once or within the bound.
    Empty,
    /// No room was there to put, at once or within the bound.
    Full,
    /// The other end of the channel is gone for good. A queue keeps both
    /// ends of its channel, so none of its calls gives this error.
    Disconnected,
    /// The wait bound is none that a queue accepts.
    InvalidTimeout(TimeoutFault),
}

impl QueueError {
    /// The words that tell a user of the failure.
    pub open spec fn text(self) -> Seq<char> {
        match self {
            QueueError::Empty => "queue is empty"@,
            QueueError::Full => "queue is full"@,
            QueueError::Disconnected => "queue disconnected"@,
            QueueError::InvalidTimeout(TimeoutFault::NotFinite) => "timeout must be finite"@,
            QueueError::InvalidTimeout(TimeoutFault::Negative) => "timeout must be >= 0"@,
        }
    }

    pub fn message(&self) -> (r: &'static str)
        ensures
            r@ == self.text(),
    {
        match self {
            QueueError::Empty => "queue is empty",
            QueueError::Full => "queue is full",
            QueueError::Disconnected => "queue disconnected",
            QueueError::InvalidTimeout(TimeoutFault::NotFinite) => "timeout must be finite",
            QueueError::InvalidTimeout(TimeoutFault::Negative) => "timeout must be >= 0",
        }
    }
}

/// Why a send that does not wait failed: the two variants of `flume`'s
/// `TrySendError`, without the item.
#[derive(Clone, Copy, Debug, PartialEq, Eq, Structural)]
pub enum TrySendFault {
    Full,
    Disconnected,
}

/// Why a send with a deadline failed: the two variants of `flume`'s
/// `SendTimeoutError`, without the item.
#[derive(Clone, Copy, Debug, PartialEq, Eq, Structural)]
pub enum SendDeadlineFault {
    Timeout,
    Disconnected,
}

/// Why a receive that does not wait failed: the two variants of `flume`'s
/// `TryRecvError`.
#[derive(Clone, Copy, Debug, PartialEq, Eq, Structural)]
pub enum TryRecvFault {
    Empty,
    Disconnected,
}

/// Why a receive with a deadline failed: the two variants of `flume`'s
/// `RecvTimeoutError`.
#[derive(Clone, Copy, Debug, PartialEq, Eq, Structural)]
pub enum RecvDeadlineFault {
    Timeout,
    Disconnected,
}

/// `flume::unbounded`: both ends of a channel without a capacity.
#[verifier::external_body]
fn channel_unbounded<T>() -> (Sender<T>, Receiver<T>) {
    flume::unbounded()
}

/// `flume::bounded`: both ends of a channel that holds `capacity` items at
/// most.
#[verifier::external_body]
fn channel_bounded<T>(capacity: usize) -> (Sender<T>, Receiver<T>) {
    flume::bounded(capacity)
}

/// `Receiver::len` on a queue's receiver: how many items wait in the channel
/// just now. A channel that `flume::bounded` made holds its capacity at
/// most, and a queue keeps the capacity that its channel was made with.
#[verifier::external_body]
fn channel_len<T>(queue: &Queue<T>) -> (n: usize)
    ensures
        queue.capacity() matches Some(capacity) ==> n <= capacity,
{
    queue.receiver.len()
}

/// `Receiver::is_empty`: whether no item waits in the channel just now.
#[verifier::external_body]
fn channel_is_empty<T>(receiver: &Receiver<T>) -> bool {
    receiver.is_empty()
}

/// `Sender::is_full`: whether a channel with a capacity holds that many
/// items just now.
#[verifier::external_body]
fn channel_is_full<T>(sender: &Sender<T>) -> bool {
    sender.is_full()
}

/// `Sender::try_send` on a queue's sender: puts the item in if there is
/// room, and never waits. `flume` gives `Disconnected` only once every
/// receiver of the channel is dropped, and the queue holds one.
#[verifier::external_body]
fn channel_try_send<T>(queue: &Queue<T>, item: T) -> (r: Result<(), TrySendFault>)
    ensures
        r matches Err(fault) ==> fault == TrySendFault::Full,
{
    match queue.sender.try_send(item) {
        Ok(()) => Ok(()),
        Err(TrySendError::Full(_)) => Err(TrySendFault::Full),
        Err(TrySendError::Disconnected(_)) => Err(TrySendFault::Disconnected),
    }
}

/// `Sender::send` on a queue's sender: waits for room and puts the item in.
/// `flume` gives an error, here `false`, only once every receiver of the
/// channel is dropped, and the queue holds one.
#[verifier::external_body]
fn channel_send<T>(queue: &Queue<T>, item: T) -> (sent: bool)
    ensures
        sent,
{
    queue.sender.send(item).is_ok()
}

/// `Sender::send_deadline` on a queue's sender: as `send`, but gives up at
/// the deadline. `flume` gives `Disconnected` only once every receiver of the
/// channel is dropped, and the queue holds one.
#[verifier::external_body]
fn channel_send_deadline<T>(queue: &Queue<T>, item: T, deadline: Instant) -> (r: Result<
    (),
    SendDeadlineFault,
>)
    ensures
        r matches Err(fault) ==> fault == SendDeadlineFault::Timeout,
{
    match queue.sender.send_deadline(item, deadline) {
        Ok(()) => Ok(()),
        Err(SendTimeoutError::Timeout(_)) => Err(SendDeadlineFault::Timeout),
        Err(SendTimeoutError::Disconnected(_)) => Err(SendDeadlineFault::Disconnected),
    }
}

/// `Receiver::try_recv` on a queue's receiver: takes the item that has
/// waited longest, and never waits itself. `flume` gives `Disconnected` only
/// once every sender of the channel is dropped, and the queue holds one.
#[verifier::external_body]
fn channel_try_recv<T>(queue: &Queue<T>) -> (r: Result<T, TryRecvFault>)
    ensures
        r matches Err(fault) ==> fault == TryRecvFault::Empty,
{
    match queue.receiver.try_recv() {
        Ok(item) => Ok(item),
        Err(TryRecvError::Empty) => Err(TryRecvFault::Empty),
        Err(TryRecvError::Disconnected) => Err(TryRecvFault::Disconnected),
    }
}

/// `Receiver::recv` on a queue's receiver: waits for an item. `flume` gives
/// an error, here nothing, only once every sender of the channel is dropped,
/// and the queue holds one.
#[verifier::external_body]
fn channel_recv<T>(queue: &Queue<T>) -> (r: Option<T>)
    ensures
        r is Some,
{
    queue.receiver.recv().ok()
}

/// `Receiver::recv_deadline` on a queue's receiver: as `recv`, but gives up
/// at the deadline. `flume` gives `Disconnected` only once every sender of
/// the channel is dropped, and the queue holds one.
#[verifier::external_body]
fn channel_recv_deadline<T>(queue: &Queue<T>, deadline: Instant) -> (r: Result<
    T,
    RecvDeadlineFault,
>)
    ensures
        r matches Err(fault) ==> fault == RecvDeadlineFault::Timeout,
{
    match queue.receiver.recv_deadline(deadline) {
        Ok(item) => Ok(item),
        Err(RecvTimeoutError::Timeout) => Err(RecvDeadlineFault::Timeout),
        Err(RecvTimeoutError::Disconnected) => Err(RecvDeadlineFault::Disconnected),
    }
}

/// `Instant::now` of std.
#[verifier::external_body]
fn instant_now() -> Instant {
    Instant::now()
}

/// `Instant::checked_add` of std: the instant that much later, or nothing
/// where the clock cannot count so far.
#[verifier::external_body]
fn instant_after(start: Instant, span: Duration) -> Option<Instant> {
    start.checked_add(span)
}

/// What is wrong with the bound, if anything: a bound that is not finite is
/// refused, and so is a finite one below zero. Negative zero is zero.
pub open spec fn timeout_fault(timeout: Seconds) -> Option<TimeoutFault> {
    if !timeout.finite() {
        Some(TimeoutFault::NotFinite)
    } else if timeout.below_zero() {
        Some(TimeoutFault::Negative)
    } else {
        None
    }
}

/// The span that a bound without fault stands for: the longest span there
/// is for two to the power 64 seconds or more, else the whole seconds with
/// the nanoseconds of the fraction.
pub open spec fn timeout_span(timeout: Seconds) -> WaitSpan {
    if timeout.fits() {
        timeout.truncated_span()
    } else {
        WaitSpan::longest()
    }
}

/// The span to wait for, or the fault of the bound.
pub fn timeout_to_duration(timeout: Seconds) -> (r: Result<WaitSpan, QueueError>)
    ensures
        r == match timeout_fault(timeout) {
            Some(fault) => Err::<WaitSpan, QueueError>(QueueError::InvalidTimeout(fault)),
            None => Ok(timeout_span(timeout)),
        },
        r matches Ok(span) ==> span.well_formed(),
        r matches Ok(span) ==> (timeout.fits() ==> span.secs == timeout.whole_secs() && span.nanos
            == timeout.fraction_nanos()),
{
    if !timeout.is_finite() {
        return Err(QueueError::InvalidTimeout(TimeoutFault::NotFinite));
    }
    if timeout.is_below_zero() {
        return Err(QueueError::InvalidTimeout(TimeoutFault::Negative));
    }
    match timeout.to_truncated_span() {
        None => Ok(WaitSpan { secs: u64::MAX, nanos: 999_999_999 }),
        Some(span) => Ok(span),
    }
}

/// The fault of the bound of a call that may wait. A call that does not wait
/// does not look at its bound.
pub open spec fn bound_fault(block: bool, timeout: Option<Seconds>) -> Option<TimeoutFault> {
    match timeout {
        Some(bound) if block => timeout_fault(bound),
        _ => None,
    }
}

/// What `put` gives where a send that does not wait failed.
pub fn try_send_error(fault: TrySendFault) -> (e: QueueError)
    ensures
        e == match fault {
            TrySendFault::Full => QueueError::Full,
            TrySendFault::Disconnected => QueueError::Disconnected,
        },
{
    match fault {
        TrySendFault::Full => QueueError::Full,
        TrySendFault::Disconnected => QueueError::Disconnected,
    }
}

/// What `put` gives where a send with a deadline failed: a queue that stayed
/// full until the deadline is full.
pub fn send_deadline_error(fault: SendDeadlineFault) -> (e: QueueError)
    ensures
        e == match fault {
            SendDeadlineFault::Timeout => QueueError::Full,
            SendDeadlineFault::Disconnected => QueueError::Disconnected,
        },
{
    match fault {
        SendDeadlineFault::Timeout => QueueError::Full,
        SendDeadlineFault::Disconnected => QueueError::Disconnected,
    }
}

/// What `get` gives where a receive that does not wait failed.
pub fn try_recv_error(fault: TryRecvFault) -> (e: QueueError)
    ensures
        e == match fault {
            TryRecvFault::Empty => QueueError::Empty,
            TryRecvFault::Disconnected => QueueError::Disconnected,
        },
{
    match fault {
        TryRecvFault::Empty => QueueError::Empty,
        TryRecvFault::Disconnected => QueueError::Disconnected,
    }
}

/// What `get` gives where a receive with a deadline failed: a queue that
/// stayed empty until the deadline is empty.
pub fn recv_deadline_error(fault: RecvDeadlineFault) -> (e: QueueError)
    ensures
        e == match fault {
            RecvDeadlineFault::Timeout => QueueError::Empty,
            RecvDeadlineFault::Disconnected => QueueError::Disconnected,
        },
{
    match fault {
        RecvDeadlineFault::Timeout => QueueError::Empty,
        RecvDeadlineFault::Disconnected => QueueError::Disconnected,
    }
}

/// A queue of items, with a capacity or without. It holds the one sender and
/// the one receiver that its channel was made with, and hands out neither, so
/// the channel has both for as long as the queue lives.
#[verifier::reject_recursive_types(T)]
pub struct Queue<T> {
    sender: Sender<T>,
    receiver: Receiver<T>,
    maxsize: Option<usize>,
}

impl<T> Queue<T> {
    /// The capacity, or nothing for a queue without one.
    pub closed spec fn capacity(&self) -> Option<usize> {
        self.maxsize
    }

    /// A capacity is at least one.
    #[verifier::type_invariant]
    pub closed spec fn well_formed(&self) -> bool {
        self.maxsize != Some(0usize)
    }

    /// A queue that holds `maxsize` items at most, or any number of items
    /// where `maxsize` is zero.
    pub fn new(maxsize: usize) -> (q: Queue<T>)
        ensures
            q.capacity() == if maxsize == 0 {
                None
            } else {
                Some(maxsize)
            },
    {
        if maxsize == 0 {
            let (sender, receiver) = channel_unbounded();
            Queue { sender, receiver, maxsize: None }
        } else {
            let (sender, receiver) = channel_bounded(maxsize);
            Queue { sender, receiver, maxsize: Some(maxsize) }
        }
    }

    /// The capacity, or zero for a queue without one.
    pub fn maxsize(&self) -> (r: usize)
        ensures
            r == match self.capacity() {
                Some(capacity) => capacity,
                None => 0,
            },
            r == 0 <==> self.capacity() is None,
    {
        proof {
            use_type_invariant(self);
        }
        match self.maxsize {
            Some(capacity) => capacity,
            None => 0,
        }
    }

    /// How many items wait just now: at most as many as the capacity
    /// allows.
    pub fn qsize(&self) -> (n: usize)
        ensures
            self.capacity() matches Some(capacity) ==> n <= capacity,
    {
        channel_len(self)
    }

    /// How many items wait just now: at most as many as the capacity
    /// allows.
    pub fn len(&self) -> (n: usize)
        ensures
            self.capacity() matches Some(capacity) ==> n <= capacity,
    {
        self.qsize()
    }

    /// Whether no item waits just now.
    pub fn empty(&self) -> bool {
        channel_is_empty(&self.receiver)
    }

    /// Whether the queue holds as many items as its capacity allows just
    /// now. A queue without a capacity is never full.
    pub fn full(&self) -> (r: bool)
        ensures
            self.capacity() is None ==> !r,
    {
        match self.maxsize {
            Some(_) => channel_is_full(&self.sender),
            None => false,
        }
    }

    /// Puts `item` in. Without `block` the call fails with `Full` where
    /// there is no room. With `block` and no bound it waits for room, and
    /// succeeds; with a bound it waits that long at most and then fails with
    /// `Full`. A queue without a capacity has room at all times, so every
    /// call on it succeeds whose bound is none that is refused.
    pub fn put(&self, item: T, block: bool, timeout: Option<Seconds>) -> (r: Result<
        (),
        QueueError,
    >)
        ensures
            match bound_fault(block, timeout) {
                Some(fault) => r == Err::<(), QueueError>(QueueError::InvalidTimeout(fault)),
                None => r is Ok || (r == Err::<(), QueueError>(QueueError::Full)
                    && self.capacity() is Some && (block ==> timeout is Some)),
            },
    {
        if !block {
            return self.put_nowait(item);
        }
        let span = match timeout {
            Some(bound) => match timeout_to_duration(bound) {
                Ok(span) => Some(span),
                Err(e) => {
                    return Err(e);
                },
            },
            None => None,
        };
        let deadline = match span {
            Some(span) => instant_after(instant_now(), duration_of(span)),
            None => None,
        };
        match deadline {
            Some(deadline) if self.maxsize.is_some() => {
                match channel_send_deadline(self, item, deadline) {
                    Ok(()) => Ok(()),
                    Err(fault) => Err(send_deadline_error(fault)),
                }
            },
            _ => {
                if channel_send(self, item) {
                    Ok(())
                } else {
                    Err(QueueError::Disconnected)
                }
            },
        }
    }

    /// Puts `item` in if there is room, and fails with `Full` if not. A
    /// queue without a capacity has room, so the call succeeds on it.
    pub fn put_nowait(&self, item: T) -> (r: Result<(), QueueError>)
        ensures
            r is Ok || (r == Err::<(), QueueError>(QueueError::Full) && self.capacity() is Some),
    {
        match self.maxsize {
            Some(_) => match channel_try_send(self, item) {
                Ok(()) => Ok(()),
                Err(fault) => Err(try_send_error(fault)),
            },
            None => {
                if channel_send(self, item) {
                    Ok(())
                } else {
                    Err(QueueError::Disconnected)
                }
            },
        }
    }

    /// Takes the item that has waited longest. Without `block` the call
    /// fails with `Empty` where nothing waits. With `block` and no bound it
    /// waits for an item, and succeeds; with a bound it waits that long at
    /// most and then fails with `Empty`.
    pub fn get(&self, block: bool, timeout: Option<Seconds>) -> (r: Result<T, QueueError>)
        ensures
            match bound_fault(block, timeout) {
                Some(fault) => r matches Err(e) && e == QueueError::InvalidTimeout(fault),
                None => r matches Err(e) ==> e == QueueError::Empty && (block ==> timeout
                    is Some),
            },
    {
        if !block {
            return self.get_nowait();
        }
        let span = match timeout {
            Some(bound) => match timeout_to_duration(bound) {
                Ok(span) => Some(span),
                Err(e) => {
                    return Err(e);
                },
            },
            None => None,
        };
        let deadline = match span {
            Some(span) => instant_after(instant_now(), duration_of(span)),
            None => None,
        };
        match deadline {
            Some(deadline) => {
                match channel_recv_deadline(self, deadline) {
                    Ok(item) => Ok(item),
                    Err(fault) => Err(recv_deadline_error(fault)),
                }
            },
            None => {
                match channel_recv(self) {
                    Some(item) => Ok(item),
                    None => Err(QueueError::Disconnected),
                }
            },
        }
    }

    /// Takes the item that has waited longest, and fails with `Empty` where
    /// nothing waits.
    pub fn get_nowait(&self) -> (r: Result<T, QueueError>)
        ensures
            r matches Err(e) ==> e == QueueError::Empty,
    {
        match channel_try_recv(self) {
            Ok(item) => Ok(item),
            Err(fault) => Err(try_recv_error(fault)),
        }
    }
}

} // verus!
