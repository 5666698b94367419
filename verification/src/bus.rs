//! The bus: one broadcast channel for the whole process.
//!
//! Handlers publish on it after every committed change; every session holds a
//! subscription. Publishing never waits for a subscriber. The bus keeps a
//! bounded number of events; a subscriber that falls further behind is told
//! so instead of silently missing events. The channel itself is tokio's broadcast channel;
//! this module is what the rest of the library sees of it.

use vstd::prelude::*;
use crate::event::{SocketMessageTypeView, SocketPayload};
use crate::handlers::{event_for, Mutation};
use crate::session::{SessionInput, SessionInputView};

verus! {

/// Declares `tokio::sync::broadcast::Sender`, the sending half of a
/// broadcast channel. Nothing is known of what is inside one.
#[verifier::external_type_specification]
#[verifier::external_body]
#[verifier::reject_recursive_types(T)]
pub struct ExSender<T>(tokio::sync::broadcast::Sender<T>);

/// Declares `tokio::sync::broadcast::Receiver`, one subscriber's half of a
/// broadcast channel. Nothing is known of what is inside one.
#[verifier::external_type_specification]
#[verifier::external_body]
#[verifier::reject_recursive_types(T)]
pub struct ExReceiver<T>(tokio::sync::broadcast::Receiver<T>);

/// Whether a channel can be made with room for `capacity` events per
/// subscriber: there must be room for one, and for no more than half of what
/// a `usize` can count.
pub open spec fn valid_capacity(capacity: usize) -> bool {
    0 < capacity <= usize::MAX / 2
}

/// `start` doubled until it is not below `capacity`.
pub open spec fn doubled_until(start: nat, capacity: nat) -> nat
    decreases
            (if start == 0 || start >= capacity {
                0
            } else {
                capacity - start
            }),
{
    if start == 0 || start >= capacity {
        start
    } else {
        doubled_until(2 * start, capacity)
    }
}

/// How many events a channel keeps that was asked to keep `capacity`: the
/// least power of two that is not below `capacity`.
pub open spec fn ring_length(capacity: nat) -> nat {
    doubled_until(1, capacity)
}

/// How many events the channel of a sender keeps: how far a subscriber of
/// that channel may fall behind before events are lost to it.
pub uninterp spec fn sender_capacity(sender: tokio::sync::broadcast::Sender<SocketPayload>) -> nat;

/// How many events the channel of a receiver keeps.
pub uninterp spec fn receiver_capacity(
    receiver: tokio::sync::broadcast::Receiver<SocketPayload>,
) -> nat;

/// Calls `tokio::sync::broadcast::channel` and keeps the sending half. The
/// channel rounds the capacity it is asked for up to the next power of two,
/// keeps that many events, and finds a lagging subscriber by that number. The
/// capacities on which the call panics are left out.
#[verifier::external_body]
fn open_channel(capacity: usize) -> (r: tokio::sync::broadcast::Sender<SocketPayload>)
    requires
        valid_capacity(capacity),
    ensures
        sender_capacity(r) == ring_length(capacity as nat),
{
    tokio::sync::broadcast::channel(capacity).0
}

/// Calls `Sender::send` and drops its answer, which only says how many
/// subscribers there were at that moment.
#[verifier::external_body]
fn send(sender: &tokio::sync::broadcast::Sender<SocketPayload>, payload: SocketPayload) {
    let _ = sender.send(payload);
}

/// Calls `Sender::subscribe`, which returns a receiver for the events sent
/// from now on. The receiver is one of the sender's own channel, which keeps
/// as many events for it as for every other.
#[verifier::external_body]
fn subscribe(sender: &tokio::sync::broadcast::Sender<SocketPayload>) -> (r:
    tokio::sync::broadcast::Receiver<SocketPayload>)
    ensures
        receiver_capacity(r) == sender_capacity(*sender),
{
    sender.subscribe()
}

/// Calls `Receiver::try_recv`, which does not wait, and tells its four
/// answers apart. What it answers depends on what other tasks have sent. The
/// receiver stays with its channel.
#[verifier::external_body]
fn try_receive(receiver: &mut tokio::sync::broadcast::Receiver<SocketPayload>) -> (r: BusSignal)
    ensures
        receiver_capacity(*final(receiver)) == receiver_capacity(*old(receiver)),
{
    match receiver.try_recv() {
        Ok(payload) => BusSignal::Event(payload),
        Err(tokio::sync::broadcast::error::TryRecvError::Empty) => BusSignal::Empty,
        Err(tokio::sync::broadcast::error::TryRecvError::Closed) => BusSignal::Closed,
        Err(tokio::sync::broadcast::error::TryRecvError::Lagged(missed)) => BusSignal::Lagged(
            missed,
        ),
    }
}

/// What a subscriber finds when it looks at its queue.
#[derive(Debug, PartialEq, Eq)]
pub enum BusSignal {
    /// The next event, in the order of publication.
    Event(SocketPayload),
    /// The subscriber fell behind; this many events were lost to it.
    Lagged(u64),
    /// Every publisher is gone; no event will follow.
    Closed,
    /// Nothing has been published since the last look.
    Empty,
}

/// What a [`BusSignal`] stands for in contracts.
pub enum BusSignalView {
    Event(SocketMessageTypeView),
    Lagged(u64),
    Closed,
    Empty,
}

impl View for BusSignal {
    type V = BusSignalView;

    open spec fn view(&self) -> BusSignalView {
        match *self {
            BusSignal::Event(payload) => BusSignalView::Event(payload@),
            BusSignal::Lagged(missed) => BusSignalView::Lagged(missed),
            BusSignal::Closed => BusSignalView::Closed,
            BusSignal::Empty => BusSignalView::Empty,
        }
    }
}

impl BusSignalView {
    /// What a session is to be told. An event is handed on as it is. Lost
    /// events are reported as a lag, however many they were. A bus without
    /// publishers ends the session as a lost connection does. An empty queue
    /// is nothing to tell.
    pub open spec fn input(self) -> Option<SessionInputView> {
        match self {
            BusSignalView::Event(event) => Some(SessionInputView::Event(event)),
            BusSignalView::Lagged(_) => Some(SessionInputView::Lagged),
            BusSignalView::Closed => Some(SessionInputView::Disconnected),
            BusSignalView::Empty => None,
        }
    }
}

/// The view of an optional session input.
pub open spec fn input_view(input: Option<SessionInput>) -> Option<SessionInputView> {
    match input {
        Some(i) => Some(i@),
        None => None,
    }
}

/// What a session is to be told of a signal from the bus, if anything.
pub fn input_of(signal: BusSignal) -> (r: Option<SessionInput>)
    ensures
        input_view(r) == signal@.input(),
{
    match signal {
        BusSignal::Event(payload) => Some(SessionInput::Event(payload)),
        BusSignal::Lagged(_) => Some(SessionInput::Lagged),
        BusSignal::Closed => Some(SessionInput::Disconnected),
        BusSignal::Empty => None,
    }
}

/// A bus keeps at least as many events as it was asked to keep, and fewer
/// than twice as many.
pub proof fn lemma_ring_length(capacity: nat)
    requires
        capacity > 0,
    ensures
        capacity <= ring_length(capacity) < 2 * capacity,
{
    lemma_doubled_until(1, capacity);
}

/// Doubling stops at the first value that is not below `capacity`.
proof fn lemma_doubled_until(start: nat, capacity: nat)
    requires
        start > 0,
    ensures
        capacity <= doubled_until(start, capacity),
        start < capacity ==> doubled_until(start, capacity) < 2 * capacity,
        start >= capacity ==> doubled_until(start, capacity) == start,
    decreases
            (if start >= capacity {
                0
            } else {
                capacity - start
            }),
{
    if start < capacity {
        lemma_doubled_until(2 * start, capacity);
    }
}

/// The publishing side of the bus. Made once when the process starts and
/// handed to every handler and session.
pub struct Bus {
    sender: tokio::sync::broadcast::Sender<SocketPayload>,
}

/// One subscriber's end of the bus: it sees the events published after it was
/// made, in the order of publication.
pub struct Subscription {
    pub receiver: tokio::sync::broadcast::Receiver<SocketPayload>,
}

impl Bus {
    /// How many events the bus keeps: how far a subscriber may fall behind
    /// before events are lost to it.
    pub closed spec fn capacity(&self) -> nat {
        sender_capacity(self.sender)
    }

    /// A bus whose subscribers each have room for `capacity` events at
    /// least: the bus keeps the least power of two of events that is not
    /// below `capacity`. `None` when no channel can be made with that
    /// capacity.
    pub fn new(capacity: usize) -> (r: Option<Bus>)
        ensures
            r is Some <==> valid_capacity(capacity),
            r matches Some(bus) ==> bus.capacity() == ring_length(capacity as nat),
    {
        if capacity == 0 || capacity > usize::MAX / 2 {
            None
        } else {
            Some(Bus { sender: open_channel(capacity) })
        }
    }

    /// Publishes an event to every current subscriber. Never waits, and never
    /// fails: with no subscriber the event is dropped.
    pub fn publish(&self, payload: SocketPayload) {
        send(&self.sender, payload)
    }

    /// Publishes the one event of a committed change.
    pub fn publish_mutation(&self, mutation: Mutation) {
        self.publish(event_for(mutation))
    }

    /// A new subscriber of this bus, for which the bus keeps as many events
    /// as it keeps for every other. It sees only what is published from now
    /// on.
    pub fn subscribe(&self) -> (r: Subscription)
        ensures
            r.capacity() == self.capacity(),
    {
        Subscription { receiver: subscribe(&self.sender) }
    }
}

impl Subscription {
    /// How many events the bus keeps for the subscriber: how far it may fall
    /// behind before events are lost to it.
    pub open spec fn capacity(&self) -> nat {
        receiver_capacity(self.receiver)
    }

    /// Looks at the queue without waiting and answers with what a session is
    /// to be told, if anything: what the signal that the bus gave means to a
    /// session. So the answer is an event, a lag or a disconnect, and never a
    /// reply of the store. The subscriber stays with its bus.
    pub fn poll(&mut self) -> (r: Option<SessionInput>)
        ensures
            exists|signal: BusSignalView| input_view(r) == #[trigger] signal.input(),
            final(self).capacity() == old(self).capacity(),
    {
        let signal = try_receive(&mut self.receiver);
        let ghost given = signal@;
        let input = input_of(signal);
        assert(input_view(input) == given.input());
        input
    }
}

} // verus!
