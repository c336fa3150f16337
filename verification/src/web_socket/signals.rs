//! The channels of a web socket editor: the queue of incoming messages, the broadcast
//! that stops its two tasks, the broadcast of connection states, and the ticks of its clock.
//!
//! The sendings are declared with `opens_invariants none`, and so are the functions that do
//! nothing but send. Such a function can call only what is declared so too: it can neither
//! copy an end and send through the copy, nor make a listener of its own.

use crate::entities::{DocumentWSData, WSConnectState};
use tokio::sync::{broadcast, mpsc};
use vstd::prelude::*;

verus! {

/// One beat of the clock.
pub type Tick = ();

/// Listens for the signal to stop.
pub type SinkStopRx = broadcast::Receiver<()>;

/// Gives the signal to stop.
pub type SinkStopTx = broadcast::Sender<()>;

/// The sending end of a queue of messages. A queue has one, which cannot be copied, so that
/// all that is ever put into the queue goes through it.
pub struct MessageTx {
    end: mpsc::UnboundedSender<DocumentWSData>,
}

/// The sending end of the broadcast of stop signals. A broadcast has one, which cannot be
/// copied, so that all signals that its listeners hear go through it.
pub struct StopTx {
    end: SinkStopTx,
}

/// The sending end of the broadcast of connection states. A broadcast has one, which cannot
/// be copied, so that all states that its listeners hear go through it.
pub struct StateTx {
    end: broadcast::Sender<WSConnectState>,
}

/// Which queue of messages a sending end feeds.
pub uninterp spec fn message_link(tx: MessageTx) -> nat;

/// Which queue of messages a receiving end drains.
pub uninterp spec fn message_end(rx: mpsc::UnboundedReceiver<DocumentWSData>) -> nat;

/// The messages that the queue of this sending end has accepted, oldest first: all of them,
/// for there is no other end.
pub uninterp spec fn messages_sent(tx: MessageTx) -> Seq<DocumentWSData>;

/// The queue of this sending end has refused a message. It does so only once it is closed,
/// and a queue that is closed is not opened again.
pub uninterp spec fn message_refused(tx: MessageTx) -> bool;

/// `tokio::sync::mpsc::unbounded_channel`: the two ends of one new queue, through which
/// nothing has been sent.
#[verifier::external_body]
pub(crate) fn message_channel() -> (r: (MessageTx, mpsc::UnboundedReceiver<DocumentWSData>))
    ensures
        message_end(r.1) == message_link(r.0),
        messages_sent(r.0) == Seq::<DocumentWSData>::empty(),
        !message_refused(r.0),
{
    let (end, rx) = mpsc::unbounded_channel();
    (MessageTx { end }, rx)
}

/// `UnboundedSender::send`: either the queue accepts the message behind all that it has
/// accepted before, or, where the receiving end is closed, it takes nothing and
/// the message comes back. An end that has been refused once is refused ever after. When the
/// receiving end closes is not said: another task decides that.
#[verifier::external_body]
pub(crate) fn message_send(tx: &mut MessageTx, message: DocumentWSData) -> (r: Result<
    (),
    DocumentWSData,
>)
    ensures
        message_link(*final(tx)) == message_link(*old(tx)),
        r is Ok ==> messages_sent(*final(tx)) == messages_sent(*old(tx)).push(message),
        r is Err ==> messages_sent(*final(tx)) == messages_sent(*old(tx)),
        r is Err ==> r->Err_0 == message,
        message_refused(*final(tx)) <==> r is Err,
        message_refused(*old(tx)) ==> r is Err,
    opens_invariants none
{
    match tx.end.send(message) {
        Ok(()) => Ok(()),
        Err(e) => Err(e.0),
    }
}

/// Which broadcast a stop signal goes to.
pub uninterp spec fn stop_link(tx: StopTx) -> nat;

/// Which broadcast a stop listener hears.
pub uninterp spec fn stop_end(rx: SinkStopRx) -> nat;

/// The capacity that a stop broadcast was made with.
pub uninterp spec fn stop_capacity(tx: StopTx) -> nat;

/// How many stop signals have gone out over the broadcast of this sending end: all of them,
/// for there is no other end.
pub uninterp spec fn stops_sent(tx: StopTx) -> nat;

/// The last stop signal that was given through a sending end found no listener.
pub uninterp spec fn stop_unheard(tx: StopTx) -> bool;

/// How many stop signals had gone out, over the broadcast that a listener hears, before the
/// listener was there. It hears none of those.
pub uninterp spec fn stops_missed(rx: SinkStopRx) -> nat;

/// `tokio::sync::broadcast::channel` for stop signals: a new broadcast with one listener.
/// No signal has gone out. The broadcast keeps as many signals for a slow listener as its
/// capacity says, rounded up to a power of two. It panics on a capacity of zero, and on one too
/// large for its slots to be allocated at once.
#[verifier::external_body]
pub(crate) fn stop_channel(capacity: usize) -> (r: (StopTx, SinkStopRx))
    requires
        0 < capacity <= 0x10000,
    ensures
        stop_end(r.1) == stop_link(r.0),
        stop_capacity(r.0) == capacity,
        stops_sent(r.0) == 0,
        !stop_unheard(r.0),
        stops_missed(r.1) == 0,
{
    let (end, rx) = broadcast::channel(capacity);
    (StopTx { end }, rx)
}

/// `broadcast::Sender::subscribe` for stop signals: a new listener, which hears the signals
/// that go out after the call. It would panic at `usize::MAX / 4` listeners at once, more
/// than memory holds.
#[verifier::external_body]
pub(crate) fn stop_subscribe(tx: &StopTx) -> (rx: SinkStopRx)
    ensures
        stop_end(rx) == stop_link(*tx),
        stops_missed(rx) == stops_sent(*tx),
{
    tx.end.subscribe()
}

/// `broadcast::Sender::send` for stop signals: either the signal goes out and the number of
/// listeners, at least one, comes back, or there is no listener at that moment, nothing goes
/// out and the end has given a signal that was not heard. Which of the two is not said:
/// listeners come and go in other tasks.
#[verifier::external_body]
pub(crate) fn stop_send(tx: &mut StopTx) -> (r: Result<usize, ()>)
    ensures
        stop_link(*final(tx)) == stop_link(*old(tx)),
        stop_capacity(*final(tx)) == stop_capacity(*old(tx)),
        r is Ok ==> stops_sent(*final(tx)) == stops_sent(*old(tx)) + 1,
        r is Ok ==> r->Ok_0 > 0,
        r is Err ==> stops_sent(*final(tx)) == stops_sent(*old(tx)),
        stop_unheard(*final(tx)) <==> r is Err,
    opens_invariants none
{
    match tx.end.send(()) {
        Ok(n) => Ok(n),
        Err(e) => Err(e.0),
    }
}

/// Which broadcast a connection state goes to.
pub uninterp spec fn state_link(tx: StateTx) -> nat;

/// Which broadcast a listener for connection states hears.
pub uninterp spec fn state_end(rx: broadcast::Receiver<WSConnectState>) -> nat;

/// The capacity that a broadcast of connection states was made with.
pub uninterp spec fn state_capacity(tx: StateTx) -> nat;

/// The connection states that have gone out over the broadcast of this sending end, oldest
/// first: all of them, for there is no other end.
pub uninterp spec fn states_sent(tx: StateTx) -> Seq<WSConnectState>;

/// The last connection state that was given to a sending end found no listener.
pub uninterp spec fn state_unheard(tx: StateTx) -> bool;

/// How many connection states had gone out, over the broadcast that a listener hears, before
/// the listener was there. It hears none of those.
pub uninterp spec fn states_missed(rx: broadcast::Receiver<WSConnectState>) -> nat;

/// `tokio::sync::broadcast::channel` for connection states: a new broadcast with one
/// listener. No state has gone out. The broadcast keeps as many states for a slow listener
/// as its capacity says, rounded up to a power of two. It panics on a capacity of zero, and
/// on one too large for its slots to be allocated at once.
#[verifier::external_body]
pub(crate) fn state_channel(capacity: usize) -> (r: (
    StateTx,
    broadcast::Receiver<WSConnectState>,
))
    requires
        0 < capacity <= 0x10000,
    ensures
        state_end(r.1) == state_link(r.0),
        state_capacity(r.0) == capacity,
        states_sent(r.0) == Seq::<WSConnectState>::empty(),
        !state_unheard(r.0),
        states_missed(r.1) == 0,
{
    let (end, rx) = broadcast::channel(capacity);
    (StateTx { end }, rx)
}

/// `broadcast::Sender::subscribe` for connection states: a new listener, which hears the
/// states that go out after the call. It would panic at `usize::MAX / 4` listeners at once,
/// more than memory holds.
#[verifier::external_body]
pub(crate) fn state_subscribe(tx: &StateTx) -> (rx: broadcast::Receiver<WSConnectState>)
    ensures
        state_end(rx) == state_link(*tx),
        states_missed(rx) == states_sent(*tx).len(),
{
    tx.end.subscribe()
}

/// `broadcast::Sender::send` for connection states: either the state goes out, behind all
/// that went out before, and the number of listeners, at least one, comes
/// back, or there is no listener at that moment, nothing goes out, the state comes back and
/// the end has been given a state that was not heard. Which of the two is not said: listeners
/// come and go in other tasks.
#[verifier::external_body]
pub(crate) fn state_send(tx: &mut StateTx, state: WSConnectState) -> (r: Result<
    usize,
    WSConnectState,
>)
    ensures
        state_link(*final(tx)) == state_link(*old(tx)),
        state_capacity(*final(tx)) == state_capacity(*old(tx)),
        r is Ok ==> states_sent(*final(tx)) == states_sent(*old(tx)).push(state),
        r is Ok ==> r->Ok_0 > 0,
        r is Err ==> states_sent(*final(tx)) == states_sent(*old(tx)),
        r is Err ==> r->Err_0 == state,
        state_unheard(*final(tx)) <==> r is Err,
    opens_invariants none
{
    match tx.end.send(state) {
        Ok(n) => Ok(n),
        Err(e) => Err(e.0),
    }
}

/// Which queue of ticks a sending end feeds.
pub uninterp spec fn tick_link(tx: mpsc::UnboundedSender<Tick>) -> nat;

/// Which queue of ticks a receiving end drains.
pub uninterp spec fn tick_end(rx: mpsc::UnboundedReceiver<Tick>) -> nat;

/// How many ticks the queue has accepted through a sending end.
pub uninterp spec fn ticks_sent(tx: mpsc::UnboundedSender<Tick>) -> nat;

/// The queue has refused a tick that came through a sending end. It does so only once it is
/// closed, and a queue that is closed is not opened again.
pub uninterp spec fn tick_refused(tx: mpsc::UnboundedSender<Tick>) -> bool;

/// `tokio::sync::mpsc::unbounded_channel` for ticks: the two ends of one new queue, through
/// which nothing has been sent.
#[verifier::external_body]
pub(crate) fn tick_channel() -> (r: (mpsc::UnboundedSender<Tick>, mpsc::UnboundedReceiver<Tick>))
    ensures
        tick_end(r.1) == tick_link(r.0),
        ticks_sent(r.0) == 0,
        !tick_refused(r.0),
    opens_invariants none
{
    mpsc::unbounded_channel()
}

/// `UnboundedSender::send` for ticks: either the queue accepts the tick, or, where the
/// receiving end is closed, it takes nothing. An end that has been refused once is refused
/// ever after. When the receiving end closes is not said: another task decides that.
#[verifier::external_body]
pub(crate) fn tick_send(tx: &mut mpsc::UnboundedSender<Tick>) -> (r: Result<(), Tick>)
    ensures
        tick_link(*final(tx)) == tick_link(*old(tx)),
        r is Ok ==> ticks_sent(*final(tx)) == ticks_sent(*old(tx)) + 1,
        r is Err ==> ticks_sent(*final(tx)) == ticks_sent(*old(tx)),
        tick_refused(*final(tx)) <==> r is Err,
        tick_refused(*old(tx)) ==> r is Err,
    opens_invariants none
{
    match tx.send(()) {
        Ok(()) => Ok(()),
        Err(e) => Err(e.0),
    }
}

} // verus!
