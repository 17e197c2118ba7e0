//! The creation-event feed: a process-wide publish/subscribe channel of
//! `TimbaCreatedEvent`s, built on tokio's broadcast channel behind trusted
//! wrappers. Delivery is best-effort and non-durable: publishing never
//! blocks and never fails poll creation, and a slow subscriber is told how
//! many events it missed rather than silently desynced.

use vstd::prelude::*;
use vstd::string::StringExecFns;
use crate::engine::{create_post, Engine};
use crate::models::{Timba, TimbaCreatedEvent};
use crate::resolver::ValidationError;
use tokio::sync::broadcast::{Receiver, Sender};

verus! {

#[verifier::external_type_specification]
#[verifier::external_body]
#[verifier::reject_recursive_types(T)]
pub struct ExSender<T>(Sender<T>);

#[verifier::external_type_specification]
#[verifier::external_body]
#[verifier::reject_recursive_types(T)]
pub struct ExReceiver<T>(Receiver<T>);

/// Why no event came out of the feed: nothing pending, every publisher
/// gone, or the subscriber lagged and missed the given number of events.
#[derive(Clone, Copy, PartialEq, Eq, Structural, Debug)]
pub enum FeedError {
    Empty,
    Closed,
    Lagged(u64),
}

/// Relies on `tokio::sync::broadcast::channel`, which panics only on a
/// capacity of zero or one near `usize::MAX`.
#[verifier::external_body]
fn channel_events(capacity: usize) -> (Sender<TimbaCreatedEvent>, Receiver<TimbaCreatedEvent>)
    requires
        1 <= capacity <= 0x3fff_ffff,
{
    tokio::sync::broadcast::channel(capacity)
}

/// Relies on `tokio::sync::broadcast::Sender::send`: delivery depends on
/// the subscribers of the moment, so only the returned-value shape is
/// stated — a send with no active subscriber hands the event back.
#[verifier::external_body]
fn send_event(tx: &Sender<TimbaCreatedEvent>, event: TimbaCreatedEvent) -> (r: Result<
    usize,
    TimbaCreatedEvent,
>)
    ensures
        r matches Err(ev) ==> ev == event,
{
    match tx.send(event) {
        Ok(n) => Ok(n),
        Err(tokio::sync::broadcast::error::SendError(ev)) => Err(ev),
    }
}

/// Relies on `tokio::sync::broadcast::Sender::subscribe`: the new
/// subscriber sees only events published after this call.
#[verifier::external_body]
fn subscribe_events(tx: &Sender<TimbaCreatedEvent>) -> Receiver<TimbaCreatedEvent> {
    tx.subscribe()
}

/// Relies on `tokio::sync::broadcast::Receiver::try_recv`: what comes out
/// depends on the publishes and reads of the moment, so nothing is stated.
#[verifier::external_body]
fn try_recv_event(rx: &mut Receiver<TimbaCreatedEvent>) -> Result<TimbaCreatedEvent, FeedError> {
    match rx.try_recv() {
        Ok(ev) => Ok(ev),
        Err(tokio::sync::broadcast::error::TryRecvError::Empty) => Err(FeedError::Empty),
        Err(tokio::sync::broadcast::error::TryRecvError::Closed) => Err(FeedError::Closed),
        Err(tokio::sync::broadcast::error::TryRecvError::Lagged(n)) => Err(FeedError::Lagged(n)),
    }
}

/// The feed's backlog capacity in the reference deployment.
pub const FEED_CAPACITY: usize = 100;

/// Opens a feed with the given backlog capacity.
pub fn new_feed(capacity: usize) -> (Sender<TimbaCreatedEvent>, Receiver<TimbaCreatedEvent>)
    requires
        1 <= capacity <= 0x3fff_ffff,
{
    channel_events(capacity)
}

/// Attaches a new live-feed subscriber; it sees only events published
/// after this call.
pub fn subscribe_feed(tx: &Sender<TimbaCreatedEvent>) -> Receiver<TimbaCreatedEvent> {
    subscribe_events(tx)
}

/// Takes the next pending event off a subscription without waiting.
pub fn try_next_event(rx: &mut Receiver<TimbaCreatedEvent>) -> Result<TimbaCreatedEvent, FeedError> {
    try_recv_event(rx)
}

/// Builds the creation event and publishes it. Publishing is best-effort:
/// a failed send (no active subscriber) is swallowed and never fails the
/// creation that triggered it.
pub fn publish_created(
    tx: &Sender<TimbaCreatedEvent>,
    id: i64,
    name: &str,
    time_of_creation: &str,
) -> (ev: TimbaCreatedEvent)
    ensures
        ev.id == id,
        ev.name@ == name@,
        ev.time_of_creation@ == time_of_creation@,
{
    let ev = TimbaCreatedEvent {
        id,
        name: name.to_owned(),
        time_of_creation: time_of_creation.to_owned(),
    };
    match send_event(tx, ev.clone()) {
        Ok(_) => ev,
        Err(_) => ev,
    }
}

/// Creates a poll and then publishes its creation event, decoupled from
/// the store write: the event goes out only after the record is appended,
/// and a publish failure never rolls the creation back.
pub fn create_and_announce(
    engine: &mut Engine,
    tx: &Sender<TimbaCreatedEvent>,
    name: &str,
    timba: &Timba,
    now: &str,
) -> (r: Result<i64, ValidationError>)
    requires
        old(engine).wf(),
        old(engine).polls@.len() + 1 < 0x7fff_ffff_ffff_ffff,
    ensures
        create_post(
            *old(engine),
            *final(engine),
            name@,
            timba.ty,
            timba.fields.deep_view(),
            crate::engine::opt_string_view(timba.deadline),
            now@,
            r,
        ),
{
    match engine.create_timba(name, timba, now) {
        Ok(id) => {
            let _ = publish_created(tx, id, name, now);
            Ok(id)
        },
        Err(e) => Err(e),
    }
}

} // verus!
