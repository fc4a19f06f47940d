//! The loop that forwards what a bus publishes to one live socket.
//!
//! The loop itself runs where the socket lives. What it does next is decided
//! here: on every turn it polls, sends what it is told to send, and reports
//! whether the send worked. It ends when shutdown is signaled or a send fails,
//! and gives its subscription back when it ends.

use crate::bus::{Bus, Pulled, Subscriber};
use vstd::prelude::*;

verus! {

/// The signal that the process is shutting down. It is raised once and never
/// lowered.
pub struct ShutdownFlag {
    raised: bool,
}

impl ShutdownFlag {
    /// Whether shutdown has been signaled.
    pub closed spec fn signaled(&self) -> bool {
        self.raised
    }

    /// A flag that is not raised.
    pub fn new() -> (flag: Self)
        ensures
            !flag.signaled(),
    {
        ShutdownFlag { raised: false }
    }

    /// Signals shutdown. A flag that is raised stays raised.
    pub fn signal(&mut self)
        ensures
            final(self).signaled(),
    {
        self.raised = true;
    }

    /// Whether shutdown has been signaled.
    pub fn is_signaled(&self) -> (raised: bool)
        ensures
            raised == self.signaled(),
    {
        self.raised
    }
}

/// What a streaming loop does next.
#[derive(Debug, PartialEq, Eq)]
pub enum StreamAction<T> {
    /// Send this item over the socket, then report with [`StreamLoop::sent`].
    Send(T),
    /// Nothing is there to send: poll again after a pause.
    Idle,
    /// The loop has ended: close the socket.
    Stop,
}

/// The state of one streaming loop: its subscription, until the loop ends.
pub struct StreamLoop {
    subscriber: Option<Subscriber>,
}

impl StreamLoop {
    /// Whether the loop has ended.
    pub closed spec fn finished(&self) -> bool {
        self.subscriber is None
    }

    /// The key of the loop's subscription in the registry of its bus.
    pub closed spec fn id(&self) -> int {
        self.subscriber->0.id()
    }

    /// Starts a loop on `bus`: subscribes, beginning with what is published
    /// from now on.
    pub fn start<T>(bus: &mut Bus<T>) -> (stream: Self)
        requires
            old(bus).wf(),
        ensures
            final(bus).wf(),
            !stream.finished(),
            !old(bus)@.cursors.contains_key(stream.id()),
            final(bus)@ == old(bus)@.subscribe(stream.id()),
    {
        StreamLoop { subscriber: Some(bus.subscribe()) }
    }

    /// Whether the loop has ended.
    pub fn is_finished(&self) -> (done: bool)
        ensures
            done == self.finished(),
    {
        self.subscriber.is_none()
    }

    /// Decides the next turn of the loop.
    ///
    /// Once shutdown is signaled the loop ends at this poll: it gives its
    /// subscription back, pulls nothing, and is told to stop. A loop that
    /// has ended is told to stop whenever it polls. Otherwise the loop pulls
    /// once: an item is to be sent, and without an item the loop idles.
    pub fn poll<T: Clone>(&mut self, bus: &mut Bus<T>, shutting_down: bool) -> (action:
        StreamAction<T>)
        requires
            old(bus).wf(),
        ensures
            final(bus).wf(),
            old(self).finished() ==> action is Stop && final(self).finished() && final(bus)@ == old(bus)@,
            !old(self).finished() && shutting_down ==> action is Stop && final(self).finished()
                && final(bus)@ == old(bus)@.unsubscribe(old(self).id()),
            !old(self).finished() && !shutting_down ==> {
                &&& !final(self).finished()
                &&& final(self).id() == old(self).id()
                &&& final(bus)@ == old(bus)@.advance(old(self).id())
                &&& match action {
                    StreamAction::Send(item) => old(bus)@.has_next(old(self).id()) && cloned(
                        old(bus)@.published[old(bus)@.cursors[old(self).id()] as int],
                        item,
                    ),
                    StreamAction::Idle => !old(bus)@.has_next(old(self).id()),
                    StreamAction::Stop => false,
                }
            },
    {
        match self.subscriber.take() {
            None => StreamAction::Stop,
            Some(subscriber) => {
                if shutting_down {
                    bus.unsubscribe(subscriber);
                    StreamAction::Stop
                } else {
                    let got = bus.next(&subscriber);
                    self.subscriber = Some(subscriber);
                    match got {
                        Pulled::Item(item) => StreamAction::Send(item),
                        Pulled::Empty => StreamAction::Idle,
                        Pulled::Closed => StreamAction::Idle,
                    }
                }
            },
        }
    }

    /// Takes note of how a send went. A send that failed ends the loop and
    /// gives its subscription back; other subscribers are not touched.
    pub fn sent<T>(&mut self, bus: &mut Bus<T>, delivered: bool)
        requires
            old(bus).wf(),
        ensures
            final(bus).wf(),
            delivered || old(self).finished() ==> *final(self) == *old(self) && final(bus)@ == old(bus)@,
            !delivered && !old(self).finished() ==> final(self).finished() && final(bus)@ == old(bus)@.unsubscribe(old(self).id()),
    {
        if !delivered {
            match self.subscriber.take() {
                Some(subscriber) => {
                    bus.unsubscribe(subscriber);
                },
                None => {},
            }
        }
    }

    /// Ends the loop without a bus to give the subscription back to.
    pub fn abandon(&mut self)
        ensures
            final(self).finished(),
    {
        self.subscriber = None;
    }
}

} // verus!
