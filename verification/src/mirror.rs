//! The mirror of the video stream: frames are broadcast to the viewers that
//! asked for them.
//!
//! A viewer can decode frames only after it has seen the decoder's
//! configuration. So every new viewer carries the last known configuration
//! with it and sends it before it pulls anything from the bus: however many
//! frames are published in the meantime, and however many of them the ring
//! has to give up, the configuration comes first. Every new mirror session
//! starts on a fresh bus and is followed by a request for a key frame. Only
//! the newest session's bus is alive; streams of earlier sessions are handed
//! no frames.

use crate::bus::{Bus, BusModel};
use crate::dispatch::Effect;
use crate::schedule::Step;
use crate::stream::{StreamAction, StreamLoop};
use vstd::prelude::*;

verus! {

/// How many items the bus of a mirror session keeps.
pub const WS_BROADCAST_CAPACITY: usize = 256;

/// The streaming loop of one viewer, bound to the session it was opened in.
pub struct MirrorStream {
    session: u64,
    pending: Option<Vec<u8>>,
    stream: StreamLoop,
}

impl MirrorStream {
    /// The number of the session that the stream belongs to.
    pub closed spec fn session(&self) -> nat {
        self.session as nat
    }

    /// The decoder's configuration that the stream has yet to send, if any.
    pub closed spec fn pending(&self) -> Option<Seq<u8>> {
        match self.pending {
            Some(buffer) => Some(buffer@),
            None => None,
        }
    }

    /// Whether the stream has ended.
    pub closed spec fn finished(&self) -> bool {
        self.stream.finished()
    }

    /// The key of the stream's subscription on its session's bus.
    pub closed spec fn id(&self) -> int {
        self.stream.id()
    }

    /// Whether the stream has ended.
    pub fn is_finished(&self) -> (done: bool)
        ensures
            done == self.finished(),
    {
        self.stream.is_finished()
    }
}

/// The video mirror: the bus of the newest session, if one was opened, and
/// the decoder's configuration, if one is known.
pub struct VideoMirror {
    bus: Option<Bus<Vec<u8>>>,
    session: u64,
    decoder_config: Option<Vec<u8>>,
}

/// A copy of a buffer.
fn copy_of(buffer: &Vec<u8>) -> (copy: Vec<u8>)
    ensures
        copy@ == buffer@,
{
    let copy = buffer.clone();
    assert(copy@ =~= buffer@);
    copy
}

impl VideoMirror {
    /// The representation invariant.
    pub closed spec fn wf(&self) -> bool {
        self.bus matches Some(b) ==> b.wf()
    }

    /// The number of sessions opened so far.
    pub closed spec fn session(&self) -> nat {
        self.session as nat
    }

    /// The decoder's configuration, if one is known.
    pub closed spec fn config(&self) -> Option<Seq<u8>> {
        match self.decoder_config {
            Some(buffer) => Some(buffer@),
            None => None,
        }
    }

    /// The bus of the newest session, if one was opened.
    pub closed spec fn bus(&self) -> Option<BusModel<Vec<u8>>> {
        match self.bus {
            Some(b) => Some(b@),
            None => None,
        }
    }

    /// A mirror without a session and without a configuration.
    pub fn new() -> (mirror: Self)
        ensures
            mirror.wf(),
            mirror.session() == 0,
            mirror.config() is None,
            mirror.bus() is None,
    {
        VideoMirror { bus: None, session: 0, decoder_config: None }
    }

    /// Takes note of the decoder's configuration. Sessions opened from now on
    /// start with it.
    pub fn set_decoder_config(&mut self, config: Vec<u8>)
        requires
            old(self).wf(),
        ensures
            final(self).wf(),
            final(self).config() == Some(config@),
            final(self).session() == old(self).session(),
            final(self).bus() == old(self).bus(),
    {
        self.decoder_config = Some(config);
    }

    /// Opens a mirror session for a new viewer: a fresh bus takes the place
    /// of the last one and the viewer subscribes to it. The viewer's stream
    /// takes the decoder's configuration along, if one is known, and sends
    /// it first. The caller then carries out the effect that is returned: a
    /// request for a key frame, so that the viewer can decode from the next
    /// frame on.
    ///
    /// Returns `None`, and changes nothing, once `u64::MAX` sessions have
    /// been opened.
    pub fn open(&mut self) -> (opened: Option<(MirrorStream, Effect)>)
        requires
            old(self).wf(),
        ensures
            final(self).wf(),
            final(self).config() == old(self).config(),
            match opened {
                None => old(self).session() == u64::MAX && final(self).session() == old(
                    self,
                ).session() && final(self).bus() == old(self).bus(),
                Some((stream, then)) => {
                    &&& old(self).session() < u64::MAX
                    &&& final(self).session() == old(self).session() + 1
                    &&& stream.session() == final(self).session()
                    &&& stream.pending() == old(self).config()
                    &&& !stream.finished()
                    &&& then == Effect::RequestIdr
                    &&& final(self).bus() == Some(
                        BusModel::<Vec<u8>>::empty(WS_BROADCAST_CAPACITY as nat).subscribe(
                            stream.id(),
                        ),
                    )
                },
            },
    {
        if self.session == u64::MAX {
            return None;
        }
        let mut bus: Bus<Vec<u8>> = Bus::new(WS_BROADCAST_CAPACITY);
        let stream = StreamLoop::start(&mut bus);
        let pending = match &self.decoder_config {
            Some(config) => Some(copy_of(config)),
            None => None,
        };
        self.session = self.session + 1;
        self.bus = Some(bus);
        Some((MirrorStream { session: self.session, pending, stream }, Effect::RequestIdr))
    }

    /// Publishes a frame to the viewers of the newest session. Without a
    /// session the frame is dropped.
    pub fn publish_frame(&mut self, frame: Vec<u8>)
        requires
            old(self).wf(),
        ensures
            final(self).wf(),
            final(self).config() == old(self).config(),
            final(self).session() == old(self).session(),
            final(self).bus() == match old(self).bus() {
                Some(bus) => Some(bus.publish(frame)),
                None => None,
            },
    {
        match &mut self.bus {
            Some(bus) => {
                bus.publish(frame);
            },
            None => {},
        }
    }

    /// Decides the next turn of a viewer's loop.
    ///
    /// Once shutdown is signaled the loop ends at this poll and is told to
    /// stop. A stream that has yet to send the decoder's configuration sends
    /// it now, before it pulls anything. After that a stream of the newest
    /// session pulls from its bus, and a stream of an earlier session
    /// idles until it ends.
    pub fn poll(&mut self, stream: &mut MirrorStream, shutting_down: bool) -> (action:
        StreamAction<Vec<u8>>)
        requires
            old(self).wf(),
        ensures
            final(self).wf(),
            final(self).config() == old(self).config(),
            final(self).session() == old(self).session(),
            final(stream).session() == old(stream).session(),
            old(stream).finished() ==> {
                &&& action is Stop
                &&& final(stream).finished()
                &&& final(self).bus() == old(self).bus()
            },
            !old(stream).finished() && shutting_down ==> {
                &&& action is Stop
                &&& final(stream).finished()
                &&& final(self).bus() == match old(self).bus() {
                    Some(bus) => if old(stream).session() == old(self).session() {
                        Some(bus.unsubscribe(old(stream).id()))
                    } else {
                        Some(bus)
                    },
                    None => None,
                }
            },
            !old(stream).finished() && !shutting_down ==> {
                &&& !final(stream).finished()
                &&& final(stream).id() == old(stream).id()
                &&& final(stream).pending() is None
                &&& match old(stream).pending() {
                    Some(config) => {
                        &&& action matches StreamAction::Send(item) && item@ == config
                        &&& final(self).bus() == old(self).bus()
                    },
                    None => match old(self).bus() {
                        Some(bus) => if old(stream).session() == old(self).session() {
                            &&& final(self).bus() == Some(bus.advance(old(stream).id()))
                            &&& match action {
                                StreamAction::Send(item) => bus.has_next(old(stream).id()) && item@
                                    == bus.published[bus.cursors[old(stream).id()] as int]@,
                                StreamAction::Idle => !bus.has_next(old(stream).id()),
                                StreamAction::Stop => false,
                            }
                        } else {
                            final(self).bus() == old(self).bus() && action is Idle
                        },
                        None => final(self).bus() is None && action is Idle,
                    },
                }
            },
    {
        if !shutting_down && !stream.stream.is_finished() {
            match stream.pending.take() {
                Some(config) => {
                    return StreamAction::Send(config);
                },
                None => {},
            }
        }
        let current = stream.session == self.session;
        match &mut self.bus {
            Some(bus) => {
                if current {
                    let action = stream.stream.poll(bus, shutting_down);
                    proof {
                        if action is Send {
                            let item = action->Send_0;
                            let at = old(self).bus->0@.cursors[old(stream).id()] as int;
                            let origin = old(self).bus->0@.published[at];
                            assert(item@ =~= origin@);
                        }
                    }
                    return action;
                }
            },
            None => {},
        }
        if stream.stream.is_finished() {
            StreamAction::Stop
        } else if shutting_down {
            stream.stream.abandon();
            StreamAction::Stop
        } else {
            StreamAction::Idle
        }
    }

    /// Takes note of how a send to a viewer went. A send that failed ends
    /// the viewer's loop; the other viewers are not touched.
    pub fn sent(&mut self, stream: &mut MirrorStream, delivered: bool)
        requires
            old(self).wf(),
        ensures
            final(self).wf(),
            final(self).config() == old(self).config(),
            final(self).session() == old(self).session(),
            final(stream).session() == old(stream).session(),
            final(stream).pending() == old(stream).pending(),
            delivered ==> final(stream).finished() == old(stream).finished() && final(self).bus()
                == old(self).bus(),
            !delivered ==> final(stream).finished(),
            !delivered && !old(stream).finished() && old(stream).session() == old(self).session()
                ==> final(self).bus() == match old(self).bus() {
                Some(bus) => Some(bus.unsubscribe(old(stream).id())),
                None => None,
            },
            !delivered && (old(stream).finished() || old(stream).session() != old(self).session())
                ==> final(self).bus() == old(self).bus(),
    {
        if delivered {
            return ;
        }
        let current = stream.session == self.session;
        match &mut self.bus {
            Some(bus) => {
                if current {
                    stream.stream.sent(bus, false);
                    return ;
                }
            },
            None => {},
        }
        stream.stream.abandon();
    }
}

/// What a viewer sends while frames are published and the viewer polls, in
/// any order: the configuration that it has yet to send, if any; the bus of
/// its session; and the messages that it was told to send, in their order.
/// The viewer is neither ended nor shut down on the way.
pub open spec fn viewer_run(
    pending: Option<Seq<u8>>,
    bus: BusModel<Vec<u8>>,
    id: int,
    steps: Seq<Step<Vec<u8>>>,
) -> (Option<Seq<u8>>, BusModel<Vec<u8>>, Seq<Seq<u8>>)
    decreases steps.len(),
{
    if steps.len() == 0 {
        (pending, bus, Seq::empty())
    } else {
        let (waiting, prev, sent) = viewer_run(pending, bus, id, steps.drop_last());
        match steps.last() {
            Step::Publish(frame) => (waiting, prev.publish(frame), sent),
            Step::Pull => match waiting {
                Some(config) => (None, prev, sent.push(config)),
                None => if prev.has_next(id) {
                    (
                        None,
                        prev.advance(id),
                        sent.push(prev.published[prev.cursors[id] as int]@),
                    )
                } else {
                    (None, prev, sent)
                },
            },
        }
    }
}

/// A viewer that was opened with a known configuration sends it before
/// anything else: whatever frames are published, before its first poll or
/// after it, and however far the viewer falls behind, its first message is
/// the configuration, and every frame that it sends comes after that.
pub proof fn lemma_config_is_delivered_first(
    config: Seq<u8>,
    bus: BusModel<Vec<u8>>,
    id: int,
    steps: Seq<Step<Vec<u8>>>,
)
    ensures
        ({
            let (waiting, end, sent) = viewer_run(Some(config), bus, id, steps);
            &&& sent.len() > 0 ==> sent[0] == config
            &&& waiting is Some ==> waiting == Some(config) && sent.len() == 0
            &&& waiting is None ==> sent.len() > 0
        }),
    decreases steps.len(),
{
    if steps.len() > 0 {
        lemma_config_is_delivered_first(config, bus, id, steps.drop_last());
    }
}

} // verus!
