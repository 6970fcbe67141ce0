//! The video dispatch pipeline: for each encoded frame, decide whether it is
//! forwarded to the transport or dropped, and keep the stream-corruption flag.

use crate::bitrate::NANOS_PER_SECOND;
use crate::events::{EventQueue, ServerCoreEvent};
use std::collections::VecDeque;
use vstd::prelude::*;

verus! {

/// One encoded frame on its way to the client.
pub struct VideoPacket {
    pub timestamp_ns: u64,
    pub is_idr: bool,
    pub payload: Vec<u8>,
}

/// Bounded, ordered, non-blocking queue between the pipeline and the network
/// sender. Its view lists the packets waiting to be sent, oldest first.
pub struct VideoChannel {
    queue: VecDeque<VideoPacket>,
    capacity: usize,
}

impl View for VideoChannel {
    type V = Seq<VideoPacket>;

    closed spec fn view(&self) -> Seq<VideoPacket> {
        self.queue@
    }
}

impl VideoChannel {
    /// The largest number of packets that may wait at once.
    pub closed spec fn bound(&self) -> nat {
        self.capacity as nat
    }

    pub closed spec fn wf(&self) -> bool {
        self.queue@.len() <= self.capacity
    }

    /// A well-formed channel holds no more packets than its bound.
    pub proof fn lemma_bounded(&self)
        requires
            self.wf(),
        ensures
            self@.len() <= self.bound(),
    {
    }

    pub fn new(capacity: usize) -> (c: Self)
        ensures
            c.wf(),
            c@ == Seq::<VideoPacket>::empty(),
            c.bound() == capacity,
    {
        VideoChannel { queue: VecDeque::new(), capacity }
    }

    pub fn capacity(&self) -> (n: usize)
        ensures
            n == self.bound(),
    {
        self.capacity
    }

    pub fn len(&self) -> (n: usize)
        ensures
            n == self@.len(),
    {
        self.queue.len()
    }

    /// Non-blocking push: the packet goes behind all waiting packets, or
    /// comes back when the channel is full.
    pub fn try_send(&mut self, packet: VideoPacket) -> (r: Result<(), VideoPacket>)
        requires
            old(self).wf(),
        ensures
            final(self).wf(),
            final(self).bound() == old(self).bound(),
            old(self)@.len() < old(self).bound() ==> r.is_ok() && final(self)@ == old(self)@.push(
                packet,
            ),
            old(self)@.len() >= old(self).bound() ==> r == Err::<(), VideoPacket>(packet),
            old(self)@.len() >= old(self).bound() ==> final(self)@ == old(self)@,
    {
        if self.queue.len() < self.capacity {
            self.queue.push_back(packet);
            Ok(())
        } else {
            Err(packet)
        }
    }

    /// Takes the oldest waiting packet, if there is one.
    pub fn try_recv(&mut self) -> (packet: Option<VideoPacket>)
        requires
            old(self).wf(),
        ensures
            final(self).wf(),
            final(self).bound() == old(self).bound(),
            old(self)@.len() == 0 ==> packet.is_none() && final(self)@ == old(self)@,
            old(self)@.len() > 0 ==> packet == Some(old(self)@[0]),
            old(self)@.len() > 0 ==> final(self)@ == old(self)@.subrange(1, old(self)@.len() as int),
    {
        self.queue.pop_front()
    }
}

/// What the pipeline reads of the configuration.
#[derive(Clone, Copy, Debug, PartialEq, Eq, Structural)]
pub struct DispatchSettings {
    pub avoid_video_glitching: bool,
    /// Rotation interval of the recording file in seconds, if recordings roll.
    pub rolling_video_files: Option<u64>,
}

#[derive(Clone, Copy, Debug, PartialEq, Eq, Structural)]
pub enum DropReason {
    /// The stream is corrupted and the frame is no key frame.
    AwaitingKeyFrame,
    /// The transport channel had no room.
    ChannelFull,
    /// No transport is attached.
    NotConnected,
}

#[derive(Clone, Copy, Debug, PartialEq, Eq, Structural)]
pub enum Outcome {
    Forwarded,
    Dropped(DropReason),
}

/// What became of one submitted frame, and what is left for the caller to do
/// with it.
#[derive(Clone, Copy, Debug, PartialEq, Eq, Structural)]
pub struct DispatchReport {
    pub outcome: Outcome,
    /// The payload goes to the mirror subscribers and the recording file.
    pub tee_payload: bool,
    /// A new recording file is to be opened before the payload is recorded.
    pub rotate_recording: bool,
}

/// Mathematical state of the pipeline.
pub struct DispatcherModel {
    pub corrupted: bool,
    pub last_rotation_ns: u64,
    pub channel: Seq<VideoPacket>,
    pub capacity: nat,
}

/// The rotation interval has run out at `now_ns`.
pub open spec fn rotation_due(settings: DispatchSettings, last_rotation_ns: u64, now_ns: u64) -> bool {
    match settings.rolling_video_files {
        Some(duration_s) => now_ns > last_rotation_ns + duration_s * NANOS_PER_SECOND,
        None => false,
    }
}

/// The frame is held back because the client still waits for a key frame.
pub open spec fn held_back(pre: DispatcherModel, settings: DispatchSettings, is_idr: bool) -> bool {
    pre.corrupted && !is_idr && settings.avoid_video_glitching
}

/// The frame reaches the channel and finds it full.
pub open spec fn congested(pre: DispatcherModel, settings: DispatchSettings, is_idr: bool) -> bool {
    !held_back(pre, settings, is_idr) && pre.channel.len() >= pre.capacity
}

pub open spec fn outcome_of(pre: DispatcherModel, settings: DispatchSettings, is_idr: bool) -> Outcome {
    if held_back(pre, settings, is_idr) {
        Outcome::Dropped(DropReason::AwaitingKeyFrame)
    } else if congested(pre, settings, is_idr) {
        Outcome::Dropped(DropReason::ChannelFull)
    } else {
        Outcome::Forwarded
    }
}

pub open spec fn report_of(
    pre: DispatcherModel,
    settings: DispatchSettings,
    now_ns: u64,
    is_idr: bool,
) -> DispatchReport {
    DispatchReport {
        outcome: outcome_of(pre, settings, is_idr),
        tee_payload: !held_back(pre, settings, is_idr),
        rotate_recording: is_idr && rotation_due(settings, pre.last_rotation_ns, now_ns),
    }
}

/// The events that one submission adds to the queue, in order.
pub open spec fn events_of(
    pre: DispatcherModel,
    settings: DispatchSettings,
    now_ns: u64,
    is_idr: bool,
) -> Seq<ServerCoreEvent> {
    let rotation = if rotation_due(settings, pre.last_rotation_ns, now_ns) {
        seq![ServerCoreEvent::RequestIDR]
    } else {
        Seq::<ServerCoreEvent>::empty()
    };
    let recovery = if congested(pre, settings, is_idr) {
        seq![ServerCoreEvent::RequestIDR]
    } else {
        Seq::<ServerCoreEvent>::empty()
    };
    rotation + recovery
}

/// The state after `packet` was submitted at `now_ns`.
pub open spec fn step(
    pre: DispatcherModel,
    settings: DispatchSettings,
    now_ns: u64,
    packet: VideoPacket,
) -> DispatcherModel {
    DispatcherModel {
        corrupted: (pre.corrupted && !packet.is_idr) || congested(pre, settings, packet.is_idr),
        last_rotation_ns: if packet.is_idr && rotation_due(settings, pre.last_rotation_ns, now_ns) {
            now_ns
        } else {
            pre.last_rotation_ns
        },
        channel: if outcome_of(pre, settings, packet.is_idr) == Outcome::Forwarded {
            pre.channel.push(packet)
        } else {
            pre.channel
        },
        capacity: pre.capacity,
    }
}

/// The state after the network sender took the oldest waiting packet.
pub open spec fn after_take(pre: DispatcherModel) -> DispatcherModel {
    if pre.channel.len() == 0 {
        pre
    } else {
        DispatcherModel { channel: pre.channel.subrange(1, pre.channel.len() as int), ..pre }
    }
}

/// One thing that happens to the pipeline: a frame is submitted, or the
/// network sender takes the oldest waiting packet.
pub enum Action {
    Submit { now_ns: u64, packet: VideoPacket },
    Take,
}

/// The pipeline together with the packets that the network sender has
/// taken so far, oldest first.
pub struct Trace {
    pub state: DispatcherModel,
    pub delivered: Seq<VideoPacket>,
}

/// Everything that the pipeline has forwarded so far, in the order in which
/// the transport gets it: what was taken, then what still waits.
pub open spec fn transported(t: Trace) -> Seq<VideoPacket> {
    t.delivered + t.state.channel
}

/// The trace after the network sender took the oldest waiting packet.
pub open spec fn taken(t: Trace) -> Trace {
    Trace {
        state: after_take(t.state),
        delivered: if t.state.channel.len() == 0 {
            t.delivered
        } else {
            t.delivered.push(t.state.channel[0])
        },
    }
}

/// The trace after `actions` happened one after the other.
pub open spec fn run(pre: Trace, settings: DispatchSettings, actions: Seq<Action>) -> Trace
    decreases actions.len(),
{
    if actions.len() == 0 {
        pre
    } else {
        let mid = run(pre, settings, actions.drop_last());
        match actions.last() {
            Action::Submit { now_ns, packet } => Trace {
                state: step(mid.state, settings, now_ns, packet),
                delivered: mid.delivered,
            },
            Action::Take => taken(mid),
        }
    }
}

/// `picked` holds submitted packets of `actions` in the order of their
/// submission, each submission taken at most once.
pub open spec fn selected_in_order(picked: Seq<VideoPacket>, actions: Seq<Action>) -> bool
    decreases actions.len(),
{
    if actions.len() == 0 {
        picked.len() == 0
    } else {
        match actions.last() {
            Action::Submit { now_ns, packet } => selected_in_order(picked, actions.drop_last()) || (
            picked.len() > 0 && picked.last() == packet && selected_in_order(
                picked.drop_last(),
                actions.drop_last(),
            )),
            Action::Take => selected_in_order(picked, actions.drop_last()),
        }
    }
}

/// No action submits a key frame.
pub open spec fn no_key_frame(actions: Seq<Action>) -> bool {
    forall|i: int|
        0 <= i < actions.len() ==> match #[trigger] actions[i] {
            Action::Submit { now_ns, packet } => !packet.is_idr,
            Action::Take => true,
        }
}

/// A forwarded key frame leaves the stream sound; a frame dropped at a full
/// channel leaves it corrupted.
pub proof fn lemma_corruption_flag(
    pre: DispatcherModel,
    settings: DispatchSettings,
    now_ns: u64,
    packet: VideoPacket,
)
    ensures
        outcome_of(pre, settings, packet.is_idr) == Outcome::Forwarded && packet.is_idr ==> !step(
            pre,
            settings,
            now_ns,
            packet,
        ).corrupted,
        outcome_of(pre, settings, packet.is_idr) == Outcome::Dropped(DropReason::ChannelFull) ==> step(
            pre,
            settings,
            now_ns,
            packet,
        ).corrupted,
{
}

/// While the stream is corrupted and glitches are to be avoided, frames that
/// are no key frames never reach the transport, however many are submitted
/// and whatever the network sender takes meanwhile.
pub proof fn lemma_waits_for_key_frame(pre: Trace, settings: DispatchSettings, actions: Seq<Action>)
    requires
        settings.avoid_video_glitching,
        pre.state.corrupted,
        no_key_frame(actions),
    ensures
        transported(run(pre, settings, actions)) == transported(pre),
        run(pre, settings, actions).state.corrupted,
    decreases actions.len(),
{
    if actions.len() > 0 {
        let earlier = actions.drop_last();
        assert forall|i: int| 0 <= i < earlier.len() implies match #[trigger] earlier[i] {
            Action::Submit { now_ns, packet } => !packet.is_idr,
            Action::Take => true,
        } by {
            assert(earlier[i] == actions[i]);
        }
        lemma_waits_for_key_frame(pre, settings, earlier);
        let mid = run(pre, settings, earlier);
        let last = actions[actions.len() - 1];
        assert(last == actions.last());
        match last {
            Action::Submit { now_ns, packet } => {},
            Action::Take => {
                lemma_take_keeps_transported(mid);
            },
        }
    }
}

/// Taking a packet changes nothing of what was forwarded, nor its order.
pub proof fn lemma_take_keeps_transported(t: Trace)
    ensures
        transported(taken(t)) == transported(t),
        taken(t).state.corrupted == t.state.corrupted,
{
    assert(transported(taken(t)) =~= transported(t));
}

/// Forwarding keeps the order of submission: what was forwarded before stays
/// in front, and what was added are submitted packets in the order in which
/// they were submitted. Dropped frames leave gaps and nothing else.
pub proof fn lemma_forwarding_keeps_order(pre: Trace, settings: DispatchSettings, actions: Seq<Action>)
    ensures
        transported(pre).len() <= transported(run(pre, settings, actions)).len(),
        transported(run(pre, settings, actions)).subrange(0, transported(pre).len() as int)
            == transported(pre),
        selected_in_order(
            transported(run(pre, settings, actions)).skip(transported(pre).len() as int),
            actions,
        ),
    decreases actions.len(),
{
    let post = run(pre, settings, actions);
    let n = transported(pre).len() as int;
    if actions.len() == 0 {
        assert(transported(post).subrange(0, n) =~= transported(pre));
    } else {
        let earlier = actions.drop_last();
        let mid = run(pre, settings, earlier);
        lemma_forwarding_keeps_order(pre, settings, earlier);
        match actions.last() {
            Action::Submit { now_ns, packet } => {
                if outcome_of(mid.state, settings, packet.is_idr) == Outcome::Forwarded {
                    assert(transported(post) =~= transported(mid).push(packet));
                    assert(transported(post).subrange(0, n) =~= transported(mid).subrange(0, n));
                    assert(transported(post).skip(n).drop_last() =~= transported(mid).skip(n));
                    assert(transported(post).skip(n).last() == packet);
                } else {
                    assert(transported(post) =~= transported(mid));
                }
            },
            Action::Take => {
                lemma_take_keeps_transported(mid);
            },
        }
    }
}

/// The pipeline's own state: the corruption flag, the time of the last
/// rotation of the recording, and the channel to the network sender.
pub struct VideoDispatcher {
    stream_corrupted: bool,
    last_rotation_ns: u64,
    channel: VideoChannel,
}

impl View for VideoDispatcher {
    type V = DispatcherModel;

    closed spec fn view(&self) -> DispatcherModel {
        DispatcherModel {
            corrupted: self.stream_corrupted,
            last_rotation_ns: self.last_rotation_ns,
            channel: self.channel@,
            capacity: self.channel.bound(),
        }
    }
}

impl VideoDispatcher {
    pub closed spec fn wf(&self) -> bool {
        self.channel.wf()
    }

    /// The channel of a well-formed pipeline holds no more packets than its
    /// capacity.
    pub proof fn lemma_channel_bounded(&self)
        requires
            self.wf(),
        ensures
            self@.channel.len() <= self@.capacity,
    {
        self.channel.lemma_bounded();
    }

    /// A pipeline over an empty channel. The stream starts out corrupted:
    /// the client has not seen a key frame yet.
    pub fn new(capacity: usize, now_ns: u64) -> (d: Self)
        ensures
            d.wf(),
            d@ == (DispatcherModel {
                corrupted: true,
                last_rotation_ns: now_ns,
                channel: Seq::<VideoPacket>::empty(),
                capacity: capacity as nat,
            }),
    {
        VideoDispatcher {
            stream_corrupted: true,
            last_rotation_ns: now_ns,
            channel: VideoChannel::new(capacity),
        }
    }

    pub fn is_stream_corrupted(&self) -> (b: bool)
        ensures
            b == self@.corrupted,
    {
        self.stream_corrupted
    }

    pub fn pending(&self) -> (n: usize)
        ensures
            n == self@.channel.len(),
    {
        self.channel.len()
    }

    /// Hands the oldest forwarded packet to the network sender.
    pub fn take_forwarded(&mut self) -> (packet: Option<VideoPacket>)
        requires
            old(self).wf(),
        ensures
            final(self).wf(),
            final(self)@ == after_take(old(self)@),
            old(self)@.channel.len() == 0 ==> packet.is_none(),
            old(self)@.channel.len() > 0 ==> packet == Some(old(self)@.channel[0]),
    {
        self.channel.try_recv()
    }

    /// Submits one frame. A key frame clears the corruption flag; a due
    /// rotation asks for a key frame and, on a key frame, restarts the
    /// rotation timer; a frame that waits for a key frame is held back; any
    /// other frame is pushed to the channel, and a full channel sets the
    /// corruption flag and asks for a key frame.
    pub fn submit(
        &mut self,
        settings: &DispatchSettings,
        events: &mut EventQueue,
        now_ns: u64,
        packet: VideoPacket,
    ) -> (report: DispatchReport)
        requires
            old(self).wf(),
        ensures
            final(self).wf(),
            final(self)@ == step(old(self)@, *settings, now_ns, packet),
            report == report_of(old(self)@, *settings, now_ns, packet.is_idr),
            final(events)@ == old(events)@ + events_of(old(self)@, *settings, now_ns, packet.is_idr),
            report.outcome == Outcome::Forwarded && packet.is_idr ==> !final(self)@.corrupted,
            report.outcome == Outcome::Dropped(DropReason::ChannelFull) ==> final(self)@.corrupted,
            settings.avoid_video_glitching && old(self)@.corrupted && !packet.is_idr
                ==> final(self)@.channel == old(self)@.channel && final(self)@.corrupted,
            report.outcome == Outcome::Forwarded ==> final(self)@.channel == old(self)@.channel.push(
                packet,
            ),
            report.outcome != Outcome::Forwarded ==> final(self)@.channel == old(self)@.channel,
    {
        let is_idr = packet.is_idr;
        if is_idr {
            self.stream_corrupted = false;
        }
        let due = rotation_is_due(settings, self.last_rotation_ns, now_ns);
        if due {
            events.push(ServerCoreEvent::RequestIDR);
            if is_idr {
                self.last_rotation_ns = now_ns;
            }
        }
        let rotate_recording = due && is_idr;
        if !self.stream_corrupted || !settings.avoid_video_glitching {
            match self.channel.try_send(packet) {
                Ok(()) => {
                    proof {
                        assert(events@ =~= old(events)@ + events_of(
                            old(self)@,
                            *settings,
                            now_ns,
                            is_idr,
                        ));
                    }
                    DispatchReport { outcome: Outcome::Forwarded, tee_payload: true, rotate_recording }
                },
                Err(_) => {
                    self.stream_corrupted = true;
                    events.push(ServerCoreEvent::RequestIDR);
                    proof {
                        assert(events@ =~= old(events)@ + events_of(
                            old(self)@,
                            *settings,
                            now_ns,
                            is_idr,
                        ));
                    }
                    DispatchReport {
                        outcome: Outcome::Dropped(DropReason::ChannelFull),
                        tee_payload: true,
                        rotate_recording,
                    }
                },
            }
        } else {
            proof {
                assert(events@ =~= old(events)@ + events_of(
                    old(self)@,
                    *settings,
                    now_ns,
                    is_idr,
                ));
            }
            DispatchReport {
                outcome: Outcome::Dropped(DropReason::AwaitingKeyFrame),
                tee_payload: false,
                rotate_recording,
            }
        }
    }
}

/// Whether the rotation interval has run out, computed without overflow.
pub fn rotation_is_due(settings: &DispatchSettings, last_rotation_ns: u64, now_ns: u64) -> (due: bool)
    ensures
        due == rotation_due(*settings, last_rotation_ns, now_ns),
{
    match settings.rolling_video_files {
        Some(duration_s) => {
            let deadline: u128 = last_rotation_ns as u128 + duration_s as u128 * (NANOS_PER_SECOND as u128);
            (now_ns as u128) > deadline
        },
        None => false,
    }
}

} // verus!
