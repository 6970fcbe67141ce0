//! The server context: the owner of every service of the core, and the
//! entry points that the encoder, the render loop and the host call.

use crate::bitrate::{
    BitrateConfig, BitrateManager, BitrateModel, BitrateSample, DynamicEncoderParams, after_decision,
    cadence_after_present, chosen_params, measured_stats, remember,
};
use crate::dispatch::{
    DispatchReport, DispatchSettings, DispatcherModel, DropReason, Outcome, VideoDispatcher,
    VideoPacket, after_take, events_of, outcome_of, report_of, step,
};
use crate::events::{EventQueue, ServerCoreEvent, without};
use crate::lifecycle::{
    ClientEvent, ClientModel, ClientTable, LifecycleState, accepts, acknowledged, all_disconnected,
    all_wound_down, applied, dispatch_permitted, distinct_clients, is_down,
    lemma_wind_down_idempotent, may_handshake, resumed_from, with_handshake,
};
use crate::settings::{CodecType, DecoderInitializationConfig, Settings};
use crate::statistics::{
    FrameRecord, StatisticsManager, StatisticsModel, after_composed, after_encoded, after_present,
    after_started,
    distinct_frames, encode_latency, instant_before, until_next_vsync,
};
use vstd::prelude::*;

verus! {

/// Number of encode samples that the bitrate controller keeps.
pub const BITRATE_HISTORY: usize = 256;

/// Framerate that the bitrate controller starts from.
pub const INITIAL_FRAMERATE: u32 = 60;

/// Pause between two looks at the client table during teardown.
pub const SHUTDOWN_POLL_MS: u64 = 100;

/// Longest time that teardown waits for the clients to disconnect.
pub const SHUTDOWN_GRACE_MS: u64 = 5_000;

/// The current decoder configuration, as plain values.
pub struct DecoderConfigModel {
    pub codec: CodecType,
    pub config_buffer: Seq<u8>,
}

/// Mathematical state of the server context.
pub struct ContextModel {
    pub lifecycle: LifecycleState,
    pub restarting: bool,
    pub registration_pending: bool,
    pub clients: Seq<ClientModel>,
    pub events: Seq<ServerCoreEvent>,
    pub dispatcher: DispatcherModel,
    pub statistics: Option<StatisticsModel>,
    pub bitrate: BitrateModel,
    pub decoder_config: Option<DecoderConfigModel>,
}

/// What is left for the host to do when teardown begins.
#[derive(Clone, Copy, Debug, PartialEq, Eq, Structural)]
pub struct ShutdownPlan {
    /// The host registration that was changed at connect time is to be
    /// restored.
    pub restore_registration: bool,
}

/// One look at the client table during teardown.
#[derive(Clone, Copy, Debug, PartialEq, Eq, Structural)]
pub enum ShutdownStep {
    /// Some client is not disconnected yet: look again after this many
    /// milliseconds.
    Wait(u64),
    /// Every client is disconnected.
    Finished,
    /// The grace period is over: go on without the clients.
    TimedOut,
}

/// What is to be done with one haptics request.
#[derive(Clone, Copy, Debug, PartialEq, Eq, Structural)]
pub struct HapticsPlan {
    pub log: bool,
    pub send: bool,
}

/// The events that tell the host of a client's transition.
pub open spec fn notification(event: ClientEvent) -> Seq<ServerCoreEvent> {
    match event {
        ClientEvent::HandshakeSucceeded => seq![ServerCoreEvent::ClientConnected],
        ClientEvent::HandshakeFailed => seq![ServerCoreEvent::ClientDisconnected],
        ClientEvent::TeardownCompleted => seq![ServerCoreEvent::ClientDisconnected],
        ClientEvent::ConnectionLost => Seq::<ServerCoreEvent>::empty(),
    }
}

/// The state once teardown has begun.
pub open spec fn after_shutdown(pre: ContextModel) -> ContextModel {
    ContextModel {
        lifecycle: LifecycleState::ShuttingDown,
        registration_pending: false,
        clients: all_wound_down(pre.clients),
        ..pre
    }
}

/// The statistics after a forwarded frame was accounted for.
pub open spec fn statistics_after_encode(
    statistics: Option<StatisticsModel>,
    timestamp_ns: u64,
    frame_size_bytes: u64,
    now_ns: u64,
) -> Option<StatisticsModel> {
    match statistics {
        Some(s) => Some(after_encoded(s, timestamp_ns, frame_size_bytes, now_ns)),
        None => None,
    }
}

/// The bitrate controller after a forwarded frame was accounted for. Without
/// statistics there is no latency to account.
pub open spec fn bitrate_after_encode(
    bitrate: BitrateModel,
    statistics: Option<StatisticsModel>,
    timestamp_ns: u64,
    frame_size_bytes: u64,
    now_ns: u64,
) -> BitrateModel {
    match statistics {
        Some(s) => BitrateModel {
            history: remember(
                bitrate.history,
                bitrate.max_history,
                BitrateSample {
                    timestamp_ns,
                    encode_latency_ns: encode_latency(s.window, timestamp_ns, now_ns),
                    frame_size_bytes,
                },
            ),
            ..bitrate
        },
        None => bitrate,
    }
}

/// The state after one frame was handed in for dispatch at `now_ns`.
pub open spec fn after_video_nal(
    pre: ContextModel,
    settings: DispatchSettings,
    now_ns: u64,
    packet: VideoPacket,
) -> ContextModel {
    if !dispatch_permitted(pre.lifecycle, pre.clients) {
        pre
    } else if outcome_of(pre.dispatcher, settings, packet.is_idr) == Outcome::Forwarded {
        ContextModel {
            dispatcher: step(pre.dispatcher, settings, now_ns, packet),
            events: pre.events + events_of(pre.dispatcher, settings, now_ns, packet.is_idr),
            statistics: statistics_after_encode(
                pre.statistics,
                packet.timestamp_ns,
                packet.payload@.len() as u64,
                now_ns,
            ),
            bitrate: bitrate_after_encode(
                pre.bitrate,
                pre.statistics,
                packet.timestamp_ns,
                packet.payload@.len() as u64,
                now_ns,
            ),
            ..pre
        }
    } else {
        ContextModel {
            dispatcher: step(pre.dispatcher, settings, now_ns, packet),
            events: pre.events + events_of(pre.dispatcher, settings, now_ns, packet.is_idr),
            ..pre
        }
    }
}

/// The state after the encoder asked for its parameters: the controller
/// remembers its decision and the statistics keep what it measured.
pub open spec fn after_encoder_params(pre: ContextModel, config: BitrateConfig) -> ContextModel {
    if pre.bitrate.history.len() == 0 {
        pre
    } else {
        ContextModel {
            bitrate: after_decision(pre.bitrate, config),
            statistics: match pre.statistics {
                Some(s) => Some(
                    StatisticsModel { bitrate_stats: Some(measured_stats(pre.bitrate)), ..s },
                ),
                None => None,
            },
            ..pre
        }
    }
}

/// Teardown begun twice ends where teardown begun once ends, and the second
/// time leaves nothing to restore.
pub proof fn lemma_shutdown_idempotent(pre: ContextModel)
    ensures
        after_shutdown(after_shutdown(pre)) == after_shutdown(pre),
        !after_shutdown(pre).registration_pending,
        after_shutdown(pre).lifecycle == LifecycleState::ShuttingDown,
{
    lemma_wind_down_idempotent(pre.clients);
}

/// Once teardown has begun no frame is dispatched: a frame handed in is
/// dropped and the state stays as it is.
pub proof fn lemma_no_dispatch_after_shutdown(
    pre: ContextModel,
    settings: DispatchSettings,
    now_ns: u64,
    packet: VideoPacket,
)
    ensures
        after_video_nal(after_shutdown(pre), settings, now_ns, packet) == after_shutdown(pre),
        video_nal_report(after_shutdown(pre), settings, now_ns, packet.is_idr).outcome
            == Outcome::Dropped(DropReason::NotConnected),
{
}

/// What the caller is told of one frame handed in for dispatch.
pub open spec fn video_nal_report(
    pre: ContextModel,
    settings: DispatchSettings,
    now_ns: u64,
    is_idr: bool,
) -> DispatchReport {
    if dispatch_permitted(pre.lifecycle, pre.clients) {
        report_of(pre.dispatcher, settings, now_ns, is_idr)
    } else {
        DispatchReport {
            outcome: Outcome::Dropped(DropReason::NotConnected),
            tee_payload: false,
            rotate_recording: false,
        }
    }
}

pub struct ServerCoreContext {
    lifecycle: LifecycleState,
    restarting: bool,
    registration_pending: bool,
    clients: ClientTable,
    events: EventQueue,
    dispatcher: VideoDispatcher,
    statistics: Option<StatisticsManager>,
    bitrate: BitrateManager,
    decoder_config: Option<DecoderInitializationConfig>,
}

impl View for ServerCoreContext {
    type V = ContextModel;

    closed spec fn view(&self) -> ContextModel {
        ContextModel {
            lifecycle: self.lifecycle,
            restarting: self.restarting,
            registration_pending: self.registration_pending,
            clients: self.clients@,
            events: self.events@,
            dispatcher: self.dispatcher@,
            statistics: match self.statistics {
                Some(s) => Some(s@),
                None => None,
            },
            bitrate: self.bitrate@,
            decoder_config: match self.decoder_config {
                Some(c) => Some(DecoderConfigModel { codec: c.codec, config_buffer: c.config_buffer@ }),
                None => None,
            },
        }
    }
}

impl ServerCoreContext {
    pub closed spec fn wf(&self) -> bool {
        &&& self.clients.wf()
        &&& self.dispatcher.wf()
        &&& self.bitrate.wf()
        &&& match self.statistics {
            Some(s) => s.wf(),
            None => true,
        }
    }

    /// What holds of every well-formed context: each client is listed once,
    /// and the channel, the sample history and the frame window keep within
    /// their bounds.
    pub proof fn lemma_invariant(&self)
        requires
            self.wf(),
        ensures
            distinct_clients(self@.clients),
            self@.dispatcher.channel.len() <= self@.dispatcher.capacity,
            self@.bitrate.history.len() <= self@.bitrate.max_history,
            match self@.statistics {
                Some(s) => s.window.len() <= s.max_history && distinct_frames(s.window),
                None => true,
            },
    {
        self.clients.lemma_rows_distinct();
        self.dispatcher.lemma_channel_bounded();
    }

    /// A context that starts up at `now_ns`: no client, no event, an empty
    /// channel of `channel_capacity` packets and a corrupted stream.
    pub fn new(channel_capacity: usize, now_ns: u64) -> (ctx: Self)
        ensures
            ctx.wf(),
            ctx@ == (ContextModel {
                lifecycle: LifecycleState::StartingUp,
                restarting: false,
                registration_pending: false,
                clients: Seq::<ClientModel>::empty(),
                events: Seq::<ServerCoreEvent>::empty(),
                dispatcher: DispatcherModel {
                    corrupted: true,
                    last_rotation_ns: now_ns,
                    channel: Seq::<VideoPacket>::empty(),
                    capacity: channel_capacity as nat,
                },
                statistics: None,
                bitrate: BitrateModel {
                    history: Seq::<BitrateSample>::empty(),
                    max_history: BITRATE_HISTORY as nat,
                    nominal_framerate: INITIAL_FRAMERATE,
                    last_present_ns: None,
                    present_interval_ns: None,
                    last_bitrate_bps: None,
                },
                decoder_config: None,
            }),
    {
        ServerCoreContext {
            lifecycle: LifecycleState::StartingUp,
            restarting: false,
            registration_pending: false,
            clients: ClientTable::new(),
            events: EventQueue::new(),
            dispatcher: VideoDispatcher::new(channel_capacity, now_ns),
            statistics: None,
            bitrate: BitrateManager::new(BITRATE_HISTORY, INITIAL_FRAMERATE),
            decoder_config: None,
        }
    }

    pub fn lifecycle_state(&self) -> (state: LifecycleState)
        ensures
            state == self@.lifecycle,
    {
        self.lifecycle
    }

    pub fn is_restarting(&self) -> (b: bool)
        ensures
            b == self@.restarting,
    {
        self.restarting
    }

    pub fn is_stream_corrupted(&self) -> (b: bool)
        ensures
            b == self@.dispatcher.corrupted,
    {
        self.dispatcher.is_stream_corrupted()
    }

    /// Allows dispatch: a context that starts up is resumed. Returns whether
    /// the handshake loop is to be started.
    pub fn start_connection(&mut self) -> (start_handshake: bool)
        ensures
            final(self).wf() == old(self).wf(),
            final(self)@ == (ContextModel { lifecycle: resumed_from(old(self)@.lifecycle), ..old(self)@ }),
            start_handshake == (old(self)@.lifecycle == LifecycleState::StartingUp),
    {
        match self.lifecycle {
            LifecycleState::StartingUp => {
                self.lifecycle = LifecycleState::Resumed;
                true
            },
            _ => false,
        }
    }

    /// Takes the oldest event that waits for the host.
    pub fn poll_event(&mut self) -> (event: Option<ServerCoreEvent>)
        ensures
            final(self).wf() == old(self).wf(),
            old(self)@.events.len() == 0 ==> event.is_none() && final(self)@ == old(self)@,
            old(self)@.events.len() > 0 ==> event == Some(old(self)@.events[0]) && final(self)@ == (
            ContextModel {
                events: old(self)@.events.subrange(1, old(self)@.events.len() as int),
                ..old(self)@
            }),
    {
        self.events.poll()
    }

    /// Puts `event` behind the events that wait for the host.
    pub fn push_event(&mut self, event: ServerCoreEvent)
        ensures
            final(self).wf() == old(self).wf(),
            final(self)@ == (ContextModel { events: old(self)@.events.push(event), ..old(self)@ }),
    {
        self.events.push(event);
    }

    /// Notes that the host registration was changed for this session and is
    /// to be restored at teardown.
    pub fn registration_changed(&mut self)
        ensures
            final(self).wf() == old(self).wf(),
            final(self)@ == (ContextModel { registration_pending: true, ..old(self)@ }),
    {
        self.registration_pending = true;
    }

    /// A client begins its handshake. Returns whether it is connecting
    /// because of this call.
    pub fn client_connecting(&mut self, hostname: String) -> (started: bool)
        requires
            old(self).wf(),
        ensures
            final(self).wf(),
            final(self)@ == (ContextModel {
                clients: with_handshake(old(self)@.clients, hostname@),
                ..old(self)@
            }),
            started == may_handshake(old(self)@.clients, hostname@),
    {
        self.clients.begin_handshake(hostname)
    }

    /// Feeds `event` to the client `hostname` and tells the host where the
    /// client became connected or disconnected. Returns whether the client
    /// moved.
    pub fn client_event(&mut self, hostname: &String, event: ClientEvent) -> (moved: bool)
        requires
            old(self).wf(),
        ensures
            final(self).wf(),
            moved == accepts(old(self)@.clients, hostname@, event),
            final(self)@ == (ContextModel {
                clients: applied(old(self)@.clients, hostname@, event),
                events: if moved {
                    old(self)@.events + notification(event)
                } else {
                    old(self)@.events
                },
                ..old(self)@
            }),
    {
        let moved = self.clients.apply(hostname, event);
        if moved {
            match event {
                ClientEvent::HandshakeSucceeded => {
                    self.events.push(ServerCoreEvent::ClientConnected);
                },
                ClientEvent::HandshakeFailed => {
                    self.events.push(ServerCoreEvent::ClientDisconnected);
                },
                ClientEvent::TeardownCompleted => {
                    self.events.push(ServerCoreEvent::ClientDisconnected);
                },
                ClientEvent::ConnectionLost => {},
            }
            proof {
                assert(self@.events =~= old(self)@.events + notification(event));
            }
        }
        moved
    }

    /// Acknowledges the disconnection of `hostname` and drops its row from
    /// the client table. Returns whether a row was dropped.
    pub fn client_acknowledged(&mut self, hostname: &String) -> (removed: bool)
        requires
            old(self).wf(),
        ensures
            final(self).wf(),
            final(self)@ == (ContextModel {
                clients: acknowledged(old(self)@.clients, hostname@),
                ..old(self)@
            }),
            removed == is_down(old(self)@.clients, hostname@),
    {
        self.clients.acknowledge(hostname)
    }

    /// Starts the statistics of a new stream.
    pub fn start_statistics(&mut self, max_history: usize, frame_interval_ns: u64, now_ns: u64)
        requires
            old(self).wf(),
        ensures
            final(self).wf(),
            final(self)@ == (ContextModel {
                statistics: Some(
                    StatisticsModel {
                        window: Seq::<FrameRecord>::empty(),
                        max_history: max_history as nat,
                        frame_interval_ns,
                        last_vsync_ns: now_ns,
                        cadence_known: false,
                        bitrate_stats: None,
                    },
                ),
                ..old(self)@
            }),
    {
        self.statistics = Some(StatisticsManager::new(max_history, frame_interval_ns, now_ns));
    }

    /// Makes `config_buffer` the current decoder configuration. A new
    /// configuration starts the stream afresh, so the requests for a key
    /// frame that still wait for the host are withdrawn.
    pub fn set_video_config_nals(&mut self, config_buffer: Vec<u8>, codec: CodecType)
        ensures
            final(self).wf() == old(self).wf(),
            final(self)@ == (ContextModel {
                decoder_config: Some(DecoderConfigModel { codec, config_buffer: config_buffer@ }),
                events: without(old(self)@.events, ServerCoreEvent::RequestIDR),
                ..old(self)@
            }),
    {
        self.events.retract(ServerCoreEvent::RequestIDR);
        self.decoder_config = Some(DecoderInitializationConfig { codec, config_buffer });
    }

    /// The current decoder configuration.
    pub fn decoder_config(&self) -> (config: &Option<DecoderInitializationConfig>)
        ensures
            match *config {
                Some(c) => self@.decoder_config == Some(
                    DecoderConfigModel { codec: c.codec, config_buffer: c.config_buffer@ },
                ),
                None => self@.decoder_config.is_none(),
            },
    {
        &self.decoder_config
    }

    /// Hands one encoded frame to the dispatch pipeline. Without a resumed
    /// process and a connected client the frame is dropped and nothing
    /// changes. A forwarded frame is accounted for in the statistics and in
    /// the bitrate controller.
    pub fn send_video_nal(
        &mut self,
        settings: &DispatchSettings,
        now_ns: u64,
        target_timestamp_ns: u64,
        nal_buffer: Vec<u8>,
        is_idr: bool,
    ) -> (report: DispatchReport)
        requires
            old(self).wf(),
        ensures
            final(self).wf(),
            final(self)@ == after_video_nal(
                old(self)@,
                *settings,
                now_ns,
                (VideoPacket { timestamp_ns: target_timestamp_ns, is_idr, payload: nal_buffer }),
            ),
            report == video_nal_report(old(self)@, *settings, now_ns, is_idr),
    {
        if !(self.lifecycle == LifecycleState::Resumed && self.clients.any_connected()) {
            return DispatchReport {
                outcome: Outcome::Dropped(DropReason::NotConnected),
                tee_payload: false,
                rotate_recording: false,
            };
        }
        let frame_size_bytes: u64 = nal_buffer.len() as u64;
        let packet = VideoPacket { timestamp_ns: target_timestamp_ns, is_idr, payload: nal_buffer };
        let report = self.dispatcher.submit(settings, &mut self.events, now_ns, packet);
        if report.outcome == Outcome::Forwarded {
            match &mut self.statistics {
                Some(stats) => {
                    let encode_latency_ns = stats.report_frame_encoded(
                        target_timestamp_ns,
                        frame_size_bytes,
                        now_ns,
                    );
                    self.bitrate.report_frame_encoded(
                        target_timestamp_ns,
                        encode_latency_ns,
                        frame_size_bytes,
                    );
                },
                None => {},
            }
        }
        report
    }

    /// Hands the oldest forwarded packet to the network sender.
    pub fn take_forwarded(&mut self) -> (packet: Option<VideoPacket>)
        requires
            old(self).wf(),
        ensures
            final(self).wf(),
            final(self)@ == (ContextModel {
                dispatcher: after_take(old(self)@.dispatcher),
                ..old(self)@
            }),
            old(self)@.dispatcher.channel.len() == 0 ==> packet.is_none(),
            old(self)@.dispatcher.channel.len() > 0 ==> packet == Some(old(self)@.dispatcher.channel[0]),
    {
        self.dispatcher.take_forwarded()
    }

    /// The next encoder parameters, or `None` while the bitrate controller
    /// has no sample. What the controller measured goes to the statistics.
    pub fn get_dynamic_encoder_params(&mut self, config: &BitrateConfig) -> (params: Option<
        DynamicEncoderParams,
    >)
        requires
            old(self).wf(),
        ensures
            final(self).wf(),
            final(self)@ == after_encoder_params(old(self)@, *config),
            old(self)@.bitrate.history.len() == 0 ==> params.is_none(),
            old(self)@.bitrate.history.len() > 0 ==> params == Some(
                chosen_params(old(self)@.bitrate, *config),
            ),
            params.is_some() && config.min_bitrate_bps <= config.max_bitrate_bps
                ==> config.min_bitrate_bps <= params.unwrap().bitrate_bps <= config.max_bitrate_bps,
    {
        match self.bitrate.get_encoder_params(config) {
            Some((params, stats)) => {
                match &mut self.statistics {
                    Some(stats_manager) => {
                        stats_manager.report_nominal_bitrate_stats(stats);
                    },
                    None => {},
                }
                Some(params)
            },
            None => None,
        }
    }

    /// Notes that frame `target_timestamp_ns` entered the pipeline, so that
    /// the statistics follow it through its stages.
    pub fn report_frame_started(&mut self, target_timestamp_ns: u64)
        requires
            old(self).wf(),
        ensures
            final(self).wf(),
            final(self)@ == (ContextModel {
                statistics: match old(self)@.statistics {
                    Some(s) => Some(after_started(s, target_timestamp_ns)),
                    None => None,
                },
                ..old(self)@
            }),
    {
        match &mut self.statistics {
            Some(stats) => {
                stats.report_frame_started(target_timestamp_ns);
            },
            None => {},
        }
    }

    /// Notes that frame `target_timestamp_ns` was composed `offset_ns` ago.
    pub fn report_composed(&mut self, target_timestamp_ns: u64, offset_ns: u64, now_ns: u64)
        requires
            old(self).wf(),
        ensures
            final(self).wf(),
            final(self)@ == (ContextModel {
                statistics: match old(self)@.statistics {
                    Some(s) => Some(
                        after_composed(s, target_timestamp_ns, instant_before(now_ns, offset_ns)),
                    ),
                    None => None,
                },
                ..old(self)@
            }),
    {
        match &mut self.statistics {
            Some(stats) => {
                stats.report_frame_composed(target_timestamp_ns, offset_ns, now_ns);
            },
            None => {},
        }
    }

    /// Notes that frame `target_timestamp_ns` was presented `offset_ns` ago.
    /// The statistics take the report for a frame of their window and pass
    /// over any other; the bitrate controller takes its cadence either way.
    pub fn report_present(
        &mut self,
        target_timestamp_ns: u64,
        offset_ns: u64,
        now_ns: u64,
        adapt_to_framerate: bool,
    )
        requires
            old(self).wf(),
        ensures
            final(self).wf(),
            final(self)@ == (ContextModel {
                statistics: match old(self)@.statistics {
                    Some(s) => Some(
                        after_present(s, target_timestamp_ns, instant_before(now_ns, offset_ns)),
                    ),
                    None => None,
                },
                bitrate: cadence_after_present(old(self)@.bitrate, adapt_to_framerate, now_ns),
                ..old(self)@
            }),
    {
        match &mut self.statistics {
            Some(stats) => {
                stats.report_frame_present(target_timestamp_ns, offset_ns, now_ns);
            },
            None => {},
        }
        self.bitrate.report_frame_present(adapt_to_framerate, now_ns);
    }

    /// Time left until the next vsync, once statistics are kept.
    pub fn duration_until_next_vsync(&self, now_ns: u64) -> (wait_ns: Option<u64>)
        ensures
            wait_ns == match self@.statistics {
                Some(s) => Some(until_next_vsync(s.frame_interval_ns, s.last_vsync_ns, now_ns) as u64),
                None => None::<u64>,
            },
    {
        match &self.statistics {
            Some(stats) => Some(stats.duration_until_next_vsync(now_ns)),
            None => None,
        }
    }

    /// What is to be done with a haptics request: it is logged where the
    /// settings say so, and sent where haptics are enabled and dispatch is
    /// permitted.
    pub fn send_haptics(&self, settings: &Settings) -> (plan: HapticsPlan)
        requires
            self.wf(),
        ensures
            plan.log == settings.log_haptics,
            plan.send == (settings.haptics_enabled && dispatch_permitted(self@.lifecycle, self@.clients)),
    {
        let connected = self.lifecycle == LifecycleState::Resumed && self.clients.any_connected();
        HapticsPlan { log: settings.log_haptics, send: settings.haptics_enabled && connected }
    }

    /// Begins teardown: the process shuts down and every client winds down.
    /// The plan says once what the host has to restore.
    pub fn shutdown(&mut self) -> (plan: ShutdownPlan)
        requires
            old(self).wf(),
        ensures
            final(self).wf(),
            final(self)@ == after_shutdown(old(self)@),
            plan.restore_registration == old(self)@.registration_pending,
    {
        self.lifecycle = LifecycleState::ShuttingDown;
        self.clients.disconnect_all();
        let restore_registration = self.registration_pending;
        self.registration_pending = false;
        ShutdownPlan { restore_registration }
    }

    /// Marks the context as restarting and begins teardown.
    pub fn restart(&mut self) -> (plan: ShutdownPlan)
        requires
            old(self).wf(),
        ensures
            final(self).wf(),
            final(self)@ == after_shutdown((ContextModel { restarting: true, ..old(self)@ })),
            plan.restore_registration == old(self)@.registration_pending,
    {
        self.restarting = true;
        self.shutdown()
    }

    /// One look at the clients during teardown, `waited_ms` after it began.
    pub fn shutdown_poll(&self, waited_ms: u64) -> (next: ShutdownStep)
        requires
            self.wf(),
        ensures
            next == if all_disconnected(self@.clients) {
                ShutdownStep::Finished
            } else if waited_ms >= SHUTDOWN_GRACE_MS {
                ShutdownStep::TimedOut
            } else {
                ShutdownStep::Wait(SHUTDOWN_POLL_MS)
            },
    {
        if self.clients.all_disconnected() {
            ShutdownStep::Finished
        } else if waited_ms >= SHUTDOWN_GRACE_MS {
            ShutdownStep::TimedOut
        } else {
            ShutdownStep::Wait(SHUTDOWN_POLL_MS)
        }
    }
}

} // verus!
