//! The bitrate controller: a bounded history of encode samples and the
//! presentation cadence, from which the next encoder parameters follow.

use vstd::prelude::*;

verus! {

pub const NANOS_PER_SECOND: u64 = 1_000_000_000;

/// The configured limits of the controller.
#[derive(Clone, Copy, Debug, PartialEq, Eq, Structural)]
pub struct BitrateConfig {
    pub min_bitrate_bps: u64,
    pub max_bitrate_bps: u64,
    pub adapt_to_framerate: bool,
}

/// One encoded frame, as the controller remembers it.
#[derive(Clone, Copy, Debug, PartialEq, Eq, Structural)]
pub struct BitrateSample {
    pub timestamp_ns: u64,
    pub encode_latency_ns: u64,
    pub frame_size_bytes: u64,
}

/// The parameters handed to the encoder.
#[derive(Clone, Copy, Debug, PartialEq, Eq, Structural)]
pub struct DynamicEncoderParams {
    pub bitrate_bps: u64,
    pub framerate: u32,
}

/// What the controller measured when it chose the parameters.
#[derive(Clone, Copy, Debug, PartialEq, Eq, Structural)]
pub struct NominalBitrateStats {
    pub average_encode_latency_ns: u64,
    pub average_frame_size_bytes: u64,
    pub frame_budget_ns: u64,
    pub presentation_behind: bool,
}

/// Mathematical state of the controller.
pub struct BitrateModel {
    pub history: Seq<BitrateSample>,
    pub max_history: nat,
    pub nominal_framerate: u32,
    pub last_present_ns: Option<u64>,
    pub present_interval_ns: Option<u64>,
    pub last_bitrate_bps: Option<u64>,
}

/// Sum of the encode latencies of `history`.
pub open spec fn total_latency(history: Seq<BitrateSample>) -> nat
    decreases history.len(),
{
    if history.len() == 0 {
        0
    } else {
        total_latency(history.drop_last()) + history.last().encode_latency_ns as nat
    }
}

/// Sum of the frame sizes of `history`.
pub open spec fn total_size(history: Seq<BitrateSample>) -> nat
    decreases history.len(),
{
    if history.len() == 0 {
        0
    } else {
        total_size(history.drop_last()) + history.last().frame_size_bytes as nat
    }
}

/// Mean frame size of a history that is not empty, rounded down.
pub open spec fn average_size(history: Seq<BitrateSample>) -> nat {
    total_size(history) / history.len()
}

/// Mean encode latency of a history that is not empty, rounded down.
pub open spec fn average_latency(history: Seq<BitrateSample>) -> nat {
    total_latency(history) / history.len()
}

/// Time that one frame may take at `framerate` frames per second.
pub open spec fn frame_budget(framerate: u32) -> nat {
    if framerate == 0 {
        NANOS_PER_SECOND as nat
    } else {
        NANOS_PER_SECOND as nat / framerate as nat
    }
}

/// Presentation lags: the last interval between two presented frames is more
/// than one and a half frame budgets.
pub open spec fn presentation_behind(m: BitrateModel) -> bool {
    match m.present_interval_ns {
        Some(interval) => interval > frame_budget(m.nominal_framerate) + frame_budget(
            m.nominal_framerate,
        ) / 2,
        None => false,
    }
}

/// The bitrate that the next one is measured against: the last one chosen,
/// or the middle of the configured range before any was.
pub open spec fn baseline(m: BitrateModel, config: BitrateConfig) -> nat {
    match m.last_bitrate_bps {
        Some(b) => b as nat,
        None => if config.min_bitrate_bps <= config.max_bitrate_bps {
            (config.min_bitrate_bps + (config.max_bitrate_bps - config.min_bitrate_bps) / 2) as nat
        } else {
            config.min_bitrate_bps as nat
        },
    }
}

/// One bounded step away from `base`: a quarter down under load, an eighth up
/// with headroom.
pub open spec fn proposal(base: nat, overloaded: bool) -> nat {
    if overloaded {
        (base - base / 4) as nat
    } else {
        base + base / 8
    }
}

pub open spec fn clamp(x: nat, lo: nat, hi: nat) -> nat {
    if x > hi {
        hi
    } else if x < lo {
        lo
    } else {
        x
    }
}

/// Encoding or presentation does not keep up with the frame budget.
pub open spec fn overloaded(m: BitrateModel) -> bool {
    average_latency(m.history) > frame_budget(m.nominal_framerate) || presentation_behind(m)
}

/// The bitrate chosen from a history that is not empty.
pub open spec fn target_bitrate(m: BitrateModel, config: BitrateConfig) -> nat {
    clamp(
        proposal(baseline(m, config), overloaded(m)),
        config.min_bitrate_bps as nat,
        config.max_bitrate_bps as nat,
    )
}

/// The framerate hint: the measured presentation rate where the controller
/// adapts to it, kept between 1 and the nominal rate; else the nominal rate.
pub open spec fn target_framerate(m: BitrateModel, config: BitrateConfig) -> nat {
    match m.present_interval_ns {
        Some(interval) => if config.adapt_to_framerate && interval > 0 {
            clamp(NANOS_PER_SECOND as nat / interval as nat, 1, m.nominal_framerate as nat)
        } else {
            m.nominal_framerate as nat
        },
        None => m.nominal_framerate as nat,
    }
}

/// What the controller measured at a decision.
pub open spec fn measured_stats(m: BitrateModel) -> NominalBitrateStats {
    NominalBitrateStats {
        average_encode_latency_ns: average_latency(m.history) as u64,
        average_frame_size_bytes: average_size(m.history) as u64,
        frame_budget_ns: frame_budget(m.nominal_framerate) as u64,
        presentation_behind: presentation_behind(m),
    }
}

/// The parameters chosen from a history that is not empty.
pub open spec fn chosen_params(m: BitrateModel, config: BitrateConfig) -> DynamicEncoderParams {
    DynamicEncoderParams {
        bitrate_bps: target_bitrate(m, config) as u64,
        framerate: target_framerate(m, config) as u32,
    }
}

/// The controller after a decision: it remembers the bitrate it chose.
pub open spec fn after_decision(m: BitrateModel, config: BitrateConfig) -> BitrateModel {
    if m.history.len() == 0 {
        m
    } else {
        BitrateModel { last_bitrate_bps: Some(target_bitrate(m, config) as u64), ..m }
    }
}

/// The controller after a frame was presented at `now_ns`. Where it adapts
/// to the framerate it keeps the time since the frame before; else it
/// forgets the cadence.
pub open spec fn cadence_after_present(m: BitrateModel, adapt_to_framerate: bool, now_ns: u64) -> BitrateModel {
    BitrateModel {
        last_present_ns: Some(now_ns),
        present_interval_ns: if adapt_to_framerate {
            match m.last_present_ns {
                Some(last) => if now_ns >= last {
                    Some((now_ns - last) as u64)
                } else {
                    m.present_interval_ns
                },
                None => m.present_interval_ns,
            }
        } else {
            None
        },
        ..m
    }
}

/// The history after `sample` came in: the oldest sample leaves once the
/// history is full.
pub open spec fn remember(history: Seq<BitrateSample>, max_history: nat, sample: BitrateSample) -> Seq<
    BitrateSample,
> {
    if max_history == 0 {
        history
    } else if history.len() < max_history {
        history.push(sample)
    } else {
        history.skip(1).push(sample)
    }
}

pub struct BitrateManager {
    history: Vec<BitrateSample>,
    max_history: usize,
    nominal_framerate: u32,
    last_present_ns: Option<u64>,
    present_interval_ns: Option<u64>,
    last_bitrate_bps: Option<u64>,
}

impl View for BitrateManager {
    type V = BitrateModel;

    closed spec fn view(&self) -> BitrateModel {
        BitrateModel {
            history: self.history@,
            max_history: self.max_history as nat,
            nominal_framerate: self.nominal_framerate,
            last_present_ns: self.last_present_ns,
            present_interval_ns: self.present_interval_ns,
            last_bitrate_bps: self.last_bitrate_bps,
        }
    }
}

/// The totals of `n` samples are at most `n` times the largest value.
pub proof fn lemma_totals_bound(history: Seq<BitrateSample>)
    ensures
        total_latency(history) <= history.len() * u64::MAX,
        total_size(history) <= history.len() * u64::MAX,
    decreases history.len(),
{
    if history.len() > 0 {
        lemma_totals_bound(history.drop_last());
        assert((history.len() - 1) * u64::MAX + u64::MAX == history.len() * u64::MAX)
            by (nonlinear_arith);
    }
}

/// The chosen bitrate lies within the configured range.
pub proof fn lemma_target_bitrate_in_range(m: BitrateModel, config: BitrateConfig)
    requires
        config.min_bitrate_bps <= config.max_bitrate_bps,
    ensures
        config.min_bitrate_bps <= target_bitrate(m, config) <= config.max_bitrate_bps,
{
}

/// One decision moves the bitrate by at most a quarter of the baseline, or
/// onto the nearer end of the configured range.
pub proof fn lemma_target_bitrate_step_bounded(m: BitrateModel, config: BitrateConfig)
    requires
        config.min_bitrate_bps <= baseline(m, config) <= config.max_bitrate_bps,
    ensures
        baseline(m, config) - baseline(m, config) / 4 <= target_bitrate(m, config) <= baseline(m, config)
            + baseline(m, config) / 8,
{
}

impl BitrateManager {
    pub open spec fn wf(&self) -> bool {
        self@.history.len() <= self@.max_history
    }

    pub fn new(max_history: usize, initial_framerate: u32) -> (m: Self)
        ensures
            m.wf(),
            m@ == (BitrateModel {
                history: Seq::<BitrateSample>::empty(),
                max_history: max_history as nat,
                nominal_framerate: initial_framerate,
                last_present_ns: None,
                present_interval_ns: None,
                last_bitrate_bps: None,
            }),
    {
        BitrateManager {
            history: Vec::new(),
            max_history,
            nominal_framerate: initial_framerate,
            last_present_ns: None,
            present_interval_ns: None,
            last_bitrate_bps: None,
        }
    }

    pub fn sample_count(&self) -> (n: usize)
        ensures
            n == self@.history.len(),
    {
        self.history.len()
    }

    /// Remembers one encoded frame.
    pub fn report_frame_encoded(&mut self, timestamp_ns: u64, encode_latency_ns: u64, frame_size_bytes: u64)
        requires
            old(self).wf(),
        ensures
            final(self).wf(),
            final(self)@ == (BitrateModel {
                history: remember(
                    old(self)@.history,
                    old(self)@.max_history,
                    (BitrateSample { timestamp_ns, encode_latency_ns, frame_size_bytes }),
                ),
                ..old(self)@
            }),
    {
        if self.max_history == 0 {
            return ;
        }
        if self.history.len() >= self.max_history {
            self.history.remove(0);
        }
        self.history.push(BitrateSample { timestamp_ns, encode_latency_ns, frame_size_bytes });
        proof {
            assert(self@.history =~= remember(
                old(self)@.history,
                old(self)@.max_history,
                (BitrateSample { timestamp_ns, encode_latency_ns, frame_size_bytes }),
            ));
        }
    }

    /// Notes that a frame was presented at `now_ns`. Where the controller
    /// adapts to the framerate it keeps the time since the frame before.
    pub fn report_frame_present(&mut self, adapt_to_framerate: bool, now_ns: u64)
        ensures
            final(self).wf() == old(self).wf(),
            final(self)@ == cadence_after_present(old(self)@, adapt_to_framerate, now_ns),
    {
        if adapt_to_framerate {
            match self.last_present_ns {
                Some(last) => {
                    if now_ns >= last {
                        self.present_interval_ns = Some(now_ns - last);
                    }
                },
                None => {},
            }
        } else {
            self.present_interval_ns = None;
        }
        self.last_present_ns = Some(now_ns);
    }

    /// Mean encode latency and mean frame size of the history.
    fn averages(&self) -> (avg: (u64, u64))
        requires
            self@.history.len() > 0,
        ensures
            avg.0 == average_latency(self@.history),
            avg.1 == average_size(self@.history),
    {
        let n: usize = self.history.len();
        let mut latency: u128 = 0;
        let mut size: u128 = 0;
        let mut i: usize = 0;
        while i < n
            invariant
                n == self.history@.len(),
                i <= n,
                latency == total_latency(self.history@.subrange(0, i as int)),
                size == total_size(self.history@.subrange(0, i as int)),
                latency <= i * u64::MAX,
                size <= i * u64::MAX,
            decreases n - i,
        {
            proof {
                let next = self.history@.subrange(0, i + 1);
                assert(next.drop_last() =~= self.history@.subrange(0, i as int));
                lemma_totals_bound(next);
                assert((i + 1) * u64::MAX <= usize::MAX * u64::MAX) by (nonlinear_arith)
                    requires
                        i + 1 <= usize::MAX,
                ;
            }
            latency = latency + self.history[i].encode_latency_ns as u128;
            size = size + self.history[i].frame_size_bytes as u128;
            i = i + 1;
        }
        proof {
            assert(self.history@.subrange(0, n as int) =~= self.history@);
            assert(latency / (n as u128) <= u64::MAX) by (nonlinear_arith)
                requires
                    latency <= n * u64::MAX,
                    n > 0,
            ;
            assert(size / (n as u128) <= u64::MAX) by (nonlinear_arith)
                requires
                    size <= n * u64::MAX,
                    n > 0,
            ;
        }
        ((latency / (n as u128)) as u64, (size / (n as u128)) as u64)
    }

    /// The next encoder parameters, or `None` while no frame was encoded
    /// yet. The bitrate moves one bounded step from the last one and stays
    /// within the configured range.
    pub fn get_encoder_params(&mut self, config: &BitrateConfig) -> (r: Option<
        (DynamicEncoderParams, NominalBitrateStats),
    >)
        requires
            old(self).wf(),
        ensures
            final(self).wf(),
            final(self)@ == after_decision(old(self)@, *config),
            old(self)@.history.len() == 0 ==> r.is_none(),
            old(self)@.history.len() > 0 ==> r == Some(
                (chosen_params(old(self)@, *config), measured_stats(old(self)@)),
            ),
            r.is_some() && config.min_bitrate_bps <= config.max_bitrate_bps ==> config.min_bitrate_bps
                <= r.unwrap().0.bitrate_bps <= config.max_bitrate_bps,
    {
        if self.history.len() == 0 {
            return None;
        }
        let (average, average_size_bytes) = self.averages();
        let budget: u64 = if self.nominal_framerate == 0 {
            NANOS_PER_SECOND
        } else {
            NANOS_PER_SECOND / (self.nominal_framerate as u64)
        };
        let behind: bool = match self.present_interval_ns {
            Some(interval) => interval > budget + budget / 2,
            None => false,
        };
        let base: u64 = match self.last_bitrate_bps {
            Some(b) => b,
            None => if config.min_bitrate_bps <= config.max_bitrate_bps {
                config.min_bitrate_bps + (config.max_bitrate_bps - config.min_bitrate_bps) / 2
            } else {
                config.min_bitrate_bps
            },
        };
        let wanted: u128 = if average > budget || behind {
            (base - base / 4) as u128
        } else {
            base as u128 + (base / 8) as u128
        };
        let bitrate_bps: u64 = if wanted > config.max_bitrate_bps as u128 {
            config.max_bitrate_bps
        } else if wanted < config.min_bitrate_bps as u128 {
            config.min_bitrate_bps
        } else {
            wanted as u64
        };
        let nominal: u32 = self.nominal_framerate;
        let framerate: u32 = match self.present_interval_ns {
            Some(interval) => if config.adapt_to_framerate && interval > 0 {
                let measured: u64 = NANOS_PER_SECOND / interval;
                if measured > nominal as u64 {
                    nominal
                } else if measured < 1 {
                    1
                } else {
                    measured as u32
                }
            } else {
                nominal
            },
            None => nominal,
        };
        self.last_bitrate_bps = Some(bitrate_bps);
        Some(
            (
                DynamicEncoderParams { bitrate_bps, framerate },
                NominalBitrateStats {
                    average_encode_latency_ns: average,
                    average_frame_size_bytes: average_size_bytes,
                    frame_budget_ns: budget,
                    presentation_behind: behind,
                },
            ),
        )
    }
}

} // verus!
