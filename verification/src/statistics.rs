//! The statistics manager: a rolling window of per-frame stage times, the
//! encode latency derived from it, and the time left until the next vsync.

use crate::bitrate::NominalBitrateStats;
use vstd::prelude::*;

verus! {

/// The stage times of one frame, in nanoseconds on the caller's clock.
#[derive(Clone, Copy, Debug, PartialEq, Eq, Structural)]
pub struct FrameRecord {
    pub target_timestamp_ns: u64,
    pub present_ns: Option<u64>,
    pub composed_ns: Option<u64>,
    pub encoded_ns: Option<u64>,
    pub frame_size_bytes: Option<u64>,
}

/// Mathematical state of the statistics manager.
pub struct StatisticsModel {
    pub window: Seq<FrameRecord>,
    pub max_history: nat,
    pub frame_interval_ns: u64,
    pub last_vsync_ns: u64,
    pub cadence_known: bool,
    pub bitrate_stats: Option<NominalBitrateStats>,
}

/// The frame interval after one more interval was measured: three parts of
/// the old estimate and one part of the measurement.
pub open spec fn smoothed_interval(estimate_ns: u64, measured_ns: u64) -> u64 {
    ((3 * estimate_ns + measured_ns) / 4) as u64
}

/// The state after frame `timestamp_ns` entered the pipeline: a frame that
/// the window does not hold yet gets an empty record, and the oldest record
/// leaves a full window.
pub open spec fn after_started(s: StatisticsModel, timestamp_ns: u64) -> StatisticsModel {
    if in_window(s.window, timestamp_ns) {
        s
    } else {
        StatisticsModel { window: enroll(s.window, s.max_history, fresh_record(timestamp_ns)), ..s }
    }
}

/// The state after frame `timestamp_ns` was presented at `present_ns`. For a
/// frame of the window, its record holds the time, the presentation is the
/// last known vsync, and the frame interval follows the time since the
/// presentation before. For any other frame nothing changes.
pub open spec fn after_present(s: StatisticsModel, timestamp_ns: u64, present_ns: u64) -> StatisticsModel {
    if in_window(s.window, timestamp_ns) {
        StatisticsModel {
            window: marked_present(s.window, timestamp_ns, present_ns),
            frame_interval_ns: if s.cadence_known && present_ns > s.last_vsync_ns {
                smoothed_interval(s.frame_interval_ns, (present_ns - s.last_vsync_ns) as u64)
            } else {
                s.frame_interval_ns
            },
            last_vsync_ns: present_ns,
            cadence_known: true,
            ..s
        }
    } else {
        s
    }
}

/// The state after frame `timestamp_ns` was composed at `composed_ns`.
pub open spec fn after_composed(s: StatisticsModel, timestamp_ns: u64, composed_ns: u64) -> StatisticsModel {
    StatisticsModel { window: marked_composed(s.window, timestamp_ns, composed_ns), ..s }
}

/// The state after frame `timestamp_ns` left the encoder at `encoded_ns`.
pub open spec fn after_encoded(
    s: StatisticsModel,
    timestamp_ns: u64,
    frame_size_bytes: u64,
    encoded_ns: u64,
) -> StatisticsModel {
    StatisticsModel {
        window: marked_encoded(s.window, timestamp_ns, frame_size_bytes, encoded_ns),
        ..s
    }
}

/// The instant `offset_ns` before `now_ns`, not before the clock's origin.
pub open spec fn instant_before(now_ns: u64, offset_ns: u64) -> u64 {
    if now_ns >= offset_ns {
        (now_ns - offset_ns) as u64
    } else {
        0
    }
}

/// Some record of the window belongs to the frame `timestamp_ns`.
pub open spec fn in_window(window: Seq<FrameRecord>, timestamp_ns: u64) -> bool {
    exists|i: int| 0 <= i < window.len() && (#[trigger] window[i]).target_timestamp_ns == timestamp_ns
}

/// No two records of the window belong to the same frame.
pub open spec fn distinct_frames(window: Seq<FrameRecord>) -> bool {
    forall|i: int, j: int|
        0 <= i < window.len() && 0 <= j < window.len() && i != j ==> (#[trigger] window[i]).target_timestamp_ns
            != (#[trigger] window[j]).target_timestamp_ns
}

/// The record of a frame of which no stage was reported yet.
pub open spec fn fresh_record(timestamp_ns: u64) -> FrameRecord {
    FrameRecord {
        target_timestamp_ns: timestamp_ns,
        present_ns: None,
        composed_ns: None,
        encoded_ns: None,
        frame_size_bytes: None,
    }
}

/// The window after a record for a new frame came in: the oldest record
/// leaves once the window is full.
pub open spec fn enroll(window: Seq<FrameRecord>, max_history: nat, record: FrameRecord) -> Seq<
    FrameRecord,
> {
    if max_history == 0 {
        window
    } else if window.len() < max_history {
        window.push(record)
    } else {
        window.skip(1).push(record)
    }
}

/// The window with the presentation time of frame `timestamp_ns` set.
pub open spec fn marked_present(window: Seq<FrameRecord>, timestamp_ns: u64, present_ns: u64) -> Seq<
    FrameRecord,
> {
    Seq::new(
        window.len(),
        |j: int|
            if window[j].target_timestamp_ns == timestamp_ns {
                FrameRecord { present_ns: Some(present_ns), ..window[j] }
            } else {
                window[j]
            },
    )
}

/// The window with the composition time of frame `timestamp_ns` set.
pub open spec fn marked_composed(window: Seq<FrameRecord>, timestamp_ns: u64, composed_ns: u64) -> Seq<
    FrameRecord,
> {
    Seq::new(
        window.len(),
        |j: int|
            if window[j].target_timestamp_ns == timestamp_ns {
                FrameRecord { composed_ns: Some(composed_ns), ..window[j] }
            } else {
                window[j]
            },
    )
}

/// The window with the encode time and the size of frame `timestamp_ns` set.
pub open spec fn marked_encoded(
    window: Seq<FrameRecord>,
    timestamp_ns: u64,
    frame_size_bytes: u64,
    encoded_ns: u64,
) -> Seq<FrameRecord> {
    Seq::new(
        window.len(),
        |j: int|
            if window[j].target_timestamp_ns == timestamp_ns {
                FrameRecord {
                    encoded_ns: Some(encoded_ns),
                    frame_size_bytes: Some(frame_size_bytes),
                    ..window[j]
                }
            } else {
                window[j]
            },
    )
}

/// The encode latency of frame `timestamp_ns` at `now_ns`: zero for a frame
/// that the window does not hold.
pub open spec fn encode_latency(window: Seq<FrameRecord>, timestamp_ns: u64, now_ns: u64) -> u64 {
    if in_window(window, timestamp_ns) {
        let i = choose|i: int|
            0 <= i < window.len() && (#[trigger] window[i]).target_timestamp_ns == timestamp_ns;
        latency_since_composed(window[i], now_ns)
    } else {
        0
    }
}

/// The encode latency of a frame whose record is `record`: the time from its
/// composition to `now_ns`, or zero where the composition was never reported.
pub open spec fn latency_since_composed(record: FrameRecord, now_ns: u64) -> u64 {
    match record.composed_ns {
        Some(composed) => instant_before(now_ns, composed),
        None => 0,
    }
}

/// Time from `now_ns` to the next vsync: the vsyncs fall on `last_vsync_ns`
/// and every `frame_interval_ns` after it.
pub open spec fn until_next_vsync(frame_interval_ns: u64, last_vsync_ns: u64, now_ns: u64) -> nat {
    if now_ns <= last_vsync_ns {
        (last_vsync_ns - now_ns) as nat
    } else if frame_interval_ns == 0 {
        0
    } else {
        ((frame_interval_ns - (now_ns - last_vsync_ns) % (frame_interval_ns as int)) % (
        frame_interval_ns as int)) as nat
    }
}

pub struct StatisticsManager {
    window: Vec<FrameRecord>,
    max_history: usize,
    frame_interval_ns: u64,
    last_vsync_ns: u64,
    cadence_known: bool,
    bitrate_stats: Option<NominalBitrateStats>,
}

impl View for StatisticsManager {
    type V = StatisticsModel;

    closed spec fn view(&self) -> StatisticsModel {
        StatisticsModel {
            window: self.window@,
            max_history: self.max_history as nat,
            frame_interval_ns: self.frame_interval_ns,
            last_vsync_ns: self.last_vsync_ns,
            cadence_known: self.cadence_known,
            bitrate_stats: self.bitrate_stats,
        }
    }
}

/// The encode latency of a frame is read from the frame's own record.
pub proof fn lemma_encode_latency_of_record(window: Seq<FrameRecord>, i: int, now_ns: u64)
    requires
        distinct_frames(window),
        0 <= i < window.len(),
    ensures
        encode_latency(window, window[i].target_timestamp_ns, now_ns) == latency_since_composed(
            window[i],
            now_ns,
        ),
{
    let timestamp_ns = window[i].target_timestamp_ns;
    assert(in_window(window, timestamp_ns));
    let j = choose|j: int|
        0 <= j < window.len() && (#[trigger] window[j]).target_timestamp_ns == timestamp_ns;
    assert(j == i);
}

/// A stage report for a frame that the window does not hold, be it unknown
/// or already pushed out, changes nothing and measures nothing.
pub proof fn lemma_unknown_frame_is_passed_over(
    s: StatisticsModel,
    timestamp_ns: u64,
    at_ns: u64,
    frame_size_bytes: u64,
)
    requires
        !in_window(s.window, timestamp_ns),
    ensures
        after_present(s, timestamp_ns, at_ns) == s,
        after_composed(s, timestamp_ns, at_ns) == s,
        after_encoded(s, timestamp_ns, frame_size_bytes, at_ns) == s,
        encode_latency(s.window, timestamp_ns, at_ns) == 0,
{
    assert(marked_composed(s.window, timestamp_ns, at_ns) =~= s.window);
    assert(marked_encoded(s.window, timestamp_ns, frame_size_bytes, at_ns) =~= s.window);
}

/// Starting a frame that the window holds, or starting one twice, is starting
/// it once.
pub proof fn lemma_start_is_idempotent(s: StatisticsModel, timestamp_ns: u64)
    requires
        s.max_history > 0,
    ensures
        in_window(after_started(s, timestamp_ns).window, timestamp_ns),
        after_started(after_started(s, timestamp_ns), timestamp_ns) == after_started(s, timestamp_ns),
{
    let w = after_started(s, timestamp_ns).window;
    if !in_window(s.window, timestamp_ns) {
        assert(w[w.len() - 1].target_timestamp_ns == timestamp_ns);
    }
}

pub fn time_before(now_ns: u64, offset_ns: u64) -> (t: u64)
    ensures
        t == instant_before(now_ns, offset_ns),
{
    if now_ns >= offset_ns {
        now_ns - offset_ns
    } else {
        0
    }
}

impl StatisticsManager {
    pub open spec fn wf(&self) -> bool {
        &&& self@.window.len() <= self@.max_history
        &&& distinct_frames(self@.window)
    }

    pub fn new(max_history: usize, frame_interval_ns: u64, now_ns: u64) -> (s: Self)
        ensures
            s.wf(),
            s@ == (StatisticsModel {
                window: Seq::<FrameRecord>::empty(),
                max_history: max_history as nat,
                frame_interval_ns,
                last_vsync_ns: now_ns,
                cadence_known: false,
                bitrate_stats: None,
            }),
    {
        StatisticsManager {
            window: Vec::new(),
            max_history,
            frame_interval_ns,
            last_vsync_ns: now_ns,
            cadence_known: false,
            bitrate_stats: None,
        }
    }

    /// The record of frame `timestamp_ns`, if the window holds one.
    pub fn frame(&self, timestamp_ns: u64) -> (r: Option<FrameRecord>)
        requires
            self.wf(),
        ensures
            r.is_some() == in_window(self@.window, timestamp_ns),
            r.is_some() ==> self@.window.contains(r.unwrap()) && r.unwrap().target_timestamp_ns
                == timestamp_ns,
    {
        match self.position(timestamp_ns) {
            Some(i) => Some(self.window[i]),
            None => None,
        }
    }

    fn position(&self, timestamp_ns: u64) -> (r: Option<usize>)
        ensures
            match r {
                Some(i) => i < self@.window.len() && self@.window[i as int].target_timestamp_ns
                    == timestamp_ns,
                None => !in_window(self@.window, timestamp_ns),
            },
    {
        let mut i: usize = 0;
        while i < self.window.len()
            invariant
                i <= self.window@.len(),
                forall|j: int| 0 <= j < i ==> (#[trigger] self.window@[j]).target_timestamp_ns != timestamp_ns,
            decreases self.window@.len() - i,
        {
            if self.window[i].target_timestamp_ns == timestamp_ns {
                return Some(i);
            }
            i = i + 1;
        }
        None
    }

    /// Notes that frame `timestamp_ns` entered the pipeline. A frame that
    /// the window does not hold yet gets an empty record; the oldest record
    /// leaves a full window. A frame that the window holds is left alone.
    pub fn report_frame_started(&mut self, timestamp_ns: u64)
        requires
            old(self).wf(),
        ensures
            final(self).wf(),
            final(self)@ == after_started(old(self)@, timestamp_ns),
    {
        match self.position(timestamp_ns) {
            Some(_) => {},
            None => {
                if self.max_history > 0 {
                    if self.window.len() >= self.max_history {
                        self.window.remove(0);
                    }
                    self.window.push(
                        FrameRecord {
                            target_timestamp_ns: timestamp_ns,
                            present_ns: None,
                            composed_ns: None,
                            encoded_ns: None,
                            frame_size_bytes: None,
                        },
                    );
                }
                proof {
                    assert(self@.window =~= enroll(
                        old(self)@.window,
                        old(self)@.max_history,
                        fresh_record(timestamp_ns),
                    ));
                }
            },
        }
    }

    /// Notes that frame `timestamp_ns` was presented `offset_ns` before
    /// `now_ns`. The presentation becomes the last known vsync, and the time
    /// since the presentation before it is blended into the frame interval.
    /// A frame that the window does not hold is passed over: nothing changes.
    pub fn report_frame_present(&mut self, timestamp_ns: u64, offset_ns: u64, now_ns: u64)
        requires
            old(self).wf(),
        ensures
            final(self).wf(),
            final(self)@ == after_present(old(self)@, timestamp_ns, instant_before(now_ns, offset_ns)),
    {
        match self.position(timestamp_ns) {
            Some(i) => {
                let present_ns: u64 = time_before(now_ns, offset_ns);
                if self.cadence_known && present_ns > self.last_vsync_ns {
                    let measured: u64 = present_ns - self.last_vsync_ns;
                    let blended: u128 = (3 * (self.frame_interval_ns as u128) + measured as u128) / 4;
                    self.frame_interval_ns = blended as u64;
                }
                self.last_vsync_ns = present_ns;
                self.cadence_known = true;
                let mut record = self.window[i];
                record.present_ns = Some(present_ns);
                self.window.set(i, record);
                proof {
                    assert(self@.window =~= marked_present(old(self)@.window, timestamp_ns, present_ns));
                }
            },
            None => {},
        }
    }

    /// Notes that frame `timestamp_ns` was composed `offset_ns` before
    /// `now_ns`. A frame that the window does not hold is passed over.
    pub fn report_frame_composed(&mut self, timestamp_ns: u64, offset_ns: u64, now_ns: u64)
        requires
            old(self).wf(),
        ensures
            final(self).wf(),
            final(self)@ == after_composed(old(self)@, timestamp_ns, instant_before(now_ns, offset_ns)),
    {
        let composed_ns: u64 = time_before(now_ns, offset_ns);
        match self.position(timestamp_ns) {
            Some(i) => {
                let mut record = self.window[i];
                record.composed_ns = Some(composed_ns);
                self.window.set(i, record);
                proof {
                    assert(self@.window =~= marked_composed(old(self)@.window, timestamp_ns, composed_ns));
                }
            },
            None => {
                proof {
                    assert(self@.window =~= marked_composed(old(self)@.window, timestamp_ns, composed_ns));
                }
            },
        }
    }

    /// Notes that frame `timestamp_ns` left the encoder at `now_ns` with
    /// `frame_size_bytes` bytes, and returns its encode latency: the time
    /// since its composition, or zero where that is not known.
    pub fn report_frame_encoded(
        &mut self,
        timestamp_ns: u64,
        frame_size_bytes: u64,
        now_ns: u64,
    ) -> (latency_ns: u64)
        requires
            old(self).wf(),
        ensures
            final(self).wf(),
            final(self)@ == after_encoded(old(self)@, timestamp_ns, frame_size_bytes, now_ns),
            latency_ns == encode_latency(old(self)@.window, timestamp_ns, now_ns),
    {
        match self.position(timestamp_ns) {
            Some(i) => {
                let mut record = self.window[i];
                let latency_ns: u64 = match record.composed_ns {
                    Some(composed) => time_before(now_ns, composed),
                    None => 0,
                };
                record.encoded_ns = Some(now_ns);
                record.frame_size_bytes = Some(frame_size_bytes);
                self.window.set(i, record);
                proof {
                    lemma_encode_latency_of_record(old(self)@.window, i as int, now_ns);
                    assert(self@.window =~= marked_encoded(
                        old(self)@.window,
                        timestamp_ns,
                        frame_size_bytes,
                        now_ns,
                    ));
                }
                latency_ns
            },
            None => {
                proof {
                    assert(self@.window =~= marked_encoded(
                        old(self)@.window,
                        timestamp_ns,
                        frame_size_bytes,
                        now_ns,
                    ));
                }
                0
            },
        }
    }

    /// Keeps what the bitrate controller measured at its last decision.
    pub fn report_nominal_bitrate_stats(&mut self, stats: NominalBitrateStats)
        ensures
            final(self)@ == (StatisticsModel { bitrate_stats: Some(stats), ..old(self)@ }),
    {
        self.bitrate_stats = Some(stats);
    }

    pub fn nominal_bitrate_stats(&self) -> (r: Option<NominalBitrateStats>)
        ensures
            r == self@.bitrate_stats,
    {
        self.bitrate_stats
    }

    /// Time left until the next vsync after `now_ns`.
    pub fn duration_until_next_vsync(&self, now_ns: u64) -> (wait_ns: u64)
        ensures
            wait_ns == until_next_vsync(self@.frame_interval_ns, self@.last_vsync_ns, now_ns),
            now_ns > self@.last_vsync_ns && self@.frame_interval_ns > 0 ==> wait_ns
                < self@.frame_interval_ns,
    {
        if now_ns <= self.last_vsync_ns {
            self.last_vsync_ns - now_ns
        } else if self.frame_interval_ns == 0 {
            0
        } else {
            let behind: u64 = (now_ns - self.last_vsync_ns) % self.frame_interval_ns;
            (self.frame_interval_ns - behind) % self.frame_interval_ns
        }
    }
}

} // verus!
