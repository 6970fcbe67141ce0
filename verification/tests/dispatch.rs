use alvr_server::dispatch::{
    DispatchSettings, DropReason, Outcome, VideoChannel, VideoDispatcher, VideoPacket,
};
use alvr_server::events::{EventQueue, ServerCoreEvent};

fn frame(timestamp_ns: u64, is_idr: bool) -> VideoPacket {
    VideoPacket { timestamp_ns, is_idr, payload: vec![timestamp_ns as u8, 7, 9] }
}

fn plain(avoid_video_glitching: bool) -> DispatchSettings {
    DispatchSettings { avoid_video_glitching, rolling_video_files: None }
}

#[test]
fn channel_is_bounded_and_ordered() {
    let mut channel = VideoChannel::new(2);
    assert_eq!(channel.capacity(), 2);
    assert!(channel.try_send(frame(1, true)).is_ok());
    assert!(channel.try_send(frame(2, false)).is_ok());
    let back = channel.try_send(frame(3, false));
    assert_eq!(back.err().map(|p| p.timestamp_ns), Some(3));
    assert_eq!(channel.len(), 2);
    assert_eq!(channel.try_recv().map(|p| p.timestamp_ns), Some(1));
    assert_eq!(channel.try_recv().map(|p| p.timestamp_ns), Some(2));
    assert!(channel.try_recv().is_none());
}

#[test]
fn stream_starts_corrupted() {
    let dispatcher = VideoDispatcher::new(4, 0);
    assert!(dispatcher.is_stream_corrupted());
    assert_eq!(dispatcher.pending(), 0);
}

#[test]
fn forwarded_key_frame_clears_corruption() {
    let mut dispatcher = VideoDispatcher::new(4, 0);
    let mut events = EventQueue::new();
    let report = dispatcher.submit(&plain(true), &mut events, 1, frame(1, true));
    assert_eq!(report.outcome, Outcome::Forwarded);
    assert!(report.tee_payload);
    assert!(!report.rotate_recording);
    assert!(!dispatcher.is_stream_corrupted());
    assert!(events.is_empty());
}

#[test]
fn full_channel_sets_corruption_and_requests_key_frame() {
    let mut dispatcher = VideoDispatcher::new(1, 0);
    let mut events = EventQueue::new();
    assert_eq!(
        dispatcher.submit(&plain(true), &mut events, 1, frame(1, true)).outcome,
        Outcome::Forwarded
    );
    let report = dispatcher.submit(&plain(true), &mut events, 2, frame(2, false));
    assert_eq!(report.outcome, Outcome::Dropped(DropReason::ChannelFull));
    assert!(report.tee_payload);
    assert!(dispatcher.is_stream_corrupted());
    assert_eq!(events.poll(), Some(ServerCoreEvent::RequestIDR));
    assert_eq!(events.poll(), None);
    assert_eq!(dispatcher.pending(), 1);
}

#[test]
fn key_frame_dropped_at_full_channel_leaves_stream_corrupted() {
    let mut dispatcher = VideoDispatcher::new(1, 0);
    let mut events = EventQueue::new();
    dispatcher.submit(&plain(true), &mut events, 1, frame(1, true));
    let report = dispatcher.submit(&plain(true), &mut events, 2, frame(2, true));
    assert_eq!(report.outcome, Outcome::Dropped(DropReason::ChannelFull));
    assert!(dispatcher.is_stream_corrupted());
    assert_eq!(events.len(), 1);
}

#[test]
fn corrupted_stream_holds_back_until_key_frame() {
    let mut dispatcher = VideoDispatcher::new(8, 0);
    let mut events = EventQueue::new();
    for t in 1..6u64 {
        let report = dispatcher.submit(&plain(true), &mut events, t, frame(t, false));
        assert_eq!(report.outcome, Outcome::Dropped(DropReason::AwaitingKeyFrame));
        assert!(!report.tee_payload);
        assert!(dispatcher.is_stream_corrupted());
        assert_eq!(dispatcher.pending(), 0);
    }
    assert!(events.is_empty());
    assert_eq!(
        dispatcher.submit(&plain(true), &mut events, 6, frame(6, true)).outcome,
        Outcome::Forwarded
    );
    assert_eq!(
        dispatcher.submit(&plain(true), &mut events, 7, frame(7, false)).outcome,
        Outcome::Forwarded
    );
    assert_eq!(dispatcher.pending(), 2);
}

#[test]
fn corrupted_stream_forwards_when_glitches_are_tolerated() {
    let mut dispatcher = VideoDispatcher::new(8, 0);
    let mut events = EventQueue::new();
    let report = dispatcher.submit(&plain(false), &mut events, 1, frame(1, false));
    assert_eq!(report.outcome, Outcome::Forwarded);
    assert!(dispatcher.is_stream_corrupted());
}

#[test]
fn forwarding_preserves_submission_order() {
    let mut dispatcher = VideoDispatcher::new(3, 0);
    let mut events = EventQueue::new();
    let mut expected: Vec<u64> = Vec::new();
    let mut received: Vec<u64> = Vec::new();
    for t in 1..=40u64 {
        let report = dispatcher.submit(&plain(false), &mut events, t, frame(t, t % 10 == 1));
        if report.outcome == Outcome::Forwarded {
            expected.push(t);
        }
        if t % 5 == 0 {
            while let Some(p) = dispatcher.take_forwarded() {
                received.push(p.timestamp_ns);
            }
        }
    }
    assert_eq!(received, expected);
    assert!(received.windows(2).all(|w| w[0] < w[1]));
    assert!(received.len() < 40);
}

#[test]
fn rotation_requests_key_frame_and_rotates_on_it() {
    let settings = DispatchSettings { avoid_video_glitching: false, rolling_video_files: Some(2) };
    let mut dispatcher = VideoDispatcher::new(16, 1_000);
    let mut events = EventQueue::new();
    // exactly at the deadline: not due yet
    let report = dispatcher.submit(&settings, &mut events, 2_000_001_000, frame(1, true));
    assert!(!report.rotate_recording);
    assert!(events.is_empty());
    // past the deadline, on an ordinary frame: a key frame is asked for
    let report = dispatcher.submit(&settings, &mut events, 2_000_001_001, frame(2, false));
    assert!(!report.rotate_recording);
    assert_eq!(events.poll(), Some(ServerCoreEvent::RequestIDR));
    // the key frame rotates and restarts the timer
    let report = dispatcher.submit(&settings, &mut events, 2_000_001_002, frame(3, true));
    assert!(report.rotate_recording);
    assert_eq!(report.outcome, Outcome::Forwarded);
    assert_eq!(events.poll(), Some(ServerCoreEvent::RequestIDR));
    let report = dispatcher.submit(&settings, &mut events, 2_000_001_003, frame(4, true));
    assert!(!report.rotate_recording);
    assert!(events.is_empty());
}

#[test]
fn rotation_deadline_beyond_the_clock_is_never_due() {
    let settings = DispatchSettings { avoid_video_glitching: false, rolling_video_files: Some(u64::MAX) };
    let mut dispatcher = VideoDispatcher::new(4, u64::MAX);
    let mut events = EventQueue::new();
    let report = dispatcher.submit(&settings, &mut events, u64::MAX, frame(1, true));
    assert!(!report.rotate_recording);
    assert!(events.is_empty());
}

fn saturation_run(avoid_video_glitching: bool) -> (Vec<Outcome>, Vec<bool>, usize) {
    let settings = plain(avoid_video_glitching);
    let mut dispatcher = VideoDispatcher::new(1, 0);
    let mut events = EventQueue::new();
    let mut outcomes = Vec::new();
    let mut corrupted = Vec::new();
    for i in 0..300u64 {
        let is_idr = i == 0 || i == 150;
        let report = dispatcher.submit(&settings, &mut events, i, frame(i, is_idr));
        outcomes.push(report.outcome);
        corrupted.push(dispatcher.is_stream_corrupted());
        // the network sender stalls from frame 9 to frame 20
        if !(9..20).contains(&i) {
            while dispatcher.take_forwarded().is_some() {}
        }
    }
    (outcomes, corrupted, events.len())
}

#[test]
fn saturated_channel_run_tolerating_glitches() {
    let (outcomes, corrupted, requests) = saturation_run(false);
    for i in 0..10 {
        assert_eq!(outcomes[i], Outcome::Forwarded);
        assert!(!corrupted[i]);
    }
    for i in 10..=20 {
        assert_eq!(outcomes[i], Outcome::Dropped(DropReason::ChannelFull));
        assert!(corrupted[i]);
    }
    for i in 21..150 {
        assert_eq!(outcomes[i], Outcome::Forwarded);
        assert!(corrupted[i]);
    }
    assert_eq!(outcomes[150], Outcome::Forwarded);
    for i in 150..300 {
        assert_eq!(outcomes[i], Outcome::Forwarded);
        assert!(!corrupted[i]);
    }
    assert_eq!(requests, 11);
}

#[test]
fn saturated_channel_run_avoiding_glitches() {
    let (outcomes, corrupted, requests) = saturation_run(true);
    assert_eq!(outcomes[9], Outcome::Forwarded);
    assert_eq!(outcomes[10], Outcome::Dropped(DropReason::ChannelFull));
    assert!(corrupted[10]);
    for i in 11..150 {
        assert_eq!(outcomes[i], Outcome::Dropped(DropReason::AwaitingKeyFrame));
        assert!(corrupted[i]);
    }
    assert_eq!(outcomes[150], Outcome::Forwarded);
    assert!(!corrupted[150]);
    assert_eq!(outcomes[151], Outcome::Forwarded);
    assert_eq!(requests, 1);
}

#[test]
fn event_queue_is_first_in_first_out() {
    let mut events = EventQueue::new();
    assert!(events.is_empty());
    events.push(ServerCoreEvent::ClientConnected);
    events.push(ServerCoreEvent::GameRenderLatencyFeedback(5));
    events.push(ServerCoreEvent::ShutdownPending);
    assert_eq!(events.len(), 3);
    assert_eq!(events.poll(), Some(ServerCoreEvent::ClientConnected));
    assert_eq!(events.poll(), Some(ServerCoreEvent::GameRenderLatencyFeedback(5)));
    assert_eq!(events.poll(), Some(ServerCoreEvent::ShutdownPending));
    assert_eq!(events.poll(), None);
}
