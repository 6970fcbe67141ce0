use alvr_server::statistics::{time_before, StatisticsManager};

#[test]
fn encode_latency_runs_from_composition() {
    let mut stats = StatisticsManager::new(8, 10_000, 0);
    stats.report_frame_started(1);
    stats.report_frame_present(1, 100, 2_000);
    stats.report_frame_composed(1, 0, 2_500);
    assert_eq!(stats.report_frame_encoded(1, 1_234, 4_000), 1_500);
    let record = stats.frame(1).unwrap();
    assert_eq!(record.present_ns, Some(1_900));
    assert_eq!(record.composed_ns, Some(2_500));
    assert_eq!(record.encoded_ns, Some(4_000));
    assert_eq!(record.frame_size_bytes, Some(1_234));
}

#[test]
fn unknown_frames_are_passed_over() {
    let mut stats = StatisticsManager::new(8, 10_000, 0);
    stats.report_frame_composed(5, 0, 100);
    assert_eq!(stats.report_frame_encoded(5, 10, 200), 0);
    assert!(stats.frame(5).is_none());
    // a frame without a composition time has no latency
    stats.report_frame_started(6);
    stats.report_frame_present(6, 0, 300);
    assert_eq!(stats.report_frame_encoded(6, 10, 400), 0);
}

#[test]
fn present_report_for_an_unknown_frame_changes_nothing() {
    let mut stats = StatisticsManager::new(8, 10_000, 1_000);
    stats.report_frame_present(5, 0, 7_000);
    assert!(stats.frame(5).is_none());
    // the vsync estimate still rests on the time of creation
    assert_eq!(stats.duration_until_next_vsync(400), 600);
    assert_eq!(stats.duration_until_next_vsync(26_000), 5_000);
}

#[test]
fn late_report_for_an_evicted_frame_evicts_nothing() {
    let mut stats = StatisticsManager::new(1, 10_000, 0);
    stats.report_frame_started(1);
    stats.report_frame_present(1, 0, 10);
    stats.report_frame_started(2);
    stats.report_frame_present(2, 0, 20);
    assert!(stats.frame(1).is_none());
    stats.report_frame_present(1, 0, 30);
    stats.report_frame_composed(1, 0, 30);
    assert_eq!(stats.report_frame_encoded(1, 5, 40), 0);
    assert!(stats.frame(1).is_none());
    assert_eq!(stats.frame(2).unwrap().present_ns, Some(20));
    assert_eq!(stats.duration_until_next_vsync(20), 0);
}

#[test]
fn starting_a_frame_twice_keeps_its_record() {
    let mut stats = StatisticsManager::new(2, 10_000, 0);
    stats.report_frame_started(1);
    stats.report_frame_composed(1, 0, 50);
    stats.report_frame_started(1);
    let record = stats.frame(1).unwrap();
    assert_eq!(record.composed_ns, Some(50));
    assert_eq!(record.present_ns, None);
    let mut none = StatisticsManager::new(0, 10_000, 0);
    none.report_frame_started(1);
    assert!(none.frame(1).is_none());
}

#[test]
fn oldest_frame_leaves_a_full_window() {
    let mut stats = StatisticsManager::new(2, 10_000, 0);
    stats.report_frame_started(1);
    stats.report_frame_present(1, 0, 10);
    stats.report_frame_started(2);
    stats.report_frame_present(2, 0, 20);
    stats.report_frame_present(2, 0, 25);
    assert!(stats.frame(1).is_some());
    stats.report_frame_started(3);
    stats.report_frame_present(3, 0, 30);
    assert!(stats.frame(1).is_none());
    assert_eq!(stats.frame(2).unwrap().present_ns, Some(25));
    assert!(stats.frame(3).is_some());
    stats.report_frame_composed(1, 0, 40);
    assert!(stats.frame(1).is_none());
}

#[test]
fn vsync_wait_is_the_rest_of_the_interval() {
    let mut stats = StatisticsManager::new(8, 10_000, 1_000);
    assert_eq!(stats.duration_until_next_vsync(1_000), 0);
    assert_eq!(stats.duration_until_next_vsync(400), 600);
    assert_eq!(stats.duration_until_next_vsync(26_000), 5_000);
    assert_eq!(stats.duration_until_next_vsync(21_000), 0);
    assert_eq!(stats.duration_until_next_vsync(21_001), 9_999);
    stats.report_frame_started(1);
    stats.report_frame_present(1, 500, 50_000);
    assert_eq!(stats.duration_until_next_vsync(50_000), 9_500);
    let still = StatisticsManager::new(8, 0, 1_000);
    assert_eq!(still.duration_until_next_vsync(5_000), 0);
}

#[test]
fn offsets_saturate_at_the_origin() {
    assert_eq!(time_before(10, 3), 7);
    assert_eq!(time_before(3, 10), 0);
}

#[test]
fn frame_interval_follows_the_presentation_cadence() {
    let mut stats = StatisticsManager::new(8, 10_000, 0);
    stats.report_frame_started(1);
    stats.report_frame_started(2);
    stats.report_frame_started(3);
    // the first presentation only sets the phase
    stats.report_frame_present(1, 0, 1_000);
    assert_eq!(stats.duration_until_next_vsync(3_500), 7_500);
    // 20_000 since the presentation before: (3 * 10_000 + 20_000) / 4
    stats.report_frame_present(2, 0, 21_000);
    assert_eq!(stats.duration_until_next_vsync(21_001), 12_499);
    assert_eq!(stats.duration_until_next_vsync(33_500), 0);
    // a presentation that is not later leaves the interval alone
    stats.report_frame_present(3, 0, 21_000);
    assert_eq!(stats.duration_until_next_vsync(23_500), 10_000);
}
