use alvr_server::bitrate::{BitrateConfig, BitrateManager, DynamicEncoderParams};

fn config(adapt_to_framerate: bool) -> BitrateConfig {
    BitrateConfig { min_bitrate_bps: 1_000_000, max_bitrate_bps: 100_000_000, adapt_to_framerate }
}

#[test]
fn cold_start_has_no_params() {
    let mut manager = BitrateManager::new(256, 60);
    assert!(manager.get_encoder_params(&config(false)).is_none());
    manager.report_frame_present(true, 10);
    assert!(manager.get_encoder_params(&config(false)).is_none());
}

#[test]
fn headroom_raises_bitrate_by_an_eighth() {
    let mut manager = BitrateManager::new(256, 60);
    manager.report_frame_encoded(1, 5_000_000, 40_000);
    let (params, stats) = manager.get_encoder_params(&config(false)).unwrap();
    assert_eq!(params, DynamicEncoderParams { bitrate_bps: 56_812_500, framerate: 60 });
    assert_eq!(stats.average_encode_latency_ns, 5_000_000);
    assert_eq!(stats.frame_budget_ns, 16_666_666);
    assert!(!stats.presentation_behind);
    let (params, _) = manager.get_encoder_params(&config(false)).unwrap();
    assert_eq!(params.bitrate_bps, 63_914_062);
}

#[test]
fn slow_encoding_lowers_bitrate_by_a_quarter() {
    let mut manager = BitrateManager::new(256, 60);
    manager.report_frame_encoded(1, 20_000_000, 1_000);
    manager.report_frame_encoded(2, 30_000_000, 2_001);
    let (params, stats) = manager.get_encoder_params(&config(false)).unwrap();
    assert_eq!(stats.average_encode_latency_ns, 25_000_000);
    assert_eq!(stats.average_frame_size_bytes, 1_500);
    assert_eq!(params.bitrate_bps, 37_875_000);
}

#[test]
fn late_presentation_lowers_bitrate_and_framerate() {
    let mut manager = BitrateManager::new(256, 60);
    manager.report_frame_encoded(1, 1_000_000, 40_000);
    manager.report_frame_present(true, 1_000);
    manager.report_frame_present(true, 33_334_333);
    let (params, stats) = manager.get_encoder_params(&config(true)).unwrap();
    assert!(stats.presentation_behind);
    assert_eq!(params.bitrate_bps, 37_875_000);
    assert_eq!(params.framerate, 30);
}

#[test]
fn bitrate_stays_within_bounds() {
    let cfg = BitrateConfig { min_bitrate_bps: 30_000_000, max_bitrate_bps: 60_000_000, adapt_to_framerate: false };
    let mut manager = BitrateManager::new(4, 60);
    for i in 0..200u64 {
        let latency = if (i / 40) % 2 == 0 { 1_000_000 } else { 90_000_000 };
        manager.report_frame_encoded(i, latency, 1_000 + i);
        let (params, _) = manager.get_encoder_params(&cfg).unwrap();
        assert!(params.bitrate_bps >= 30_000_000);
        assert!(params.bitrate_bps <= 60_000_000);
    }
    let wide = BitrateConfig { min_bitrate_bps: 0, max_bitrate_bps: u64::MAX, adapt_to_framerate: false };
    let mut manager = BitrateManager::new(4, 60);
    manager.report_frame_encoded(0, u64::MAX, 1);
    manager.report_frame_encoded(1, u64::MAX, 1);
    for _ in 0..300 {
        assert!(manager.get_encoder_params(&wide).is_some());
    }
}

#[test]
fn history_is_bounded() {
    let mut manager = BitrateManager::new(3, 60);
    for i in 0..10u64 {
        manager.report_frame_encoded(i, 100_000_000, 1);
    }
    assert_eq!(manager.sample_count(), 3);
    // only the last three samples count
    manager.report_frame_encoded(10, 0, 1);
    manager.report_frame_encoded(11, 0, 1);
    manager.report_frame_encoded(12, 3, 1);
    let (_, stats) = manager.get_encoder_params(&config(false)).unwrap();
    assert_eq!(stats.average_encode_latency_ns, 1);
    let mut none = BitrateManager::new(0, 60);
    none.report_frame_encoded(1, 1, 1);
    assert_eq!(none.sample_count(), 0);
    assert!(none.get_encoder_params(&config(false)).is_none());
}
