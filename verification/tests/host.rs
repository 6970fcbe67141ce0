use alvr_server::bitrate::BitrateConfig;
use alvr_server::dispatch::DispatchSettings;
use alvr_server::recording::{create_recording_file, extension_of, recording_file_name};
use alvr_server::restart::{notify_restart_driver, restart_notice, RestartNotice};
use alvr_server::settings::{CodecType, Settings};

#[test]
fn recording_names_carry_stamp_and_codec() {
    assert_eq!(extension_of(CodecType::H264), "h264");
    assert_eq!(extension_of(CodecType::Hevc), "h265");
    assert_eq!(extension_of(CodecType::AV1), "av1");
    assert_eq!(
        recording_file_name("2024-01-02.03-04-05", CodecType::H264),
        "recording.2024-01-02.03-04-05.h264"
    );
    assert_eq!(recording_file_name("", CodecType::AV1), "recording..av1");
}

#[test]
fn new_recording_is_named_after_the_local_time() {
    let settings = Settings {
        preferred_codec: CodecType::Hevc,
        bitrate: BitrateConfig { min_bitrate_bps: 1, max_bitrate_bps: 2, adapt_to_framerate: false },
        dispatch: DispatchSettings { avoid_video_glitching: false, rolling_video_files: None },
        haptics_enabled: false,
        log_haptics: false,
    };
    let name = create_recording_file(&settings);
    assert!(name.starts_with("recording."));
    assert!(name.ends_with(".h265"));
    let stamp = &name["recording.".len()..name.len() - ".h265".len()];
    assert_eq!(stamp.len(), 19);
    let bytes = stamp.as_bytes();
    assert_eq!(bytes[4], b'-');
    assert_eq!(bytes[7], b'-');
    assert_eq!(bytes[10], b'.');
    assert_eq!(bytes[13], b'-');
    assert_eq!(bytes[16], b'-');
    assert!(stamp.chars().filter(|c| c.is_ascii_digit()).count() == 14);
}

#[test]
fn restart_needs_a_running_dashboard() {
    assert_eq!(restart_notice(true), RestartNotice::RequestSelfRestart);
    assert_eq!(restart_notice(false), RestartNotice::DashboardNotFound);
    assert_eq!(
        notify_restart_driver("no-such-dashboard-process-7f3a9c"),
        RestartNotice::DashboardNotFound
    );
}
