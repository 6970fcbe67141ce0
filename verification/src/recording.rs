//! Naming of the recording files.

use crate::settings::{CodecType, Settings};
use vstd::prelude::*;
use vstd::string::*;

verus! {

/// The file extension of a recording in `codec`.
pub open spec fn recording_extension(codec: CodecType) -> Seq<char> {
    match codec {
        CodecType::H264 => "h264"@,
        CodecType::Hevc => "h265"@,
        CodecType::AV1 => "av1"@,
    }
}

/// The name of a recording in `codec` that was started at the local time
/// written as `stamp`.
pub open spec fn recording_name(stamp: Seq<char>, codec: CodecType) -> Seq<char> {
    "recording."@ + stamp + "."@ + recording_extension(codec)
}

pub fn extension_of(codec: CodecType) -> (ext: &'static str)
    ensures
        ext@ == recording_extension(codec),
{
    match codec {
        CodecType::H264 => "h264",
        CodecType::Hevc => "h265",
        CodecType::AV1 => "av1",
    }
}

/// Builds the name of a recording from the time stamp and the codec.
pub fn recording_file_name(stamp: &str, codec: CodecType) -> (name: String)
    ensures
        name@ == recording_name(stamp@, codec),
{
    let mut name = String::from_str("recording.");
    name.append(stamp);
    name.append(".");
    name.append(extension_of(codec));
    name
}

/// The local time of the machine as text: year, month and day with hyphens,
/// a dot, then hour, minute and second with hyphens. This calls
/// `chrono::Local::now` and `DateTime::format`. The text depends on the clock
/// and the time zone, so nothing is claimed of it.
#[verifier::external_body]
fn local_time_stamp() -> (stamp: String) {
    chrono::Local::now().format("%F.%H-%M-%S").to_string()
}

/// Names the recording file that is to be created now for the preferred
/// codec. The caller creates the file and writes the current decoder
/// configuration to it.
pub fn create_recording_file(settings: &Settings) -> (name: String)
    ensures
        exists|stamp: Seq<char>| name@ == #[trigger] recording_name(stamp, settings.preferred_codec),
{
    let stamp = local_time_stamp();
    let name = recording_file_name(stamp.as_str(), settings.preferred_codec);
    proof {
        assert(name@ == recording_name(stamp@, settings.preferred_codec));
    }
    name
}

} // verus!
