use ttmpv_engine::audio::{bin_sample_indices, waveform_bin_ranges};
use ttmpv_engine::text::{append_decimal, append_signed_decimal};
use ttmpv_engine::{AudioConfig, MpvError, MpvEventId, MpvFormat, MpvHandle, SeekMode};

#[test]
fn whisper_is_the_default() {
    assert_eq!(AudioConfig::whisper(), AudioConfig::default());
    assert_eq!(AudioConfig::default(), AudioConfig { sample_rate: 16000, channels: 1 });
}

#[test]
fn hi_fi_is_48k_stereo() {
    assert_eq!(AudioConfig::hi_fi(), AudioConfig { sample_rate: 48000, channels: 2 });
}

#[test]
fn test_pcm_waveform_calculation() {
    // eight mono samples at 48 kHz over four bins
    let ranges = waveform_bin_ranges(8, 1, 4);
    assert_eq!(ranges.len(), 4);
    assert_eq!(ranges, vec![(0, 2), (2, 4), (4, 6), (6, 8)]);
    for (start, end) in ranges {
        assert_eq!(bin_sample_indices(start, end, 1, 8), vec![start, start + 1]);
    }
}

#[test]
fn no_bins_for_empty_input() {
    assert!(waveform_bin_ranges(0, 1, 4).is_empty());
    assert!(waveform_bin_ranges(8, 1, 0).is_empty());
}

#[test]
fn fewer_frames_than_bins() {
    assert_eq!(waveform_bin_ranges(3, 1, 10), vec![(0, 1), (1, 2), (2, 3)]);
    // two channels but a single sample: no whole frame
    assert!(waveform_bin_ranges(1, 2, 4).is_empty());
}

#[test]
fn trailing_frames_past_the_last_bin_are_left_out() {
    assert_eq!(waveform_bin_ranges(10, 1, 4), vec![(0, 2), (2, 4), (4, 6), (6, 8)]);
}

#[test]
fn stereo_bins_read_the_first_channel() {
    let ranges = waveform_bin_ranges(8, 2, 2);
    assert_eq!(ranges, vec![(0, 2), (2, 4)]);
    assert_eq!(bin_sample_indices(2, 4, 2, 8), vec![4, 6]);
}

#[test]
fn zero_channels_count_as_one() {
    assert_eq!(waveform_bin_ranges(4, 0, 2), vec![(0, 2), (2, 4)]);
    assert_eq!(bin_sample_indices(0, 2, 0, 4), vec![0, 0]);
}

#[test]
fn samples_past_the_end_are_skipped() {
    assert_eq!(bin_sample_indices(2, 6, 3, 10), vec![6, 9]);
    assert_eq!(bin_sample_indices(5, 2, 1, 10), Vec::<usize>::new());
    assert_eq!(bin_sample_indices(usize::MAX - 1, usize::MAX, 2, 10), Vec::<usize>::new());
}

#[test]
fn from_code_success_and_failure() {
    assert_eq!(MpvError::from_code(0, None), Ok(()));
    assert_eq!(MpvError::from_code(3, Some("ignored".to_string())), Ok(()));
    assert_eq!(
        MpvError::from_code(-2, Some("invalid parameter".to_string())),
        Err(MpvError::Internal { code: -2, message: "invalid parameter".to_string() })
    );
    assert_eq!(
        MpvError::from_code(-1, None),
        Err(MpvError::Internal { code: -1, message: "Unknown error".to_string() })
    );
}

#[test]
fn seek_mode_flags() {
    assert_eq!(SeekMode::Exact.as_str(), "exact");
    assert_eq!(SeekMode::Keyframe.as_str(), "keyframes");
    assert_eq!(SeekMode::Relative.as_str(), "relative");
}

#[test]
fn seek_command_arguments() {
    assert_eq!(
        MpvHandle::seek_args("10.5000", SeekMode::Exact),
        vec!["seek", "10.5000", "absolute", "exact"]
    );
    assert_eq!(
        MpvHandle::seek_args("3.0000", SeekMode::Keyframe),
        vec!["seek", "3.0000", "absolute", "keyframes"]
    );
    assert_eq!(
        MpvHandle::seek_args("-2.5000", SeekMode::Relative),
        vec!["seek", "-2.5000", "relative"]
    );
}

#[test]
fn api_version_splits_into_major_and_minor() {
    assert_eq!(MpvHandle::api_version_from(0x0002_0005), (2, 5));
    assert_eq!(MpvHandle::api_version_from(0x0001_0000), (1, 0));
    assert_eq!(MpvHandle::api_version_from(0xABCD_1234_5678), (0x1234, 0x5678));
}

#[test]
fn format_codes_round_trip() {
    let all = [
        MpvFormat::NoData,
        MpvFormat::String,
        MpvFormat::OsdString,
        MpvFormat::Flag,
        MpvFormat::Int64,
        MpvFormat::Double,
        MpvFormat::Node,
        MpvFormat::NodeArray,
        MpvFormat::NodeMap,
        MpvFormat::ByteArray,
    ];
    for (i, f) in all.iter().enumerate() {
        assert_eq!(f.code(), i as i32);
        assert_eq!(MpvFormat::from_code(f.code()), Some(*f));
    }
    assert_eq!(MpvFormat::from_code(10), None);
    assert_eq!(MpvFormat::from_code(-1), None);
}

#[test]
fn event_id_codes_round_trip() {
    let all = [
        (MpvEventId::NoEvent, 0),
        (MpvEventId::Shutdown, 1),
        (MpvEventId::LogMessage, 2),
        (MpvEventId::GetPropertyReply, 3),
        (MpvEventId::SetPropertyReply, 4),
        (MpvEventId::CommandReply, 5),
        (MpvEventId::StartFile, 6),
        (MpvEventId::EndFile, 7),
        (MpvEventId::FileLoaded, 8),
        (MpvEventId::ClientMessage, 16),
        (MpvEventId::VideoReconfig, 17),
        (MpvEventId::AudioReconfig, 18),
        (MpvEventId::Seek, 20),
        (MpvEventId::PlaybackRestart, 21),
        (MpvEventId::PropertyChange, 22),
        (MpvEventId::QueueOverflow, 24),
        (MpvEventId::Hook, 25),
    ];
    for (e, code) in all {
        assert_eq!(e.code(), code);
        assert_eq!(MpvEventId::from_code(code), Some(e));
    }
    assert_eq!(MpvEventId::from_code(9), None);
    assert_eq!(MpvEventId::from_code(23), None);
}

#[test]
fn decimal_text() {
    let mut s = String::from("x=");
    append_decimal(&mut s, 0);
    assert_eq!(s, "x=0");
    let mut s = String::new();
    append_decimal(&mut s, 18446744073709551615);
    assert_eq!(s, "18446744073709551615");
    let mut s = String::new();
    append_signed_decimal(&mut s, -9223372036854775808);
    assert_eq!(s, "-9223372036854775808");
    let mut s = String::new();
    append_signed_decimal(&mut s, 407);
    assert_eq!(s, "407");
}
