use ruka::codec::{best_layout, configure_encoder, configure_filter};
use ruka::error::Error;
use ruka::stream::{best_audio_stream, ChannelLayout, MediaKind, StreamDescriptor, StreamInfo};
use ruka::timebase::Rational;

fn info(kind: MediaKind, bit_rate: u64) -> StreamInfo {
    StreamInfo { kind, bit_rate }
}

fn layout(bits: u64, channels: u32) -> ChannelLayout {
    ChannelLayout { bits, channels }
}

fn source(rate: u32, channels: u32) -> StreamDescriptor {
    StreamDescriptor {
        time_base: Rational::new(1, rate as i32),
        rate,
        format: "fltp".to_string(),
        layout: layout(if channels == 1 { 0x4 } else { 0x3 }, channels),
        bit_rate: 128000,
        max_bit_rate: 160000,
    }
}

#[test]
fn best_audio_stream_takes_highest_bit_rate() {
    let streams = vec![
        info(MediaKind::Video, 900000),
        info(MediaKind::Audio, 64000),
        info(MediaKind::Audio, 160000),
        info(MediaKind::Audio, 128000),
    ];
    assert_eq!(best_audio_stream(&streams), Ok(2));
}

#[test]
fn best_audio_stream_first_on_tie() {
    let streams = vec![
        info(MediaKind::Other, 0),
        info(MediaKind::Audio, 128000),
        info(MediaKind::Audio, 128000),
    ];
    assert_eq!(best_audio_stream(&streams), Ok(1));
}

#[test]
fn best_audio_stream_single_audio_without_bit_rate() {
    let streams = vec![info(MediaKind::Video, 500000), info(MediaKind::Audio, 0)];
    assert_eq!(best_audio_stream(&streams), Ok(1));
}

#[test]
fn no_audio_stream_is_rejected() {
    let streams = vec![info(MediaKind::Video, 500000), info(MediaKind::Other, 1000)];
    assert_eq!(best_audio_stream(&streams), Err(Error::NoAudioStream));
    assert_eq!(best_audio_stream(&Vec::new()), Err(Error::NoAudioStream));
}

#[test]
fn best_layout_most_channels_within_decoder() {
    let layouts = vec![layout(0x4, 1), layout(0x3, 2), layout(0x3f, 6)];
    assert_eq!(best_layout(&layouts, 2), layout(0x3, 2));
    assert_eq!(best_layout(&layouts, 8), layout(0x3f, 6));
    assert_eq!(best_layout(&layouts, 1), ChannelLayout::mono());
}

#[test]
fn best_layout_first_on_tie_and_mono_fallback() {
    let layouts = vec![layout(0x3, 2), layout(0x600, 2)];
    assert_eq!(best_layout(&layouts, 2), layout(0x3, 2));
    assert_eq!(best_layout(&Vec::new(), 2), ChannelLayout::mono());
}

#[test]
fn encoder_copies_source_and_picks_first_format() {
    let src = source(48000, 2);
    let formats = vec!["s16p".to_string(), "fltp".to_string()];
    let layouts = vec![layout(0x4, 1), layout(0x3, 2)];
    let e = configure_encoder(&src, Some(&formats), Some(&layouts), true).unwrap();
    assert_eq!(e.rate, 48000);
    assert_eq!(e.format, "s16p");
    assert_eq!(e.layout, layout(0x3, 2));
    assert_eq!(e.bit_rate, 128000);
    assert_eq!(e.max_bit_rate, 160000);
    assert_eq!(e.time_base, Rational::new(1, 48000));
    assert!(e.global_header);
}

#[test]
fn encoder_falls_back_to_stereo() {
    let src = source(44100, 1);
    let formats = vec!["fltp".to_string()];
    let e = configure_encoder(&src, Some(&formats), None, false).unwrap();
    assert_eq!(e.layout, ChannelLayout::stereo());
    assert_eq!(e.layout.channels, 2);
    assert!(!e.global_header);
}

#[test]
fn encoder_without_formats_is_unsupported() {
    let src = source(44100, 2);
    assert_eq!(configure_encoder(&src, None, None, false), Err(Error::UnsupportedFormatConversion));
    let none: Vec<String> = Vec::new();
    assert_eq!(
        configure_encoder(&src, Some(&none), None, false),
        Err(Error::UnsupportedFormatConversion)
    );
}

#[test]
fn encoder_rejects_zero_rate() {
    let mut src = source(44100, 2);
    src.rate = 0;
    let formats = vec!["fltp".to_string()];
    assert_eq!(configure_encoder(&src, Some(&formats), None, false), Err(Error::EncodeRejected));
    src.rate = u32::MAX;
    assert_eq!(configure_encoder(&src, Some(&formats), None, false), Err(Error::EncodeRejected));
}

#[test]
fn filter_sink_matches_encoder() {
    let src = source(48000, 2);
    let formats = vec!["s16".to_string()];
    let e = configure_encoder(&src, Some(&formats), None, false).unwrap();
    let f = configure_filter(&src, &e, false, 1152).unwrap();
    assert_eq!(f.source, src);
    assert_eq!(f.sink_format, "s16");
    assert_eq!(f.sink_layout, e.layout);
    assert_eq!(f.sink_rate, 48000);
    assert_eq!(f.frame_size, Some(1152));
    let g = configure_filter(&src, &e, true, 1152).unwrap();
    assert_eq!(g.frame_size, None);
}

#[test]
fn filter_needs_frame_size_when_fixed() {
    let src = source(48000, 2);
    let formats = vec!["s16".to_string()];
    let e = configure_encoder(&src, Some(&formats), None, false).unwrap();
    assert_eq!(configure_filter(&src, &e, false, 0), Err(Error::FilterConfigInvalid));
    assert!(configure_filter(&src, &e, true, 0).is_ok());
}
