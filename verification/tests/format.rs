use audio_time::Bytes;
use audio_time::ChannelLayout;
use audio_time::Duration;
use audio_time::Sample;
use audio_time::SampleEncoding;
use audio_time::SampleRate;
use audio_time::SampleType;
use audio_time::Samples;
use audio_time::System;

fn system(hz: u32, layout: ChannelLayout, enc: SampleEncoding) -> System {
    System {
        sample_rate: SampleRate::new(hz).unwrap(),
        channel_layout: layout,
        sample_type: SampleType::new(enc),
    }
}

#[test]
fn test_sample_depth() {
    assert_eq!(1, SampleType::new(<i8 as Sample>::encoding()).byte_depth());
    assert_eq!(2, SampleType::new(<i16 as Sample>::encoding()).byte_depth());
    assert_eq!(4, SampleType::new(<u32 as Sample>::encoding()).byte_depth());
    assert_eq!(8, SampleType::new(SampleEncoding::F64).byte_depth());
}

#[test]
fn test_sample_type_identity() {
    assert_eq!(SampleType::new(SampleEncoding::I16), SampleType::new(SampleEncoding::I16));
    assert_ne!(SampleType::new(SampleEncoding::I16), SampleType::new(SampleEncoding::U16));
    // equal widths, still distinct encodings
    assert_eq!(2, SampleType::new(SampleEncoding::I16).byte_depth());
    assert_eq!(2, SampleType::new(SampleEncoding::U16).byte_depth());
    assert_ne!(
        SampleType::new(<u64 as Sample>::encoding()),
        SampleType::new(<usize as Sample>::encoding()),
    );
}

#[test]
fn test_sample_rate_rejects_zero() {
    assert!(SampleRate::new(0).is_none());
    assert_eq!(44_100, SampleRate::new(44_100).unwrap().get());
}

#[test]
fn test_channel_counts() {
    assert_eq!(1, ChannelLayout::Mono.channels());
    assert_eq!(2, ChannelLayout::Stereo.channels());
}

#[test]
fn test_frame_size() {
    let sys = system(44_100, ChannelLayout::Stereo, SampleEncoding::I16);
    assert_eq!(4, sys.frame_size());
    let sys = system(8_000, ChannelLayout::Mono, SampleEncoding::F64);
    assert_eq!(8, sys.frame_size());
}

#[test]
fn test_divisibility_of_samples() {
    let stereo = system(48_000, ChannelLayout::Stereo, SampleEncoding::I16);
    assert!(Samples::new(3, stereo).is_none());
    let s = Samples::new(4, stereo).unwrap();
    assert_eq!(4, s.get());

    let mono = system(48_000, ChannelLayout::Mono, SampleEncoding::I16);
    assert_eq!(3, Samples::new(3, mono).unwrap().get());
}

#[test]
fn test_divisibility_of_bytes() {
    // stereo 16-bit: one frame is four bytes
    let stereo = system(48_000, ChannelLayout::Stereo, SampleEncoding::I16);
    assert!(Bytes::new(6, stereo).is_none());
    let b = Bytes::new(8, stereo).unwrap();
    assert_eq!(8, b.get());
}

#[test]
fn test_duration_parts() {
    let d = Duration::from_millis(2_500);
    assert_eq!(2, d.as_secs());
    assert_eq!(500_000_000, d.subsec_nanos());
    assert_eq!(2_500, d.as_millis());

    let z = Duration::zero();
    assert_eq!(0, z.as_millis());
    assert_eq!(Duration::from_secs(0), z);

    let m = Duration::max_value();
    assert_eq!(u64::MAX, m.as_secs());
    assert_eq!(999_999_999, m.subsec_nanos());

    // sub-millisecond detail survives in the span, and as_millis truncates it
    let s = Duration::from_secs(1);
    assert_eq!(1_000, s.as_millis());
}
