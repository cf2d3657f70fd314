use audio_time::bytes_to_duration;
use audio_time::bytes_to_frames;
use audio_time::bytes_to_samples;
use audio_time::duration_to_frames;
use audio_time::duration_to_samples;
use audio_time::frames_to_bytes;
use audio_time::frames_to_duration;
use audio_time::frames_to_samples;
use audio_time::samples_to_bytes;
use audio_time::samples_to_duration;
use audio_time::samples_to_frames;
use audio_time::Bytes;
use audio_time::ChannelLayout;
use audio_time::Duration;
use audio_time::Frames;
use audio_time::SampleEncoding;
use audio_time::SampleRate;
use audio_time::SampleType;
use audio_time::System;

fn system(hz: u32, layout: ChannelLayout, enc: SampleEncoding) -> System {
    System {
        sample_rate: SampleRate::new(hz).unwrap(),
        channel_layout: layout,
        sample_type: SampleType::new(enc),
    }
}

#[test]
fn test_frames_to_duration() {
    let sys = system(44_100, ChannelLayout::Mono, SampleEncoding::I16);
    let frames = Frames::new(0, sys);
    assert_eq!(Duration::zero(), frames_to_duration(frames).unwrap());
    assert_eq!(frames, duration_to_frames(Duration::zero(), sys).unwrap());

    let frames = Frames::new(88_200, sys);
    assert_eq!(Duration::from_secs(2), frames_to_duration(frames).unwrap());
    assert_eq!(frames, duration_to_frames(Duration::from_secs(2), sys).unwrap());

    let sys = system(8_000, ChannelLayout::Mono, SampleEncoding::I16);
    let frames = Frames::new(800, sys);
    assert_eq!(Duration::from_millis(100), frames_to_duration(frames).unwrap());
    assert_eq!(frames, duration_to_frames(Duration::from_millis(100), sys).unwrap());

    // sample type should not matter in this conversion
    let sys_f64 = system(8_000, ChannelLayout::Mono, SampleEncoding::F64);
    let frames = Frames::new(800, sys_f64);
    assert_eq!(Duration::from_millis(100), frames_to_duration(frames).unwrap());
    assert_eq!(frames, duration_to_frames(Duration::from_millis(100), sys_f64).unwrap());

    // test overflow
    assert!(frames_to_duration(Frames::new(usize::MAX, sys)).is_err());
    assert!(duration_to_frames(Duration::max_value(), sys).is_err());

    let sys = system(48_000, ChannelLayout::Mono, SampleEncoding::I16);
    let millisecond = Frames::new(48, sys);
    assert_eq!(Duration::from_millis(1), frames_to_duration(millisecond).unwrap());

    let sub_millisecond = Frames::new(millisecond.get() - 1, sys);
    // this conversion is lossy for durations of under 1 milliseconds
    assert_eq!(Duration::from_millis(0), frames_to_duration(sub_millisecond).unwrap());
    let there = frames_to_duration(sub_millisecond).unwrap();
    assert_ne!(sub_millisecond, duration_to_frames(there, sys).unwrap());
}

#[test]
fn test_frames_to_bytes() {
    let sys = system(44_100, ChannelLayout::Mono, SampleEncoding::I16);
    let bytes = Bytes::new(0, sys).unwrap();
    let frames = Frames::new(0, sys);
    assert_eq!(bytes, frames_to_bytes(frames).unwrap());
    assert_eq!(frames, bytes_to_frames(bytes));

    let sys = system(48_000, ChannelLayout::Mono, SampleEncoding::I16);
    let bytes = Bytes::new(2_000, sys).unwrap();
    let frames = Frames::new(1_000, sys);
    assert_eq!(bytes, frames_to_bytes(frames).unwrap());
    assert_eq!(frames, bytes_to_frames(bytes));

    let sys = system(48_000, ChannelLayout::Stereo, SampleEncoding::I16);
    let bytes = Bytes::new(4_000, sys).unwrap();
    let frames = Frames::new(1_000, sys);
    assert_eq!(bytes, frames_to_bytes(frames).unwrap());
    assert_eq!(frames, bytes_to_frames(bytes));

    let sys = system(48_000, ChannelLayout::Stereo, SampleEncoding::I32);
    let bytes = Bytes::new(8_000, sys).unwrap();
    let frames = Frames::new(1_000, sys);
    assert_eq!(bytes, frames_to_bytes(frames).unwrap());
    assert_eq!(frames, bytes_to_frames(bytes));

    let bytes = Bytes::new(16_000, sys).unwrap();
    let frames = Frames::new(2_000, sys);
    assert_eq!(bytes, frames_to_bytes(frames).unwrap());
    assert_eq!(frames, bytes_to_frames(bytes));

    // sample rate should not matter in this conversion
    let sys = system(8_000, ChannelLayout::Stereo, SampleEncoding::I32);
    let bytes = Bytes::new(8_000, sys).unwrap();
    let frames = Frames::new(1_000, sys);
    assert_eq!(bytes, frames_to_bytes(frames).unwrap());
    assert_eq!(frames, bytes_to_frames(bytes));
}

#[test]
fn test_audio_cd_scenario() {
    // 2 channels of LPCM audio, each signed 16-bit values sampled at 44100 Hz
    let sys = system(44_100, ChannelLayout::Stereo, SampleEncoding::I16);
    let frames = Frames::from_duration(Duration::from_secs(1), sys);
    assert_eq!(44_100, frames.get());
    let samples = frames.into_samples();
    assert_eq!(88_200, samples.get());
    let bytes = samples.into_bytes();
    assert_eq!(176_400, bytes.get());

    assert_eq!(bytes.into_duration(), Duration::from_secs(1));
    assert_eq!(samples.mul_scalar(2).into_duration(), Duration::from_secs(2));
}

#[test]
fn test_mono_scenario() {
    let sys = system(8_000, ChannelLayout::Mono, SampleEncoding::I16);
    let frames = Frames::from_duration(Duration::from_secs(1), sys);
    assert_eq!(8_000, frames.get());
    // in Mono systems, frame and sample counts are always equal
    assert_eq!(frames.get(), frames.into_samples().get());
    assert_eq!(16_000, frames.into_bytes().get());
}

#[test]
fn test_integer_round_trips() {
    let sys = system(48_000, ChannelLayout::Stereo, SampleEncoding::I32);
    let frames = Frames::new(123, sys);

    let samples = frames_to_samples(frames).unwrap();
    assert_eq!(246, samples.get());
    assert_eq!(frames, samples_to_frames(samples));

    let bytes = frames_to_bytes(frames).unwrap();
    assert_eq!(123 * 8, bytes.get());
    assert_eq!(frames, bytes_to_frames(bytes));

    // the two paths from frames to bytes agree
    assert_eq!(bytes, samples_to_bytes(samples).unwrap());
    assert_eq!(samples, bytes_to_samples(bytes));
}

#[test]
fn test_composed_duration_conversions() {
    let sys = system(44_100, ChannelLayout::Stereo, SampleEncoding::I16);
    let samples = duration_to_samples(Duration::from_secs(1), sys).unwrap();
    assert_eq!(88_200, samples.get());
    assert_eq!(Duration::from_secs(1), samples_to_duration(samples).unwrap());

    let bytes = audio_time::duration_to_bytes(Duration::from_secs(1), sys).unwrap();
    assert_eq!(176_400, bytes.get());
    assert_eq!(Duration::from_secs(1), bytes_to_duration(bytes).unwrap());
}

#[test]
fn test_conversion_overflow_errors() {
    let stereo = system(48_000, ChannelLayout::Stereo, SampleEncoding::I16);
    // usize::MAX - 1 is even, so it is a valid stereo sample count
    let samples = audio_time::Samples::new(usize::MAX - 1, stereo).unwrap();
    assert!(samples_to_bytes(samples).is_err());
    assert!(frames_to_samples(Frames::new(usize::MAX, stereo)).is_err());
    assert!(frames_to_bytes(Frames::new(usize::MAX, stereo)).is_err());
    assert!(duration_to_samples(Duration::max_value(), stereo).is_err());
    assert!(bytes_to_duration(Bytes::new(usize::MAX - 3, stereo).unwrap()).is_err());
}

#[test]
fn test_duration_round_trip_lossiness() {
    let sys = system(48_000, ChannelLayout::Mono, SampleEncoding::I16);
    // one millisecond's worth of frames round-trips exactly
    let exact = Frames::new(48, sys);
    let there = frames_to_duration(exact).unwrap();
    assert_eq!(Duration::from_millis(1), there);
    assert_eq!(exact, duration_to_frames(there, sys).unwrap());
    // below one millisecond the round trip collapses to zero
    let lossy = Frames::new(47, sys);
    let there = frames_to_duration(lossy).unwrap();
    assert_eq!(Duration::from_millis(0), there);
    assert_eq!(Frames::new(0, sys), duration_to_frames(there, sys).unwrap());
}

#[test]
fn test_audio_cd_constructor() {
    let sys = audio_time::audio_cd();
    assert_eq!(44_100, sys.sample_rate.get());
    assert_eq!(ChannelLayout::Stereo, sys.channel_layout);
    assert_eq!(2, sys.sample_type.byte_depth());
    assert_eq!(4, sys.frame_size());
    assert_eq!(system(44_100, ChannelLayout::Stereo, SampleEncoding::I16), sys);
}

#[test]
fn test_quantity_arithmetic() {
    let sys = system(48_000, ChannelLayout::Stereo, SampleEncoding::I16);
    let a = Frames::new(6, sys);
    let b = Frames::new(3, sys);
    assert_eq!(18, a.mul(b).get());
    assert_eq!(2, a.div(b).get());
    assert_eq!(12, a.mul_scalar(2).get());
    assert_eq!(3, a.div_scalar(2).get());

    let s = audio_time::Samples::new(4, sys).unwrap();
    let t = audio_time::Samples::new(6, sys).unwrap();
    assert_eq!(24, s.mul(t).get());
    assert_eq!(8, s.mul_scalar(2).get());
}
