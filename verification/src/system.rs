use vstd::prelude::*;

use crate::channel_layout::ChannelLayout;
use crate::sample::SampleEncoding;
use crate::sample::SampleType;
use crate::sample_rate::SampleRate;

verus! {

/// The complete format descriptor: everything needed to interpret an audio
/// time span as a number of frames, samples or bytes. A `System` is built
/// once per format and passed as read-only context to every conversion.
#[derive(Clone, Copy, Debug, PartialEq, Eq, Hash, Structural)]
pub struct System {
    pub sample_rate: SampleRate,
    pub channel_layout: ChannelLayout,
    pub sample_type: SampleType,
}

impl System {
    /// The sampling rate in hertz, as the contracts speak of it.
    pub open spec fn spec_sample_rate(self) -> u32 {
        self.sample_rate.spec_get()
    }

    /// The number of channels, as the contracts speak of it.
    pub open spec fn spec_channels(self) -> u8 {
        self.channel_layout.spec_channels()
    }

    /// The byte width of one sample, as the contracts speak of it.
    pub open spec fn spec_byte_depth(self) -> u8 {
        self.sample_type.spec_byte_depth()
    }

    /// The number of bytes of one frame: one sample per channel.
    pub open spec fn spec_frame_size(self) -> int {
        self.spec_channels() * self.spec_byte_depth()
    }

    /// The number of bytes used to represent a single frame: the sample's
    /// byte width times the number of channels. The registry bounds both
    /// factors, so the product always fits a byte.
    pub fn frame_size(&self) -> (r: u8)
        ensures
            r == self.spec_frame_size(),
            1 <= r,
    {
        let c = self.channel_layout.channels();
        let d = self.sample_type.byte_depth();
        assert(1 <= c * d <= 32) by (nonlinear_arith)
            requires
                1 <= c <= 2,
                1 <= d <= 16,
        ;
        c * d
    }
}

/// The Audio CD encoding system: two channels of linear PCM audio, each
/// holding signed 16-bit values sampled at 44100 Hz.
pub fn audio_cd() -> (r: System)
    ensures
        r.spec_sample_rate() == 44_100,
        r.channel_layout == ChannelLayout::Stereo,
        r.sample_type == SampleType::spec_new(SampleEncoding::I16),
        r.spec_channels() == 2,
        r.spec_byte_depth() == 2,
        r.spec_frame_size() == 4,
{
    System {
        sample_rate: SampleRate::new(44_100).unwrap(),
        channel_layout: ChannelLayout::Stereo,
        sample_type: SampleType::new(SampleEncoding::I16),
    }
}

} // verus!
