use vstd::prelude::*;

verus! {

/// The fixed arrangement of channels in a frame, determining how many samples
/// one frame holds.
#[derive(Clone, Copy, Debug, PartialEq, Eq, Hash, Structural)]
pub enum ChannelLayout {
    Mono,
    Stereo,
}

impl ChannelLayout {
    /// The number of channels of this layout, as the contracts speak of it.
    pub open spec fn spec_channels(self) -> u8 {
        match self {
            ChannelLayout::Mono => 1,
            ChannelLayout::Stereo => 2,
        }
    }

    /// The number of channels, and so the number of samples per frame: one
    /// for `Mono`, two for `Stereo`. Always positive.
    pub fn channels(&self) -> (r: u8)
        ensures
            r == self.spec_channels(),
            1 <= r <= 2,
    {
        match self {
            ChannelLayout::Mono => 1,
            ChannelLayout::Stereo => 2,
        }
    }
}

} // verus!
