use vstd::prelude::*;

use crate::bytes::Bytes;
use crate::convert::bytes_to_frames;
use crate::convert::duration_to_frames;
use crate::convert::frames_to_bytes;
use crate::convert::frames_to_duration;
use crate::convert::frames_to_samples;
use crate::convert::samples_to_frames;
use crate::convert::spec_bytes_to_frames;
use crate::convert::spec_frames_to_bytes;
use crate::convert::spec_frames_to_millis;
use crate::convert::spec_frames_to_samples;
use crate::convert::spec_millis_to_frames;
use crate::convert::spec_samples_to_frames;
use crate::duration::Duration;
use crate::samples::Samples;
use crate::system::System;

verus! {

/// An audio time span, measured by the number of frames it contains. A frame
/// is the atomic unit — one sample per channel — so any non-negative count is
/// valid. The value is bound to the `System` it was built against, and every
/// conversion keeps that binding.
#[derive(Clone, Copy, Debug, PartialEq, Eq, Hash, Structural)]
pub struct Frames {
    count: usize,
    system: System,
}

impl Frames {
    /// The frame count, as the contracts speak of it.
    pub closed spec fn spec_count(self) -> int {
        self.count as int
    }

    /// The format descriptor this value is bound to.
    pub closed spec fn spec_system(self) -> System {
        self.system
    }

    /// A span of `n` frames in format `system`.
    pub fn new(n: usize, system: System) -> (r: Frames)
        ensures
            r.spec_count() == n,
            r.spec_system() == system,
    {
        Frames { count: n, system }
    }

    /// The frame count.
    pub fn get(&self) -> (r: usize)
        ensures
            r == self.spec_count(),
    {
        self.count
    }

    /// The format descriptor this value is bound to.
    pub fn system(&self) -> (r: System)
        ensures
            r == self.spec_system(),
    {
        self.system
    }

    /// The duration these frames last, truncated to whole milliseconds.
    /// Overflowing counts are ruled out by the precondition; for the checked
    /// tier see [`frames_to_duration`].
    pub fn into_duration(self) -> (r: Duration)
        requires
            self.spec_count() * 1000 <= usize::MAX,
        ensures
            r == Duration::spec_from_millis(
                spec_frames_to_millis(self.spec_count(), self.spec_system()),
            ),
    {
        frames_to_duration(self).unwrap()
    }

    /// The frames that `dur` lasts in format `system`, truncated to whole
    /// milliseconds. Durations too long for the count are ruled out by the
    /// precondition; for the checked tier see [`duration_to_frames`].
    pub fn from_duration(dur: Duration, system: System) -> (r: Frames)
        requires
            spec_millis_to_frames(dur.spec_millis(), system) <= usize::MAX,
        ensures
            r.spec_system() == system,
            r.spec_count() == spec_millis_to_frames(dur.spec_millis(), system),
    {
        duration_to_frames(dur, system).unwrap()
    }

    /// The bytes these frames occupy. Overflowing counts are ruled out by
    /// the precondition; for the checked tier see [`frames_to_bytes`].
    pub fn into_bytes(self) -> (r: Bytes)
        requires
            spec_frames_to_bytes(self.spec_count(), self.spec_system()) <= usize::MAX,
        ensures
            r.spec_system() == self.spec_system(),
            r.spec_count() == spec_frames_to_bytes(self.spec_count(), self.spec_system()),
    {
        frames_to_bytes(self).unwrap()
    }

    /// The frames that `bytes` holds: exact, by the divisibility invariant
    /// of [`Bytes`].
    pub fn from_bytes(bytes: Bytes) -> (r: Frames)
        ensures
            r.spec_system() == bytes.spec_system(),
            r.spec_count() == spec_bytes_to_frames(bytes.spec_count(), bytes.spec_system()),
    {
        bytes_to_frames(bytes)
    }

    /// The samples these frames hold: one per channel per frame. Overflowing
    /// counts are ruled out by the precondition; for the checked tier see
    /// [`frames_to_samples`].
    pub fn into_samples(self) -> (r: Samples)
        requires
            spec_frames_to_samples(self.spec_count(), self.spec_system()) <= usize::MAX,
        ensures
            r.spec_system() == self.spec_system(),
            r.spec_count() == spec_frames_to_samples(self.spec_count(), self.spec_system()),
    {
        frames_to_samples(self).unwrap()
    }

    /// The frames that `samples` fill: exact, by the divisibility invariant
    /// of [`Samples`].
    pub fn from_samples(samples: Samples) -> (r: Frames)
        ensures
            r.spec_system() == samples.spec_system(),
            r.spec_count() == spec_samples_to_frames(samples.spec_count(), samples.spec_system()),
    {
        samples_to_frames(samples)
    }

    /// Frame count multiplied by another count of the same format.
    pub fn mul(self, rhs: Frames) -> (r: Frames)
        requires
            self.spec_system() == rhs.spec_system(),
            self.spec_count() * rhs.spec_count() <= usize::MAX,
        ensures
            r.spec_system() == self.spec_system(),
            r.spec_count() == self.spec_count() * rhs.spec_count(),
    {
        Frames { count: self.count * rhs.count, system: self.system }
    }

    /// Frame count multiplied by a scalar.
    pub fn mul_scalar(self, rhs: usize) -> (r: Frames)
        requires
            self.spec_count() * rhs <= usize::MAX,
        ensures
            r.spec_system() == self.spec_system(),
            r.spec_count() == self.spec_count() * rhs,
    {
        Frames { count: self.count * rhs, system: self.system }
    }

    /// Frame count divided by another count of the same format, rounding
    /// toward zero.
    pub fn div(self, rhs: Frames) -> (r: Frames)
        requires
            self.spec_system() == rhs.spec_system(),
            rhs.spec_count() >= 1,
        ensures
            r.spec_system() == self.spec_system(),
            r.spec_count() == self.spec_count() / rhs.spec_count(),
    {
        Frames { count: self.count / rhs.count, system: self.system }
    }

    /// Frame count divided by a scalar, rounding toward zero.
    pub fn div_scalar(self, rhs: usize) -> (r: Frames)
        requires
            rhs >= 1,
        ensures
            r.spec_system() == self.spec_system(),
            r.spec_count() == self.spec_count() / rhs as int,
    {
        Frames { count: self.count / rhs, system: self.system }
    }
}

} // verus!
