use vstd::prelude::*;

use crate::bytes::Bytes;
use crate::convert::bytes_to_samples;
use crate::convert::frames_to_samples;
use crate::convert::samples_to_bytes;
use crate::convert::samples_to_frames;
use crate::convert::spec_bytes_to_samples;
use crate::convert::spec_frames_to_millis;
use crate::convert::spec_frames_to_samples;
use crate::convert::spec_millis_to_frames;
use crate::convert::spec_samples_to_bytes;
use crate::convert::spec_samples_to_frames;
use crate::duration::Duration;
use crate::frames::Frames;
use crate::system::System;

verus! {

/// An audio time span, measured by the number of samples it contains: one
/// amplitude reading per channel per frame. The count is invariantly
/// divisible by the channel count of the `System` it is bound to, so that it
/// always describes a whole number of frames.
#[derive(Clone, Copy, Debug, PartialEq, Eq, Hash, Structural)]
pub struct Samples {
    count: usize,
    system: System,
}

impl Samples {
    #[verifier::type_invariant]
    spec fn wf(self) -> bool {
        (self.count as int) % (self.system.spec_channels() as int) == 0
    }

    /// The sample count, as the contracts speak of it.
    pub closed spec fn spec_count(self) -> int {
        self.count as int
    }

    /// The format descriptor this value is bound to.
    pub closed spec fn spec_system(self) -> System {
        self.system
    }

    /// A span of `n` samples in format `system`, accepted only when `n` is
    /// divisible by the channel count: otherwise the count would cut a frame
    /// apart.
    pub fn new(n: usize, system: System) -> (r: Option<Samples>)
        ensures
            r is Some <==> n as int % (system.spec_channels() as int) == 0,
            r is Some ==> r.unwrap().spec_count() == n && r.unwrap().spec_system() == system,
    {
        let c = system.channel_layout.channels();
        if n % (c as usize) == 0 {
            Some(Samples { count: n, system })
        } else {
            None
        }
    }

    /// The sample count. Always divisible by the channel count.
    pub fn get(&self) -> (r: usize)
        ensures
            r == self.spec_count(),
            r as int % (self.spec_system().spec_channels() as int) == 0,
    {
        proof {
            use_type_invariant(self);
        }
        self.count
    }

    /// The format descriptor this value is bound to.
    pub fn system(&self) -> (r: System)
        ensures
            r == self.spec_system(),
    {
        self.system
    }

    /// The duration these samples last, truncated to whole milliseconds.
    /// Overflowing counts are ruled out by the precondition; for the checked
    /// tier see [`samples_to_duration`](crate::convert::samples_to_duration).
    pub fn into_duration(self) -> (r: Duration)
        requires
            spec_samples_to_frames(self.spec_count(), self.spec_system()) * 1000 <= usize::MAX,
        ensures
            r == Duration::spec_from_millis(
                spec_frames_to_millis(
                    spec_samples_to_frames(self.spec_count(), self.spec_system()),
                    self.spec_system(),
                ),
            ),
    {
        self.into_frames().into_duration()
    }

    /// The samples that `dur` lasts in format `system`, truncated to whole
    /// milliseconds. Durations too long for the count are ruled out by the
    /// precondition; for the checked tier see
    /// [`duration_to_samples`](crate::convert::duration_to_samples).
    pub fn from_duration(dur: Duration, system: System) -> (r: Samples)
        requires
            spec_millis_to_frames(dur.spec_millis(), system) <= usize::MAX,
            spec_frames_to_samples(
                spec_millis_to_frames(dur.spec_millis(), system),
                system,
            ) <= usize::MAX,
        ensures
            r.spec_system() == system,
            r.spec_count() == spec_frames_to_samples(
                spec_millis_to_frames(dur.spec_millis(), system),
                system,
            ),
    {
        Samples::from_frames(Frames::from_duration(dur, system))
    }

    /// The bytes these samples occupy. Overflowing counts are ruled out by
    /// the precondition; for the checked tier see [`samples_to_bytes`].
    pub fn into_bytes(self) -> (r: Bytes)
        requires
            spec_samples_to_bytes(self.spec_count(), self.spec_system()) <= usize::MAX,
        ensures
            r.spec_system() == self.spec_system(),
            r.spec_count() == spec_samples_to_bytes(self.spec_count(), self.spec_system()),
    {
        samples_to_bytes(self).unwrap()
    }

    /// The samples that `bytes` store: exact, by the divisibility invariant
    /// of [`Bytes`].
    pub fn from_bytes(bytes: Bytes) -> (r: Samples)
        ensures
            r.spec_system() == bytes.spec_system(),
            r.spec_count() == spec_bytes_to_samples(bytes.spec_count(), bytes.spec_system()),
    {
        bytes_to_samples(bytes)
    }

    /// The frames these samples fill: exact, by the divisibility invariant.
    pub fn into_frames(self) -> (r: Frames)
        ensures
            r.spec_system() == self.spec_system(),
            r.spec_count() == spec_samples_to_frames(self.spec_count(), self.spec_system()),
    {
        samples_to_frames(self)
    }

    /// The samples that `frames` hold: one per channel per frame.
    /// Overflowing counts are ruled out by the precondition; for the checked
    /// tier see [`frames_to_samples`].
    pub fn from_frames(frames: Frames) -> (r: Samples)
        requires
            spec_frames_to_samples(frames.spec_count(), frames.spec_system()) <= usize::MAX,
        ensures
            r.spec_system() == frames.spec_system(),
            r.spec_count() == spec_frames_to_samples(frames.spec_count(), frames.spec_system()),
    {
        frames_to_samples(frames).unwrap()
    }

    /// Sample count multiplied by another count of the same format. The
    /// product of two counts divisible by the channel count is itself
    /// divisible, so the invariant is kept.
    pub fn mul(self, rhs: Samples) -> (r: Samples)
        requires
            self.spec_system() == rhs.spec_system(),
            self.spec_count() * rhs.spec_count() <= usize::MAX,
        ensures
            r.spec_system() == self.spec_system(),
            r.spec_count() == self.spec_count() * rhs.spec_count(),
    {
        proof {
            use_type_invariant(&self);
            vstd::arithmetic::div_mod::lemma_mul_mod_noop_left(
                self.spec_count(),
                rhs.spec_count(),
                self.spec_system().spec_channels() as int,
            );
        }
        Samples { count: self.count * rhs.count, system: self.system }
    }

    /// Sample count multiplied by a scalar; the invariant is kept.
    pub fn mul_scalar(self, rhs: usize) -> (r: Samples)
        requires
            self.spec_count() * rhs <= usize::MAX,
        ensures
            r.spec_system() == self.spec_system(),
            r.spec_count() == self.spec_count() * rhs,
    {
        proof {
            use_type_invariant(&self);
            vstd::arithmetic::div_mod::lemma_mul_mod_noop_left(
                self.spec_count(),
                rhs as int,
                self.spec_system().spec_channels() as int,
            );
        }
        Samples { count: self.count * rhs, system: self.system }
    }
}

} // verus!
