use vstd::prelude::*;

use crate::convert::bytes_to_samples;
use crate::convert::samples_to_bytes;
use crate::convert::spec_bytes_to_samples;
use crate::convert::spec_frames_to_millis;
use crate::convert::spec_frames_to_samples;
use crate::convert::spec_millis_to_frames;
use crate::convert::spec_samples_to_bytes;
use crate::convert::spec_samples_to_frames;
use crate::duration::Duration;
use crate::samples::Samples;
use crate::system::System;

verus! {

/// An audio time span, measured by the number of bytes required to store it.
/// The count is invariantly divisible by the frame size of the `System` it
/// is bound to, so that it always describes a whole number of frames.
#[derive(Clone, Copy, Debug, PartialEq, Eq, Hash, Structural)]
pub struct Bytes {
    count: usize,
    system: System,
}

impl Bytes {
    #[verifier::type_invariant]
    spec fn wf(self) -> bool {
        (self.count as int) % self.system.spec_frame_size() == 0
    }

    /// The byte count, as the contracts speak of it.
    pub closed spec fn spec_count(self) -> int {
        self.count as int
    }

    /// The format descriptor this value is bound to.
    pub closed spec fn spec_system(self) -> System {
        self.system
    }

    /// A span of `n` bytes in format `system`, accepted only when `n` is
    /// divisible by the frame size: otherwise the count would cut a frame
    /// apart.
    pub fn new(n: usize, system: System) -> (r: Option<Bytes>)
        ensures
            r is Some <==> n as int % system.spec_frame_size() == 0,
            r is Some ==> r.unwrap().spec_count() == n && r.unwrap().spec_system() == system,
    {
        let fs = system.frame_size();
        if n % (fs as usize) == 0 {
            Some(Bytes { count: n, system })
        } else {
            None
        }
    }

    /// The byte count. Always divisible by the frame size.
    pub fn get(&self) -> (r: usize)
        ensures
            r == self.spec_count(),
            r as int % self.spec_system().spec_frame_size() == 0,
    {
        proof {
            use_type_invariant(self);
        }
        self.count
    }

    /// The format descriptor this value is bound to.
    pub fn system(&self) -> (r: System)
        ensures
            r == self.spec_system(),
    {
        self.system
    }

    /// The duration these bytes store, truncated to whole milliseconds.
    /// Overflowing counts are ruled out by the precondition; for the checked
    /// tier see [`bytes_to_duration`](crate::convert::bytes_to_duration).
    pub fn into_duration(self) -> (r: Duration)
        requires
            spec_samples_to_frames(
                spec_bytes_to_samples(self.spec_count(), self.spec_system()),
                self.spec_system(),
            ) * 1000 <= usize::MAX,
        ensures
            r == Duration::spec_from_millis(
                spec_frames_to_millis(
                    spec_samples_to_frames(
                        spec_bytes_to_samples(self.spec_count(), self.spec_system()),
                        self.spec_system(),
                    ),
                    self.spec_system(),
                ),
            ),
    {
        self.into_samples().into_duration()
    }

    /// The bytes that `dur` occupies in format `system`, truncated to whole
    /// milliseconds. Durations too long for the count are ruled out by the
    /// precondition; for the checked tier see
    /// [`duration_to_bytes`](crate::convert::duration_to_bytes).
    pub fn from_duration(dur: Duration, system: System) -> (r: Bytes)
        requires
            spec_millis_to_frames(dur.spec_millis(), system) <= usize::MAX,
            spec_frames_to_samples(
                spec_millis_to_frames(dur.spec_millis(), system),
                system,
            ) <= usize::MAX,
            spec_samples_to_bytes(
                spec_frames_to_samples(spec_millis_to_frames(dur.spec_millis(), system), system),
                system,
            ) <= usize::MAX,
        ensures
            r.spec_system() == system,
            r.spec_count() == spec_samples_to_bytes(
                spec_frames_to_samples(spec_millis_to_frames(dur.spec_millis(), system), system),
                system,
            ),
    {
        Bytes::from_samples(Samples::from_duration(dur, system))
    }

    /// The samples these bytes store: exact, by the divisibility invariant.
    pub fn into_samples(self) -> (r: Samples)
        ensures
            r.spec_system() == self.spec_system(),
            r.spec_count() == spec_bytes_to_samples(self.spec_count(), self.spec_system()),
    {
        bytes_to_samples(self)
    }

    /// The bytes that `samples` occupy. Overflowing counts are ruled out by
    /// the precondition; for the checked tier see [`samples_to_bytes`].
    pub fn from_samples(samples: Samples) -> (r: Bytes)
        requires
            spec_samples_to_bytes(samples.spec_count(), samples.spec_system()) <= usize::MAX,
        ensures
            r.spec_system() == samples.spec_system(),
            r.spec_count() == spec_samples_to_bytes(samples.spec_count(), samples.spec_system()),
    {
        samples_to_bytes(samples).unwrap()
    }
}

} // verus!
