use vstd::prelude::*;

verus! {

/// Audio sampling rate: the number of frames in a single second, in hertz.
/// Always positive.
#[derive(Clone, Copy, Debug, PartialEq, Eq, Hash, Structural)]
pub struct SampleRate {
    hz: u32,
}

impl SampleRate {
    #[verifier::type_invariant]
    spec fn wf(self) -> bool {
        self.hz >= 1
    }

    /// The rate in hertz, as the contracts speak of it.
    pub closed spec fn spec_get(self) -> u32 {
        self.hz
    }

    /// Builds a rate of `hz` hertz; a zero rate is rejected.
    pub fn new(hz: u32) -> (r: Option<SampleRate>)
        ensures
            r is Some <==> hz >= 1,
            r is Some ==> r.unwrap().spec_get() == hz,
    {
        if hz >= 1 {
            Some(SampleRate { hz })
        } else {
            None
        }
    }

    /// The rate in hertz. Always positive.
    pub fn get(&self) -> (r: u32)
        ensures
            r == self.spec_get(),
            r >= 1,
    {
        proof {
            use_type_invariant(self);
        }
        self.hz
    }
}

} // verus!
