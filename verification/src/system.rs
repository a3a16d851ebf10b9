//! The run context that every component is built against.
use vstd::prelude::*;

verus! {

/// Timing constants of one run: fixed at start-up, handed by reference to
/// whatever needs them.
#[derive(Clone, Copy, Debug)]
pub struct System {
    samplerate: u32,
    controlrate_div: u64,
    bufsize: usize,
}

impl System {
    /// The sample rate, as the single-precision word it was given as.
    pub closed spec fn spec_samplerate(&self) -> u32 {
        self.samplerate
    }

    /// Samples per control block.
    pub closed spec fn spec_controlrate_div(&self) -> u64 {
        self.controlrate_div
    }

    /// Samples per render call.
    pub closed spec fn spec_bufsize(&self) -> usize {
        self.bufsize
    }

    /// A run context.
    ///
    /// `samplerate` is the word of the sample rate in hertz.
    /// `controlrate_div` is the number of samples in one control block, the
    /// sample rate divided by the control rate; it is expected to equal
    /// `bufsize`, the number of frames rendered per call.
    pub fn new(samplerate: u32, controlrate_div: u64, bufsize: usize) -> (s: Self)
        ensures
            s.spec_samplerate() == samplerate,
            s.spec_controlrate_div() == controlrate_div,
            s.spec_bufsize() == bufsize,
    {
        System { samplerate, controlrate_div, bufsize }
    }

    #[verifier::when_used_as_spec(spec_samplerate)]
    pub fn samplerate(&self) -> (r: u32)
        ensures
            r == self.spec_samplerate(),
    {
        self.samplerate
    }

    #[verifier::when_used_as_spec(spec_controlrate_div)]
    pub fn controlrate_div(&self) -> (r: u64)
        ensures
            r == self.spec_controlrate_div(),
    {
        self.controlrate_div
    }

    #[verifier::when_used_as_spec(spec_bufsize)]
    pub fn bufsize(&self) -> (r: usize)
        ensures
            r == self.spec_bufsize(),
    {
        self.bufsize
    }
}

} // verus!
