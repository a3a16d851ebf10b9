//! Choosing an output configuration among those that a device offers.
use vstd::prelude::*;

verus! {

/// The buffer sizes that a configuration takes.
#[derive(Debug, Clone, Copy, PartialEq, Eq, Structural)]
pub enum BufferRange {
    /// Any size from `min` to `max`, both included.
    Range { min: u32, max: u32 },
    /// The device does not say.
    Unknown,
}

/// The encoding of a sample.
#[derive(Debug, Clone, Copy, PartialEq, Eq, Structural)]
pub enum SampleFormat {
    /// Signed 16-bit integers.
    I16,
    /// Unsigned 16-bit integers.
    U16,
    /// Single-precision numbers.
    Single,
}

/// One range of configurations that a device supports.
#[derive(Debug, Clone, Copy, PartialEq, Eq, Structural)]
pub struct ConfigRange {
    /// Lowest sample rate, in hertz.
    pub min_sample_rate: u32,
    /// Highest sample rate, in hertz.
    pub max_sample_rate: u32,
    pub buffer_size: BufferRange,
    pub sample_format: SampleFormat,
}

/// The configuration to open a stream with.
#[derive(Debug, Clone, Copy, PartialEq, Eq, Structural)]
pub struct StreamChoice {
    /// Which of the device's ranges the configuration is taken from.
    pub index: usize,
    /// Sample rate, in hertz.
    pub sample_rate: u32,
    /// Frames per buffer.
    pub buffer_size: u32,
    pub channels: u16,
}

/// The range takes the sample rate and the buffer size, and its samples are
/// single-precision numbers. A range that does not say which buffer sizes it
/// takes does not fit.
pub open spec fn fits(range: ConfigRange, fs: u32, bufsize: u32) -> bool {
    &&& range.min_sample_rate <= fs <= range.max_sample_rate
    &&& range.buffer_size matches BufferRange::Range { min, max } && min <= bufsize <= max
    &&& range.sample_format is Single
}

/// Tells whether a range fits.
pub fn range_fits(range: &ConfigRange, fs: u32, bufsize: u32) -> (r: bool)
    ensures
        r == fits(*range, fs, bufsize),
{
    if fs < range.min_sample_rate || fs > range.max_sample_rate {
        return false;
    }
    match range.buffer_size {
        BufferRange::Range { min, max } => {
            if bufsize < min || bufsize > max {
                return false;
            }
        },
        BufferRange::Unknown => {
            return false;
        },
    }
    match range.sample_format {
        SampleFormat::Single => true,
        _ => false,
    }
}

/// Picks the first range that fits, and from it a configuration of one
/// channel at exactly the sample rate and the buffer size asked for. There
/// is none where no range fits.
pub fn get_config(fs: u32, bufsize: u32, ranges: &Vec<ConfigRange>) -> (r: Option<StreamChoice>)
    ensures
        match r {
            Some(choice) => {
                &&& choice.index < ranges@.len()
                &&& fits(ranges@[choice.index as int], fs, bufsize)
                &&& forall|j: int| 0 <= j < choice.index ==> !fits(#[trigger] ranges@[j], fs, bufsize)
                &&& choice.sample_rate == fs
                &&& choice.buffer_size == bufsize
                &&& choice.channels == 1
            },
            None => forall|j: int| 0 <= j < ranges@.len() ==> !fits(#[trigger] ranges@[j], fs, bufsize),
        },
{
    let n: usize = ranges.len();
    let mut i: usize = 0;
    while i < n
        invariant
            i <= n,
            n == ranges@.len(),
            forall|j: int| 0 <= j < i ==> !fits(#[trigger] ranges@[j], fs, bufsize),
        decreases n - i,
    {
        if range_fits(&ranges[i], fs, bufsize) {
            return Some(StreamChoice { index: i, sample_rate: fs, buffer_size: bufsize, channels: 1 });
        }
        i = i + 1;
    }
    None
}

} // verus!
