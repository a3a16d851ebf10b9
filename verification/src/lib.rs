//! A polyphonic wavetable synthesis engine, in integer arithmetic throughout.
//!
//! The engine decides *where* in a wavetable every output sample is read and
//! *how* every voice's envelope moves; it never touches a sample value itself.
//! Real numbers cross its boundary as IEEE-754 single-precision words
//! (`u32`), which it stores, compares and hands back unchanged. A caller reads
//! the table at the positions the engine names, applies the envelope steps it
//! returns, and sums the voices.
pub mod word;
pub mod system;
pub mod envelope;
pub mod wt;
pub mod midi;
pub mod voice;
pub mod instrument;
pub mod utils;
pub mod stream;
