//! The wavetable's layout and the oscillator that sweeps it.
//!
//! A phase is a signed 32-bit fixed-point number with 16 fractional bits, in
//! units of table entries. It wraps on overflow, which does no harm: only
//! its value modulo the table's length is ever used. The length is a power
//! of two, so that the reduction is a mask.
//!
//! A wavetable is read by linear interpolation between an entry and its
//! cyclic successor. For samples `x` the caller keeps two tables,
//! `2 * x[i] - x[i + 1]` and `x[i + 1] - x[i]`, and reads a position as the
//! first table's entry plus the second's times `1 + m`, where `m` is the
//! fractional part of the phase. That sum is `x[i] + m * (x[i + 1] - x[i])`.
//! This module names the entry and hands out the word of `1 + m`.
use vstd::prelude::*;
use vstd::wrapping::i32_specs;
use crate::system::System;

verus! {

/// The longest table that a phase can address.
pub const MAX_TABLE_LEN: usize = 131072;

/// `n` is one of 1, 2, 4, 8, ...
pub open spec fn is_power_of_two(n: nat) -> bool
    decreases n,
{
    n == 1 || (n >= 2 && n % 2 == 0 && is_power_of_two(n / 2))
}

/// The entry that a phase selects in a table of `len` entries: the integral
/// part of the phase, reduced to the table.
pub open spec fn table_index(len: nat, phase: i32) -> int {
    (phase as int / 65536) % (len as int)
}

/// The fractional part of a phase, in units of 1/65536.
pub open spec fn phase_frac(phase: i32) -> int {
    phase as int % 65536
}

/// The single-precision word of one plus the fractional part of a phase:
/// sign clear, exponent of zero, and the 16 fractional bits at the top of
/// the significand.
pub open spec fn frac1_word(phase: i32) -> u32 {
    (0x3F80_0000 + phase_frac(phase) * 128) as u32
}

/// The 32-bit signed number that `x` wraps to.
pub open spec fn wrap32(x: int) -> i32 {
    let r = x % 0x1_0000_0000;
    if r >= 0x8000_0000 {
        (r - 0x1_0000_0000) as i32
    } else {
        r as i32
    }
}

/// The sum of the first `k` increments.
pub open spec fn inc_sum(incs: Seq<i32>, k: nat) -> int
    decreases k,
{
    if k == 0 {
        0
    } else {
        inc_sum(incs, (k - 1) as nat) + incs[k - 1]
    }
}

/// Why a wavetable could not be laid out.
#[derive(Debug, Clone, Copy, PartialEq, Eq, Structural)]
pub enum WavetableError {
    /// The length is not a power of two.
    NotPowerOfTwo,
    /// The length is a power of two beyond `MAX_TABLE_LEN`.
    TooLong,
}

/// A place in a wavetable: the entry to read, and the word of one plus the
/// distance from that entry to the next.
#[derive(Debug, Clone, Copy, PartialEq, Eq, Structural)]
pub struct TablePos {
    pub index: usize,
    pub frac1: u32,
}

/// The layout of one cycle of a waveform: how many entries the table has.
/// The entries are the caller's.
#[derive(Debug, Clone, Copy)]
pub struct Wavetable {
    len: usize,
    lomask: i32,
}

impl Wavetable {
    /// Number of entries.
    pub closed spec fn spec_len(&self) -> usize {
        self.len
    }

    /// The length is a power of two within reach of a phase.
    pub closed spec fn wf(&self) -> bool {
        &&& is_power_of_two(self.len as nat)
        &&& self.len <= MAX_TABLE_LEN
        &&& self.lomask == self.len - 1
    }

    /// The place that `phase` selects.
    pub open spec fn pos(&self, phase: i32) -> TablePos {
        TablePos {
            index: table_index(self.spec_len() as nat, phase) as usize,
            frac1: frac1_word(phase),
        }
    }

    /// A well-formed table has an entry, and no more than `MAX_TABLE_LEN`.
    pub proof fn lemma_len_bounds(&self)
        requires
            self.wf(),
        ensures
            is_power_of_two(self.spec_len() as nat),
            0 < self.spec_len() <= MAX_TABLE_LEN,
    {
        reveal_with_fuel(is_power_of_two, 2);
    }

    /// Lays out a table of `size` entries.
    ///
    /// Fails unless `size` is a power of two, and unless it is at most
    /// `MAX_TABLE_LEN`: a phase has 16 integral bits besides its sign.
    pub fn new(size: usize) -> (r: Result<Self, WavetableError>)
        ensures
            match r {
                Ok(wt) => wt.wf() && wt.spec_len() == size,
                Err(WavetableError::NotPowerOfTwo) => !is_power_of_two(size as nat),
                Err(WavetableError::TooLong) => is_power_of_two(size as nat) && size
                    > MAX_TABLE_LEN,
            },
            r is Ok <==> is_power_of_two(size as nat) && size <= MAX_TABLE_LEN,
    {
        let s: u64 = size as u64;
        proof {
            lemma_power_of_two_bits(s);
        }
        if s == 0 || s & (s - 1) != 0 {
            Err(WavetableError::NotPowerOfTwo)
        } else if size > MAX_TABLE_LEN {
            Err(WavetableError::TooLong)
        } else {
            Ok(Wavetable { len: size, lomask: (size - 1) as i32 })
        }
    }

    #[verifier::when_used_as_spec(spec_len)]
    pub fn len(&self) -> (n: usize)
        ensures
            n == self.spec_len(),
    {
        self.len
    }

    /// Whether the table has no entries, which no well-formed table does.
    pub fn is_empty(&self) -> (r: bool)
        ensures
            r == (self.spec_len() == 0),
            self.wf() ==> !r,
    {
        proof {
            if self.wf() {
                self.lemma_len_bounds();
            }
        }
        self.len == 0
    }

    /// An oscillator over this table, at phase zero.
    pub fn new_phasor(&self, system: &System) -> (osc: Phasor)
        requires
            self.wf(),
        ensures
            osc.wf(),
            osc.table() == *self,
            osc.phase() == 0,
    {
        Phasor::new(system, self)
    }

    /// The entry after `index`, going round: the one that `index` is
    /// interpolated towards.
    pub fn next_index(&self, index: usize) -> (next: usize)
        requires
            self.wf(),
            index < self.spec_len(),
        ensures
            next == (index + 1) % (self.spec_len() as int),
            next < self.spec_len(),
    {
        proof {
            self.lemma_len_bounds();
            let m: int = self.len as int;
            let next: int = index + 1;
            if next == m {
                assert(next % m == 0) by (nonlinear_arith)
                    requires
                        next == m,
                        m > 0,
                ;
            } else {
                assert(next % m == next) by (nonlinear_arith)
                    requires
                        0 <= next < m,
                ;
            }
        }
        if index + 1 == self.len {
            0
        } else {
            index + 1
        }
    }

    /// The place that `phase` selects: the entry under the integral part,
    /// and the word of one plus the fractional part.
    pub fn interpolate(&self, phase: i32) -> (p: TablePos)
        requires
            self.wf(),
        ensures
            p == self.pos(phase),
            p.index < self.spec_len(),
    {
        let frac1: u32 = phase_frac1(phase);
        let index: i32 = (phase >> 16) & self.lomask;
        proof {
            self.lemma_len_bounds();
            lemma_power_of_two_bits(self.len as u64);
            let len: u32 = self.len as u32;
            let mask: i32 = self.lomask;
            assert(0 <= ((phase >> 16) & mask) < len && ((phase >> 16) & mask) == (phase as int
                / 65536) % (len as int)) by (bit_vector)
                requires
                    0 < len <= 131072,
                    len & sub_one(len) == 0,
                    mask == len - 1,
            ;
        }
        TablePos { index: index as usize, frac1 }
    }
}

/// `n - 1` as a 32-bit word.
pub open spec fn sub_one(n: u32) -> u32 {
    (n - 1) as u32
}

/// The word of one plus the fractional part of `phase`.
///
/// The 16 fractional bits are moved to the top of a significand under the
/// exponent of zero, which makes a number between one and two without any
/// arithmetic.
pub fn phase_frac1(phase: i32) -> (w: u32)
    ensures
        w == frac1_word(phase),
{
    let p: u32 = phase as u32;
    let w: u32 = 0x3F80_0000u32 | (0x007F_FF80u32 & (p << 7));
    assert(0x3F80_0000u32 | (0x007F_FF80u32 & ((phase as u32) << 7)) == 0x3F80_0000 + (phase as int
        % 65536) * 128) by (bit_vector);
    w
}

/// The fields of the word of one plus a fraction: the sign is clear, the
/// exponent is the bias, and the significand is the fraction of the phase
/// in its 16 highest bits. The word therefore lies between those of one,
/// included, and two.
pub proof fn lemma_frac1_word_fields(phase: i32)
    ensures
        frac1_word(phase) / 0x80_0000 == 127,
        frac1_word(phase) % 0x80_0000 == phase_frac(phase) * 128,
        0 <= phase_frac(phase) < 65536,
        0x3F80_0000 <= frac1_word(phase) < 0x4000_0000,
{
}

/// A number greater than zero is a power of two exactly if it shares no bit
/// with its predecessor.
pub proof fn lemma_power_of_two_bits(n: u64)
    ensures
        is_power_of_two(n as nat) <==> n > 0 && n & ((n - 1) as u64) == 0,
    decreases n,
{
    if n >= 2 {
        let h: u64 = n / 2;
        lemma_power_of_two_bits(h);
        assert((n & ((n - 1) as u64) == 0) <==> (n % 2 == 0 && (n / 2) & (((n / 2) - 1) as u64)
            == 0)) by (bit_vector)
            requires
                n >= 2,
        ;
    } else if n == 1 {
        assert(1u64 & 0u64 == 0) by (bit_vector);
    }
}

/// Adding with wrap-around is adding, then wrapping.
pub proof fn lemma_wrap32_add(x: int, y: i32)
    ensures
        i32_specs::wrapping_add(wrap32(x), y) == wrap32(x + y),
{
}

/// A 32-bit number wraps to itself.
pub proof fn lemma_wrap32_id(x: i32)
    ensures
        wrap32(x as int) == x,
{
}

/// An oscillator: a phase that sweeps a wavetable.
///
/// Frequencies and phase offsets reach it as phase increments, in units of
/// 1/65536 of a table entry: a frequency in cycles per second is the table's
/// length times 65536 over the sample rate, per cycle; an offset in radians
/// is the table's length times 65536 over a full turn, per radian. A negative
/// increment plays the table backwards.
#[derive(Debug, Clone, Copy)]
pub struct Phasor {
    table: Wavetable,
    phase: i32,
}

impl Phasor {
    /// The table that is swept.
    pub closed spec fn table(&self) -> Wavetable {
        self.table
    }

    /// The phase that the next sample is read at.
    pub closed spec fn phase(&self) -> i32 {
        self.phase
    }

    /// The table is well formed.
    pub open spec fn wf(&self) -> bool {
        self.table().wf()
    }

    /// An oscillator over `table`, at phase zero.
    pub fn new(system: &System, table: &Wavetable) -> (osc: Self)
        requires
            table.wf(),
        ensures
            osc.wf(),
            osc.table() == *table,
            osc.phase() == 0,
    {
        let _ = system;
        Phasor { table: *table, phase: 0 }
    }

    /// Puts the phase back to zero.
    pub fn zero(&mut self)
        ensures
            final(self).table() == old(self).table(),
            final(self).phase() == 0,
    {
        self.phase = 0;
    }

    /// The phase that the next sample is read at.
    pub fn current_phase(&self) -> (p: i32)
        ensures
            p == self.phase(),
    {
        self.phase
    }

    /// Fills `outbuf` with the places to read, one per sample, for
    /// increments and phase offsets that change from sample to sample.
    ///
    /// Sample `i` is read at the phase plus `phasein[i]`; the phase then
    /// moves on by `freqin[i]`. Both wrap.
    pub fn perform_fm(&mut self, outbuf: &mut Vec<TablePos>, freqin: &[i32], phasein: &[i32])
        requires
            old(self).wf(),
            freqin@.len() >= old(outbuf)@.len(),
            phasein@.len() >= old(outbuf)@.len(),
        ensures
            final(self).table() == old(self).table(),
            final(outbuf)@.len() == old(outbuf)@.len(),
            forall|i: int|
                0 <= i < final(outbuf)@.len() ==> final(outbuf)@[i] == old(self).table().pos(
                    wrap32(old(self).phase() + inc_sum(freqin@, i as nat) + phasein@[i]),
                ),
            final(self).phase() == wrap32(
                old(self).phase() + inc_sum(freqin@, old(outbuf)@.len()),
            ),
    {
        let ghost start: i32 = self.phase;
        let ghost table: Wavetable = self.table;
        let n: usize = outbuf.len();
        let mut i: usize = 0;
        proof {
            lemma_wrap32_id(start);
        }
        while i < n
            invariant
                i <= n,
                outbuf@.len() == n,
                freqin@.len() >= n,
                phasein@.len() >= n,
                self.table == table,
                table.wf(),
                self.phase == wrap32(start + inc_sum(freqin@, i as nat)),
                forall|j: int|
                    0 <= j < i ==> outbuf@[j] == table.pos(
                        wrap32(start + inc_sum(freqin@, j as nat) + phasein@[j]),
                    ),
            decreases n - i,
        {
            let at: i32 = self.phase.wrapping_add(phasein[i]);
            proof {
                lemma_wrap32_add(start + inc_sum(freqin@, i as nat), phasein@[i as int]);
            }
            let p: TablePos = self.table.interpolate(at);
            outbuf[i] = p;
            proof {
                lemma_wrap32_add(start + inc_sum(freqin@, i as nat), freqin@[i as int]);
            }
            self.phase = self.phase.wrapping_add(freqin[i]);
            i = i + 1;
        }
    }

    /// Fills `outbuf` with the places to read, one per sample, for an
    /// increment and a phase offset that hold for the whole buffer.
    ///
    /// Sample `i` is read at the phase plus `phasein`; the phase then moves
    /// on by `freqin`. Both wrap.
    pub fn perform(&mut self, outbuf: &mut Vec<TablePos>, freqin: i32, phasein: i32)
        requires
            old(self).wf(),
        ensures
            final(self).table() == old(self).table(),
            final(outbuf)@.len() == old(outbuf)@.len(),
            forall|i: int|
                0 <= i < final(outbuf)@.len() ==> final(outbuf)@[i] == old(self).table().pos(
                    wrap32(old(self).phase() + i * freqin + phasein),
                ),
            final(self).phase() == wrap32(old(self).phase() + old(outbuf)@.len() * freqin),
    {
        let ghost start: i32 = self.phase;
        let ghost table: Wavetable = self.table;
        let n: usize = outbuf.len();
        let mut i: usize = 0;
        proof {
            lemma_wrap32_id(start);
        }
        while i < n
            invariant
                i <= n,
                outbuf@.len() == n,
                self.table == table,
                table.wf(),
                self.phase == wrap32(start + i * freqin),
                forall|j: int|
                    0 <= j < i ==> outbuf@[j] == table.pos(wrap32(start + j * freqin + phasein)),
            decreases n - i,
        {
            let at: i32 = self.phase.wrapping_add(phasein);
            proof {
                lemma_wrap32_add(start + i * freqin, phasein);
            }
            let p: TablePos = self.table.interpolate(at);
            outbuf[i] = p;
            proof {
                lemma_wrap32_add(start + i * freqin, freqin);
                assert((i + 1) * freqin == i * freqin + freqin) by (nonlinear_arith);
            }
            self.phase = self.phase.wrapping_add(freqin);
            i = i + 1;
        }
    }
}

/// The sum of the first `k` increments depends on those `k` alone.
pub proof fn lemma_inc_sum_agrees(a: Seq<i32>, b: Seq<i32>, k: nat)
    requires
        k <= a.len(),
        k <= b.len(),
        forall|j: int| 0 <= j < k ==> a[j] == b[j],
    ensures
        inc_sum(a, k) == inc_sum(b, k),
    decreases k,
{
    if k > 0 {
        lemma_inc_sum_agrees(a, b, (k - 1) as nat);
    }
}

/// Phase accumulation is reproducible: oscillators over the same layout
/// that start from the same phase and are driven by the same increments and
/// offsets read the same places, sample for sample, and end on the same
/// phase.
pub proof fn lemma_phasors_agree(
    a: Phasor,
    b: Phasor,
    freq_a: Seq<i32>,
    freq_b: Seq<i32>,
    phase_a: Seq<i32>,
    phase_b: Seq<i32>,
    n: nat,
)
    requires
        a.table().spec_len() == b.table().spec_len(),
        a.phase() == b.phase(),
        n <= freq_a.len(),
        n <= freq_b.len(),
        n <= phase_a.len(),
        n <= phase_b.len(),
        forall|j: int| 0 <= j < n ==> freq_a[j] == freq_b[j],
        forall|j: int| 0 <= j < n ==> phase_a[j] == phase_b[j],
    ensures
        forall|i: int|
            0 <= i < n ==> a.table().pos(
                wrap32(a.phase() + inc_sum(freq_a, i as nat) + phase_a[i]),
            ) == b.table().pos(wrap32(b.phase() + inc_sum(freq_b, i as nat) + phase_b[i])),
        wrap32(a.phase() + inc_sum(freq_a, n)) == wrap32(b.phase() + inc_sum(freq_b, n)),
{
    assert forall|k: nat| k <= n implies #[trigger] inc_sum(freq_a, k) == inc_sum(freq_b, k) by {
        lemma_inc_sum_agrees(freq_a, freq_b, k);
    }
}

} // verus!
