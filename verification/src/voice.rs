//! One voice of an instrument: an oscillator, an envelope and a gate
//! between them, with the note that is sounding.
use vstd::prelude::*;
use crate::envelope::{create_gate, read_gate, write_gate, ASDR, EnvStage, EnvState, EnvStep, Gate};
use crate::system::System;
use crate::word::{is_positive, positive, ZERO};
use crate::wt::{wrap32, Phasor, TablePos, Wavetable};

verus! {

/// A voice as a value.
pub struct VoiceState {
    /// The table that the oscillator sweeps.
    pub table: Wavetable,
    /// The oscillator's phase.
    pub phase: i32,
    pub env: EnvState,
    /// The note's level, as a word.
    pub level: u32,
    /// The note's pitch in hertz, as a word.
    pub pitch: u32,
    /// The note's pitch as the oscillator takes it: the phase increment per
    /// sample.
    pub inc: i32,
    /// The word in its gate.
    pub gate: u32,
}

impl VoiceState {
    pub open spec fn wf(self) -> bool {
        self.table.wf() && self.env.wf()
    }

    /// Its gate is open.
    pub open spec fn held(self) -> bool {
        is_positive(self.gate)
    }

    /// The voice is taken: its note is held, or its envelope has not come
    /// to rest yet.
    pub open spec fn active(self) -> bool {
        self.held() || !(self.env.stage is Done)
    }

    /// A voice that has not sounded yet.
    pub open spec fn fresh(table: Wavetable, env: EnvState) -> VoiceState {
        VoiceState { table, phase: 0, env, level: ZERO, pitch: ZERO, inc: 0, gate: ZERO }
    }

    /// The voice with a note started on it: pitch and level are the note's,
    /// the oscillator is back at phase zero, and its gate holds the level.
    pub open spec fn note_on(self, level: u32, pitch: u32, inc: i32) -> VoiceState {
        VoiceState { phase: 0, level, pitch, inc, gate: level, ..self }
    }

    /// The voice with its gate closed.
    pub open spec fn note_off(self) -> VoiceState {
        VoiceState { gate: ZERO, ..self }
    }

    /// The step that the envelope asks for in the next block.
    pub open spec fn block_step(self) -> EnvStep {
        self.env.tick(self.held(), self.env.span).1
    }

    /// The place that sample `i` of the next block is read at.
    pub open spec fn block_pos(self, i: int) -> TablePos {
        self.table.pos(wrap32(self.phase + i * self.inc))
    }

    /// The voice after a block of `n` samples.
    pub open spec fn performed(self, n: nat) -> VoiceState {
        VoiceState {
            phase: wrap32(self.phase + n * self.inc),
            env: self.env.tick(self.held(), self.env.span).0,
            ..self
        }
    }
}

/// One voice of an instrument. A note takes a voice for as long as it
/// sounds, its release included.
pub struct Voice {
    osc: Phasor,
    envelope: ASDR,
    level: u32,
    pitch: u32,
    inc: i32,
    gate: Gate,
}

impl View for Voice {
    type V = VoiceState;

    closed spec fn view(&self) -> VoiceState {
        VoiceState {
            table: self.osc.table(),
            phase: self.osc.phase(),
            env: self.envelope@,
            level: self.level,
            pitch: self.pitch,
            inc: self.inc,
            gate: self.gate@,
        }
    }
}

impl Voice {
    /// A voice at rest over `table`, with its gate closed.
    ///
    /// `att`, `dec` and `rel` are the envelope's lengths in samples, `sus`
    /// is the word of its sustain level.
    pub fn new(system: &System, table: &Wavetable, att: u64, dec: u64, sus: u32, rel: u64) -> (v:
        Self)
        requires
            table.wf(),
        ensures
            v@ == VoiceState::fresh(
                *table,
                EnvState::fresh(att, dec, sus, rel, system.spec_controlrate_div(), false),
            ),
            v@.wf(),
            !v@.active(),
    {
        let gate: Gate = create_gate(ZERO);
        Voice {
            osc: Phasor::new(system, table),
            envelope: ASDR::new(system, att, dec, sus, rel, &gate),
            level: read_gate(&gate),
            pitch: ZERO,
            inc: 0,
            gate,
        }
    }

    /// Starts a note.
    ///
    /// `level` is the word of the note's level and `pitch` the word of its
    /// frequency in hertz; `inc` is that frequency as a phase increment per
    /// sample. Its gate opens if the level is greater than zero.
    pub fn note_on(&mut self, level: u32, pitch: u32, inc: i32)
        ensures
            final(self)@ == old(self)@.note_on(level, pitch, inc),
    {
        self.pitch = pitch;
        self.level = level;
        self.inc = inc;
        self.osc.zero();
        write_gate(&mut self.gate, level);
    }

    /// Releases the note: its gate closes, and the envelope will see the
    /// edge on its next tick.
    pub fn note_off(&mut self)
        ensures
            final(self)@ == old(self)@.note_off(),
    {
        write_gate(&mut self.gate, ZERO);
    }

    /// Renders the next block.
    ///
    /// `outbuf` receives the place to read for every sample of the block.
    /// The step returned is the envelope's for the block: once it is
    /// applied, every sample read is to be multiplied by the envelope's
    /// level and by the note's.
    pub fn perform(&mut self, outbuf: &mut Vec<TablePos>) -> (step: EnvStep)
        requires
            old(self)@.wf(),
        ensures
            final(self)@ == old(self)@.performed(old(outbuf)@.len()),
            final(self)@.wf(),
            step == old(self)@.block_step(),
            final(outbuf)@.len() == old(outbuf)@.len(),
            forall|i: int|
                0 <= i < final(outbuf)@.len() ==> final(outbuf)@[i] == old(self)@.block_pos(i),
    {
        self.osc.perform(outbuf, self.inc, 0);
        self.envelope.perform_control(&self.gate)
    }

    /// Whether the voice is taken.
    pub fn active(&self) -> (r: bool)
        ensures
            r == self@.active(),
    {
        positive(read_gate(&self.gate)) || self.envelope.stage() != EnvStage::Done
    }

    /// The word of the current note's pitch.
    pub fn pitch(&self) -> (pitch: u32)
        ensures
            pitch == self@.pitch,
    {
        self.pitch
    }

    /// The word of the current note's level.
    pub fn level(&self) -> (level: u32)
        ensures
            level == self@.level,
    {
        self.level
    }

    /// The current note's phase increment per sample.
    pub fn inc(&self) -> (inc: i32)
        ensures
            inc == self@.inc,
    {
        self.inc
    }

    /// The word of the envelope's sustain level.
    pub fn sustain(&self) -> (sus: u32)
        ensures
            sus == self@.env.sus,
    {
        self.envelope.sus()
    }
}

} // verus!
