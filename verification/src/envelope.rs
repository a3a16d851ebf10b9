//! The staged envelope generator and its gate.
//!
//! An envelope walks through attack, decay and sustain while its gate is
//! open, and through release once that gate has closed. What it decides on
//! every tick is which stage it is in, how long that stage still lasts, and
//! how the level is to move: the level itself is a real number that the
//! caller keeps, and the envelope tells the caller what to do with it.
use vstd::prelude::*;
use crate::system::System;
use crate::word::{is_positive, positive, ONE, ZERO};

verus! {

/// The stages of an envelope.
#[derive(Debug, Clone, Copy, PartialEq, Eq, Structural)]
pub enum EnvStage {
    /// Rising towards one.
    Att,
    /// Falling from one towards the sustain level.
    Dec,
    /// Holding the sustain level for as long as its gate is open.
    Sus,
    /// Falling towards zero after its gate has closed.
    Rel,
    /// At rest.
    Done,
}

/// Where the level is set before a tick's slope is worked out.
#[derive(Debug, Clone, Copy, PartialEq, Eq, Structural)]
pub enum Jump {
    /// The level stays where it is.
    Stay,
    /// The level becomes zero: a release of no length has run its course.
    ToZero,
    /// The level becomes the sustain level: a decay of no length has run its
    /// course.
    ToSustain,
    /// The level becomes one: an attack of no length has run its course.
    ToOne,
}

/// The slope that holds from a tick on, in level per sample. Each ramp names
/// the number of samples it is spread over, which is never zero.
#[derive(Debug, Clone, Copy, PartialEq, Eq, Structural)]
pub enum Slope {
    /// The slope of the tick before.
    Keep,
    /// Zero.
    Flat,
    /// One minus the level, divided by the samples given.
    Attack(u64),
    /// The sustain level minus one, divided by the samples given.
    Decay(u64),
    /// The level negated, divided by the samples given.
    Release(u64),
}

/// What one tick asks of the level: first the jump, then the slope worked
/// out from the level after the jump, then one step along that slope for
/// every sample that the tick spans.
#[derive(Debug, Clone, Copy, PartialEq, Eq, Structural)]
pub struct EnvStep {
    pub jump: Jump,
    pub slope: Slope,
}

/// The trigger level of one note: a number greater than zero while the note
/// is held, anything else once it is released. An envelope reacts to the
/// edges of its gate only.
#[derive(Debug, Clone, Copy)]
pub struct Gate {
    value: u32,
}

impl View for Gate {
    type V = u32;

    /// The word held.
    closed spec fn view(&self) -> u32 {
        self.value
    }
}

/// A gate that holds `val`.
pub fn create_gate(val: u32) -> (gate: Gate)
    ensures
        gate@ == val,
{
    Gate { value: val }
}

/// The word held.
pub fn read_gate(gate: &Gate) -> (val: u32)
    ensures
        val == gate@,
{
    gate.value
}

/// Stores `val` in `gate`.
pub fn write_gate(gate: &mut Gate, val: u32)
    ensures
        final(gate)@ == val,
{
    gate.value = val;
}

/// Opens `gate` at full level.
pub fn open_gate(gate: &mut Gate)
    ensures
        final(gate)@ == ONE,
        is_positive(final(gate)@),
{
    write_gate(gate, ONE);
}

/// Closes `gate`.
pub fn close_gate(gate: &mut Gate)
    ensures
        final(gate)@ == ZERO,
        !is_positive(final(gate)@),
{
    write_gate(gate, ZERO);
}

/// An envelope as a value: its parameters and where it stands.
pub struct EnvState {
    /// Length of the attack, in samples.
    pub att: u64,
    /// Length of the decay, in samples.
    pub dec: u64,
    /// The sustain level, as a word.
    pub sus: u32,
    /// Length of the release, in samples.
    pub rel: u64,
    /// Samples per control block.
    pub span: u64,
    /// Whether its gate was open when an edge was last seen.
    pub prev_open: bool,
    /// Samples left in the stage.
    pub counter: u64,
    pub stage: EnvStage,
}

/// The step that leaves level and slope alone.
pub open spec fn hold() -> EnvStep {
    EnvStep { jump: Jump::Stay, slope: Slope::Keep }
}

impl EnvState {
    /// The stage has a length that is being counted down.
    pub open spec fn ramping(self) -> bool {
        self.stage is Att || self.stage is Dec || self.stage is Rel
    }

    /// A stage that is being counted down has samples left.
    pub open spec fn wf(self) -> bool {
        self.ramping() ==> self.counter > 0
    }

    /// An envelope at rest with these parameters.
    pub open spec fn fresh(
        att: u64,
        dec: u64,
        sus: u32,
        rel: u64,
        span: u64,
        open: bool,
    ) -> EnvState {
        EnvState {
            att,
            dec,
            sus,
            rel,
            span,
            prev_open: open,
            counter: 0,
            stage: EnvStage::Done,
        }
    }

    /// Takes `span` samples off a stage that is being counted down, stopping
    /// at zero.
    pub open spec fn count_down(self, span: u64) -> EnvState {
        if self.ramping() {
            EnvState {
                counter: if self.counter >= span {
                    (self.counter - span) as u64
                } else {
                    0
                },
                ..self
            }
        } else {
            self
        }
    }

    /// The envelope at the start of its decay, or past it where the decay
    /// has no length, with the step that goes with it. `jump` is where the
    /// level stands on arrival.
    pub open spec fn begin_decay(self, jump: Jump) -> (EnvState, EnvStep) {
        if self.dec > 0 {
            (
                EnvState { stage: EnvStage::Dec, counter: self.dec, ..self },
                EnvStep { jump, slope: Slope::Decay(self.dec) },
            )
        } else {
            (
                EnvState { stage: EnvStage::Sus, counter: 0, ..self },
                EnvStep { jump: Jump::ToSustain, slope: Slope::Flat },
            )
        }
    }

    /// The stage change of one tick, edges first.
    ///
    /// A closing edge starts the release, an opening edge the attack, from
    /// whatever stage the envelope is in. Without an edge a stage that has
    /// run out gives way to the next. A stage of no length is passed through
    /// within the tick, and the level is put where that stage would have
    /// ended.
    pub open spec fn check(self, open: bool) -> (EnvState, EnvStep) {
        if !open && self.prev_open {
            if self.rel > 0 {
                (
                    EnvState {
                        stage: EnvStage::Rel,
                        counter: self.rel,
                        prev_open: false,
                        ..self
                    },
                    EnvStep { jump: Jump::Stay, slope: Slope::Release(self.rel) },
                )
            } else {
                (
                    EnvState { stage: EnvStage::Done, counter: 0, prev_open: false, ..self },
                    EnvStep { jump: Jump::ToZero, slope: Slope::Flat },
                )
            }
        } else if open && !self.prev_open {
            if self.att > 0 {
                (
                    EnvState {
                        stage: EnvStage::Att,
                        counter: self.att,
                        prev_open: true,
                        ..self
                    },
                    EnvStep { jump: Jump::Stay, slope: Slope::Attack(self.att) },
                )
            } else {
                (EnvState { prev_open: true, ..self }).begin_decay(Jump::ToOne)
            }
        } else if self.counter == 0 {
            match self.stage {
                EnvStage::Att => self.begin_decay(Jump::Stay),
                EnvStage::Dec => (
                    EnvState { stage: EnvStage::Sus, ..self },
                    EnvStep { jump: Jump::Stay, slope: Slope::Flat },
                ),
                EnvStage::Rel => (
                    EnvState { stage: EnvStage::Done, ..self },
                    EnvStep { jump: Jump::Stay, slope: Slope::Flat },
                ),
                _ => (self, hold()),
            }
        } else {
            (self, hold())
        }
    }

    /// One tick that spans `span` samples: the count-down, then the stage
    /// change.
    pub open spec fn tick(self, open: bool, span: u64) -> (EnvState, EnvStep) {
        self.count_down(span).check(open)
    }

    /// The envelope after `n` ticks with its gate held as `open`.
    pub open spec fn run(self, open: bool, span: u64, n: nat) -> EnvState
        decreases n,
    {
        if n == 0 {
            self
        } else {
            self.run(open, span, (n - 1) as nat).tick(open, span).0
        }
    }

    /// The step that tick number `i`, counted from zero, asks for with its
    /// gate held as `open`.
    pub open spec fn step_at(self, open: bool, span: u64, i: nat) -> EnvStep {
        self.run(open, span, i).tick(open, span).1
    }
}

/// A linear attack, decay, sustain and release envelope.
///
/// The level it shapes runs from zero to one. The attack begins on the
/// rising edge of its gate, and attack, decay and sustain follow one another
/// for as long as that gate stays open. The release begins on the falling
/// edge and lasts until it has run out or its gate opens again.
pub struct ASDR {
    att: u64,
    dec: u64,
    sus: u32,
    rel: u64,
    span: u64,
    prev_open: bool,
    counter: u64,
    stage: EnvStage,
}

impl View for ASDR {
    type V = EnvState;

    closed spec fn view(&self) -> EnvState {
        EnvState {
            att: self.att,
            dec: self.dec,
            sus: self.sus,
            rel: self.rel,
            span: self.span,
            prev_open: self.prev_open,
            counter: self.counter,
            stage: self.stage,
        }
    }
}

impl ASDR {
    /// An envelope at rest.
    ///
    /// `att`, `dec` and `rel` are lengths in samples, `sus` is the word of
    /// the sustain level, which is expected between zero and one. `gate` is
    /// read once, so that an envelope made under an open gate sees no edge
    /// until that gate closes.
    pub fn new(system: &System, att: u64, dec: u64, sus: u32, rel: u64, gate: &Gate) -> (env: Self)
        ensures
            env@ == EnvState::fresh(
                att,
                dec,
                sus,
                rel,
                system.spec_controlrate_div(),
                is_positive(gate@),
            ),
            env@.wf(),
    {
        ASDR {
            att,
            dec,
            sus,
            rel,
            span: system.controlrate_div(),
            prev_open: positive(read_gate(gate)),
            counter: 0,
            stage: EnvStage::Done,
        }
    }

    /// Sets the length of the attack, in samples. A stage under way keeps
    /// its count.
    pub fn set_att(&mut self, att: u64)
        ensures
            final(self)@ == (EnvState { att, ..old(self)@ }),
    {
        self.att = att;
    }

    /// Sets the length of the decay, in samples.
    pub fn set_dec(&mut self, dec: u64)
        ensures
            final(self)@ == (EnvState { dec, ..old(self)@ }),
    {
        self.dec = dec;
    }

    /// Sets the sustain level.
    pub fn set_sus(&mut self, sus: u32)
        ensures
            final(self)@ == (EnvState { sus, ..old(self)@ }),
    {
        self.sus = sus;
    }

    /// Sets the length of the release, in samples.
    pub fn set_rel(&mut self, rel: u64)
        ensures
            final(self)@ == (EnvState { rel, ..old(self)@ }),
    {
        self.rel = rel;
    }

    /// The stage that the envelope is in.
    pub fn stage(&self) -> (stage: EnvStage)
        ensures
            stage == self@.stage,
    {
        self.stage
    }

    /// The sustain level, as the word it was set to.
    pub fn sus(&self) -> (sus: u32)
        ensures
            sus == self@.sus,
    {
        self.sus
    }

    /// Samples per control block.
    pub fn span(&self) -> (span: u64)
        ensures
            span == self@.span,
    {
        self.span
    }

    fn begin_decay(&mut self, jump: Jump) -> (step: EnvStep)
        ensures
            (final(self)@, step) == old(self)@.begin_decay(jump),
    {
        if self.dec > 0 {
            self.stage = EnvStage::Dec;
            self.counter = self.dec;
            EnvStep { jump, slope: Slope::Decay(self.dec) }
        } else {
            self.stage = EnvStage::Sus;
            self.counter = 0;
            EnvStep { jump: Jump::ToSustain, slope: Slope::Flat }
        }
    }

    fn check_stage(&mut self, open: bool) -> (step: EnvStep)
        ensures
            (final(self)@, step) == old(self)@.check(open),
    {
        if !open && self.prev_open {
            self.prev_open = false;
            if self.rel > 0 {
                self.stage = EnvStage::Rel;
                self.counter = self.rel;
                EnvStep { jump: Jump::Stay, slope: Slope::Release(self.rel) }
            } else {
                self.stage = EnvStage::Done;
                self.counter = 0;
                EnvStep { jump: Jump::ToZero, slope: Slope::Flat }
            }
        } else if open && !self.prev_open {
            self.prev_open = true;
            if self.att > 0 {
                self.stage = EnvStage::Att;
                self.counter = self.att;
                EnvStep { jump: Jump::Stay, slope: Slope::Attack(self.att) }
            } else {
                self.begin_decay(Jump::ToOne)
            }
        } else if self.counter == 0 {
            match self.stage {
                EnvStage::Att => self.begin_decay(Jump::Stay),
                EnvStage::Dec => {
                    self.stage = EnvStage::Sus;
                    EnvStep { jump: Jump::Stay, slope: Slope::Flat }
                },
                EnvStage::Rel => {
                    self.stage = EnvStage::Done;
                    EnvStep { jump: Jump::Stay, slope: Slope::Flat }
                },
                _ => EnvStep { jump: Jump::Stay, slope: Slope::Keep },
            }
        } else {
            EnvStep { jump: Jump::Stay, slope: Slope::Keep }
        }
    }

    fn is_ramping(&self) -> (r: bool)
        ensures
            r == self@.ramping(),
    {
        match self.stage {
            EnvStage::Att | EnvStage::Dec | EnvStage::Rel => true,
            _ => false,
        }
    }

    /// One tick at audio rate: the envelope moves on by a single sample.
    ///
    /// The step returned is to be applied to the level, followed by one
    /// sample's worth of the slope.
    pub fn tick_audio(&mut self, gate: &Gate) -> (step: EnvStep)
        requires
            old(self)@.wf(),
        ensures
            (final(self)@, step) == old(self)@.tick(is_positive(gate@), 1),
            final(self)@.wf(),
    {
        if self.is_ramping() {
            self.counter = self.counter - 1;
        }
        let step: EnvStep = self.check_stage(positive(read_gate(gate)));
        proof {
            lemma_tick_keeps_wf(old(self)@, is_positive(gate@), 1);
        }
        step
    }

    /// Runs the envelope at audio rate over a whole buffer.
    ///
    /// `steps` has one place for every sample of the buffer that is being
    /// shaped. Place `i` receives the step of tick `i`: the caller applies
    /// it, moves the level on by one sample's worth of the slope, and
    /// multiplies sample `i` by the level.
    pub fn perform_audio(&mut self, gate: &Gate, steps: &mut Vec<EnvStep>)
        requires
            old(self)@.wf(),
        ensures
            final(steps)@.len() == old(steps)@.len(),
            forall|i: int|
                0 <= i < final(steps)@.len() ==> final(steps)@[i] == old(self)@.step_at(
                    is_positive(gate@),
                    1,
                    i as nat,
                ),
            final(self)@ == old(self)@.run(is_positive(gate@), 1, old(steps)@.len()),
            final(self)@.wf(),
    {
        let ghost start: EnvState = self@;
        let ghost open: bool = is_positive(gate@);
        let n: usize = steps.len();
        let mut i: usize = 0;
        while i < n
            invariant
                i <= n,
                steps@.len() == n,
                self@.wf(),
                open == is_positive(gate@),
                self@ == start.run(open, 1, i as nat),
                forall|j: int| 0 <= j < i ==> steps@[j] == start.step_at(open, 1, j as nat),
            decreases n - i,
        {
            let step: EnvStep = self.tick_audio(gate);
            steps[i] = step;
            i = i + 1;
        }
    }

    /// One tick at control rate: the envelope moves on by a whole control
    /// block.
    ///
    /// The step returned is to be applied to the level, followed by one
    /// control block's worth of the slope; the level then holds for every
    /// sample of the block. A stage ends with the block in which its count
    /// runs out.
    pub fn perform_control(&mut self, gate: &Gate) -> (step: EnvStep)
        requires
            old(self)@.wf(),
        ensures
            (final(self)@, step) == old(self)@.tick(is_positive(gate@), old(self)@.span),
            final(self)@.wf(),
    {
        if self.is_ramping() {
            let cut: u64 = if self.counter < self.span {
                self.counter
            } else {
                self.span
            };
            self.counter = self.counter - cut;
        }
        let step: EnvStep = self.check_stage(positive(read_gate(gate)));
        proof {
            lemma_tick_keeps_wf(old(self)@, is_positive(gate@), old(self)@.span);
        }
        step
    }
}

/// A tick leaves the parameters alone and keeps the envelope well formed:
/// a stage that is counted down is never entered without samples to count.
pub proof fn lemma_tick_keeps_wf(s: EnvState, open: bool, span: u64)
    ensures
        s.tick(open, span).0.wf(),
        s.tick(open, span).0.att == s.att,
        s.tick(open, span).0.dec == s.dec,
        s.tick(open, span).0.sus == s.sus,
        s.tick(open, span).0.rel == s.rel,
        s.tick(open, span).0.span == s.span,
        s.tick(open, span).0.prev_open == open,
{
}

/// While its gate stays closed, an envelope at rest stays at rest and asks
/// for nothing: every tick, of whatever length, at audio rate or at control
/// rate, asks to keep level and slope as they are.
pub proof fn lemma_closed_gate_is_silent(s: EnvState, span: u64, n: nat)
    requires
        s.stage is Done,
        !s.prev_open,
    ensures
        s.run(false, span, n) == s,
        s.step_at(false, span, n) == hold(),
    decreases n,
{
    if n > 0 {
        lemma_closed_gate_is_silent(s, span, (n - 1) as nat);
    }
}

/// Opening a gate never takes the level to zero: the attack starts from
/// the level as it stands, in whatever stage the envelope is, a release
/// under way included. With an attack of some length the level does not
/// jump at all, and the slope set is the one that reaches one from the
/// current level in that length.
pub proof fn lemma_reopening_rises_from_current_level(s: EnvState, span: u64)
    requires
        !s.prev_open,
    ensures
        s.tick(true, span).1.jump != Jump::ToZero,
        s.att > 0 ==> s.tick(true, span).1 == (EnvStep {
            jump: Jump::Stay,
            slope: Slope::Attack(s.att),
        }) && s.tick(true, span).0.stage is Att && s.tick(true, span).0.counter == s.att,
{
}

/// `ticks` is the number of ticks that a stage of `len` samples lasts when
/// every tick spans `span` samples: `len` over `span`, rounded up.
pub open spec fn lasts(len: u64, span: u64, ticks: nat) -> bool {
    (ticks - 1) * span < len <= ticks * span
}

/// The schedule of a held note, for an attack and a decay of some length
/// and ticks of `span` samples. The tick that sees an open gate starts the
/// attack. The attack's slope then holds for the `a` ticks that the attack
/// lasts, the decay's slope for the `d` ticks after them, and from then on
/// the level is flat. At audio rate, and wherever `span` divides the
/// lengths, each slope is thus applied for exactly the samples it was worked
/// out for.
pub proof fn lemma_held_note_schedule(s: EnvState, span: u64, a: nat, d: nat, n: nat)
    requires
        !s.prev_open,
        s.att > 0,
        s.dec > 0,
        span > 0,
        lasts(s.att, span, a),
        lasts(s.dec, span, d),
    ensures
        ({
            let t = s.run(true, span, n + 1);
            let step = s.step_at(true, span, n);
            &&& t.prev_open
            &&& n < a ==> t.stage is Att && t.counter == s.att - n * span
            &&& a <= n < a + d ==> t.stage is Dec && t.counter == s.dec - (n - a) * span
            &&& a + d <= n ==> t.stage is Sus && t.counter == 0
            &&& step == if n == 0 {
                EnvStep { jump: Jump::Stay, slope: Slope::Attack(s.att) }
            } else if n == a {
                EnvStep { jump: Jump::Stay, slope: Slope::Decay(s.dec) }
            } else if n == a + d {
                EnvStep { jump: Jump::Stay, slope: Slope::Flat }
            } else {
                hold()
            }
        }),
    decreases n,
{
    lemma_run_keeps_parameters(s, true, span, n);
    lemma_ticks_of_stage(s.att, span, a, n);
    if n >= a {
        lemma_ticks_of_stage(s.dec, span, d, (n - a) as nat);
    }
    if n > 0 {
        lemma_held_note_schedule(s, span, a, d, (n - 1) as nat);
        lemma_ticks_of_stage(s.att, span, a, (n - 1) as nat);
        if n - 1 >= a {
            lemma_ticks_of_stage(s.dec, span, d, (n - 1 - a) as nat);
        }
    }
}

/// The schedule of a released note, for a release of some length and ticks
/// of `span` samples. The tick that sees a closed gate starts the release
/// from the level as it stands; its slope holds for the `r` ticks that the
/// release lasts, and the envelope is at rest from then on.
pub proof fn lemma_released_note_schedule(s: EnvState, span: u64, r: nat, n: nat)
    requires
        s.prev_open,
        s.rel > 0,
        span > 0,
        lasts(s.rel, span, r),
    ensures
        ({
            let t = s.run(false, span, n + 1);
            let step = s.step_at(false, span, n);
            &&& !t.prev_open
            &&& n < r ==> t.stage is Rel && t.counter == s.rel - n * span
            &&& r <= n ==> t.stage is Done
            &&& step == if n == 0 {
                EnvStep { jump: Jump::Stay, slope: Slope::Release(s.rel) }
            } else if n == r {
                EnvStep { jump: Jump::Stay, slope: Slope::Flat }
            } else {
                hold()
            }
        }),
    decreases n,
{
    lemma_run_keeps_parameters(s, false, span, n);
    lemma_ticks_of_stage(s.rel, span, r, n);
    if n > 0 {
        lemma_released_note_schedule(s, span, r, (n - 1) as nat);
        lemma_ticks_of_stage(s.rel, span, r, (n - 1) as nat);
    }
}

/// Where a stage of `len` samples stands `m` ticks after it began: it has
/// samples left before its last tick, and none from then on.
proof fn lemma_ticks_of_stage(len: u64, span: u64, ticks: nat, m: nat)
    requires
        len > 0,
        span > 0,
        lasts(len, span, ticks),
    ensures
        ticks >= 1,
        m < ticks ==> m * span < len,
        m >= ticks ==> m * span >= len,
        (m + 1) * span == m * span + span,
        m == 0 ==> m * span == 0,
{
    assert(ticks >= 1) by (nonlinear_arith)
        requires
            len > 0,
            len <= ticks * span,
            span > 0,
    ;
    assert(m < ticks ==> m * span < len) by (nonlinear_arith)
        requires
            (ticks - 1) * span < len,
            span > 0,
    ;
    assert(m >= ticks ==> m * span >= len) by (nonlinear_arith)
        requires
            len <= ticks * span,
            span > 0,
    ;
    assert((m + 1) * span == m * span + span) by (nonlinear_arith);
    assert(m == 0 ==> m * span == 0) by (nonlinear_arith);
}

/// Stages of no length are passed through in the tick that sees the edge:
/// with no attack and no decay an opening gate puts the level at sustain at
/// once, and with no release a closing gate puts it at zero and the envelope
/// at rest.
pub proof fn lemma_stages_of_no_length(s: EnvState, span: u64)
    ensures
        !s.prev_open && s.att == 0 && s.dec == 0 ==> s.tick(true, span).0.stage is Sus && s.tick(
            true,
            span,
        ).1 == (EnvStep { jump: Jump::ToSustain, slope: Slope::Flat }),
        s.prev_open && s.rel == 0 ==> s.tick(false, span).0.stage is Done && s.tick(
            false,
            span,
        ).1 == (EnvStep { jump: Jump::ToZero, slope: Slope::Flat }),
{
}

/// Ticks change neither the lengths nor the sustain level, and keep the
/// envelope well formed.
pub proof fn lemma_run_keeps_parameters(s: EnvState, open: bool, span: u64, n: nat)
    ensures
        s.wf() ==> s.run(open, span, n).wf(),
        s.run(open, span, n).att == s.att,
        s.run(open, span, n).dec == s.dec,
        s.run(open, span, n).sus == s.sus,
        s.run(open, span, n).rel == s.rel,
        s.run(open, span, n).span == s.span,
    decreases n,
{
    if n > 0 {
        lemma_run_keeps_parameters(s, open, span, (n - 1) as nat);
        lemma_tick_keeps_wf(s.run(open, span, (n - 1) as nat), open, span);
    }
}

} // verus!
