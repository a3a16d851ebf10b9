//! The pool of voices: which voice a note takes, which voices a release
//! reaches, and what every voice contributes to a block.
use vstd::prelude::*;
use crate::envelope::{EnvState, EnvStep, Jump, Slope};
use crate::midi::{map_note_equal, Message, EQUAL_TEMP_MAP, NOTES};
use crate::system::System;
use crate::voice::{Voice, VoiceState};
use crate::word::{equal, same_number, ONE, ZERO};
use crate::wt::{TablePos, Wavetable};

verus! {

/// Number of velocities that a note can come with.
pub const VELOCITIES: usize = 256;

/// What one voice contributes to a block.
///
/// Where `active` is set, the voice sounds: the block's sample `i` is the
/// table read at `positions[i]`, times the envelope's level after `step`,
/// times the number in `level`. Where it is not, the voice is silent and
/// the other fields are left over from an earlier block.
pub struct VoiceBlock {
    pub active: bool,
    pub level: u32,
    pub step: EnvStep,
    pub positions: Vec<TablePos>,
}

/// A voice's block as a value.
pub struct BlockView {
    pub active: bool,
    pub level: u32,
    pub step: EnvStep,
    pub positions: Seq<TablePos>,
}

impl View for VoiceBlock {
    type V = BlockView;

    open spec fn view(&self) -> BlockView {
        BlockView {
            active: self.active,
            level: self.level,
            step: self.step,
            positions: self.positions@,
        }
    }
}

/// The first voice at or after `k` that is free, or the number of voices if
/// there is none.
pub open spec fn first_inactive_from(voices: Seq<VoiceState>, k: int) -> int
    decreases voices.len() - k,
{
    if k < 0 || k >= voices.len() {
        voices.len() as int
    } else if !voices[k].active() {
        k
    } else {
        first_inactive_from(voices, k + 1)
    }
}

/// The first free voice in pool order, or the number of voices if every
/// voice is taken.
pub open spec fn first_inactive(voices: Seq<VoiceState>) -> int {
    first_inactive_from(voices, 0)
}

/// The pool after a note-on: the first free voice takes the note, and where
/// none is free the note is dropped.
pub open spec fn noted_on(voices: Seq<VoiceState>, level: u32, pitch: u32, inc: i32) -> Seq<
    VoiceState,
> {
    let k = first_inactive(voices);
    if k < voices.len() {
        voices.update(k, voices[k].note_on(level, pitch, inc))
    } else {
        voices
    }
}

/// The pool after a note-off: every voice that is taken and whose pitch is
/// the number given has its gate closed, and no other voice is touched.
pub open spec fn noted_off(voices: Seq<VoiceState>, pitch: u32) -> Seq<VoiceState> {
    Seq::new(
        voices.len(),
        |i: int|
            if voices[i].active() && same_number(voices[i].pitch, pitch) {
                voices[i].note_off()
            } else {
                voices[i]
            },
    )
}

/// What every note and every velocity comes to for one table and one sample
/// rate: the phase increment per sample of each note's pitch, and the word
/// of each velocity's level.
pub struct Tuning {
    incs: Vec<i32>,
    levels: Vec<u32>,
}

impl Tuning {
    /// The phase increment of every note.
    pub closed spec fn incs(&self) -> Seq<i32> {
        self.incs@
    }

    /// The level of every velocity.
    pub closed spec fn levels(&self) -> Seq<u32> {
        self.levels@
    }

    /// One increment for every note and one level for every velocity.
    pub open spec fn wf(&self) -> bool {
        self.incs().len() == NOTES && self.levels().len() == VELOCITIES
    }

    /// A tuning from its two tables, which must hold `NOTES` increments and
    /// `VELOCITIES` levels.
    pub fn new(incs: Vec<i32>, levels: Vec<u32>) -> (r: Option<Self>)
        ensures
            r is Some <==> incs@.len() == NOTES && levels@.len() == VELOCITIES,
            r matches Some(t) ==> t.wf() && t.incs() == incs@ && t.levels() == levels@,
    {
        if incs.len() == NOTES && levels.len() == VELOCITIES {
            Some(Tuning { incs, levels })
        } else {
            None
        }
    }

    /// The phase increment per sample of a note's pitch.
    pub fn inc(&self, note: u8) -> (inc: i32)
        requires
            self.wf(),
            note < NOTES,
        ensures
            inc == self.incs()[note as int],
    {
        self.incs[note as usize]
    }

    /// The word of a velocity's level.
    pub fn level(&self, vel: u8) -> (level: u32)
        requires
            self.wf(),
        ensures
            level == self.levels()[vel as int],
    {
        self.levels[vel as usize]
    }
}

/// The message names a note that has a pitch, if it names a note at all.
pub open spec fn playable(msg: Message) -> bool {
    match msg {
        Message::NoteOff { note, .. } => note < NOTES,
        Message::NoteOn { note, .. } => note < NOTES,
        _ => true,
    }
}

/// Tells whether the message names a note that has a pitch, if it names a
/// note at all.
pub fn playable_message(msg: &Message) -> (r: bool)
    ensures
        r == playable(*msg),
{
    match msg {
        Message::NoteOff { chan: _, note, vel: _ } => (*note as usize) < NOTES,
        Message::NoteOn { chan: _, note, vel: _ } => (*note as usize) < NOTES,
        _ => true,
    }
}

/// The pool after a message. A note-off releases the note's pitch, and so
/// does a note-on with a velocity of zero; any other note-on starts the
/// note at the level of its velocity; any other message does nothing.
pub open spec fn applied(voices: Seq<VoiceState>, msg: Message, tuning: Tuning) -> Seq<
    VoiceState,
> {
    match msg {
        Message::NoteOff { note, .. } => noted_off(voices, EQUAL_TEMP_MAP[note as int]),
        Message::NoteOn { note, vel, .. } => if vel == 0 {
            noted_off(voices, EQUAL_TEMP_MAP[note as int])
        } else {
            noted_on(
                voices,
                tuning.levels()[vel as int],
                EQUAL_TEMP_MAP[note as int],
                tuning.incs()[note as int],
            )
        },
        _ => voices,
    }
}

/// The pool after the first `k` of the messages, applied in the order in
/// which they stand.
pub open spec fn applied_all(
    voices: Seq<VoiceState>,
    msgs: Seq<Message>,
    tuning: Tuning,
    k: nat,
) -> Seq<VoiceState>
    decreases k,
{
    if k == 0 {
        voices
    } else {
        applied(applied_all(voices, msgs, tuning, (k - 1) as nat), msgs[k - 1], tuning)
    }
}

/// A block of a voice that is taken, and the block of one that is not.
pub open spec fn block_of(voice: VoiceState, before: BlockView, n: nat) -> BlockView {
    if voice.active() {
        BlockView {
            active: true,
            level: voice.level,
            step: voice.block_step(),
            positions: Seq::new(n, |i: int| voice.block_pos(i)),
        }
    } else {
        BlockView { active: false, ..before }
    }
}

/// A voice after a block: moved on if it is taken, left alone if not.
pub open spec fn after_block(voice: VoiceState, n: nat) -> VoiceState {
    if voice.active() {
        voice.performed(n)
    } else {
        voice
    }
}

/// A pool of voices that play one wavetable.
///
/// The pool has a fixed size. Every voice has a block of its own, as long
/// as the render buffer, that `perform` fills.
pub struct Instrument {
    voices: Vec<Voice>,
    blocks: Vec<VoiceBlock>,
    bufsize: usize,
}

impl Instrument {
    /// The voices, in pool order.
    pub closed spec fn voices(&self) -> Seq<VoiceState> {
        Seq::new(self.voices@.len(), |i: int| self.voices@[i]@)
    }

    /// The voices' blocks, in pool order.
    pub closed spec fn blocks(&self) -> Seq<BlockView> {
        Seq::new(self.blocks@.len(), |i: int| self.blocks@[i]@)
    }

    /// Samples per block.
    pub closed spec fn spec_bufsize(&self) -> usize {
        self.bufsize
    }

    /// Every voice is well formed and has a block of the buffer's length.
    pub open spec fn wf(&self) -> bool {
        &&& self.voices().len() == self.blocks().len()
        &&& forall|i: int| 0 <= i < self.voices().len() ==> (#[trigger] self.voices()[i]).wf()
        &&& forall|i: int|
            0 <= i < self.blocks().len() ==> (#[trigger] self.blocks()[i]).positions.len()
                == self.spec_bufsize()
    }

    /// An instrument of `nvoices` voices at rest.
    ///
    /// `att`, `dec` and `rel` are the envelopes' lengths in samples, `sus`
    /// is the word of their sustain level.
    pub fn new(
        system: &System,
        table: &Wavetable,
        nvoices: usize,
        att: u64,
        dec: u64,
        sus: u32,
        rel: u64,
    ) -> (inst: Self)
        requires
            table.wf(),
        ensures
            inst.wf(),
            inst.spec_bufsize() == system.spec_bufsize(),
            inst.voices().len() == nvoices,
            forall|i: int|
                0 <= i < nvoices ==> inst.voices()[i] == VoiceState::fresh(
                    *table,
                    EnvState::fresh(att, dec, sus, rel, system.spec_controlrate_div(), false),
                ),
            forall|i: int| 0 <= i < nvoices ==> !inst.blocks()[i].active,
    {
        let bufsize: usize = system.bufsize();
        let mut inst: Instrument = Instrument { voices: Vec::new(), blocks: Vec::new(), bufsize };
        let mut i: usize = 0;
        while i < nvoices
            invariant
                i <= nvoices,
                table.wf(),
                bufsize == system.spec_bufsize(),
                inst.bufsize == bufsize,
                inst.voices@.len() == i,
                inst.blocks@.len() == i,
                forall|j: int|
                    0 <= j < i ==> (#[trigger] inst.voices@[j])@ == VoiceState::fresh(
                        *table,
                        EnvState::fresh(att, dec, sus, rel, system.spec_controlrate_div(), false),
                    ),
                forall|j: int|
                    0 <= j < i ==> !(#[trigger] inst.blocks@[j]).active && inst.blocks@[j].positions@.len()
                        == bufsize,
            decreases nvoices - i,
        {
            inst.voices.push(Voice::new(system, table, att, dec, sus, rel));
            inst.blocks.push(blank_block(bufsize));
            i = i + 1;
        }
        inst
    }

    /// Number of voices in the pool.
    pub fn nvoices(&self) -> (n: usize)
        ensures
            n == self.voices().len(),
    {
        self.voices.len()
    }

    /// Samples per block.
    #[verifier::when_used_as_spec(spec_bufsize)]
    pub fn bufsize(&self) -> (n: usize)
        ensures
            n == self.spec_bufsize(),
    {
        self.bufsize
    }

    /// Voice `i` of the pool.
    pub fn voice(&self, i: usize) -> (v: &Voice)
        requires
            i < self.voices().len(),
        ensures
            v@ == self.voices()[i as int],
    {
        &self.voices[i]
    }

    /// The voices' blocks as `perform` left them, in pool order.
    pub fn output(&self) -> (blocks: &Vec<VoiceBlock>)
        ensures
            blocks@.len() == self.blocks().len(),
            forall|i: int| 0 <= i < blocks@.len() ==> (#[trigger] blocks@[i])@ == self.blocks()[i],
    {
        &self.blocks
    }

    /// Renders the next block of every voice that is taken.
    ///
    /// Voices are gone through in pool order. A voice that is taken fills
    /// its block and moves on by one buffer; a free voice is left alone and
    /// its block is marked silent. The sum of the blocks that sound is the
    /// instrument's output: it is a sum, not a mean, so keeping it in range
    /// is the caller's business.
    pub fn perform(&mut self)
        requires
            old(self).wf(),
        ensures
            final(self).wf(),
            final(self).spec_bufsize() == old(self).spec_bufsize(),
            final(self).voices().len() == old(self).voices().len(),
            forall|i: int|
                0 <= i < old(self).voices().len() ==> #[trigger] final(self).voices()[i]
                    == after_block(old(self).voices()[i], old(self).spec_bufsize() as nat),
            forall|i: int|
                0 <= i < old(self).voices().len() ==> #[trigger] final(self).blocks()[i]
                    == block_of(
                    old(self).voices()[i],
                    old(self).blocks()[i],
                    old(self).spec_bufsize() as nat,
                ),
    {
        let ghost before: Seq<VoiceState> = self.voices();
        let ghost blocks_before: Seq<BlockView> = self.blocks();
        let n: usize = self.voices.len();
        let mut i: usize = 0;
        while i < n
            invariant
                i <= n,
                self.voices@.len() == n,
                self.blocks@.len() == n,
                self.bufsize == old(self).bufsize,
                before == old(self).voices(),
                blocks_before == old(self).blocks(),
                before.len() == n,
                blocks_before.len() == n,
                self.wf(),
                forall|j: int|
                    0 <= j < i ==> (#[trigger] self.voices@[j])@ == after_block(
                        before[j],
                        self.bufsize as nat,
                    ),
                forall|j: int|
                    0 <= j < i ==> (#[trigger] self.blocks@[j])@ == block_of(
                        before[j],
                        blocks_before[j],
                        self.bufsize as nat,
                    ),
                forall|j: int| i <= j < n ==> (#[trigger] self.voices@[j])@ == before[j],
                forall|j: int| i <= j < n ==> (#[trigger] self.blocks@[j])@ == blocks_before[j],
            decreases n - i,
        {
            let ghost voices_then: Seq<Voice> = self.voices@;
            let ghost blocks_then: Seq<VoiceBlock> = self.blocks@;
            let ghost pool_then: Seq<VoiceState> = self.voices();
            let ghost out_then: Seq<BlockView> = self.blocks();
            assert(pool_then[i as int].wf());
            assert(out_then[i as int].positions.len() == self.bufsize);
            let voice: &mut Voice = &mut self.voices[i];
            let block: &mut VoiceBlock = &mut self.blocks[i];
            if voice.active() {
                block.active = true;
                block.level = voice.level();
                block.step = voice.perform(&mut block.positions);
            } else {
                block.active = false;
            }
            proof {
                let at: int = i as int;
                let size: nat = self.bufsize as nat;
                assert(self.voices@ == voices_then.update(at, self.voices@[at]));
                assert(self.blocks@ == blocks_then.update(at, self.blocks@[at]));
                if before[at].active() {
                    assert(self.blocks@[at]@.positions =~= Seq::new(
                        size,
                        |k: int| before[at].block_pos(k),
                    ));
                }
                assert(self.blocks@[at]@ == block_of(before[at], blocks_before[at], size));
                assert forall|j: int| 0 <= j < n implies (#[trigger] self.voices()[j]).wf() by {
                    if j != at {
                        assert(self.voices()[j] == pool_then[j]);
                    }
                }
                assert forall|j: int| 0 <= j < n implies (#[trigger] self.blocks()[j]).positions.len()
                    == size by {
                    if j != at {
                        assert(self.blocks()[j] == out_then[j]);
                    }
                }
            }
            i = i + 1;
        }
    }

    /// Starts a note on the first free voice in pool order.
    ///
    /// Where every voice is taken the note is dropped, and no voice is
    /// disturbed: a sounding note is never cut short for a new one.
    pub fn note_on(&mut self, level: u32, pitch: u32, inc: i32)
        requires
            old(self).wf(),
        ensures
            final(self).wf(),
            final(self).voices() == noted_on(old(self).voices(), level, pitch, inc),
            final(self).blocks() == old(self).blocks(),
            final(self).spec_bufsize() == old(self).spec_bufsize(),
    {
        let n: usize = self.voices.len();
        let mut i: usize = 0;
        while i < n
            invariant
                i <= n,
                self.voices@.len() == n,
                *self == *old(self),
                self.wf(),
                first_inactive(self.voices()) == first_inactive_from(self.voices(), i as int),
            decreases n - i,
        {
            if !self.voices[i].active() {
                let ghost before: Seq<VoiceState> = self.voices();
                self.voices[i].note_on(level, pitch, inc);
                assert(self.voices() =~= before.update(
                    i as int,
                    before[i as int].note_on(level, pitch, inc),
                ));
                assert(self.blocks() =~= old(self).blocks());
                return ;
            }
            i = i + 1;
        }
    }

    /// Releases every voice that is taken and whose pitch is the number in
    /// `pitch`. Voices that are free, and voices at another pitch, are not
    /// touched.
    pub fn note_off(&mut self, pitch: u32)
        requires
            old(self).wf(),
        ensures
            final(self).wf(),
            final(self).voices() == noted_off(old(self).voices(), pitch),
            final(self).blocks() == old(self).blocks(),
            final(self).spec_bufsize() == old(self).spec_bufsize(),
    {
        let ghost before: Seq<VoiceState> = self.voices();
        let n: usize = self.voices.len();
        let mut i: usize = 0;
        while i < n
            invariant
                i <= n,
                self.voices@.len() == n,
                before == old(self).voices(),
                before.len() == n,
                self.blocks == old(self).blocks,
                self.bufsize == old(self).bufsize,
                forall|j: int|
                    0 <= j < i ==> (#[trigger] self.voices@[j])@ == noted_off(before, pitch)[j],
                forall|j: int| i <= j < n ==> (#[trigger] self.voices@[j])@ == before[j],
            decreases n - i,
        {
            if self.voices[i].active() && equal(self.voices[i].pitch(), pitch) {
                self.voices[i].note_off();
            }
            i = i + 1;
        }
        assert(self.voices() =~= noted_off(before, pitch));
    }

    /// Applies one message to the pool.
    ///
    /// A note-off releases the note's pitch. A note-on with a velocity of
    /// zero does the same; with any other velocity it starts the note at
    /// the level that the tuning has for the velocity. Any other message is
    /// ignored.
    pub fn map_midi(&mut self, msg: &Message, tuning: &Tuning)
        requires
            old(self).wf(),
            tuning.wf(),
            playable(*msg),
        ensures
            final(self).wf(),
            final(self).voices() == applied(old(self).voices(), *msg, *tuning),
            final(self).blocks() == old(self).blocks(),
            final(self).spec_bufsize() == old(self).spec_bufsize(),
    {
        match msg {
            Message::NoteOff { chan: _, note, vel: _ } => {
                let pitch: u32 = map_note_equal(*note);
                self.note_off(pitch);
            },
            Message::NoteOn { chan: _, note, vel } => {
                let pitch: u32 = map_note_equal(*note);
                if *vel == 0 {
                    self.note_off(pitch);
                } else {
                    let level: u32 = tuning.level(*vel);
                    let inc: i32 = tuning.inc(*note);
                    self.note_on(level, pitch, inc);
                }
            },
            _ => {},
        }
    }

    /// Applies a batch of messages in the order in which they stand, as
    /// they were taken off the queue between two blocks.
    pub fn map_midi_all(&mut self, msgs: &Vec<Message>, tuning: &Tuning)
        requires
            old(self).wf(),
            tuning.wf(),
            forall|k: int| 0 <= k < msgs@.len() ==> playable(#[trigger] msgs@[k]),
        ensures
            final(self).wf(),
            final(self).voices() == applied_all(
                old(self).voices(),
                msgs@,
                *tuning,
                msgs@.len(),
            ),
            final(self).blocks() == old(self).blocks(),
            final(self).spec_bufsize() == old(self).spec_bufsize(),
    {
        let n: usize = msgs.len();
        let mut k: usize = 0;
        while k < n
            invariant
                k <= n,
                n == msgs@.len(),
                tuning.wf(),
                forall|j: int| 0 <= j < msgs@.len() ==> playable(#[trigger] msgs@[j]),
                self.wf(),
                self.voices() == applied_all(old(self).voices(), msgs@, *tuning, k as nat),
                self.blocks() == old(self).blocks(),
                self.spec_bufsize() == old(self).spec_bufsize(),
            decreases n - k,
        {
            self.map_midi(&msgs[k], tuning);
            k = k + 1;
        }
    }
}

/// A silent block of `n` samples.
fn blank_block(n: usize) -> (block: VoiceBlock)
    ensures
        !block.active,
        block.positions@.len() == n,
{
    let mut positions: Vec<TablePos> = Vec::new();
    let mut i: usize = 0;
    while i < n
        invariant
            i <= n,
            positions@.len() == i,
        decreases n - i,
    {
        positions.push(TablePos { index: 0, frac1: ONE });
        i = i + 1;
    }
    VoiceBlock {
        active: false,
        level: ZERO,
        step: EnvStep { jump: Jump::Stay, slope: Slope::Keep },
        positions,
    }
}

/// What `first_inactive` finds: a free voice with none but taken voices
/// before it, or the end of a pool in which every voice is taken.
pub proof fn lemma_first_inactive(voices: Seq<VoiceState>)
    ensures
        0 <= first_inactive(voices) <= voices.len(),
        forall|i: int| 0 <= i < first_inactive(voices) ==> (#[trigger] voices[i]).active(),
        first_inactive(voices) < voices.len() ==> !voices[first_inactive(voices)].active(),
{
    lemma_first_inactive_from(voices, 0);
}

proof fn lemma_first_inactive_from(voices: Seq<VoiceState>, k: int)
    requires
        0 <= k <= voices.len(),
    ensures
        k <= first_inactive_from(voices, k) <= voices.len(),
        forall|i: int|
            k <= i < first_inactive_from(voices, k) ==> (#[trigger] voices[i]).active(),
        first_inactive_from(voices, k) < voices.len() ==> !voices[first_inactive_from(
            voices,
            k,
        )].active(),
    decreases voices.len() - k,
{
    if k < voices.len() && voices[k].active() {
        lemma_first_inactive_from(voices, k + 1);
    }
}

/// A note-on that finds every voice taken changes nothing: the pitch, the
/// level and everything else of every voice stay as they were.
pub proof fn lemma_full_pool_drops_note(
    voices: Seq<VoiceState>,
    level: u32,
    pitch: u32,
    inc: i32,
)
    requires
        forall|i: int| 0 <= i < voices.len() ==> (#[trigger] voices[i]).active(),
    ensures
        noted_on(voices, level, pitch, inc) == voices,
{
    lemma_first_inactive(voices);
}

/// A note-on that finds a free voice gives the note to the first one and
/// leaves every other voice as it was.
pub proof fn lemma_note_on_takes_first_free(
    voices: Seq<VoiceState>,
    level: u32,
    pitch: u32,
    inc: i32,
    k: int,
)
    requires
        0 <= k < voices.len(),
        !voices[k].active(),
        forall|i: int| 0 <= i < k ==> (#[trigger] voices[i]).active(),
    ensures
        noted_on(voices, level, pitch, inc).len() == voices.len(),
        noted_on(voices, level, pitch, inc)[k] == voices[k].note_on(level, pitch, inc),
        forall|i: int|
            0 <= i < voices.len() && i != k ==> noted_on(voices, level, pitch, inc)[i]
                == voices[i],
{
    lemma_first_inactive(voices);
}

/// A note-off closes one gate for every taken voice at the pitch given, and
/// of no other: a voice is changed exactly if it was taken, at that pitch,
/// and held.
pub proof fn lemma_note_off_reaches_matching_voices(voices: Seq<VoiceState>, pitch: u32, i: int)
    requires
        0 <= i < voices.len(),
    ensures
        noted_off(voices, pitch).len() == voices.len(),
        voices[i].active() && same_number(voices[i].pitch, pitch) ==> !noted_off(
            voices,
            pitch,
        )[i].held() && noted_off(voices, pitch)[i] == voices[i].note_off(),
        !(voices[i].active() && same_number(voices[i].pitch, pitch)) ==> noted_off(
            voices,
            pitch,
        )[i] == voices[i],
{
}

} // verus!
