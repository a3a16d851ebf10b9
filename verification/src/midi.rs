//! Note events as they come off the wire, and the tuning that turns a note
//! number into a pitch.
use vstd::prelude::*;

verus! {

/// Status nibble of a note-off.
pub const NOTE_OFF: u8 = 0x80;

/// Status nibble of a note-on.
pub const NOTE_ON: u8 = 0x90;

/// Status nibble of polyphonic key pressure.
pub const POLY_PRESSURE: u8 = 0xA0;

/// Status nibble of a control change.
pub const CONTROL_CHANGE: u8 = 0xB0;

/// Status nibble of a program change.
pub const PROGRAM_CHANGE: u8 = 0xC0;

/// Status nibble of channel pressure.
pub const CHANNEL_PRESSURE: u8 = 0xD0;

/// Status nibble of a pitch bend.
pub const PITCH_BEND: u8 = 0xE0;

/// Number of notes that have a pitch.
pub const NOTES: usize = 128;

/// The pitch of every note in equal temperament, as the single-precision
/// word of its frequency in hertz. Note 69 is the A of 440 Hz, and note `n`
/// stands `n - 69` semitones from it: every entry is the single-precision
/// number nearest to 440 times two to the power of `(n - 69) / 12`.
pub const EQUAL_TEMP_MAP: [u32; 128] = [
    0x4102_D013, 0x410A_9760, 0x4112_D517, 0x411B_9041, 0x4124_D054, 0x412E_9D37, 0x4138_FF49, 0x4143_FF6A,
    0x414F_A700, 0x415C_0000, 0x4169_14F6, 0x4176_F110, 0x4182_D013, 0x418A_9760, 0x4192_D517, 0x419B_9041,
    0x41A4_D054, 0x41AE_9D37, 0x41B8_FF49, 0x41C3_FF6A, 0x41CF_A700, 0x41DC_0000, 0x41E9_14F6, 0x41F6_F110,
    0x4202_D013, 0x420A_9760, 0x4212_D517, 0x421B_9041, 0x4224_D054, 0x422E_9D37, 0x4238_FF49, 0x4243_FF6A,
    0x424F_A700, 0x425C_0000, 0x4269_14F6, 0x4276_F110, 0x4282_D013, 0x428A_9760, 0x4292_D517, 0x429B_9041,
    0x42A4_D054, 0x42AE_9D37, 0x42B8_FF49, 0x42C3_FF6A, 0x42CF_A700, 0x42DC_0000, 0x42E9_14F6, 0x42F6_F110,
    0x4302_D013, 0x430A_9760, 0x4312_D517, 0x431B_9041, 0x4324_D054, 0x432E_9D37, 0x4338_FF49, 0x4343_FF6A,
    0x434F_A700, 0x435C_0000, 0x4369_14F6, 0x4376_F110, 0x4382_D013, 0x438A_9760, 0x4392_D517, 0x439B_9041,
    0x43A4_D054, 0x43AE_9D37, 0x43B8_FF49, 0x43C3_FF6A, 0x43CF_A700, 0x43DC_0000, 0x43E9_14F6, 0x43F6_F110,
    0x4402_D013, 0x440A_9760, 0x4412_D517, 0x441B_9041, 0x4424_D054, 0x442E_9D37, 0x4438_FF49, 0x4443_FF6A,
    0x444F_A700, 0x445C_0000, 0x4469_14F6, 0x4476_F110, 0x4482_D013, 0x448A_9760, 0x4492_D517, 0x449B_9041,
    0x44A4_D054, 0x44AE_9D37, 0x44B8_FF49, 0x44C3_FF6A, 0x44CF_A700, 0x44DC_0000, 0x44E9_14F6, 0x44F6_F110,
    0x4502_D013, 0x450A_9760, 0x4512_D517, 0x451B_9041, 0x4524_D054, 0x452E_9D37, 0x4538_FF49, 0x4543_FF6A,
    0x454F_A700, 0x455C_0000, 0x4569_14F6, 0x4576_F110, 0x4582_D013, 0x458A_9760, 0x4592_D517, 0x459B_9041,
    0x45A4_D054, 0x45AE_9D37, 0x45B8_FF49, 0x45C3_FF6A, 0x45CF_A700, 0x45DC_0000, 0x45E9_14F6, 0x45F6_F110,
    0x4602_D013, 0x460A_9760, 0x4612_D517, 0x461B_9041, 0x4624_D054, 0x462E_9D37, 0x4638_FF49, 0x4643_FF6A,
];

/// Why no input device could be had.
#[derive(Debug)]
pub enum MidiError {
    /// No input device is attached.
    DevNotFound,
    /// The choice of a device was called off.
    Cancelled,
    /// The device layer failed, for the reason given.
    PortMidiError(String),
}

/// A channel message, decoded.
#[derive(Debug, Clone, Copy, PartialEq, Eq, Structural)]
pub enum Message {
    NoteOff { chan: u8, note: u8, vel: u8 },
    NoteOn { chan: u8, note: u8, vel: u8 },
    PolyPressure { chan: u8, note: u8, vel: u8 },
    ControlChange { chan: u8, ctrl: u8, val: u8 },
    ProgramChange { chan: u8, prog: u8 },
    ChannelPressure { chan: u8, vel: u8 },
    PitchBend { chan: u8, lsb: u8, msb: u8 },
    /// A status that is no channel message; it holds the status with the
    /// low nibble cleared.
    Undefined(u8),
}

/// What a status byte and two data bytes decode to. The high nibble of the
/// status is the kind of message, the low nibble the channel.
pub open spec fn decode(status: u8, data1: u8, data2: u8) -> Message {
    let chan: u8 = (status % 16) as u8;
    let kind: int = status as int / 16;
    if kind == 8 {
        Message::NoteOff { chan, note: data1, vel: data2 }
    } else if kind == 9 {
        Message::NoteOn { chan, note: data1, vel: data2 }
    } else if kind == 10 {
        Message::PolyPressure { chan, note: data1, vel: data2 }
    } else if kind == 11 {
        Message::ControlChange { chan, ctrl: data1, val: data2 }
    } else if kind == 12 {
        Message::ProgramChange { chan, prog: data1 }
    } else if kind == 13 {
        Message::ChannelPressure { chan, vel: data1 }
    } else if kind == 14 {
        Message::PitchBend { chan, lsb: data1, msb: data2 }
    } else {
        Message::Undefined((kind * 16) as u8)
    }
}

/// Decodes a channel message from its status byte and its two data bytes.
pub fn map_message(status: u8, data1: u8, data2: u8) -> (msg: Message)
    ensures
        msg == decode(status, data1, data2),
{
    let kind: u8 = status & 0xF0;
    let chan: u8 = status & 0x0F;
    assert(status & 0xF0 == (status / 16) * 16 && status & 0x0F == status % 16) by (bit_vector);
    if kind == NOTE_OFF {
        Message::NoteOff { chan, note: data1, vel: data2 }
    } else if kind == NOTE_ON {
        Message::NoteOn { chan, note: data1, vel: data2 }
    } else if kind == POLY_PRESSURE {
        Message::PolyPressure { chan, note: data1, vel: data2 }
    } else if kind == CONTROL_CHANGE {
        Message::ControlChange { chan, ctrl: data1, val: data2 }
    } else if kind == PROGRAM_CHANGE {
        Message::ProgramChange { chan, prog: data1 }
    } else if kind == CHANNEL_PRESSURE {
        Message::ChannelPressure { chan, vel: data1 }
    } else if kind == PITCH_BEND {
        Message::PitchBend { chan, lsb: data1, msb: data2 }
    } else {
        Message::Undefined(kind)
    }
}

/// The pitch of a note, as the word of its frequency in hertz.
pub fn map_note_equal(note: u8) -> (pitch: u32)
    requires
        note < NOTES,
    ensures
        pitch == EQUAL_TEMP_MAP[note as int],
{
    EQUAL_TEMP_MAP[note as usize]
}

/// The devices among the first `k` that take input, by their numbers, in
/// rising order.
pub open spec fn input_indices(inputs: Seq<bool>, k: nat) -> Seq<usize>
    decreases k,
{
    if k == 0 {
        Seq::empty()
    } else {
        let before = input_indices(inputs, (k - 1) as nat);
        if inputs[k - 1] {
            before.push((k - 1) as usize)
        } else {
            before
        }
    }
}

/// Lists the numbers of the devices that take input, given for every device
/// whether it does.
pub fn input_devices(inputs: &Vec<bool>) -> (valid: Vec<usize>)
    ensures
        valid@ == input_indices(inputs@, inputs@.len()),
{
    let mut valid: Vec<usize> = Vec::new();
    let n: usize = inputs.len();
    let mut i: usize = 0;
    while i < n
        invariant
            i <= n,
            n == inputs@.len(),
            valid@ == input_indices(inputs@, i as nat),
        decreases n - i,
    {
        if inputs[i] {
            valid.push(i);
        }
        i = i + 1;
    }
    valid
}

/// The device that a number typed in stands for: the number itself where it
/// is on the list, and none where it is not, or is negative.
pub fn find_device(valid: &Vec<usize>, choice: i32) -> (r: Option<usize>)
    ensures
        r == if choice >= 0 && valid@.contains(choice as usize) {
            Some(choice as usize)
        } else {
            None
        },
{
    if choice < 0 {
        return None;
    }
    let wanted: usize = choice as usize;
    let n: usize = valid.len();
    let mut i: usize = 0;
    while i < n
        invariant
            i <= n,
            n == valid@.len(),
            choice >= 0,
            wanted == choice as usize,
            forall|j: int| 0 <= j < i ==> valid@[j] != wanted,
        decreases n - i,
    {
        if valid[i] == wanted {
            assert(valid@[i as int] == wanted);
            return Some(wanted);
        }
        i = i + 1;
    }
    None
}

/// The list of input devices holds exactly the devices that take input,
/// each once, in rising order.
pub proof fn lemma_input_indices(inputs: Seq<bool>, k: nat)
    requires
        k <= inputs.len(),
        k <= usize::MAX,
    ensures
        forall|d: usize| input_indices(inputs, k).contains(d) <==> d < k && inputs[d as int],
        forall|a: int, b: int|
            0 <= a < b < input_indices(inputs, k).len() ==> input_indices(inputs, k)[a]
                < input_indices(inputs, k)[b],
        forall|a: int|
            0 <= a < input_indices(inputs, k).len() ==> (#[trigger] input_indices(inputs, k)[a]) < k,
    decreases k,
{
    if k > 0 {
        let before = input_indices(inputs, (k - 1) as nat);
        lemma_input_indices(inputs, (k - 1) as nat);
        let now = input_indices(inputs, k);
        let last: usize = (k - 1) as usize;
        if inputs[k - 1] {
            assert(now == before.push(last));
            assert forall|d: usize| now.contains(d) <==> d < k && inputs[d as int] by {
                if now.contains(d) {
                    let a = choose|a: int| 0 <= a < now.len() && now[a] == d;
                    if a < before.len() {
                        assert(before.contains(d));
                    }
                }
                if d < k && inputs[d as int] {
                    if d == last {
                        assert(now[before.len() as int] == d);
                    } else {
                        assert(before.contains(d));
                        let a = choose|a: int| 0 <= a < before.len() && before[a] == d;
                        assert(now[a] == d);
                    }
                }
            }
        } else {
            assert forall|d: usize| now.contains(d) <==> d < k && inputs[d as int] by {
                if d < k && inputs[d as int] {
                    assert(d != last);
                }
            }
        }
    }
}

/// The A of 440 Hz is note 69, and the A an octave below it, of 220 Hz, is
/// note 57.
pub proof fn lemma_tuning_reference()
    ensures
        EQUAL_TEMP_MAP[69] == 0x43DC_0000,
        EQUAL_TEMP_MAP[57] == 0x435C_0000,
{
}

/// Twelve notes up is an octave up, and an octave up is exactly twice the
/// frequency: the same significand under an exponent one higher.
pub proof fn lemma_tuning_octave(n: int)
    requires
        0 <= n < NOTES - 12,
    ensures
        EQUAL_TEMP_MAP[n + 12] == EQUAL_TEMP_MAP[n] + 0x0080_0000,
{
}

/// Every pitch is a number greater than zero, and a higher note has a higher
/// pitch. The words of such numbers are ordered as the numbers are, so no
/// two notes share a pitch.
pub proof fn lemma_tuning_rises(i: int, j: int)
    requires
        0 <= i < j < NOTES,
    ensures
        crate::word::is_positive(EQUAL_TEMP_MAP[i]),
        crate::word::is_positive(EQUAL_TEMP_MAP[j]),
        EQUAL_TEMP_MAP[i] < EQUAL_TEMP_MAP[j],
        !crate::word::same_number(EQUAL_TEMP_MAP[i], EQUAL_TEMP_MAP[j]),
    decreases j - i,
{
    lemma_tuning_step(i);
    if i + 1 < j {
        lemma_tuning_rises(i + 1, j);
    }
}

/// Neighbouring notes rise, and every pitch lies between 8 Hz and 16384 Hz.
proof fn lemma_tuning_step(i: int)
    requires
        0 <= i < NOTES - 1,
    ensures
        0x4100_0000 < EQUAL_TEMP_MAP[i] < EQUAL_TEMP_MAP[i + 1] < 0x4680_0000,
{
}

} // verus!
