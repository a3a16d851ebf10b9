use wavetable::midi::{
    find_device, input_devices, map_message, map_note_equal, Message, MidiError, EQUAL_TEMP_MAP,
};

#[test]
fn status_nibbles_decode_to_their_messages() {
    assert_eq!(map_message(0x80, 60, 0), Message::NoteOff { chan: 0, note: 60, vel: 0 });
    assert_eq!(map_message(0x93, 60, 100), Message::NoteOn { chan: 3, note: 60, vel: 100 });
    assert_eq!(map_message(0xAF, 1, 2), Message::PolyPressure { chan: 15, note: 1, vel: 2 });
    assert_eq!(map_message(0xB1, 7, 127), Message::ControlChange { chan: 1, ctrl: 7, val: 127 });
    assert_eq!(map_message(0xC2, 5, 99), Message::ProgramChange { chan: 2, prog: 5 });
    assert_eq!(map_message(0xD4, 64, 99), Message::ChannelPressure { chan: 4, vel: 64 });
    assert_eq!(map_message(0xE5, 0, 64), Message::PitchBend { chan: 5, lsb: 0, msb: 64 });
}

#[test]
fn other_statuses_are_undefined() {
    assert_eq!(map_message(0xF8, 1, 2), Message::Undefined(0xF0));
    assert_eq!(map_message(0xF0, 1, 2), Message::Undefined(0xF0));
    assert_eq!(map_message(0x00, 1, 2), Message::Undefined(0x00));
    assert_eq!(map_message(0x7F, 1, 2), Message::Undefined(0x70));
    assert_eq!(map_message(0x45, 1, 2), Message::Undefined(0x40));
}

#[test]
fn every_status_decodes_by_its_nibbles() {
    for status in 0..=255u8 {
        let msg = map_message(status, 11, 22);
        let chan = status & 0x0F;
        let expected = match status >> 4 {
            8 => Message::NoteOff { chan, note: 11, vel: 22 },
            9 => Message::NoteOn { chan, note: 11, vel: 22 },
            10 => Message::PolyPressure { chan, note: 11, vel: 22 },
            11 => Message::ControlChange { chan, ctrl: 11, val: 22 },
            12 => Message::ProgramChange { chan, prog: 11 },
            13 => Message::ChannelPressure { chan, vel: 11 },
            14 => Message::PitchBend { chan, lsb: 11, msb: 22 },
            _ => Message::Undefined(status & 0xF0),
        };
        assert_eq!(msg, expected);
    }
}

#[test]
fn notes_map_to_equal_temperament() {
    assert_eq!(f32::from_bits(map_note_equal(69)), 440.0);
    assert_eq!(map_note_equal(69), 0x43DC_0000);
    assert_eq!(f32::from_bits(map_note_equal(57)), 220.0);
    assert_eq!(f32::from_bits(map_note_equal(81)), 880.0);
    assert_eq!(f32::from_bits(map_note_equal(21)), 27.5);
    assert_eq!(f32::from_bits(map_note_equal(0)), 8.175799);
    assert_eq!(f32::from_bits(map_note_equal(60)), 261.62558);
    assert_eq!(f32::from_bits(map_note_equal(127)), 12543.854);
    assert_eq!(EQUAL_TEMP_MAP.len(), 128);
}

#[test]
fn every_note_is_the_formula_rounded() {
    for note in 0..128u8 {
        let exact = 440.0f64 * f64::powf(2.0, (note as f64 - 69.0) / 12.0);
        let got = f32::from_bits(map_note_equal(note));
        assert_eq!(got, exact as f32, "note {}", note);
    }
}

#[test]
fn the_table_rises_by_semitones_and_doubles_by_octaves() {
    for note in 0..127u8 {
        let low = f32::from_bits(map_note_equal(note));
        let high = f32::from_bits(map_note_equal(note + 1));
        assert!(low > 0.0 && low < high, "note {}", note);
        let ratio = high / low;
        assert!((ratio - 1.0594631).abs() < 1e-5, "note {}", note);
    }
    for note in 0..=115u8 {
        let low = f32::from_bits(map_note_equal(note));
        let high = f32::from_bits(map_note_equal(note + 12));
        assert_eq!(high, 2.0 * low, "note {}", note);
    }
}

#[test]
fn errors_can_be_told_apart() {
    let errors =
        vec![MidiError::DevNotFound, MidiError::Cancelled, MidiError::PortMidiError("x".to_string())];
    assert!(matches!(errors[0], MidiError::DevNotFound));
    assert!(matches!(errors[1], MidiError::Cancelled));
    assert!(matches!(&errors[2], MidiError::PortMidiError(reason) if reason == "x"));
}

#[test]
fn input_devices_are_listed_in_order() {
    assert_eq!(input_devices(&vec![false, true, true, false, true]), vec![1, 2, 4]);
    assert_eq!(input_devices(&vec![false, false]), Vec::<usize>::new());
    assert_eq!(input_devices(&Vec::new()), Vec::<usize>::new());
    assert_eq!(input_devices(&vec![true]), vec![0]);

    let valid = vec![1usize, 2, 4];
    assert_eq!(find_device(&valid, 2), Some(2));
    assert_eq!(find_device(&valid, 4), Some(4));
    assert_eq!(find_device(&valid, 0), None);
    assert_eq!(find_device(&valid, 3), None);
    assert_eq!(find_device(&valid, -1), None);
    assert_eq!(find_device(&valid, i32::MIN), None);
    assert_eq!(find_device(&Vec::new(), 0), None);
}
