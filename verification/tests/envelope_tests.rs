use wavetable::envelope::{
    close_gate, create_gate, open_gate, read_gate, write_gate, EnvStage, EnvStep, Jump, Slope,
    ASDR,
};
use wavetable::system::System;

/// The level that an envelope shapes, kept by the caller.
struct Level {
    level: f32,
    slope: f32,
    sus: f32,
}

impl Level {
    fn new(sus: f32) -> Self {
        Level { level: 0.0, slope: 0.0, sus }
    }

    fn apply(&mut self, step: EnvStep, span: f32) -> f32 {
        match step.jump {
            Jump::Stay => {}
            Jump::ToZero => self.level = 0.0,
            Jump::ToSustain => self.level = self.sus,
            Jump::ToOne => self.level = 1.0,
        }
        match step.slope {
            Slope::Keep => {}
            Slope::Flat => self.slope = 0.0,
            Slope::Attack(n) => self.slope = (1.0 - self.level) / n as f32,
            Slope::Decay(n) => self.slope = (self.sus - 1.0) / n as f32,
            Slope::Release(n) => self.slope = -self.level / n as f32,
        }
        self.level += self.slope * span;
        self.level
    }
}

fn hold() -> EnvStep {
    EnvStep { jump: Jump::Stay, slope: Slope::Keep }
}

fn approx(a: f32, b: f32, epsilon: f32) -> bool {
    (a - b).abs() <= epsilon
}

/// Runs the envelope over `buffer` at audio rate, multiplying in place.
fn shape(asdr: &mut ASDR, gate: &wavetable::envelope::Gate, level: &mut Level, buffer: &mut [f32]) {
    let mut steps = vec![hold(); buffer.len()];
    asdr.perform_audio(gate, &mut steps);
    for (out, step) in buffer.iter_mut().zip(steps) {
        *out *= level.apply(step, 1.0);
    }
}

/// Runs the envelope over `buffer` at audio rate, storing the level.
fn trace(asdr: &mut ASDR, gate: &wavetable::envelope::Gate, level: &mut Level, buffer: &mut [f32]) {
    let mut steps = vec![hold(); buffer.len()];
    asdr.perform_audio(gate, &mut steps);
    for (out, step) in buffer.iter_mut().zip(steps) {
        *out = level.apply(step, 1.0);
    }
}

fn samples(seconds: f32, fs: f32) -> u64 {
    (seconds * fs) as u64
}

#[test]
fn env_test_create_asdr() {
    let system = System::new(1.0f32.to_bits(), 1, 1024);
    let gate = create_gate(0.0f32.to_bits());
    let asdr = ASDR::new(
        &system,
        samples(100.0, 1.0),
        samples(100.0, 1.0),
        0.5f32.to_bits(),
        samples(100.0, 1.0),
        &gate,
    );
    assert_eq!(asdr.stage(), EnvStage::Done);
}

#[test]
fn test_asdr_off() {
    let system = System::new(1.0f32.to_bits(), 1, 1000);
    let gate = create_gate(0.0f32.to_bits());
    let mut asdr = ASDR::new(&system, 100, 100, 0.5f32.to_bits(), 100, &gate);
    let mut level = Level::new(0.5);
    let mut buffer = [0.0f32; 1000];
    trace(&mut asdr, &gate, &mut level, &mut buffer);
    for (i, val) in buffer.iter().enumerate() {
        assert_eq!(*val, 0.0, "index {} of output was {}, expected 0.0", i, *val);
    }
}

#[test]
fn test_asdr() {
    let system = System::new(1.0f32.to_bits(), 1, 1000);
    let mut gate = create_gate(0.0f32.to_bits());
    let mut asdr = ASDR::new(&system, 128, 128, 0.5f32.to_bits(), 128, &gate);
    let mut level = Level::new(0.5);
    let mut buffer = [0.0f32; 1000];

    open_gate(&mut gate);

    trace(&mut asdr, &gate, &mut level, &mut buffer);
    let mut expected = 0.0f32;
    for (i, val) in buffer.iter().enumerate() {
        expected = if i < 128 {
            let step = 1.0 / 128.0;
            expected + step
        } else if i < 256 {
            let step = -0.5 / 128.0;
            expected + step
        } else {
            0.5
        };
        assert!(
            approx(*val, expected, 1e-3),
            "ADS: index {} of output was {}, expected {}",
            i,
            *val,
            expected
        );
    }

    close_gate(&mut gate);

    trace(&mut asdr, &gate, &mut level, &mut buffer);
    for (i, val) in buffer.iter().enumerate() {
        expected = if i < 128 {
            let step = -0.5 / 128.0;
            expected + step
        } else {
            0.0
        };
        assert!(
            approx(*val, expected, 1e-3),
            "Release: index {} of output was {}, expected {}",
            i,
            *val,
            expected
        );
    }
}

#[test]
fn envelope_test_create_asdr() {
    let system = System::new(1.0f32.to_bits(), 1, 1024);
    let gate = create_gate(0.0f32.to_bits());
    let asdr = ASDR::new(&system, 100, 100, 0.5f32.to_bits(), 100, &gate);
    assert_eq!(asdr.stage(), EnvStage::Done);
    assert_eq!(f32::from_bits(asdr.sus()), 0.5);
    assert_eq!(asdr.span(), 1);
}

#[test]
fn test_asdr_off_audio() {
    let system = System::new(1.0f32.to_bits(), 1, 1000);
    let gate = create_gate(0.0f32.to_bits());
    let mut asdr = ASDR::new(&system, 100, 100, 0.5f32.to_bits(), 100, &gate);
    let mut level = Level::new(0.5);
    let mut buffer = [1.0f32; 1000];
    shape(&mut asdr, &gate, &mut level, &mut buffer);
    for (i, val) in buffer.iter().enumerate() {
        assert_eq!(*val, 0.0, "index {} of output was {}, expected 0.0", i, *val);
    }
}

#[test]
fn test_asdr_off_control() {
    let system = System::new(128.0f32.to_bits(), 128, 1000);
    let gate = create_gate(0.0f32.to_bits());
    let mut asdr = ASDR::new(
        &system,
        samples(100.0, 128.0),
        samples(100.0, 128.0),
        0.5f32.to_bits(),
        samples(100.0, 128.0),
        &gate,
    );
    let mut level = Level::new(0.5);
    for i in 0..1000 {
        let env = level.apply(asdr.perform_control(&gate), 128.0);
        assert_eq!(env, 0.0, "index {} of output was {}, expected 0.0", i, env);
    }
}

#[test]
fn test_asdr_audio() {
    let system = System::new(1.0f32.to_bits(), 1, 1000);
    let mut gate = create_gate(0.0f32.to_bits());
    let mut asdr = ASDR::new(&system, 128, 128, 0.5f32.to_bits(), 128, &gate);
    let mut level = Level::new(0.5);
    let mut buffer = [1.0f32; 1000];

    open_gate(&mut gate);

    shape(&mut asdr, &gate, &mut level, &mut buffer);
    let mut expected = 0.0f32;
    for (i, val) in buffer.iter().enumerate() {
        expected = if i < 128 {
            let step = 1.0 / 128.0;
            expected + step
        } else if i < 256 {
            let step = -0.5 / 128.0;
            expected + step
        } else {
            0.5
        };
        assert!(
            approx(*val, expected, 1e-3),
            "ADS: index {} of output was {}, expected {}",
            i,
            *val,
            expected
        );
    }

    for out in buffer.iter_mut() {
        *out = 1.0;
    }

    close_gate(&mut gate);

    shape(&mut asdr, &gate, &mut level, &mut buffer);
    for (i, val) in buffer.iter().enumerate() {
        expected = if i < 128 {
            let step = -0.5 / 128.0;
            expected + step
        } else {
            0.0
        };
        assert!(
            approx(*val, expected, 1e-3),
            "Release: index {} of output was {}, expected {}",
            i,
            *val,
            expected
        );
    }
}

#[test]
fn test_asdr_control() {
    let system = System::new(128.0f32.to_bits(), 128, 1000);
    let mut gate = create_gate(0.0f32.to_bits());
    let mut asdr = ASDR::new(
        &system,
        samples(128.0, 128.0),
        samples(128.0, 128.0),
        0.5f32.to_bits(),
        samples(128.0, 128.0),
        &gate,
    );
    let mut level = Level::new(0.5);

    open_gate(&mut gate);

    let mut expected = 0.0f32;
    for i in 0..1000 {
        let val = level.apply(asdr.perform_control(&gate), 128.0);
        expected = if i < 128 {
            let step = 1.0 / 128.0;
            expected + step
        } else if i < 256 {
            let step = -0.5 / 128.0;
            expected + step
        } else {
            0.5
        };
        assert!(
            approx(val, expected, 1e-3),
            "ADS: index {} of output was {}, expected {}",
            i,
            val,
            expected
        );
    }

    close_gate(&mut gate);

    for i in 0..1000 {
        let val = level.apply(asdr.perform_control(&gate), 128.0);
        expected = if i < 128 {
            let step = -0.5 / 128.0;
            expected + step
        } else {
            0.0
        };
        assert!(
            approx(val, expected, 1e-3),
            "Release: index {} of output was {}, expected {}",
            i,
            val,
            expected
        );
    }
}

#[test]
fn gate_holds_what_was_written() {
    let mut gate = create_gate(0.25f32.to_bits());
    assert_eq!(f32::from_bits(read_gate(&gate)), 0.25);
    write_gate(&mut gate, 0.75f32.to_bits());
    assert_eq!(f32::from_bits(read_gate(&gate)), 0.75);
    open_gate(&mut gate);
    assert_eq!(f32::from_bits(read_gate(&gate)), 1.0);
    close_gate(&mut gate);
    assert_eq!(f32::from_bits(read_gate(&gate)), 0.0);
}

#[test]
fn stages_follow_the_schedule() {
    let system = System::new(1.0f32.to_bits(), 1, 16);
    let mut gate = create_gate(0.0f32.to_bits());
    let mut asdr = ASDR::new(&system, 3, 2, 0.5f32.to_bits(), 2, &gate);
    open_gate(&mut gate);
    let mut seen = Vec::new();
    let mut steps = Vec::new();
    for _ in 0..7 {
        steps.push(asdr.tick_audio(&gate));
        seen.push(asdr.stage());
    }
    assert_eq!(
        seen,
        vec![
            EnvStage::Att,
            EnvStage::Att,
            EnvStage::Att,
            EnvStage::Dec,
            EnvStage::Dec,
            EnvStage::Sus,
            EnvStage::Sus
        ]
    );
    assert_eq!(steps[0], EnvStep { jump: Jump::Stay, slope: Slope::Attack(3) });
    assert_eq!(steps[1], hold());
    assert_eq!(steps[2], hold());
    assert_eq!(steps[3], EnvStep { jump: Jump::Stay, slope: Slope::Decay(2) });
    assert_eq!(steps[4], hold());
    assert_eq!(steps[5], EnvStep { jump: Jump::Stay, slope: Slope::Flat });
    assert_eq!(steps[6], hold());

    close_gate(&mut gate);
    assert_eq!(asdr.tick_audio(&gate), EnvStep { jump: Jump::Stay, slope: Slope::Release(2) });
    assert_eq!(asdr.stage(), EnvStage::Rel);
    assert_eq!(asdr.tick_audio(&gate), hold());
    assert_eq!(asdr.stage(), EnvStage::Rel);
    assert_eq!(asdr.tick_audio(&gate), EnvStep { jump: Jump::Stay, slope: Slope::Flat });
    assert_eq!(asdr.stage(), EnvStage::Done);
    assert_eq!(asdr.tick_audio(&gate), hold());
}

#[test]
fn reopening_during_release_rises_from_the_level_reached() {
    let system = System::new(1.0f32.to_bits(), 1, 16);
    let mut gate = create_gate(0.0f32.to_bits());
    let mut asdr = ASDR::new(&system, 4, 4, 0.5f32.to_bits(), 4, &gate);
    let mut level = Level::new(0.5);
    open_gate(&mut gate);
    for _ in 0..10 {
        level.apply(asdr.tick_audio(&gate), 1.0);
    }
    assert_eq!(level.level, 0.5);
    close_gate(&mut gate);
    level.apply(asdr.tick_audio(&gate), 1.0);
    level.apply(asdr.tick_audio(&gate), 1.0);
    assert_eq!(asdr.stage(), EnvStage::Rel);
    assert_eq!(level.level, 0.25);

    open_gate(&mut gate);
    let step = asdr.tick_audio(&gate);
    assert_eq!(step, EnvStep { jump: Jump::Stay, slope: Slope::Attack(4) });
    assert_eq!(asdr.stage(), EnvStage::Att);
    let mut last = 0.25f32;
    let first = level.apply(step, 1.0);
    assert_eq!(first, 0.25 + 0.75 / 4.0);
    last = last.max(first);
    for _ in 0..3 {
        let next = level.apply(asdr.tick_audio(&gate), 1.0);
        assert!(next > last);
        last = next;
    }
    assert_eq!(last, 1.0);
}

#[test]
fn stages_of_no_length_are_passed_through() {
    let system = System::new(4.0f32.to_bits(), 4, 4);
    let mut gate = create_gate(0.0f32.to_bits());
    let mut asdr = ASDR::new(&system, 0, 0, 1.0f32.to_bits(), 0, &gate);
    let mut level = Level::new(1.0);
    open_gate(&mut gate);
    let step = asdr.perform_control(&gate);
    assert_eq!(step, EnvStep { jump: Jump::ToSustain, slope: Slope::Flat });
    assert_eq!(asdr.stage(), EnvStage::Sus);
    assert_eq!(level.apply(step, 4.0), 1.0);
    close_gate(&mut gate);
    let step = asdr.perform_control(&gate);
    assert_eq!(step, EnvStep { jump: Jump::ToZero, slope: Slope::Flat });
    assert_eq!(asdr.stage(), EnvStage::Done);
    assert_eq!(level.apply(step, 4.0), 0.0);

    let mut asdr = ASDR::new(&system, 0, 8, 0.5f32.to_bits(), 0, &gate);
    open_gate(&mut gate);
    let step = asdr.perform_control(&gate);
    assert_eq!(step, EnvStep { jump: Jump::ToOne, slope: Slope::Decay(8) });
    assert_eq!(asdr.stage(), EnvStage::Dec);
}

#[test]
fn setters_change_the_next_stage() {
    let system = System::new(1.0f32.to_bits(), 1, 16);
    let mut gate = create_gate(0.0f32.to_bits());
    let mut asdr = ASDR::new(&system, 4, 4, 0.5f32.to_bits(), 4, &gate);
    asdr.set_att(2);
    asdr.set_dec(3);
    asdr.set_sus(0.25f32.to_bits());
    asdr.set_rel(5);
    assert_eq!(f32::from_bits(asdr.sus()), 0.25);
    open_gate(&mut gate);
    assert_eq!(asdr.tick_audio(&gate).slope, Slope::Attack(2));
    assert_eq!(asdr.tick_audio(&gate).slope, Slope::Keep);
    assert_eq!(asdr.tick_audio(&gate).slope, Slope::Decay(3));
    close_gate(&mut gate);
    assert_eq!(asdr.tick_audio(&gate).slope, Slope::Release(5));
}

#[test]
fn envelope_made_under_an_open_gate_sees_no_edge() {
    let system = System::new(1.0f32.to_bits(), 1, 16);
    let mut gate = create_gate(1.0f32.to_bits());
    let mut asdr = ASDR::new(&system, 4, 4, 0.5f32.to_bits(), 4, &gate);
    assert_eq!(asdr.tick_audio(&gate), hold());
    assert_eq!(asdr.stage(), EnvStage::Done);
    close_gate(&mut gate);
    assert_eq!(asdr.tick_audio(&gate).slope, Slope::Release(4));
}
