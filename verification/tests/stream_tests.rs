use wavetable::stream::{
    get_config, range_fits, BufferRange, ConfigRange, SampleFormat, StreamChoice,
};

fn range(min: u32, max: u32, buffer_size: BufferRange, sample_format: SampleFormat) -> ConfigRange {
    ConfigRange { min_sample_rate: min, max_sample_rate: max, buffer_size, sample_format }
}

#[test]
fn first_fitting_range_is_chosen() {
    let ranges = vec![
        range(8000, 44100, BufferRange::Range { min: 16, max: 4096 }, SampleFormat::Single),
        range(8000, 96000, BufferRange::Range { min: 16, max: 4096 }, SampleFormat::I16),
        range(8000, 96000, BufferRange::Unknown, SampleFormat::Single),
        range(8000, 96000, BufferRange::Range { min: 512, max: 4096 }, SampleFormat::Single),
        range(48000, 48000, BufferRange::Range { min: 256, max: 256 }, SampleFormat::Single),
        range(8000, 96000, BufferRange::Range { min: 16, max: 4096 }, SampleFormat::Single),
    ];
    assert_eq!(
        get_config(48000, 256, &ranges),
        Some(StreamChoice { index: 4, sample_rate: 48000, buffer_size: 256, channels: 1 })
    );
    assert_eq!(
        get_config(44100, 256, &ranges),
        Some(StreamChoice { index: 0, sample_rate: 44100, buffer_size: 256, channels: 1 })
    );
    assert_eq!(
        get_config(96000, 1024, &ranges),
        Some(StreamChoice { index: 3, sample_rate: 96000, buffer_size: 1024, channels: 1 })
    );
    assert_eq!(get_config(192000, 256, &ranges), None);
    assert_eq!(get_config(48000, 8, &ranges), None);
    assert_eq!(get_config(48000, 256, &Vec::new()), None);
}

#[test]
fn a_range_fits_by_rate_buffer_and_format() {
    let r = range(100, 200, BufferRange::Range { min: 4, max: 8 }, SampleFormat::Single);
    assert!(range_fits(&r, 100, 4));
    assert!(range_fits(&r, 200, 8));
    assert!(!range_fits(&r, 99, 4));
    assert!(!range_fits(&r, 201, 4));
    assert!(!range_fits(&r, 150, 3));
    assert!(!range_fits(&r, 150, 9));
    let u16s = range(100, 200, BufferRange::Range { min: 4, max: 8 }, SampleFormat::U16);
    assert!(!range_fits(&u16s, 150, 4));
    let unknown = range(100, 200, BufferRange::Unknown, SampleFormat::Single);
    assert!(!range_fits(&unknown, 150, 4));
}
