use wavetable::utils::{next_pow_of_2, prev_pow_of_2};

#[test]
fn next_power_of_two_rounds_up() {
    assert_eq!(next_pow_of_2(0), 0);
    assert_eq!(next_pow_of_2(1), 1);
    assert_eq!(next_pow_of_2(2), 2);
    assert_eq!(next_pow_of_2(3), 4);
    assert_eq!(next_pow_of_2(4), 4);
    assert_eq!(next_pow_of_2(5), 8);
    assert_eq!(next_pow_of_2(127), 128);
    assert_eq!(next_pow_of_2(128), 128);
    assert_eq!(next_pow_of_2(129), 256);
    assert_eq!(next_pow_of_2(44100), 65536);
    assert_eq!(next_pow_of_2(131073), 262144);
    assert_eq!(next_pow_of_2(usize::MAX / 2 + 1), usize::MAX / 2 + 1);
    assert_eq!(next_pow_of_2(usize::MAX / 2), usize::MAX / 2 + 1);
}

#[test]
fn previous_power_of_two_rounds_down() {
    assert_eq!(prev_pow_of_2(0), 0);
    assert_eq!(prev_pow_of_2(1), 1);
    assert_eq!(prev_pow_of_2(2), 2);
    assert_eq!(prev_pow_of_2(3), 2);
    assert_eq!(prev_pow_of_2(4), 4);
    assert_eq!(prev_pow_of_2(127), 64);
    assert_eq!(prev_pow_of_2(128), 128);
    assert_eq!(prev_pow_of_2(44100), 32768);
    assert_eq!(prev_pow_of_2(33554431), 16777216);
    assert_eq!(prev_pow_of_2(usize::MAX), usize::MAX / 2 + 1);
}
