use ctm::{frame_count_from_inputs, read_value, read_value_fixed};

#[test]
fn frame_count_exact_values() {
    assert_eq!(frame_count_from_inputs(0), 0);
    assert_eq!(frame_count_from_inputs(1), 0);
    assert_eq!(frame_count_from_inputs(2340), 598);
    assert_eq!(frame_count_from_inputs(1000), 255);
    assert_eq!(frame_count_from_inputs(u64::MAX), 4716629461852489035);
}

#[test]
fn frame_count_is_monotonic_on_samples() {
    let samples = [0u64, 1, 2, 233, 234, 235, 2340, 100000, u64::MAX - 1, u64::MAX];
    let mut previous = 0u64;
    for inputs in samples {
        let frames = frame_count_from_inputs(inputs);
        assert!(frames >= previous, "inputs {}", inputs);
        previous = frames;
    }
}

#[test]
fn read_value_walks_the_cursor() {
    let content = vec![10u8, 11, 12, 13, 14, 15];
    let mut position = 0usize;
    assert_eq!(read_value(&content, &mut position, 2), vec![10, 11]);
    assert_eq!(position, 2);
    assert_eq!(read_value(&content, &mut position, 3), vec![12, 13, 14]);
    assert_eq!(position, 5);
    assert_eq!(read_value(&content, &mut position, 0), Vec::<u8>::new());
    assert_eq!(position, 5);
}

#[test]
fn read_value_fixed_fills_an_array() {
    let content = vec![10u8, 11, 12, 13, 14, 15];
    let mut position = 1usize;
    let bytes: [u8; 4] = read_value_fixed(&content, &mut position);
    assert_eq!(bytes, [11, 12, 13, 14]);
    assert_eq!(position, 5);
}
