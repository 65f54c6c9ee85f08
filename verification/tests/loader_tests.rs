use lc3::file::{from_bytes, ImageError};
use lc3::file_loader::load_image;
use lc3::state::State;

#[test]
fn test_from_bytes() {
    let data = from_bytes(&vec![0xaa, 0xbb, 0xcc, 0xdd]).unwrap();
    assert_eq!(data, vec![0xaabb, 0xccdd]);

    let result = from_bytes(&vec![0xaa, 0xbb, 0xcc]);
    let expected = Err(ImageError::OddLength);
    assert_eq!(result, expected);
}

#[test]
fn load_image_sets_pc_and_memory() {
    let state = State::new();
    let mut loaded = load_image(state, &[0x30, 0x00, 0xf0, 0x25]).unwrap();

    assert_eq!(loaded.pc, 0x3000);
    assert_eq!(loaded.memory.read(0x3000), 0xf025);
}

#[test]
fn load_image_round_trip_halts() {
    // One HALT instruction at 0x3000: a single step stops the machine.
    let state = State::new();
    let loaded = load_image(state, &[0x30, 0x00, 0xf0, 0x25]).unwrap();
    assert!(loaded.running);

    let stepped = loaded.step().unwrap();
    assert_eq!(stepped.running, false);
    assert_eq!(stepped.pc, 0x3001);
}

#[test]
fn load_image_refuses_odd_length() {
    let state = State::new();
    assert!(matches!(
        load_image(state, &[0x30, 0x00, 0xf0]),
        Err(ImageError::OddLength)
    ));
}

#[test]
fn load_image_refuses_empty() {
    let state = State::new();
    assert!(matches!(load_image(state, &[]), Err(ImageError::Empty)));
}

#[test]
fn load_image_loads_consecutive_words() {
    let state = State::new();
    let mut loaded = load_image(
        state,
        &[0x40, 0x00, 0x12, 0x34, 0x56, 0x78, 0x9a, 0xbc],
    )
    .unwrap();

    assert_eq!(loaded.pc, 0x4000);
    assert_eq!(loaded.memory.read(0x4000), 0x1234);
    assert_eq!(loaded.memory.read(0x4001), 0x5678);
    assert_eq!(loaded.memory.read(0x4002), 0x9abc);
}
