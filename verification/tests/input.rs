use tetra::input::{InputState, KEY_COUNT, KEY_ESCAPE};

#[test]
fn new_input_state_has_every_key_up() {
    let input = InputState::new();
    for code in 0..(KEY_COUNT as u32 + 10) {
        assert!(!input.is_key_down(code));
        assert!(!input.is_key_pressed(code));
        assert!(!input.is_key_released(code));
    }
    assert_eq!(input.pointer_position(), (0, 0));
}

#[test]
fn key_table_tracks_322_codes() {
    assert_eq!(KEY_COUNT, 322);
    assert_eq!(KEY_ESCAPE, 27);
}

#[test]
fn set_key_records_press_and_release() {
    let mut input = InputState::new();
    input.set_key(65, true);
    assert!(input.is_key_down(65));
    assert!(input.is_key_pressed(65));
    assert!(!input.is_key_released(65));
    assert!(!input.is_key_down(66));

    input.begin_frame();
    input.set_key(65, false);
    assert!(!input.is_key_down(65));
    assert!(!input.is_key_pressed(65));
    assert!(input.is_key_released(65));
}

#[test]
fn begin_frame_without_key_events_leaves_tables_equal() {
    let mut input = InputState::new();
    input.set_key(10, true);
    input.set_key(200, true);
    input.set_key(321, true);
    input.begin_frame();
    for code in 0..(KEY_COUNT as u32) {
        assert!(!input.is_key_pressed(code));
        assert!(!input.is_key_released(code));
    }
    assert!(input.is_key_down(10));
    assert!(input.is_key_down(200));
    assert!(input.is_key_down(321));
    assert!(!input.is_key_down(11));
}

#[test]
fn begin_frame_copies_by_value() {
    let mut input = InputState::new();
    input.set_key(42, true);
    input.begin_frame();
    // Changing the current table must not reach back into the previous one.
    input.set_key(42, false);
    assert!(input.is_key_released(42));
    input.set_key(43, true);
    assert!(input.is_key_pressed(43));
}

#[test]
fn held_key_is_down_but_not_pressed() {
    let mut input = InputState::new();
    input.set_key(30, true);
    input.begin_frame();
    input.set_key(30, true);
    assert!(input.is_key_down(30));
    assert!(!input.is_key_pressed(30));
    assert!(!input.is_key_released(30));
}

#[test]
fn out_of_range_key_is_ignored() {
    let mut input = InputState::new();
    input.set_key(KEY_COUNT as u32, true);
    input.set_key(1_073_741_903, true);
    input.set_key(u32::MAX, true);
    assert!(!input.is_key_down(KEY_COUNT as u32));
    assert!(!input.is_key_down(1_073_741_903));
    assert!(!input.is_key_down(u32::MAX));
    assert!(!input.is_key_pressed(u32::MAX));
    for code in 0..(KEY_COUNT as u32) {
        assert!(!input.is_key_down(code));
    }
}

#[test]
fn highest_tracked_key_is_recorded() {
    let mut input = InputState::new();
    input.set_key(KEY_COUNT as u32 - 1, true);
    assert!(input.is_key_down(KEY_COUNT as u32 - 1));
    input.set_key(0, true);
    assert!(input.is_key_down(0));
}

#[test]
fn pointer_position_last_writer_wins() {
    let mut input = InputState::new();
    input.set_pointer_position(10, 20);
    input.set_pointer_position(-5, 7);
    assert_eq!(input.pointer_position(), (-5, 7));
    input.begin_frame();
    assert_eq!(input.pointer_position(), (-5, 7));
    input.set_key(3, true);
    assert_eq!(input.pointer_position(), (-5, 7));
}

#[test]
fn press_and_release_within_one_frame_leaves_no_trace() {
    let mut input = InputState::new();
    input.begin_frame();
    input.set_key(50, true);
    input.set_key(50, false);
    assert!(!input.is_key_down(50));
    assert!(!input.is_key_pressed(50));
    assert!(!input.is_key_released(50));
}
