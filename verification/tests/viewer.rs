use agent_master::viewer::{
    entering, held, key_read, key_ready, keys_taken, leaving, settings_read, wait_ms, Key, Move,
    Viewer, REFRESH_MS,
};

#[test]
fn a_window_waits_for_the_reader() {
    for freeze in [false, true] {
        let viewer = Viewer::new(b"shown".to_vec(), freeze);
        for key in [b'q', b'Q', 0x1b, 0x03] {
            assert_eq!(viewer.key(Key::Pressed(key)), Move::Leave);
        }
        assert_eq!(viewer.key(Key::Ended), Move::Leave);
        for key in [b'x', b'\r', 0x00, 0xff] {
            assert_eq!(viewer.key(Key::Pressed(key)), Move::Wait);
        }
    }
}

#[test]
fn a_shown_window_is_asked_for_again_while_no_key_comes() {
    let viewer = Viewer::new(Vec::new(), false);
    assert_eq!(viewer.key(Key::Nothing), Move::Fetch);
}

#[test]
fn a_frozen_window_is_never_asked_for_again() {
    let viewer = Viewer::new(Vec::new(), true);
    assert_eq!(viewer.key(Key::Nothing), Move::Wait);
}

#[test]
fn a_window_is_drawn_where_it_changed() {
    let mut viewer = Viewer::new(b"first".to_vec(), false);
    assert_eq!(viewer.contents(), b"first");
    assert!(!viewer.fetched(b"first".to_vec()));
    assert!(viewer.fetched(b"second".to_vec()));
    assert_eq!(viewer.contents(), b"second");
    assert!(!viewer.fetched(b"second".to_vec()));
    assert!(viewer.fetched(b"secont".to_vec()));
}

#[test]
fn a_wait_that_fails_is_reported() {
    assert_eq!(key_ready(-1), Err("cannot wait for a key".to_string()));
    assert_eq!(key_ready(0), Ok(false));
    assert_eq!(key_ready(1), Ok(true));
}

#[test]
fn what_was_read_is_the_key() {
    assert_eq!(key_read(0, b'q'), Key::Ended);
    assert_eq!(key_read(1, b'q'), Key::Pressed(b'q'));
}

#[test]
fn a_wait_never_overflows() {
    assert_eq!(wait_ms(100), 100);
    assert_eq!(wait_ms(2_147_483_647), i32::MAX);
    assert_eq!(wait_ms(2_147_483_648), i32::MAX);
    assert_eq!(wait_ms(u128::MAX), i32::MAX);
}

#[test]
fn a_window_is_held_only_between_two_terminals() {
    assert!(held(true, true));
    assert!(!held(true, false));
    assert!(!held(false, true));
    assert!(!held(false, false));
}

#[test]
fn the_screen_is_taken_and_given_back_with_its_cursor() {
    assert_eq!(entering(), b"\x1b[?1049h");
    assert_eq!(leaving(), b"\x1b[?1049l\x1b[?25h");
}

#[test]
fn a_terminal_that_cannot_be_taken_is_reported() {
    assert_eq!(settings_read(0), Ok(()));
    assert_eq!(settings_read(-1), Err("cannot read the terminal's settings".to_string()));
    assert_eq!(keys_taken(0), Ok(()));
    assert_eq!(keys_taken(-1), Err("cannot take single keys from the terminal".to_string()));
}

#[test]
fn a_viewing_draws_every_change_once() {
    let mut viewer = Viewer::new(b"a".to_vec(), false);
    let mut frames = vec![viewer.contents().clone()];
    for next in [b"a", b"b", b"b", b"a", b"c", b"c"] {
        if viewer.fetched(next.to_vec()) {
            frames.push(viewer.contents().clone());
        }
    }
    assert_eq!(frames, vec![b"a".to_vec(), b"b".to_vec(), b"a".to_vec(), b"c".to_vec()]);
}

#[test]
fn the_window_is_asked_for_ten_times_a_second() {
    assert_eq!(REFRESH_MS, 100);
}
