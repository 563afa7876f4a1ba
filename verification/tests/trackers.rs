use pane_cursor::decscusr::DecscusrTracker;
use pane_cursor::placement::{
    CursorPlacement, CursorPlacementTracker, CURSOR_INCIDENTAL_FINALS, CURSOR_POSITIONING_FINALS,
};

fn overridden_after(bytes: &[u8]) -> bool {
    let mut tracker = DecscusrTracker::default();
    tracker.observe(bytes);
    tracker.cursor_shape_overridden()
}

fn placement_after(bytes: &[u8]) -> CursorPlacement {
    let mut tracker = CursorPlacementTracker::default();
    tracker.observe(bytes);
    tracker.placement()
}

#[test]
fn cursor_placement_tracker_separates_positioning_from_printing() {
    let mut tracker = CursorPlacementTracker::default();
    assert_eq!(tracker.placement(), CursorPlacement::Positioned);

    tracker.observe(b"Ready");
    assert_eq!(tracker.placement(), CursorPlacement::Printed);

    tracker.observe(b"\x1b[24;1H");
    assert_eq!(tracker.placement(), CursorPlacement::Positioned);

    tracker.observe(b"\x1b[24;1HReady");
    assert_eq!(tracker.placement(), CursorPlacement::Printed);

    // A title update after the placement is not printing.
    tracker.observe(b"\x1b[12;9H\x1b]0;codex\x07");
    assert_eq!(tracker.placement(), CursorPlacement::Positioned);

    // Styling and mode changes do not move the cursor.
    tracker.observe(b"\x1b[24;1H\x1b[1;32m\x1b[?25h");
    assert_eq!(tracker.placement(), CursorPlacement::Positioned);

    // Positioning in order to erase is not a placement. This is the measured
    // tail of a real agent frame: it clears the end of its status row, shows
    // the cursor and closes the block, and places its caret only afterwards.
    tracker.observe(b"\x1b[m\x1b[14;66H\x1b[K\x1b[?25h\x1b[?2026l");
    assert_eq!(tracker.placement(), CursorPlacement::Printed);

    // The placement that follows the erase is the real one.
    tracker.observe(b"\x1b[12;9H\x1b[?25h");
    assert_eq!(tracker.placement(), CursorPlacement::Positioned);

    // A sequence split across read batches still parses.
    tracker.observe(b"text");
    tracker.observe(b"\x1b[9");
    tracker.observe(b";4H");
    assert_eq!(tracker.placement(), CursorPlacement::Positioned);

    // Wrapping and line feeds leave the cursor wherever the text ended.
    tracker.observe(b"\r\n");
    assert_eq!(tracker.placement(), CursorPlacement::Printed);
}

#[test]
fn final_bytes_are_those_of_the_lists() {
    assert_eq!(&CURSOR_POSITIONING_FINALS, b"ABCDEFGHIZdefa`");
    assert_eq!(&CURSOR_INCIDENTAL_FINALS, b"JKLMPX@");
    for last in 0x40..=0x7eu8 {
        let expected = if b"JKLMPX@".contains(&last) {
            CursorPlacement::Printed
        } else {
            CursorPlacement::Positioned
        };
        assert_eq!(placement_after(&[0x1b, b'[', b'3', last]), expected);
        let expected = if b"ABCDEFGHIZdefa`".contains(&last) {
            CursorPlacement::Positioned
        } else {
            CursorPlacement::Printed
        };
        assert_eq!(placement_after(&[b'x', 0x1b, b'[', b'3', last]), expected);
    }
}

#[test]
fn control_codes_print_only_if_they_move_the_cursor() {
    for byte in 0..=255u8 {
        let expected = if byte >= 0x20 || (0x08..=0x0d).contains(&byte) {
            CursorPlacement::Printed
        } else {
            CursorPlacement::Positioned
        };
        assert_eq!(placement_after(&[byte]), expected);
    }
}

#[test]
fn payloads_are_not_printing() {
    for opener in [b']', b'P', b'X', b'^', b'_'] {
        let mut bell = vec![0x1b, opener];
        bell.extend_from_slice(b"payload\x07");
        assert_eq!(placement_after(&bell), CursorPlacement::Positioned);
        bell.push(b'x');
        assert_eq!(placement_after(&bell), CursorPlacement::Printed);

        let mut terminated = vec![0x1b, opener];
        terminated.extend_from_slice(b"payload\x1b\x1b\\");
        assert_eq!(placement_after(&terminated), CursorPlacement::Positioned);
        terminated.push(b'x');
        assert_eq!(placement_after(&terminated), CursorPlacement::Printed);
    }
}

#[test]
fn restoring_the_cursor_is_a_placement() {
    assert_eq!(placement_after(b"text\x1b8"), CursorPlacement::Positioned);
    assert_eq!(placement_after(b"text\x1b7"), CursorPlacement::Printed);
}

#[test]
fn charset_selection_is_not_printing() {
    assert_eq!(placement_after(b"\x1b(B"), CursorPlacement::Positioned);
    assert_eq!(placement_after(b"\x1b(BB"), CursorPlacement::Printed);
    assert_eq!(placement_after(b"\x1b#8"), CursorPlacement::Positioned);
    // The announced byte belongs to the sequence even if it is an escape.
    assert_eq!(placement_after(b"\x1b(\x1b["), CursorPlacement::Printed);
}

#[test]
fn an_escape_cuts_a_control_sequence_short() {
    assert_eq!(
        placement_after(b"x\x1b[3\x1b[4H"),
        CursorPlacement::Positioned
    );
    assert_eq!(placement_after(b"x\x1b\x1b[4H"), CursorPlacement::Positioned);
}

#[test]
fn placement_batches_may_be_cut_anywhere() {
    let bytes = b"ab\x1b[2;3H\x1b]0;t\x1b\\\x1b(B\x1b[K\x1b8";
    for cut in 0..=bytes.len() {
        let mut tracker = CursorPlacementTracker::default();
        tracker.observe(&bytes[..cut]);
        tracker.observe(&bytes[cut..]);
        assert_eq!(tracker.placement(), placement_after(bytes));
    }
}

#[test]
fn placement_defaults_to_positioned() {
    assert_eq!(CursorPlacement::default(), CursorPlacement::Positioned);
}

#[test]
fn shapes_one_to_six_override_and_zero_resets() {
    assert!(!overridden_after(b""));
    for shape in b"123456" {
        assert!(overridden_after(&[0x1b, b'[', *shape, b' ', b'q']));
        assert!(!overridden_after(&[
            0x1b, b'[', *shape, b' ', b'q', 0x1b, b'[', b'0', b' ', b'q'
        ]));
    }
    assert!(!overridden_after(b"\x1b[2 q\x1b[ q"));
    assert!(overridden_after(b"\x1b[0002 q"));
}

#[test]
fn unknown_shapes_change_nothing() {
    assert!(!overridden_after(b"\x1b[7 q"));
    assert!(overridden_after(b"\x1b[2 q\x1b[7 q"));
    assert!(overridden_after(b"\x1b[2 q\x1b[65535 q"));
    assert!(!overridden_after(b"\x1b[65535 q"));
}

#[test]
fn numbers_beyond_sixteen_bits_wrap() {
    assert!(!overridden_after(b"\x1b[2 q\x1b[65536 q"));
    assert!(overridden_after(b"\x1b[65537 q"));
    assert!(overridden_after(b"\x1b[2 q\x1b[99990 q"));
    assert!(!overridden_after(b"\x1b[2 q\x1b[99991 q"));
    assert!(overridden_after(b"\x1b[99992 q"));
}

#[test]
fn a_q_without_the_space_is_another_sequence() {
    assert!(!overridden_after(b"\x1b[2q"));
    assert!(!overridden_after(b"\x1b[2 r"));
    assert!(!overridden_after(b"2 q"));
    assert!(!overridden_after(b"\x1b2 q"));
}

#[test]
fn only_the_first_parameter_counts() {
    assert!(overridden_after(b"\x1b[2;0 q"));
    assert!(overridden_after(b"\x1b[2:0 q"));
    assert!(!overridden_after(b"\x1b[0;2 q"));
    assert!(!overridden_after(b"\x1b[;2 q"));
    assert!(!overridden_after(b"\x1b[ 2q"));
    assert!(overridden_after(b"\x1b[?2 q"));
}

#[test]
fn stray_bytes_and_escapes_restart_the_sequence() {
    assert!(!overridden_after(b"\x1b[2\x07 q"));
    assert!(!overridden_after(b"\x1b[2\x7f q"));
    assert!(overridden_after(b"\x1b[5\x1b[2 q"));
    assert!(overridden_after(b"\x1b\x1b[2 q"));
}

#[test]
fn text_leaves_the_shape_alone() {
    assert!(overridden_after(b"\x1b[2 qquick 0 q text"));
}

#[test]
fn shape_batches_may_be_cut_anywhere() {
    let bytes = b"q\x1b[3 qtext\x1b[0;1 q\x1b[4;5 q";
    for cut in 0..=bytes.len() {
        let mut tracker = DecscusrTracker::default();
        tracker.observe(&bytes[..cut]);
        tracker.observe(&bytes[cut..]);
        assert!(tracker.cursor_shape_overridden());
    }
}

#[test]
fn bytes_may_come_one_by_one() {
    let mut shape = DecscusrTracker::default();
    let mut place = CursorPlacementTracker::default();
    for byte in b"text\x1b[2 q\x1b[H" {
        shape.observe_byte(*byte);
        place.observe_byte(*byte);
    }
    assert!(shape.cursor_shape_overridden());
    assert_eq!(place.placement(), CursorPlacement::Positioned);
}
