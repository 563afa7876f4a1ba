use pane_cursor::clock::Instant;
use pane_cursor::placement::CursorPlacement;
use pane_cursor::settle::{
    same_cursor_position, CursorPositionSettleState, CURSOR_POSITION_MAX_HOLD,
    CURSOR_POSITION_SETTLE,
};
use pane_cursor::terminal::TerminalCursorState;

fn cursor(x: u16, y: u16, visible: bool, shape: u8) -> TerminalCursorState {
    TerminalCursorState {
        x,
        y,
        visible,
        shape,
    }
}

fn start() -> Instant {
    Instant {
        nanos: 86_400_000_000_000,
    }
}

fn millis(count: u64) -> u128 {
    u128::from(count) * 1_000_000
}

fn plus(instant: Instant, nanos: u128) -> Instant {
    Instant {
        nanos: instant.nanos + nanos,
    }
}

#[test]
fn cursor_settle_holds_position_change_until_quiet_window() {
    let now = start();
    let mut settle = CursorPositionSettleState::default();
    settle.observe(Some(cursor(1, 0, true, 0)), now);
    settle.observe(Some(cursor(20, 5, true, 0)), plus(now, millis(1)));

    let reported = settle
        .reported_cursor(Some(cursor(20, 5, true, 0)), plus(now, millis(2)))
        .unwrap();

    assert_eq!((reported.x, reported.y), (1, 0));
}

#[test]
fn cursor_settle_adopts_position_change_after_quiet_window() {
    let now = start();
    let mut settle = CursorPositionSettleState::default();
    settle.observe(Some(cursor(1, 0, true, 0)), now);
    settle.observe(Some(cursor(2, 0, true, 0)), plus(now, millis(1)));

    let reported = settle
        .reported_cursor(
            Some(cursor(2, 0, true, 0)),
            plus(now, CURSOR_POSITION_SETTLE + millis(1)),
        )
        .unwrap();

    assert_eq!((reported.x, reported.y), (2, 0));
}

#[test]
fn cursor_settle_caps_continuous_position_changes_from_first_pending_time() {
    let now = start();
    let mut settle = CursorPositionSettleState::default();
    settle.observe(Some(cursor(1, 0, true, 0)), now);

    // Churn arriving faster than the settle window never lets the burst
    // end, so only the max hold can release the held position.
    let mut at = now;
    let mut last = 1u16;
    while at.duration_since(now) < CURSOR_POSITION_MAX_HOLD + millis(10) {
        at = plus(at, millis(10));
        last += 1;
        settle.observe(Some(cursor(last, 0, true, 0)), at);
    }

    assert!(!settle.pending());
    assert_eq!(
        settle.reported_cursor(Some(cursor(last, 0, true, 0)), plus(at, millis(1))),
        Some(cursor(last, 0, true, 0))
    );
}

#[test]
fn cursor_settle_commits_candidate_when_the_write_burst_ends() {
    // Two redraws separated by an idle gap. The second redraw must not be
    // able to settle on its own mid-redraw position.
    let now = start();
    let mut settle = CursorPositionSettleState::default();
    let shell = cursor(2, 5, true, 0);
    let caret = cursor(7, 34, true, 0);
    let footer = cursor(33, 36, true, 0);

    settle.observe(Some(shell), now);
    settle.observe(Some(footer), plus(now, millis(10)));
    settle.observe(Some(caret), plus(now, millis(18)));

    settle.observe(Some(footer), plus(now, millis(218)));
    let reported = settle
        .reported_cursor(Some(footer), plus(now, millis(220)))
        .expect("cursor");

    assert_eq!((reported.x, reported.y), (caret.x, caret.y));
}

#[test]
fn cursor_settle_never_reports_a_mid_redraw_paint_position() {
    let now = start();
    let mut settle = CursorPositionSettleState::default();
    settle.observe(Some(cursor(7, 19, true, 0)), now);

    // A redraw leaves the cursor on the last repainted row before the child
    // places it back on its input line.
    settle.observe(Some(cursor(5, 23, true, 0)), plus(now, millis(1)));
    assert_eq!(
        settle.reported_cursor(Some(cursor(5, 23, true, 0)), plus(now, millis(2))),
        Some(cursor(7, 19, true, 0))
    );

    settle.observe(Some(cursor(8, 19, true, 0)), plus(now, millis(3)));
    assert_eq!(
        settle.reported_cursor(Some(cursor(8, 19, true, 0)), plus(now, millis(4))),
        Some(cursor(7, 19, true, 0))
    );
    assert_eq!(
        settle.reported_cursor(
            Some(cursor(8, 19, true, 0)),
            plus(now, millis(3) + CURSOR_POSITION_SETTLE + millis(1)),
        ),
        Some(cursor(8, 19, true, 0))
    );
}

#[test]
fn cursor_settle_holds_a_frame_that_closed_on_printed_text() {
    // Measured shape from a real agent pane: the child paints inside its
    // synchronized output block, closes the block with the cursor still on the
    // row it painted last, and places its caret only afterwards - 24ms later,
    // which is past the settle window.
    let now = start();
    let mut settle = CursorPositionSettleState::default();
    let caret = cursor(58, 11, true, 0);
    let painted = cursor(65, 13, true, 0);
    let placed = cursor(59, 11, true, 0);

    settle.observe(Some(caret), now);
    settle.observe_synchronized();
    settle.observe_synchronized();
    settle.observe_with_placement(
        Some(painted),
        plus(now, millis(1)),
        CursorPlacement::Printed,
    );

    for after in [2, 10, 21, 23] {
        assert_eq!(
            settle
                .reported_cursor(Some(painted), plus(now, millis(after)))
                .map(|reported| (reported.x, reported.y)),
            Some((caret.x, caret.y)),
            "reported the painted row {after}ms after the frame closed"
        );
    }

    settle.observe_with_placement(
        Some(placed),
        plus(now, millis(25)),
        CursorPlacement::Positioned,
    );
    assert_eq!(
        settle
            .reported_cursor(Some(placed), plus(now, millis(26)))
            .map(|reported| (reported.x, reported.y)),
        Some((caret.x, caret.y)),
        "the gap before the placement must not settle the painted row"
    );
    assert_eq!(
        settle
            .reported_cursor(Some(placed), plus(now, millis(46)))
            .map(|reported| (reported.x, reported.y)),
        Some((placed.x, placed.y))
    );
}

#[test]
fn cursor_settle_adopts_a_frame_that_closed_on_a_placement() {
    // The same frame shape, except the child placed its cursor inside the
    // block before closing it. That position is real, so it must not be held
    // any longer than an ordinary position change or the cursor trails every
    // keystroke instead of following it.
    let now = start();
    let mut settle = CursorPositionSettleState::default();
    let previous = cursor(23, 11, true, 0);
    let placed = cursor(24, 11, true, 0);

    settle.observe(Some(previous), now);
    settle.observe_synchronized();
    settle.observe_with_placement(
        Some(placed),
        plus(now, millis(1)),
        CursorPlacement::Positioned,
    );

    assert_eq!(
        settle
            .reported_cursor(Some(placed), plus(now, millis(2)))
            .map(|reported| (reported.x, reported.y)),
        Some((previous.x, previous.y))
    );
    assert_eq!(
        settle
            .reported_cursor(
                Some(placed),
                plus(now, CURSOR_POSITION_SETTLE + millis(2))
            )
            .map(|reported| (reported.x, reported.y)),
        Some((placed.x, placed.y)),
        "a placed cursor must be adopted on the ordinary settle schedule"
    );
}

#[test]
fn cursor_settle_keeps_render_read_pure() {
    let now = start();
    let mut settle = CursorPositionSettleState::default();
    settle.observe(Some(cursor(1, 0, true, 0)), now);
    settle.observe(Some(cursor(2, 0, true, 0)), plus(now, millis(1)));

    assert!(settle.pending());
    let _ = settle.reported_cursor(
        Some(cursor(2, 0, true, 0)),
        plus(now, CURSOR_POSITION_SETTLE + millis(1)),
    );

    assert!(settle.pending());
}

#[test]
fn cursor_settle_passes_shape_through_while_position_is_held() {
    let now = start();
    let mut settle = CursorPositionSettleState::default();
    settle.observe(Some(cursor(1, 0, true, 2)), now);
    settle.observe(Some(cursor(2, 0, true, 6)), plus(now, millis(1)));

    let reported = settle
        .reported_cursor(Some(cursor(2, 0, true, 6)), plus(now, millis(2)))
        .unwrap();

    assert_eq!((reported.x, reported.y, reported.shape), (1, 0, 6));
}

#[test]
fn cursor_settle_passes_shape_through_after_quiet_window() {
    let now = start();
    let mut settle = CursorPositionSettleState::default();
    settle.observe(Some(cursor(1, 0, true, 2)), now);
    settle.observe(Some(cursor(2, 0, true, 2)), plus(now, millis(1)));

    let reported = settle
        .reported_cursor(
            Some(cursor(2, 0, true, 6)),
            plus(now, CURSOR_POSITION_SETTLE + millis(1)),
        )
        .unwrap();

    assert_eq!((reported.x, reported.y, reported.shape), (2, 0, 6));
}

#[test]
fn cursor_settle_hides_immediately_and_waits_to_reveal() {
    let now = start();
    let mut settle = CursorPositionSettleState::default();
    settle.observe(Some(cursor(1, 0, true, 0)), now);
    settle.observe(Some(cursor(1, 0, false, 0)), plus(now, millis(1)));

    assert_eq!(
        settle.reported_cursor(Some(cursor(1, 0, false, 0)), plus(now, millis(2))),
        Some(cursor(1, 0, false, 0))
    );

    settle.observe(Some(cursor(1, 0, true, 0)), plus(now, millis(3)));
    assert_eq!(
        settle.reported_cursor(Some(cursor(1, 0, true, 0)), plus(now, millis(4))),
        Some(cursor(1, 0, false, 0))
    );
}

#[test]
fn windows_are_twenty_and_a_hundred_milliseconds() {
    assert_eq!(CURSOR_POSITION_SETTLE, millis(20));
    assert_eq!(CURSOR_POSITION_MAX_HOLD, millis(100));
}

#[test]
fn time_since_a_later_point_is_zero() {
    let now = start();
    assert_eq!(plus(now, 7).duration_since(now), 7);
    assert_eq!(now.duration_since(plus(now, 7)), 0);
    assert_eq!(now.duration_since(now), 0);
}

#[test]
fn same_position_ignores_shape_and_visibility() {
    assert!(same_cursor_position(
        cursor(3, 4, true, 0),
        cursor(3, 4, false, 6)
    ));
    assert!(!same_cursor_position(
        cursor(3, 4, true, 0),
        cursor(4, 4, true, 0)
    ));
    assert!(!same_cursor_position(
        cursor(3, 4, true, 0),
        cursor(3, 3, true, 0)
    ));
}

#[test]
fn nothing_observed_reports_the_current_cursor() {
    let settle = CursorPositionSettleState::default();
    assert!(!settle.pending());
    assert_eq!(settle.reported_cursor(None, start()), None);
    assert_eq!(
        settle.reported_cursor(Some(cursor(9, 9, true, 4)), start()),
        Some(cursor(9, 9, true, 4))
    );
}

#[test]
fn absence_is_reported_even_while_a_position_is_pending() {
    let now = start();
    let mut settle = CursorPositionSettleState::default();
    settle.observe(Some(cursor(1, 0, true, 0)), now);
    settle.observe(Some(cursor(2, 0, true, 0)), plus(now, millis(1)));
    assert_eq!(settle.reported_cursor(None, plus(now, millis(2))), None);

    settle.observe(None, plus(now, millis(3)));
    assert!(!settle.pending());
    assert_eq!(
        settle.reported_cursor(Some(cursor(2, 0, true, 0)), plus(now, millis(4))),
        Some(cursor(2, 0, true, 0))
    );
    // With nothing settled the next position is adopted at once.
    settle.observe(Some(cursor(5, 5, true, 0)), plus(now, millis(5)));
    assert!(!settle.pending());
}

#[test]
fn settle_window_is_met_to_the_nanosecond() {
    let now = start();
    let mut settle = CursorPositionSettleState::default();
    let old = cursor(1, 0, true, 0);
    let new = cursor(2, 0, true, 0);
    settle.observe(Some(old), now);
    settle.observe(Some(new), plus(now, 3));
    assert_eq!(
        settle.reported_cursor(Some(new), plus(now, 3 + CURSOR_POSITION_SETTLE - 1)),
        Some(old)
    );
    assert_eq!(
        settle.reported_cursor(Some(new), plus(now, 3 + CURSOR_POSITION_SETTLE)),
        Some(new)
    );
    // Once adopted it stays so.
    assert_eq!(
        settle.reported_cursor(Some(new), plus(now, millis(5000))),
        Some(new)
    );
}

#[test]
fn painted_frame_is_released_after_the_longer_window() {
    let now = start();
    let mut settle = CursorPositionSettleState::default();
    let old = cursor(1, 0, true, 0);
    let painted = cursor(2, 0, true, 0);
    settle.observe(Some(old), now);
    settle.observe_synchronized();
    settle.observe_with_placement(Some(painted), now, CursorPlacement::Printed);
    assert_eq!(
        settle.reported_cursor(Some(painted), plus(now, CURSOR_POSITION_MAX_HOLD - 1)),
        Some(old)
    );
    assert_eq!(
        settle.reported_cursor(Some(painted), plus(now, CURSOR_POSITION_MAX_HOLD)),
        Some(painted)
    );
    // A pause shorter than that settles nothing.
    settle.observe(Some(cursor(3, 0, true, 0)), plus(now, millis(60)));
    assert_eq!(
        settle.reported_cursor(Some(cursor(3, 0, true, 0)), plus(now, millis(61))),
        Some(old)
    );
}

#[test]
fn printing_outside_a_frame_is_held_like_any_move() {
    let now = start();
    let mut settle = CursorPositionSettleState::default();
    let old = cursor(1, 0, true, 0);
    let new = cursor(2, 0, true, 0);
    settle.observe(Some(old), now);
    settle.observe_with_placement(Some(new), now, CursorPlacement::Printed);
    assert_eq!(
        settle.reported_cursor(Some(new), plus(now, CURSOR_POSITION_SETTLE)),
        Some(new)
    );
}

#[test]
fn one_observation_uses_up_a_frame() {
    let now = start();
    let mut settle = CursorPositionSettleState::default();
    let old = cursor(1, 0, true, 0);
    let new = cursor(2, 0, true, 0);
    settle.observe_synchronized();
    settle.observe_with_placement(Some(old), now, CursorPlacement::Printed);
    assert!(!settle.pending());
    settle.observe_with_placement(Some(new), now, CursorPlacement::Printed);
    assert_eq!(
        settle.reported_cursor(Some(new), plus(now, CURSOR_POSITION_SETTLE)),
        Some(new)
    );
}

#[test]
fn synchronized_output_changes_no_report() {
    let now = start();
    let mut settle = CursorPositionSettleState::default();
    settle.observe(Some(cursor(1, 0, true, 0)), now);
    settle.observe(Some(cursor(2, 0, true, 0)), plus(now, millis(1)));
    let before = settle.reported_cursor(Some(cursor(2, 0, true, 0)), plus(now, millis(2)));
    settle.observe_synchronized();
    assert_eq!(
        settle.reported_cursor(Some(cursor(2, 0, true, 0)), plus(now, millis(2))),
        before
    );
    assert!(settle.pending());
}

#[test]
fn returning_to_the_settled_cell_forgets_the_move() {
    let now = start();
    let mut settle = CursorPositionSettleState::default();
    settle.observe(Some(cursor(1, 0, true, 0)), now);
    settle.observe(Some(cursor(2, 0, true, 0)), plus(now, millis(1)));
    settle.observe(Some(cursor(1, 0, true, 5)), plus(now, millis(2)));
    assert!(!settle.pending());
    assert_eq!(
        settle.reported_cursor(Some(cursor(1, 0, true, 5)), plus(now, millis(2))),
        Some(cursor(1, 0, true, 5))
    );
}

#[test]
fn observing_a_due_position_settles_on_it() {
    let now = start();
    let mut settle = CursorPositionSettleState::default();
    let new = cursor(2, 0, true, 1);
    settle.observe(Some(cursor(1, 0, true, 0)), now);
    settle.observe(Some(new), plus(now, millis(1)));
    settle.observe(Some(new), plus(now, millis(11)));
    assert!(settle.pending());
    assert_eq!(
        settle.reported_cursor(Some(new), plus(now, millis(21))),
        Some(new)
    );
    settle.observe(Some(new), plus(now, millis(21)));
    assert!(!settle.pending());
    assert_eq!(
        settle.reported_cursor(Some(new), plus(now, millis(21))),
        Some(new)
    );
}

#[test]
fn churn_pending_at_the_cap_settles_on_what_is_seen() {
    let now = start();
    let mut settle = CursorPositionSettleState::default();
    settle.observe(Some(cursor(1, 0, true, 0)), now);
    for step in 0..10u16 {
        settle.observe(
            Some(cursor(10 + step, 0, true, 0)),
            plus(now, millis(u64::from(step) * 10)),
        );
        assert!(settle.pending());
    }
    settle.observe(Some(cursor(50, 0, true, 0)), plus(now, millis(100)));
    assert!(!settle.pending());
}

#[test]
fn clearing_drops_the_pending_position_only() {
    let now = start();
    let mut settle = CursorPositionSettleState::default();
    settle.observe(Some(cursor(1, 0, true, 0)), now);
    settle.observe(Some(cursor(2, 0, true, 0)), plus(now, millis(1)));
    settle.clear_pending();
    assert!(!settle.pending());
    // The settled position is still there: a move is held again.
    settle.observe(Some(cursor(2, 0, true, 0)), plus(now, millis(2)));
    assert_eq!(
        settle.reported_cursor(Some(cursor(2, 0, true, 0)), plus(now, millis(3))),
        Some(cursor(1, 0, true, 0))
    );
}

#[test]
fn reports_do_not_depend_on_the_origin_of_time() {
    for origin in [0u128, 1, 1 << 100] {
        let now = Instant { nanos: origin };
        let mut settle = CursorPositionSettleState::default();
        settle.observe(Some(cursor(1, 0, true, 0)), now);
        settle.observe(Some(cursor(2, 0, true, 0)), plus(now, millis(1)));
        assert_eq!(
            settle.reported_cursor(Some(cursor(2, 0, true, 0)), plus(now, millis(20))),
            Some(cursor(1, 0, true, 0))
        );
        assert_eq!(
            settle.reported_cursor(Some(cursor(2, 0, true, 0)), plus(now, millis(21))),
            Some(cursor(2, 0, true, 0))
        );
    }
}

#[test]
fn seeing_a_pending_position_again_does_not_prolong_it() {
    let now = start();
    let mut settle = CursorPositionSettleState::default();
    let old = cursor(1, 0, true, 0);
    let new = cursor(2, 0, true, 0);
    settle.observe(Some(old), now);
    settle.observe(Some(new), plus(now, millis(1)));
    settle.observe(Some(new), plus(now, millis(15)));
    assert_eq!(
        settle.reported_cursor(Some(new), plus(now, millis(20))),
        Some(old)
    );
    assert_eq!(
        settle.reported_cursor(Some(new), plus(now, millis(21))),
        Some(new)
    );
}

#[test]
fn another_move_restarts_the_window() {
    let now = start();
    let mut settle = CursorPositionSettleState::default();
    let old = cursor(1, 0, true, 0);
    let new = cursor(3, 0, true, 0);
    settle.observe(Some(old), now);
    settle.observe(Some(cursor(2, 0, true, 0)), plus(now, millis(1)));
    settle.observe(Some(new), plus(now, millis(15)));
    assert_eq!(
        settle.reported_cursor(Some(new), plus(now, millis(34))),
        Some(old)
    );
    assert_eq!(
        settle.reported_cursor(Some(new), plus(now, millis(35))),
        Some(new)
    );
}

#[test]
fn frames_closed_on_a_placement_do_not_stretch_the_cap() {
    let now = start();
    let mut settle = CursorPositionSettleState::default();
    settle.observe(Some(cursor(1, 0, true, 0)), now);
    for step in 0..10u16 {
        settle.observe_synchronized();
        settle.observe_with_placement(
            Some(cursor(10 + step, 0, true, 0)),
            plus(now, millis(u64::from(step) * 10)),
            CursorPlacement::Positioned,
        );
        assert!(settle.pending());
    }
    settle.observe_synchronized();
    settle.observe_with_placement(
        Some(cursor(50, 0, true, 0)),
        plus(now, millis(100)),
        CursorPlacement::Positioned,
    );
    assert!(!settle.pending());
}

#[test]
fn frames_closed_on_printed_text_keep_holding() {
    let now = start();
    let mut settle = CursorPositionSettleState::default();
    let old = cursor(1, 0, true, 0);
    let painted = cursor(2, 0, true, 0);
    settle.observe(Some(old), now);
    for step in 0..10u64 {
        settle.observe_synchronized();
        settle.observe_with_placement(
            Some(painted),
            plus(now, millis(step * 50)),
            CursorPlacement::Printed,
        );
    }
    assert_eq!(
        settle.reported_cursor(Some(painted), plus(now, millis(549))),
        Some(old)
    );
    assert_eq!(
        settle.reported_cursor(Some(painted), plus(now, millis(550))),
        Some(painted)
    );
}

#[test]
fn reports_follow_the_cursor_seen_at_the_time() {
    let now = start();
    let mut settle = CursorPositionSettleState::default();
    settle.observe(Some(cursor(1, 0, true, 0)), now);
    settle.observe(Some(cursor(2, 0, true, 0)), plus(now, millis(1)));
    assert_eq!(
        settle.reported_cursor(Some(cursor(7, 7, true, 4)), plus(now, millis(2))),
        Some(cursor(1, 0, true, 4))
    );
    assert_eq!(
        settle.reported_cursor(Some(cursor(7, 7, false, 4)), plus(now, millis(21))),
        Some(cursor(2, 0, false, 4))
    );
}
