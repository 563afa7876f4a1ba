//! What holds of the settling cursor in every state and over many calls.

use vstd::prelude::*;

use crate::placement::CursorPlacement;
use crate::settle::{PendingModel, SettleModel};
use crate::settle::{CURSOR_POSITION_MAX_HOLD, CURSOR_POSITION_SETTLE};
use crate::terminal::TerminalCursorState;

verus! {

/// One call that changes the state.
pub enum SettleEvent {
    Synchronized,
    Observed {
        current: Option<TerminalCursorState>,
        now: int,
        placement: CursorPlacement,
    },
}

/// The state after a call.
pub open spec fn after_event(state: SettleModel, event: SettleEvent) -> SettleModel {
    match event {
        SettleEvent::Synchronized => state.synchronized(),
        SettleEvent::Observed { current, now, placement } => state.observed(
            current,
            now,
            placement,
        ),
    }
}

/// The state after a run of calls.
pub open spec fn run(state: SettleModel, events: Seq<SettleEvent>) -> SettleModel
    decreases events.len(),
{
    if events.len() == 0 {
        state
    } else {
        after_event(run(state, events.drop_last()), events.last())
    }
}

/// Whether an observation closes a synchronized frame that ended on printed text.
pub open spec fn closes_on_paint(state: SettleModel, placement: CursorPlacement) -> bool {
    state.frame_open && placement is Printed
}

/// Whether a call observed a cursor on the cell of another.
pub open spec fn observes_cell(event: SettleEvent, cell: TerminalCursorState) -> bool {
    event matches SettleEvent::Observed { current: Some(cursor), .. } && cursor.x == cell.x
        && cursor.y == cell.y
}

/// Whether the times of a state are those of calls made in order, none after `now`.
pub open spec fn in_order(state: SettleModel, now: int) -> bool {
    &&& state.last_observed matches Some(last) ==> last <= now
    &&& state.pending matches Some(pending) ==> {
        &&& state.last_observed matches Some(last)
        &&& pending.first <= pending.since <= last
    }
}

/// Whether the child has been quiet for the settle window since it was last observed,
/// with a position pending that awaits no placement.
pub open spec fn quiet_gap(state: SettleModel, now: int) -> bool {
    &&& state.pending matches Some(pending)
    &&& !pending.awaiting_placement
    &&& state.last_observed matches Some(last)
    &&& now >= last + CURSOR_POSITION_SETTLE
}

/// Whether a cursor is the one to which others are held: the pending one after a quiet
/// gap, and else the settled one.
pub open spec fn rests_on(state: SettleModel, now: int, cursor: TerminalCursorState) -> bool {
    if quiet_gap(state, now) {
        state.pending->0.candidate == cursor
    } else {
        state.settled == Some(cursor)
    }
}

/// A state with its times counted from an origin that lies `by` earlier.
pub open spec fn shifted(state: SettleModel, by: int) -> SettleModel {
    SettleModel {
        pending: match state.pending {
            Some(pending) => Some(
                PendingModel { since: pending.since + by, first: pending.first + by, ..pending },
            ),
            None => None,
        },
        last_observed: match state.last_observed {
            Some(last) => Some(last + by),
            None => None,
        },
        ..state
    }
}

/// The parts fit together at first, and every call keeps it so.
pub proof fn law_calls_keep_validity(state: SettleModel, event: SettleEvent)
    ensures
        SettleModel::initial().valid(),
        state.valid() ==> after_event(state, event).valid(),
{
}

/// The parts fit together after any run of calls: a pending position is that of a visible
/// cursor, and the settled cursor to which it is held is elsewhere or hidden.
pub proof fn law_runs_are_valid(events: Seq<SettleEvent>)
    ensures
        run(SettleModel::initial(), events).valid(),
        run(SettleModel::initial(), events).pending matches Some(pending) ==> {
            &&& pending.candidate.visible
            &&& run(SettleModel::initial(), events).settled matches Some(settled)
            &&& !(settled.visible && settled.x == pending.candidate.x && settled.y
                == pending.candidate.y)
            &&& run(SettleModel::initial(), events).last_observed is Some
        },
    decreases events.len(),
{
    if events.len() > 0 {
        law_runs_are_valid(events.drop_last());
        law_calls_keep_validity(run(SettleModel::initial(), events.drop_last()), events.last());
    }
}

/// A cursor is reported exactly when the child has one. It has the current shape, it
/// shows only if the current one does, and it is on the current cell, on the pending
/// one or on the settled one.
pub proof fn law_report_follows_current(
    state: SettleModel,
    current: Option<TerminalCursorState>,
    now: int,
)
    requires
        state.valid(),
    ensures
        state.reported(current, now) is Some == current is Some,
        state.reported(current, now) matches Some(reported) ==> {
            &&& reported.shape == current->0.shape
            &&& reported.visible ==> current->0.visible
            &&& {
                ||| state.pending is None && reported == current->0
                ||| state.pending is Some && reported.x == state.pending->0.candidate.x
                    && reported.y == state.pending->0.candidate.y
                ||| state.pending is Some && reported.x == state.settled->0.x && reported.y
                    == state.settled->0.y
            }
        },
{
}

/// While a position is pending and not due, the settled cell is reported, in the current
/// shape, and it shows exactly if both the current and the settled cursor do: a hidden
/// cursor is never shown where it was hidden. The position is due once it has stood for
/// the settle window, or for the longer one if a placement is awaited.
pub proof fn law_held_report(
    state: SettleModel,
    pending: PendingModel,
    settled: TerminalCursorState,
    seen: TerminalCursorState,
    now: int,
)
    requires
        state.pending == Some(pending),
        state.settled == Some(settled),
        now < pending.since + if pending.awaiting_placement {
            CURSOR_POSITION_MAX_HOLD
        } else {
            CURSOR_POSITION_SETTLE
        },
    ensures
        state.reported(Some(seen), now) matches Some(reported) && {
            &&& reported.x == settled.x
            &&& reported.y == settled.y
            &&& reported.visible == (seen.visible && settled.visible)
            &&& reported.shape == seen.shape
        },
{
}

/// Once the pending position is due its cell is reported, in the current shape, and it
/// shows exactly if both the current and the pending cursor do.
pub proof fn law_due_report(
    state: SettleModel,
    pending: PendingModel,
    seen: TerminalCursorState,
    now: int,
)
    requires
        state.pending == Some(pending),
        now >= pending.since + if pending.awaiting_placement {
            CURSOR_POSITION_MAX_HOLD
        } else {
            CURSOR_POSITION_SETTLE
        },
    ensures
        state.reported(Some(seen), now) matches Some(reported) && {
            &&& reported.x == pending.candidate.x
            &&& reported.y == pending.candidate.y
            &&& reported.visible == (seen.visible && pending.candidate.visible)
            &&& reported.shape == seen.shape
        },
{
}

/// With nothing pending the current cursor is reported as it is, and an absent one never
/// is.
pub proof fn law_plain_report(
    state: SettleModel,
    seen: Option<TerminalCursorState>,
    now: int,
)
    ensures
        state.pending is None ==> state.reported(seen, now) == seen,
        state.reported(None, now) is None,
{
}

/// Every cell that was ever settled on or is pending was observed before.
proof fn lemma_cells_were_observed(events: Seq<SettleEvent>)
    ensures
        run(SettleModel::initial(), events).settled matches Some(settled) ==> exists|i: int|
            0 <= i < events.len() && observes_cell(#[trigger] events[i], settled),
        run(SettleModel::initial(), events).pending matches Some(pending) ==> exists|i: int|
            0 <= i < events.len() && observes_cell(#[trigger] events[i], pending.candidate),
    decreases events.len(),
{
    if events.len() > 0 {
        let before = run(SettleModel::initial(), events.drop_last());
        let state = run(SettleModel::initial(), events);
        lemma_cells_were_observed(events.drop_last());
        assert forall|i: int, cell: TerminalCursorState|
            0 <= i < events.len() - 1 && observes_cell(
                #[trigger] events.drop_last()[i],
                cell,
            ) implies #[trigger] observes_cell(events[i], cell) by {
        }
        if let Some(settled) = state.settled {
            if !observes_cell(events[events.len() - 1], settled) {
                let cell = if before.settled == state.settled {
                    before.settled->0
                } else {
                    before.pending->0.candidate
                };
                assert(cell == settled);
                let i = choose|i: int|
                    0 <= i < events.len() - 1 && observes_cell(
                        #[trigger] events.drop_last()[i],
                        cell,
                    );
                assert(observes_cell(events[i], settled));
            }
        }
        if let Some(pending) = state.pending {
            if !observes_cell(events[events.len() - 1], pending.candidate) {
                let i = choose|i: int|
                    0 <= i < events.len() - 1 && observes_cell(
                        #[trigger] events.drop_last()[i],
                        pending.candidate,
                    );
                assert(observes_cell(events[i], pending.candidate));
            }
        }
    }
}

/// After any run of calls, the cursor is reported on the current cell or on one that
/// was observed: never anywhere the child's cursor has not been.
pub proof fn law_only_real_cells_are_reported(
    events: Seq<SettleEvent>,
    current: TerminalCursorState,
    now: int,
)
    ensures
        run(SettleModel::initial(), events).reported(Some(current), now) matches Some(reported) && {
            ||| reported.x == current.x && reported.y == current.y
            ||| exists|i: int|
                0 <= i < events.len() && observes_cell(#[trigger] events[i], reported)
        },
{
    let state = run(SettleModel::initial(), events);
    law_runs_are_valid(events);
    lemma_cells_were_observed(events);
    let reported = state.reported(Some(current), now)->0;
    if let Some(pending) = state.pending {
        let held = if pending.is_due(now) {
            pending.candidate
        } else {
            state.settled->0
        };
        let i = choose|i: int|
            0 <= i < events.len() && observes_cell(#[trigger] events[i], held);
        assert(observes_cell(events[i], reported));
    }
}

/// Every observation is remembered as the last and uses up the open frame, and nothing
/// else does: at first none has been made.
pub proof fn law_observation_is_noted(
    state: SettleModel,
    current: Option<TerminalCursorState>,
    now: int,
    placement: CursorPlacement,
)
    ensures
        state.observed(current, now, placement).last_observed == Some(now),
        !state.observed(current, now, placement).frame_open,
        state.synchronized().last_observed == state.last_observed,
        state.synchronized().frame_open,
        SettleModel::initial().settled is None,
        SettleModel::initial().pending is None,
        SettleModel::initial().last_observed is None,
        !SettleModel::initial().frame_open,
{
}

/// Two cursors are on the same cell exactly if they agree on column and row, however they
/// show.
pub proof fn law_same_cell(left: TerminalCursorState, right: TerminalCursorState)
    ensures
        crate::settle::on_same_cell(left, right) <==> left.x == right.x && left.y == right.y,
{
}

/// The windows are twenty and a hundred milliseconds, counted in nanoseconds.
pub proof fn law_windows()
    ensures
        CURSOR_POSITION_SETTLE == 20 * 1_000_000,
        CURSOR_POSITION_MAX_HOLD == 100 * 1_000_000,
{
}

/// With no cursor settled, a visible one is settled on where it is first seen.
pub proof fn law_first_sighting_settles(
    state: SettleModel,
    cursor: TerminalCursorState,
    now: int,
    placement: CursorPlacement,
)
    requires
        state.settled is None,
        state.pending is None,
        cursor.visible,
    ensures
        state.observed(Some(cursor), now, placement).settled == Some(cursor),
        state.observed(Some(cursor), now, placement).pending is None,
{
}

/// A cursor that hides is settled on at once, and so is the absence of one: the child's
/// current cursor is then reported as it is.
pub proof fn law_hiding_is_immediate(
    state: SettleModel,
    current: Option<TerminalCursorState>,
    now: int,
    placement: CursorPlacement,
    later: int,
    seen: Option<TerminalCursorState>,
)
    requires
        current matches Some(cursor) ==> !cursor.visible,
    ensures
        state.observed(current, now, placement).settled == current,
        state.observed(current, now, placement).pending is None,
        state.observed(current, now, placement).reported(seen, later) == seen,
{
}

/// A visible cursor that moves away from a settled one, or shows where a hidden one
/// was, is held back for the settle window and adopted after it, whether nothing was
/// pending or a quiet gap has just settled what was. Until then the settled cell is
/// reported, hidden if the settled cursor is, and always with the shape of the cursor
/// that is current at the report.
pub proof fn law_news_is_held_then_adopted(
    state: SettleModel,
    settled: TerminalCursorState,
    cursor: TerminalCursorState,
    now: int,
    placement: CursorPlacement,
    seen: TerminalCursorState,
    later: int,
)
    requires
        rests_on(state, now, settled),
        state.pending is None || quiet_gap(state, now),
        cursor.visible,
        !(settled.visible && settled.x == cursor.x && settled.y == cursor.y),
        !(state.frame_open && placement is Printed),
    ensures
        state.observed(Some(cursor), now, placement).settled == Some(settled),
        state.observed(Some(cursor), now, placement).pending == Some(
            PendingModel { candidate: cursor, since: now, first: now, awaiting_placement: false },
        ),
        state.observed(Some(cursor), now, placement).reported(Some(seen), later) matches Some(reported)
            && {
            let held = if later < now + CURSOR_POSITION_SETTLE {
                settled
            } else {
                cursor
            };
            &&& reported.x == held.x
            &&& reported.y == held.y
            &&& reported.visible == (seen.visible && held.visible)
            &&& reported.shape == seen.shape
        },
{
}

/// A frame that closes on printed text is held back for the longer window, with the
/// previous cursor reported until then. The wait as a whole still counts from the first
/// move if one was pending and no quiet gap has ended it.
pub proof fn law_painted_frame_is_held(
    state: SettleModel,
    settled: TerminalCursorState,
    cursor: TerminalCursorState,
    now: int,
    seen: TerminalCursorState,
    later: int,
)
    requires
        rests_on(state, now, settled),
        state.frame_open,
        cursor.visible,
        !(settled.visible && settled.x == cursor.x && settled.y == cursor.y),
    ensures
        state.observed(Some(cursor), now, CursorPlacement::Printed).settled == Some(settled),
        state.observed(Some(cursor), now, CursorPlacement::Printed).pending == Some(
            PendingModel {
                candidate: cursor,
                since: now,
                first: if state.pending is Some && !quiet_gap(state, now) {
                    state.pending->0.first
                } else {
                    now
                },
                awaiting_placement: true,
            },
        ),
        state.observed(Some(cursor), now, CursorPlacement::Printed).reported(Some(seen), later) matches Some(reported)
            && {
            let held = if later < now + CURSOR_POSITION_MAX_HOLD {
                settled
            } else {
                cursor
            };
            &&& reported.x == held.x
            &&& reported.y == held.y
            &&& reported.visible == (seen.visible && held.visible)
            &&& reported.shape == seen.shape
        },
{
}

/// A frame that closes on printed text keeps the time of the first move: it does not
/// stretch the wait of a position that was pending when no quiet gap came before.
pub proof fn law_paint_keeps_the_first_move(
    state: SettleModel,
    pending: PendingModel,
    last: int,
    settled: TerminalCursorState,
    cursor: TerminalCursorState,
    now: int,
)
    requires
        state.pending == Some(pending),
        state.last_observed == Some(last),
        pending.awaiting_placement || now < last + CURSOR_POSITION_SETTLE,
        state.settled == Some(settled),
        state.frame_open,
        cursor.visible,
        !(settled.visible && settled.x == cursor.x && settled.y == cursor.y),
    ensures
        state.observed(Some(cursor), now, CursorPlacement::Printed).pending matches Some(next)
            && next.first == pending.first && next.since == now,
{
}

/// While a placement is awaited no pause settles the painted cell: an observation leaves
/// what was settled, or settles on the cursor that it saw.
pub proof fn law_pause_does_not_settle_paint(
    state: SettleModel,
    current: Option<TerminalCursorState>,
    now: int,
    placement: CursorPlacement,
)
    requires
        state.pending is Some,
        state.pending->0.awaiting_placement,
    ensures
        ({
            let next = state.observed(current, now, placement);
            next.settled == state.settled || next.settled == current
        }),
{
}

/// A further move restarts the settle window, as long as the whole wait is not over.
/// So the placement that follows a painted frame is held no longer than any other move,
/// whatever the frame was to be held. The whole wait still counts from the first move.
pub proof fn law_move_restarts_the_window(
    state: SettleModel,
    settled: TerminalCursorState,
    pending: PendingModel,
    cursor: TerminalCursorState,
    now: int,
    placement: CursorPlacement,
    seen: TerminalCursorState,
    later: int,
)
    requires
        state.settled == Some(settled),
        state.pending == Some(pending),
        !quiet_gap(state, now),
        now < pending.first + CURSOR_POSITION_MAX_HOLD,
        cursor.visible,
        !(settled.visible && settled.x == cursor.x && settled.y == cursor.y),
        !(cursor.x == pending.candidate.x && cursor.y == pending.candidate.y),
        !(state.frame_open && placement is Printed),
    ensures
        state.observed(Some(cursor), now, placement).settled == Some(settled),
        state.observed(Some(cursor), now, placement).pending == Some(
            PendingModel {
                candidate: cursor,
                since: now,
                first: pending.first,
                awaiting_placement: false,
            },
        ),
        state.observed(Some(cursor), now, placement).reported(Some(seen), later) matches Some(reported)
            && {
            let held = if later < now + CURSOR_POSITION_SETTLE {
                settled
            } else {
                cursor
            };
            &&& reported.x == held.x
            &&& reported.y == held.y
            &&& reported.visible == (seen.visible && held.visible)
            &&& reported.shape == seen.shape
        },
{
}

/// Seeing the cursor again where it is pending does not prolong its wait: it is settled
/// on if it has stood for the settle window, if the first move lies as far back as the
/// longer window, or after a quiet gap, and else its times stay as they were.
pub proof fn law_repeat_does_not_prolong(
    state: SettleModel,
    pending: PendingModel,
    cursor: TerminalCursorState,
    now: int,
    placement: CursorPlacement,
)
    requires
        state.valid(),
        state.pending == Some(pending),
        cursor.visible,
        cursor.x == pending.candidate.x && cursor.y == pending.candidate.y,
        !(state.frame_open && placement is Printed),
    ensures
        ({
            let next = state.observed(Some(cursor), now, placement);
            if now >= pending.since + CURSOR_POSITION_SETTLE || now >= pending.first
                + CURSOR_POSITION_MAX_HOLD || quiet_gap(state, now) {
                next.settled == Some(cursor) && next.pending is None
            } else {
                next.settled == state.settled && next.pending == Some(
                    PendingModel {
                        candidate: cursor,
                        since: pending.since,
                        first: pending.first,
                        awaiting_placement: pending.awaiting_placement,
                    },
                )
            }
        }),
{
}

/// A frame that closes on a placement is observed as if there had been no frame, and
/// printing outside a frame as if it were a placement.
pub proof fn law_placed_frame_is_ordinary(
    state: SettleModel,
    current: Option<TerminalCursorState>,
    now: int,
)
    ensures
        state.synchronized().observed(current, now, CursorPlacement::Positioned)
            == state.observed(current, now, CursorPlacement::Positioned),
        !state.frame_open ==> state.observed(current, now, CursorPlacement::Printed)
            == state.observed(current, now, CursorPlacement::Positioned),
{
}

/// Output inside a synchronized frame is not an observation: it changes no report, it
/// counts once however often it comes, and the next observation uses it up.
pub proof fn law_synchronized_is_not_an_observation(
    state: SettleModel,
    current: Option<TerminalCursorState>,
    now: int,
    placement: CursorPlacement,
)
    ensures
        state.synchronized().reported(current, now) == state.reported(current, now),
        state.synchronized().pending == state.pending,
        state.synchronized().synchronized() == state.synchronized(),
        !state.synchronized().observed(current, now, placement).frame_open,
{
}

/// A gap of the settle window since the last observation ends the burst: the pending
/// position, unless it awaits a placement, is settled on, and a visible cursor elsewhere
/// starts a wait of its own.
pub proof fn law_quiet_gap_commits(
    state: SettleModel,
    pending: PendingModel,
    last: int,
    cursor: TerminalCursorState,
    now: int,
    placement: CursorPlacement,
)
    requires
        state.pending == Some(pending),
        pending.candidate.visible,
        !pending.awaiting_placement,
        state.last_observed == Some(last),
        now >= last + CURSOR_POSITION_SETTLE,
        cursor.visible,
    ensures
        ({
            let next = state.observed(Some(cursor), now, placement);
            if pending.candidate.x == cursor.x && pending.candidate.y == cursor.y {
                next.settled == Some(cursor) && next.pending is None
            } else {
                next.settled == Some(pending.candidate) && next.pending == Some(
                    PendingModel {
                        candidate: cursor,
                        since: now,
                        first: now,
                        awaiting_placement: state.frame_open && placement is Printed,
                    },
                )
            }
        }),
{
}

/// Before such a gap has passed, or while a placement is awaited, the pending position is
/// not settled on for its own sake: an observation leaves what was settled, or settles on
/// the cursor that it saw.
pub proof fn law_no_gap_no_commit(
    state: SettleModel,
    current: Option<TerminalCursorState>,
    now: int,
    placement: CursorPlacement,
)
    requires
        state.pending matches Some(pending) ==> {
            ||| pending.awaiting_placement
            ||| state.last_observed is None
            ||| now < state.last_observed->0 + CURSOR_POSITION_SETTLE
        },
    ensures
        state.observed(current, now, placement).settled == state.settled || state.observed(
            current,
            now,
            placement,
        ).settled == current,
{
}

/// Two moves, the second a settle window or more after the first: the first is settled
/// on, and the second is held to it. If the second comes sooner, both are held to the
/// cursor from before.
pub proof fn law_second_move_is_held_to_the_first(
    state: SettleModel,
    settled: TerminalCursorState,
    one: TerminalCursorState,
    at_one: int,
    two: TerminalCursorState,
    at_two: int,
    seen: TerminalCursorState,
    later: int,
)
    requires
        state.settled == Some(settled),
        state.pending is None,
        one.visible && two.visible,
        !(settled.visible && settled.x == one.x && settled.y == one.y),
        !(settled.visible && settled.x == two.x && settled.y == two.y),
        !(one.x == two.x && one.y == two.y),
        at_one <= at_two,
        later < at_two + CURSOR_POSITION_SETTLE,
    ensures
        state.observed(Some(one), at_one, CursorPlacement::Positioned).observed(
            Some(two),
            at_two,
            CursorPlacement::Positioned,
        ).reported(Some(seen), later) matches Some(reported) && {
            let held = if at_two >= at_one + CURSOR_POSITION_SETTLE {
                one
            } else {
                settled
            };
            &&& reported.x == held.x
            &&& reported.y == held.y
            &&& reported.visible == (seen.visible && held.visible)
            &&& reported.shape == seen.shape
        },
{
}

/// A cursor that hides and then shows, anywhere, stays hidden until it has stood there
/// for the settle window.
pub proof fn law_shown_again_waits_hidden(
    state: SettleModel,
    hidden: TerminalCursorState,
    at_hidden: int,
    shown: TerminalCursorState,
    at_shown: int,
    seen: TerminalCursorState,
    later: int,
    placement: CursorPlacement,
)
    requires
        !hidden.visible,
        shown.visible,
    ensures
        state.observed(Some(hidden), at_hidden, placement).observed(
            Some(shown),
            at_shown,
            placement,
        ).reported(Some(seen), later) matches Some(reported) && {
            &&& reported.shape == seen.shape
            &&& if later < at_shown + CURSOR_POSITION_SETTLE {
                reported.x == hidden.x && reported.y == hidden.y && !reported.visible
            } else {
                reported.x == shown.x && reported.y == shown.y && reported.visible == seen.visible
            }
        },
{
}

/// After an observation that does not close a frame on printed text, the wait of a
/// position that is still pending began less than the longer window ago.
pub proof fn law_wait_is_bounded(
    state: SettleModel,
    current: Option<TerminalCursorState>,
    now: int,
    placement: CursorPlacement,
)
    requires
        !(state.frame_open && placement is Printed),
    ensures
        state.observed(current, now, placement).pending matches Some(pending) ==> now
            < pending.first + CURSOR_POSITION_MAX_HOLD,
{
}

/// Once the first pending move lies as far back as the longer window, a visible cursor is
/// settled on wherever it is seen, unless a quiet gap settles the pending one first.
pub proof fn law_overdue_wait_ends(
    state: SettleModel,
    pending: PendingModel,
    cursor: TerminalCursorState,
    now: int,
    placement: CursorPlacement,
    seen: Option<TerminalCursorState>,
    later: int,
)
    requires
        state.pending == Some(pending),
        !quiet_gap(state, now),
        now >= pending.first + CURSOR_POSITION_MAX_HOLD,
        cursor.visible,
        !(state.frame_open && placement is Printed),
    ensures
        state.observed(Some(cursor), now, placement).settled == Some(cursor),
        state.observed(Some(cursor), now, placement).pending is None,
        state.observed(Some(cursor), now, placement).reported(seen, later) == seen,
{
}

/// Whether the observations in a run of calls keep a position pending, none of them
/// after a quiet gap.
pub open spec fn stays_pending(state: SettleModel, events: Seq<SettleEvent>) -> bool
    decreases events.len(),
{
    events.len() > 0 ==> {
        &&& stays_pending(state, events.drop_last())
        &&& events.last() matches SettleEvent::Observed { current, now, placement } ==> {
            &&& !quiet_gap(run(state, events.drop_last()), now)
            &&& run(state, events).pending is Some
        }
    }
}

/// As long as a position stays pending with no quiet gap, no call changes the time of the
/// first move, not even one that closes a frame on printed text.
pub proof fn law_first_move_is_kept(state: SettleModel, events: Seq<SettleEvent>)
    requires
        state.pending is Some,
        stays_pending(state, events),
    ensures
        run(state, events).pending is Some,
        run(state, events).pending->0.first == state.pending->0.first,
    decreases events.len(),
{
    if events.len() > 0 {
        law_first_move_is_kept(state, events.drop_last());
    }
}

/// However many frames closed on printed text in between, an observation that does not
/// close such a frame settles on what it sees once the first move lies as far back as the
/// longer window.
pub proof fn law_paint_does_not_stretch_the_cap(
    state: SettleModel,
    events: Seq<SettleEvent>,
    cursor: TerminalCursorState,
    now: int,
    placement: CursorPlacement,
    seen: Option<TerminalCursorState>,
    later: int,
)
    requires
        state.pending is Some,
        stays_pending(state, events),
        !quiet_gap(run(state, events), now),
        now >= state.pending->0.first + CURSOR_POSITION_MAX_HOLD,
        cursor.visible,
        !closes_on_paint(run(state, events), placement),
    ensures
        run(state, events).observed(Some(cursor), now, placement).settled == Some(cursor),
        run(state, events).observed(Some(cursor), now, placement).reported(seen, later) == seen,
{
    law_first_move_is_kept(state, events);
}

/// Whether the observations in a run of calls keep a position pending, none of them
/// after a quiet gap and none closing a frame on printed text.
pub open spec fn keeps_waiting(state: SettleModel, events: Seq<SettleEvent>) -> bool
    decreases events.len(),
{
    events.len() > 0 ==> {
        let before = run(state, events.drop_last());
        &&& keeps_waiting(state, events.drop_last())
        &&& events.last() matches SettleEvent::Observed { current, now, placement } ==> {
            &&& !quiet_gap(before, now)
            &&& !closes_on_paint(before, placement)
            &&& run(state, events).pending is Some
        }
    }
}

/// However often the cursor moves, its wait counts from the first move on: each
/// observation that leaves it pending comes within the longer window of that move.
pub proof fn law_churn_is_capped(state: SettleModel, events: Seq<SettleEvent>)
    requires
        state.pending is Some,
        keeps_waiting(state, events),
    ensures
        run(state, events).pending is Some,
        run(state, events).pending->0.first == state.pending->0.first,
        forall|i: int|
            0 <= i < events.len() ==> (#[trigger] events[i] matches SettleEvent::Observed {
                now,
                ..
            } ==> now < state.pending->0.first + CURSOR_POSITION_MAX_HOLD),
    decreases events.len(),
{
    if events.len() > 0 {
        let before = events.drop_last();
        law_churn_is_capped(state, before);
        assert forall|i: int| 0 <= i < events.len() implies (
        #[trigger] events[i] matches SettleEvent::Observed { now, .. } ==> now
            < state.pending->0.first + CURSOR_POSITION_MAX_HOLD) by {
            if i < before.len() {
                assert(before[i] == events[i]);
            }
        }
    }
}

/// Seen where it is settled, the cursor is settled on as it now is, so that a change of
/// shape is never held back and a move that came to nothing is forgotten.
pub proof fn law_settled_cell_passes_at_once(
    state: SettleModel,
    settled: TerminalCursorState,
    cursor: TerminalCursorState,
    now: int,
    placement: CursorPlacement,
    seen: Option<TerminalCursorState>,
    later: int,
)
    requires
        rests_on(state, now, settled),
        settled.visible,
        cursor.visible,
        settled.x == cursor.x && settled.y == cursor.y,
    ensures
        state.observed(Some(cursor), now, placement).settled == Some(cursor),
        state.observed(Some(cursor), now, placement).pending is None,
        state.observed(Some(cursor), now, placement).reported(seen, later) == seen,
{
}

/// Once the pending position is reported, it stays reported until the next observation.
pub proof fn law_adoption_lasts(
    state: SettleModel,
    current: Option<TerminalCursorState>,
    now: int,
    later: int,
)
    requires
        now <= later,
        state.pending matches Some(pending) ==> now >= pending.since
            + if pending.awaiting_placement {
            CURSOR_POSITION_MAX_HOLD
        } else {
            CURSOR_POSITION_SETTLE
        },
    ensures
        state.reported(current, later) == state.reported(current, now),
{
}

/// Calls made in order keep their times in order.
pub proof fn law_order_is_kept(
    state: SettleModel,
    current: Option<TerminalCursorState>,
    now: int,
    placement: CursorPlacement,
)
    requires
        in_order(state, now),
    ensures
        in_order(SettleModel::initial(), now),
        in_order(state.synchronized(), now),
        in_order(state.observed(current, now, placement), now),
{
}

/// What is reported is what is settled on: if the pending position is due and the cursor
/// is still there, observing it settles on it and changes no report on that cell.
pub proof fn law_observation_confirms_report(
    state: SettleModel,
    cursor: TerminalCursorState,
    now: int,
    placement: CursorPlacement,
    seen: TerminalCursorState,
    later: int,
)
    requires
        state.valid(),
        in_order(state, now),
        state.pending is Some,
        now >= state.pending->0.since + if state.pending->0.awaiting_placement {
            CURSOR_POSITION_MAX_HOLD
        } else {
            CURSOR_POSITION_SETTLE
        },
        cursor.visible,
        state.pending->0.candidate.x == cursor.x && state.pending->0.candidate.y == cursor.y,
        !(state.frame_open && placement is Printed),
        seen.x == cursor.x && seen.y == cursor.y,
        now <= later,
    ensures
        state.reported(Some(seen), later) == Some(seen),
        state.observed(Some(cursor), now, placement).settled == Some(cursor),
        state.observed(Some(cursor), now, placement).pending is None,
        state.observed(Some(cursor), now, placement).reported(Some(seen), later) == Some(seen),
{
}

/// The origin from which time is counted does not matter.
pub proof fn law_origin_is_arbitrary(
    state: SettleModel,
    current: Option<TerminalCursorState>,
    now: int,
    placement: CursorPlacement,
    by: int,
)
    ensures
        shifted(state, by).observed(current, now + by, placement) == shifted(
            state.observed(current, now, placement),
            by,
        ),
        shifted(state, by).synchronized() == shifted(state.synchronized(), by),
        shifted(state, by).reported(current, now + by) == state.reported(current, now),
{
}

} // verus!
