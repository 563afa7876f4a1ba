//! Holds back cursor positions until the child has settled on one.
//!
//! A child that redraws drags its cursor across the screen. Showing every cell on
//! the way makes the cursor flicker, so a new position is held as pending and the
//! settled one is shown until the child has been quiet for a while.

use vstd::prelude::*;

use crate::clock::Instant;
use crate::placement::CursorPlacement;
use crate::terminal::TerminalCursorState;

verus! {

/// How long a position must stand before it is adopted: twenty milliseconds, in
/// nanoseconds.
pub const CURSOR_POSITION_SETTLE: u128 = 20_000_000;

/// The longer window: a hundred milliseconds, in nanoseconds.
///
/// An observation that closes no frame on printed text adopts what it sees once the
/// first pending move lies this far back. A position where a frame closed on printed text
/// is shown once the latest such close lies this far back, so that a run of closes in
/// shorter steps keeps holding it.
pub const CURSOR_POSITION_MAX_HOLD: u128 = 100_000_000;

/// A position that the child's cursor has moved to but that is not yet adopted.
#[derive(Debug, Clone, Copy)]
struct PendingPosition {
    candidate: TerminalCursorState,
    since: Instant,
    first: Instant,
    awaiting_placement: bool,
}

/// The settled cursor of a child and the position that may replace it.
#[derive(Debug)]
pub struct CursorPositionSettleState {
    settled: Option<TerminalCursorState>,
    pending: Option<PendingPosition>,
    last_observed: Option<Instant>,
    synchronized_frame_open: bool,
}

/// A pending position.
pub struct PendingModel {
    /// The cursor as it was last seen.
    pub candidate: TerminalCursorState,
    /// When the cursor was first seen here, or when the latest frame closed here on
    /// printed text.
    pub since: int,
    /// When the cursor first left the settled position.
    pub first: int,
    /// Whether this is only where a frame stopped painting, so that the child's own
    /// placement is still to come.
    pub awaiting_placement: bool,
}

/// What a `CursorPositionSettleState` stands for.
pub struct SettleModel {
    /// The cursor to show while another position is pending.
    pub settled: Option<TerminalCursorState>,
    pub pending: Option<PendingModel>,
    /// When the cursor was last observed.
    pub last_observed: Option<int>,
    /// Whether the next observation closes a synchronized frame.
    pub frame_open: bool,
}

/// Whether two cursors are on the same cell.
pub open spec fn on_same_cell(left: TerminalCursorState, right: TerminalCursorState) -> bool {
    left.x == right.x && left.y == right.y
}

/// A cursor on the cell of `held`, in the current shape, and shown only if both show.
pub open spec fn shown_at(
    held: TerminalCursorState,
    current: TerminalCursorState,
) -> TerminalCursorState {
    TerminalCursorState {
        x: held.x,
        y: held.y,
        visible: current.visible && held.visible,
        shape: current.shape,
    }
}

impl PendingModel {
    /// How long the position must stand before it is shown.
    pub open spec fn hold(self) -> int {
        if self.awaiting_placement {
            CURSOR_POSITION_MAX_HOLD as int
        } else {
            CURSOR_POSITION_SETTLE as int
        }
    }

    /// Whether the position has stood long enough to be shown.
    pub open spec fn is_due(self, now: int) -> bool {
        crate::clock::elapsed(self.since, now) >= self.hold()
    }
}

impl SettleModel {
    /// Nothing observed yet.
    pub open spec fn initial() -> Self {
        SettleModel { settled: None, pending: None, last_observed: None, frame_open: false }
    }

    /// Whether the parts fit together: a pending position is that of a visible cursor,
    /// and there is a settled cursor to show in its stead, elsewhere or hidden.
    pub open spec fn valid(self) -> bool {
        self.pending matches Some(pending) ==> {
            &&& pending.candidate.visible
            &&& self.settled matches Some(settled)
            &&& !(settled.visible && on_same_cell(settled, pending.candidate))
        }
    }

    /// Settled on a cursor, with nothing pending.
    pub open spec fn settle_on(self, cursor: Option<TerminalCursorState>) -> Self {
        SettleModel { settled: cursor, pending: None, ..self }
    }

    /// Whether the pending position outlasted the burst of output that brought it: the
    /// child has been quiet since the last observation, and no placement is awaited.
    pub open spec fn burst_ended(self, now: int) -> bool {
        &&& self.pending matches Some(pending)
        &&& !pending.awaiting_placement
        &&& self.last_observed matches Some(previous)
        &&& crate::clock::elapsed(previous, now) >= CURSOR_POSITION_SETTLE
    }

    /// The pending position settled if the burst that brought it has ended.
    pub open spec fn commit_burst(self, now: int) -> Self {
        if self.burst_ended(now) {
            self.settle_on(Some(self.pending->0.candidate))
        } else {
            self
        }
    }

    /// Whether a visible cursor differs in place or by showing from a settled one.
    pub open spec fn is_news(self, cursor: TerminalCursorState) -> bool {
        &&& self.settled matches Some(settled)
        &&& !(settled.visible && on_same_cell(settled, cursor))
    }

    /// The state after a visible cursor that is news. `painted` says that the cursor is
    /// only where a frame stopped painting.
    pub open spec fn moved(self, current: TerminalCursorState, now: int, painted: bool) -> Self {
        match self.pending {
            None => SettleModel {
                pending: Some(
                    PendingModel {
                        candidate: current,
                        since: now,
                        first: now,
                        awaiting_placement: painted,
                    },
                ),
                ..self
            },
            Some(pending) => if painted {
                SettleModel {
                    pending: Some(
                        PendingModel {
                            candidate: current,
                            since: now,
                            awaiting_placement: true,
                            ..pending
                        },
                    ),
                    ..self
                }
            } else if crate::clock::elapsed(pending.first, now) >= CURSOR_POSITION_MAX_HOLD {
                self.settle_on(Some(current))
            } else if !on_same_cell(pending.candidate, current) {
                SettleModel {
                    pending: Some(
                        PendingModel {
                            candidate: current,
                            since: now,
                            awaiting_placement: false,
                            ..pending
                        },
                    ),
                    ..self
                }
            } else if crate::clock::elapsed(pending.since, now) >= CURSOR_POSITION_SETTLE {
                self.settle_on(Some(current))
            } else {
                SettleModel {
                    pending: Some(PendingModel { candidate: current, ..pending }),
                    ..self
                }
            },
        }
    }

    /// The state after the child's cursor, or its absence, has been observed.
    pub open spec fn observed(
        self,
        current: Option<TerminalCursorState>,
        now: int,
        placement: CursorPlacement,
    ) -> Self {
        let next = match current {
            Some(cursor) => if cursor.visible {
                let painted = self.frame_open && placement == CursorPlacement::Printed;
                let rested = self.commit_burst(now);
                if rested.is_news(cursor) {
                    rested.moved(cursor, now, painted)
                } else {
                    rested.settle_on(current)
                }
            } else {
                self.settle_on(current)
            },
            None => self.settle_on(None),
        };
        SettleModel { last_observed: Some(now), frame_open: false, ..next }
    }

    /// The state once the child has output pending inside a synchronized frame.
    pub open spec fn synchronized(self) -> Self {
        SettleModel { frame_open: true, ..self }
    }

    /// The cursor to show for the child's current one.
    pub open spec fn reported(
        self,
        current: Option<TerminalCursorState>,
        now: int,
    ) -> Option<TerminalCursorState> {
        match (current, self.pending) {
            (None, _) => None,
            (Some(cursor), None) => Some(cursor),
            (Some(cursor), Some(pending)) => if pending.is_due(now) {
                Some(shown_at(pending.candidate, cursor))
            } else {
                match self.settled {
                    Some(settled) => Some(shown_at(settled, cursor)),
                    None => Some(
                        TerminalCursorState {
                            visible: false,
                            ..shown_at(pending.candidate, cursor)
                        },
                    ),
                }
            },
        }
    }
}

impl View for PendingPosition {
    type V = PendingModel;

    closed spec fn view(&self) -> PendingModel {
        PendingModel {
            candidate: self.candidate,
            since: self.since@,
            first: self.first@,
            awaiting_placement: self.awaiting_placement,
        }
    }
}

impl View for CursorPositionSettleState {
    type V = SettleModel;

    closed spec fn view(&self) -> SettleModel {
        SettleModel {
            settled: self.settled,
            pending: match self.pending {
                Some(pending) => Some(pending@),
                None => None,
            },
            last_observed: match self.last_observed {
                Some(instant) => Some(instant@),
                None => None,
            },
            frame_open: self.synchronized_frame_open,
        }
    }
}

impl Default for CursorPositionSettleState {
    fn default() -> (state: Self)
        ensures
            state@ == SettleModel::initial(),
            state@.valid(),
    {
        CursorPositionSettleState {
            settled: None,
            pending: None,
            last_observed: None,
            synchronized_frame_open: false,
        }
    }
}

impl CursorPositionSettleState {
    #[verifier::type_invariant]
    spec fn parts_fit(self) -> bool {
        self@.valid()
    }

    /// Drops the pending position.
    pub fn clear_pending(&mut self)
        ensures
            final(self)@ == (SettleModel { pending: None, ..old(self)@ }),
            final(self)@.valid(),
    {
        self.pending = None;
    }

    /// Note that the child has output pending inside its own synchronized output
    /// block. Nothing renders and no cursor is published until the block closes,
    /// so this is not an observation: it only marks the next observation as the
    /// one that closes a frame.
    pub fn observe_synchronized(&mut self)
        ensures
            final(self)@ == old(self)@.synchronized(),
            final(self)@.valid(),
    {
        proof {
            use_type_invariant(&*self);
        }
        self.synchronized_frame_open = true;
    }

    /// Observes a cursor that the child is taken to have placed.
    pub fn observe(&mut self, current: Option<TerminalCursorState>, now: Instant)
        ensures
            final(self)@ == old(self)@.observed(current, now@, CursorPlacement::Positioned),
            final(self)@.valid(),
    {
        self.observe_with_placement(current, now, CursorPlacement::Positioned);
    }

    /// Observes the child's cursor, or that it has none, at a point in time.
    pub fn observe_with_placement(
        &mut self,
        current: Option<TerminalCursorState>,
        now: Instant,
        placement: CursorPlacement,
    )
        ensures
            final(self)@ == old(self)@.observed(current, now@, placement),
            final(self)@.valid(),
    {
        proof {
            use_type_invariant(&*self);
        }
        let closing_frame: bool = self.synchronized_frame_open;
        self.synchronized_frame_open = false;
        let previous_observation: Option<Instant> = self.last_observed;
        self.last_observed = Some(now);

        let current: TerminalCursorState = match current {
            Some(cursor) => cursor,
            None => {
                self.clear_pending();
                self.settled = None;
                return;
            },
        };
        if !current.visible {
            self.clear_pending();
            self.settled = Some(current);
            return;
        }

        // A quiet gap means the previous write burst finished, so its last
        // position was the one the child meant. Commit it and start fresh.
        // Without this the max hold below eventually fires on the *first*
        // position of the next burst, which is exactly the mid-redraw position
        // we are trying not to expose, and settling on it makes every later
        // redraw publish it with no hold at all.
        if let (Some(pending), Some(previous)) = (self.pending, previous_observation) {
            if !pending.awaiting_placement && now.duration_since(previous)
                >= CURSOR_POSITION_SETTLE {
                self.clear_pending();
                self.settled = Some(pending.candidate);
            }
        }

        let settled: TerminalCursorState = match self.settled {
            Some(settled) => settled,
            None => {
                self.clear_pending();
                self.settled = Some(current);
                return;
            },
        };
        if same_cursor_position(settled, current) && settled.visible {
            self.clear_pending();
            self.settled = Some(current);
            return;
        }

        // The child closed a synchronized frame that ended on printed text, so
        // this is the cell the frame painted last and the real placement arrives
        // in a later write. Hold the previous position until it does instead of
        // treating a pause as proof that the frame is finished.
        if closing_frame && placement == CursorPlacement::Printed {
            let first: Instant = match self.pending {
                Some(pending) => pending.first,
                None => now,
            };
            self.pending = Some(
                PendingPosition { candidate: current, since: now, first, awaiting_placement: true },
            );
            return;
        }

        let pending: PendingPosition = match self.pending {
            Some(pending) => pending,
            None => {
                self.pending = Some(
                    PendingPosition {
                        candidate: current,
                        since: now,
                        first: now,
                        awaiting_placement: false,
                    },
                );
                return;
            },
        };

        if now.duration_since(pending.first) >= CURSOR_POSITION_MAX_HOLD {
            self.clear_pending();
            self.settled = Some(current);
        } else if same_cursor_position(pending.candidate, current) {
            if now.duration_since(pending.since) >= CURSOR_POSITION_SETTLE {
                self.clear_pending();
                self.settled = Some(current);
            } else {
                self.pending = Some(PendingPosition { candidate: current, ..pending });
            }
        } else {
            // A different position means the child is still moving the cursor, so
            // restart the quiet window and let the max hold bound the total wait.
            // Without this the first change in a burst opens a window that expires
            // mid-burst, after which every render publishes whatever was seen last.
            self.pending = Some(
                PendingPosition {
                    candidate: current,
                    since: now,
                    awaiting_placement: false,
                    ..pending
                },
            );
        }
    }

    /// The cursor to show at a point in time, given the child's current one.
    pub fn reported_cursor(&self, current: Option<TerminalCursorState>, now: Instant) -> (reported:
        Option<TerminalCursorState>)
        ensures
            reported == self@.reported(current, now@),
            self@.valid(),
    {
        proof {
            use_type_invariant(self);
        }
        let current: TerminalCursorState = match current {
            Some(cursor) => cursor,
            None => return None,
        };
        let pending: PendingPosition = match self.pending {
            Some(pending) => pending,
            None => return Some(current),
        };
        let hold: u128 = if pending.awaiting_placement {
            CURSOR_POSITION_MAX_HOLD
        } else {
            CURSOR_POSITION_SETTLE
        };
        if now.duration_since(pending.since) >= hold {
            return Some(
                TerminalCursorState {
                    visible: current.visible && pending.candidate.visible,
                    shape: current.shape,
                    ..pending.candidate
                },
            );
        }
        match self.settled {
            Some(settled) => Some(
                TerminalCursorState {
                    visible: current.visible && settled.visible,
                    shape: current.shape,
                    ..settled
                },
            ),
            None => Some(
                TerminalCursorState { visible: false, shape: current.shape, ..pending.candidate },
            ),
        }
    }

    /// Whether a position is waiting to be adopted.
    pub fn pending(&self) -> (pending: bool)
        ensures
            pending == self@.pending is Some,
            self@.valid(),
    {
        proof {
            use_type_invariant(self);
        }
        self.pending.is_some()
    }
}

/// Whether two cursors are on the same cell.
pub fn same_cursor_position(left: TerminalCursorState, right: TerminalCursorState) -> (same: bool)
    ensures
        same == on_same_cell(left, right),
{
    left.x == right.x && left.y == right.y
}

} // verus!
