//! Tells a cursor that the child placed from one that printing left behind.

use vstd::prelude::*;

use crate::ansi::{BEL, ESC};

verus! {

/// How a child's cursor arrived at the position it currently holds.
#[derive(Debug, Clone, Copy, PartialEq, Eq, Structural)]
pub enum CursorPlacement {
    /// An explicit positioning sequence put it there.
    Positioned,
    /// It is wherever printing left it, which for a full redraw is the cell the
    /// frame painted last rather than anywhere the child means the cursor to be.
    Printed,
}

impl Default for CursorPlacement {
    fn default() -> (placement: Self)
        ensures
            placement == CursorPlacement::Positioned,
    {
        CursorPlacement::Positioned
    }
}

/// Where in an escape sequence the next byte falls.
#[derive(Debug, Clone, Copy, PartialEq, Eq, Structural)]
pub enum PlacementParseState {
    Ground,
    Escape,
    /// An escape sequence with an intermediate byte, such as charset selection.
    EscapeIntermediate,
    Csi,
    /// An OSC, DCS, APC or PM payload, whose text must not count as printing.
    StringPayload,
    StringPayloadEscape,
}

/// Tracks whether the last thing to move a child's cursor was an explicit
/// positioning sequence or the side effect of printing.
///
/// Applications that bracket a frame in synchronized output may close the
/// bracket before placing their cursor, so the position at the close is only
/// trustworthy when the frame ended on a positioning sequence. Position and
/// timing alone cannot tell the two apart.
#[derive(Debug)]
pub struct CursorPlacementTracker {
    state: PlacementParseState,
    placement: CursorPlacement,
}

/// What a `CursorPlacementTracker` stands for.
pub struct PlacementModel {
    pub position: PlacementParseState,
    pub placement: CursorPlacement,
}

/// CSI final bytes that move the cursor to a position of the child's choosing:
/// `A` to `I`, `Z`, `d`, `e`, `f`, `a` and the backquote.
///
/// `s` and `u` are deliberately absent: they collide with the kitty keyboard
/// protocol, and missing a placement only holds the cursor a little longer,
/// while a false placement puts it on the wrong cell.
pub const CURSOR_POSITIONING_FINALS: [u8; 15] = [
    0x41, 0x42, 0x43, 0x44, 0x45, 0x46, 0x47, 0x48, 0x49, 0x5a, 0x64, 0x65, 0x66, 0x61, 0x60,
];

/// CSI final bytes that erase or edit at the cursor: `J`, `K`, `L`, `M`, `P`, `X`
/// and `@`.
///
/// An application that positions the cursor in order to clear or edit that spot
/// has not chosen it as the cursor's home: this is how a redraw clears the tail
/// of a row, and the frame's real cursor placement is emitted after all such
/// edits. Treating what those leave behind as incidental is what keeps the
/// cursor off the row a frame happened to clear last.
pub const CURSOR_INCIDENTAL_FINALS: [u8; 7] = [0x4a, 0x4b, 0x4c, 0x4d, 0x50, 0x58, 0x40];

/// Whether a byte, outside any sequence, prints, or advances or wraps the cursor.
pub open spec fn prints(byte: u8) -> bool {
    0x08 <= byte <= 0x0d || byte >= 0x20
}

/// Whether a byte after `ESC` opens a payload that runs up to a terminator.
pub open spec fn opens_string(byte: u8) -> bool {
    byte == ']' as u8 || byte == 'P' as u8 || byte == 'X' as u8 || byte == '^' as u8 || byte
        == '_' as u8
}

/// Whether a byte after `ESC` announces one more byte of the same sequence.
pub open spec fn is_escape_intermediate(byte: u8) -> bool {
    byte == '(' as u8 || byte == ')' as u8 || byte == '*' as u8 || byte == '+' as u8 || byte
        == '%' as u8 || byte == '#' as u8 || byte == ' ' as u8
}

/// The placement once a control sequence has ended on a byte.
pub open spec fn placement_after_csi(last: u8, before: CursorPlacement) -> CursorPlacement {
    if CURSOR_POSITIONING_FINALS@.contains(last) {
        CursorPlacement::Positioned
    } else if CURSOR_INCIDENTAL_FINALS@.contains(last) {
        CursorPlacement::Printed
    } else {
        before
    }
}

impl PlacementModel {
    /// A tracker that has read nothing.
    pub open spec fn initial() -> Self {
        PlacementModel {
            position: PlacementParseState::Ground,
            placement: CursorPlacement::Positioned,
        }
    }

    /// The same tracker at another position.
    pub open spec fn at(self, position: PlacementParseState) -> Self {
        PlacementModel { position, ..self }
    }

    /// The same tracker with another placement.
    pub open spec fn placed(self, placement: CursorPlacement) -> Self {
        PlacementModel { placement, ..self }
    }

    /// The tracker after one more byte.
    pub open spec fn step(self, byte: u8) -> Self {
        match self.position {
            PlacementParseState::Ground => if byte == ESC {
                self.at(PlacementParseState::Escape)
            } else if prints(byte) {
                self.placed(CursorPlacement::Printed)
            } else {
                self
            },
            PlacementParseState::Escape => if byte == '[' as u8 {
                self.at(PlacementParseState::Csi)
            } else if opens_string(byte) {
                self.at(PlacementParseState::StringPayload)
            } else if byte == '8' as u8 {
                self.at(PlacementParseState::Ground).placed(CursorPlacement::Positioned)
            } else if byte == ESC {
                self
            } else if is_escape_intermediate(byte) {
                self.at(PlacementParseState::EscapeIntermediate)
            } else {
                self.at(PlacementParseState::Ground)
            },
            PlacementParseState::EscapeIntermediate => self.at(PlacementParseState::Ground),
            PlacementParseState::Csi => if byte == ESC {
                self.at(PlacementParseState::Escape)
            } else if crate::ansi::is_final(byte) {
                self.at(PlacementParseState::Ground).placed(
                    placement_after_csi(byte, self.placement),
                )
            } else {
                self
            },
            PlacementParseState::StringPayload => if byte == ESC {
                self.at(PlacementParseState::StringPayloadEscape)
            } else if byte == BEL {
                self.at(PlacementParseState::Ground)
            } else {
                self
            },
            PlacementParseState::StringPayloadEscape => if byte == ESC {
                self
            } else {
                self.at(PlacementParseState::Ground)
            },
        }
    }

    /// The tracker after a run of bytes.
    pub open spec fn feed(self, bytes: Seq<u8>) -> Self
        decreases bytes.len(),
    {
        if bytes.len() == 0 {
            self
        } else {
            self.feed(bytes.drop_last()).step(bytes.last())
        }
    }
}

impl View for CursorPlacementTracker {
    type V = PlacementModel;

    closed spec fn view(&self) -> PlacementModel {
        PlacementModel { position: self.state, placement: self.placement }
    }
}

impl Default for CursorPlacementTracker {
    fn default() -> (tracker: Self)
        ensures
            tracker@ == PlacementModel::initial(),
    {
        CursorPlacementTracker {
            state: PlacementParseState::Ground,
            placement: CursorPlacement::Positioned,
        }
    }
}

/// Whether a byte occurs in a list.
fn contains_byte(list: &[u8], byte: u8) -> (found: bool)
    ensures
        found == list@.contains(byte),
{
    let mut next: usize = 0;
    while next < list.len()
        invariant
            next <= list.len(),
            forall|i: int| 0 <= i < next ==> list@[i] != byte,
        decreases list.len() - next,
    {
        if list[next] == byte {
            return true;
        }
        next += 1;
    }
    false
}

impl CursorPlacementTracker {
    /// Reads a batch of the child's output. Batches may be cut anywhere.
    pub fn observe(&mut self, bytes: &[u8])
        ensures
            final(self)@ == old(self)@.feed(bytes@),
    {
        let mut read: usize = 0;
        assert(bytes@.take(0) =~= Seq::<u8>::empty());
        while read < bytes.len()
            invariant
                read <= bytes.len(),
                self@ == old(self)@.feed(bytes@.take(read as int)),
            decreases bytes.len() - read,
        {
            self.observe_byte(bytes[read]);
            assert(bytes@.take(read + 1).drop_last() =~= bytes@.take(read as int));
            read += 1;
        }
        assert(bytes@.take(bytes.len() as int) =~= bytes@);
    }

    /// How the cursor arrived where it is.
    pub fn placement(&self) -> (placement: CursorPlacement)
        ensures
            placement == self@.placement,
    {
        self.placement
    }

    /// Reads one byte of the child's output.
    pub fn observe_byte(&mut self, byte: u8)
        ensures
            final(self)@ == old(self)@.step(byte),
    {
        match self.state {
            PlacementParseState::Ground => {
                if byte == ESC {
                    self.state = PlacementParseState::Escape;
                } else if (0x08 <= byte && byte <= 0x0d) || byte >= 0x20 {
                    // Printing, and the control codes that only advance or wrap,
                    // leave the cursor wherever the text ended.
                    self.placement = CursorPlacement::Printed;
                }
            },
            PlacementParseState::Escape => {
                if byte == '[' as u8 {
                    self.state = PlacementParseState::Csi;
                } else if byte == ']' as u8 || byte == 'P' as u8 || byte == 'X' as u8 || byte
                    == '^' as u8 || byte == '_' as u8 {
                    self.state = PlacementParseState::StringPayload;
                } else if byte == '8' as u8 {
                    // DECRC restores a saved cursor position.
                    self.placement = CursorPlacement::Positioned;
                    self.state = PlacementParseState::Ground;
                } else if byte == ESC {
                } else if byte == '(' as u8 || byte == ')' as u8 || byte == '*' as u8 || byte
                    == '+' as u8 || byte == '%' as u8 || byte == '#' as u8 || byte == ' ' as u8 {
                    self.state = PlacementParseState::EscapeIntermediate;
                } else {
                    self.state = PlacementParseState::Ground;
                }
            },
            PlacementParseState::EscapeIntermediate => self.state = PlacementParseState::Ground,
            PlacementParseState::Csi => {
                if byte == ESC {
                    self.state = PlacementParseState::Escape;
                } else if 0x40 <= byte && byte <= 0x7e {
                    if contains_byte(&CURSOR_POSITIONING_FINALS, byte) {
                        self.placement = CursorPlacement::Positioned;
                    } else if contains_byte(&CURSOR_INCIDENTAL_FINALS, byte) {
                        self.placement = CursorPlacement::Printed;
                    }
                    self.state = PlacementParseState::Ground;
                }
            },
            PlacementParseState::StringPayload => {
                if byte == ESC {
                    self.state = PlacementParseState::StringPayloadEscape;
                } else if byte == BEL {
                    self.state = PlacementParseState::Ground;
                }
            },
            PlacementParseState::StringPayloadEscape => {
                self.state = if byte == ESC {
                    PlacementParseState::StringPayloadEscape
                } else {
                    PlacementParseState::Ground
                };
            },
        }
    }
}

} // verus!
