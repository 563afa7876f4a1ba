//! What holds of the placement tracker over whole sequences and streams.

use vstd::prelude::*;

use crate::ansi::{BEL, ESC};
use crate::placement::{CursorPlacement, PlacementModel, PlacementParseState};
use crate::placement::{CURSOR_INCIDENTAL_FINALS, CURSOR_POSITIONING_FINALS};

verus! {

/// Whether an `ESC` that comes now opens a sequence. It does not inside a payload, nor
/// as the byte that an intermediate byte announced.
pub open spec fn can_open(tracker: PlacementModel) -> bool {
    ||| tracker.position is Ground
    ||| tracker.position is Escape
    ||| tracker.position is Csi
}

/// Whether bytes can stand between the opening of a control sequence and its end.
pub open spec fn is_csi_body(body: Seq<u8>) -> bool {
    forall|i: int|
        0 <= i < body.len() ==> #[trigger] body[i] != 0x1b && !(0x40 <= body[i] <= 0x7e)
}

/// The bytes `A` to `I`, `Z`, the backquote, `a` and `d` to `f`: a control sequence that
/// ends on one of them puts the cursor where the child wants it.
pub open spec fn positions(last: u8) -> bool {
    0x41 <= last <= 0x49 || last == 0x5a || 0x60 <= last <= 0x61 || 0x64 <= last <= 0x66
}

/// The bytes `@`, `J` to `M`, `P` and `X`: a control sequence that ends on one of them
/// erases or edits where the cursor is.
pub open spec fn edits(last: u8) -> bool {
    last == 0x40 || 0x4a <= last <= 0x4d || last == 0x50 || last == 0x58
}

/// It does not matter how the output is cut into batches.
pub proof fn law_batches_join(tracker: PlacementModel, left: Seq<u8>, right: Seq<u8>)
    ensures
        tracker.feed(left + right) == tracker.feed(left).feed(right),
    decreases right.len(),
{
    if right.len() == 0 {
        assert(left + right =~= left);
    } else {
        assert((left + right).drop_last() =~= left + right.drop_last());
        law_batches_join(tracker, left, right.drop_last());
    }
}

proof fn lemma_feed_two(tracker: PlacementModel, first: u8, second: u8)
    ensures
        tracker.feed(seq![first, second]) == tracker.step(first).step(second),
{
    assert(seq![first, second].drop_last() =~= seq![first]);
    assert(seq![first].drop_last() =~= Seq::empty());
    reveal_with_fuel(PlacementModel::feed, 3);
}

/// Output outside any sequence leaves the cursor printed as soon as one byte of it
/// prints, advances or wraps, and otherwise changes nothing.
pub proof fn law_text_prints(tracker: PlacementModel, text: Seq<u8>)
    requires
        tracker.position is Ground,
        !text.contains(ESC),
    ensures
        tracker.feed(text) == if exists|i: int|
            0 <= i < text.len() && (0x08 <= #[trigger] text[i] <= 0x0d || text[i] >= 0x20) {
            PlacementModel {
                position: PlacementParseState::Ground,
                placement: CursorPlacement::Printed,
            }
        } else {
            tracker
        },
    decreases text.len(),
{
    if text.len() > 0 {
        let before = text.drop_last();
        assert(text[text.len() - 1] != ESC);
        assert forall|i: int| 0 <= i < before.len() implies before[i] != ESC by {
            assert(text[i] != ESC);
        }
        law_text_prints(tracker, before);
        if exists|i: int|
            0 <= i < before.len() && (0x08 <= #[trigger] before[i] <= 0x0d || before[i] >= 0x20) {
            let i = choose|i: int|
                0 <= i < before.len() && (0x08 <= #[trigger] before[i] <= 0x0d || before[i]
                    >= 0x20);
            assert(text[i] == before[i]);
        } else if 0x08 <= text.last() <= 0x0d || text.last() >= 0x20 {
            assert(text[text.len() - 1] == text.last());
        } else {
            assert forall|i: int| 0 <= i < text.len() implies !(0x08 <= #[trigger] text[i] <= 0x0d
                || text[i] >= 0x20) by {
                if i < before.len() {
                    assert(text[i] == before[i]);
                }
            }
        }
    }
}

proof fn lemma_csi_body(tracker: PlacementModel, body: Seq<u8>)
    requires
        tracker.position is Csi,
        is_csi_body(body),
    ensures
        tracker.feed(body) == tracker,
    decreases body.len(),
{
    if body.len() > 0 {
        assert(body[body.len() - 1] != ESC);
        assert forall|i: int| 0 <= i < body.len() - 1 implies #[trigger] body.drop_last()[i] != ESC
            && !(0x40 <= body.drop_last()[i] <= 0x7e) by {
            assert(body[i] != ESC);
        }
        lemma_csi_body(tracker, body.drop_last());
    }
}

proof fn lemma_finals(last: u8)
    ensures
        CURSOR_POSITIONING_FINALS@.contains(last) == positions(last),
        CURSOR_INCIDENTAL_FINALS@.contains(last) == edits(last),
{
    if positions(last) {
        assert(exists|i: int| 0 <= i < 15 && CURSOR_POSITIONING_FINALS@[i] == last) by {
            assert(CURSOR_POSITIONING_FINALS@[0] == 0x41);
            assert(CURSOR_POSITIONING_FINALS@[1] == 0x42);
            assert(CURSOR_POSITIONING_FINALS@[2] == 0x43);
            assert(CURSOR_POSITIONING_FINALS@[3] == 0x44);
            assert(CURSOR_POSITIONING_FINALS@[4] == 0x45);
            assert(CURSOR_POSITIONING_FINALS@[5] == 0x46);
            assert(CURSOR_POSITIONING_FINALS@[6] == 0x47);
            assert(CURSOR_POSITIONING_FINALS@[7] == 0x48);
            assert(CURSOR_POSITIONING_FINALS@[8] == 0x49);
            assert(CURSOR_POSITIONING_FINALS@[9] == 0x5a);
            assert(CURSOR_POSITIONING_FINALS@[10] == 0x64);
            assert(CURSOR_POSITIONING_FINALS@[11] == 0x65);
            assert(CURSOR_POSITIONING_FINALS@[12] == 0x66);
            assert(CURSOR_POSITIONING_FINALS@[13] == 0x61);
            assert(CURSOR_POSITIONING_FINALS@[14] == 0x60);
        }
    }
    if edits(last) {
        assert(exists|i: int| 0 <= i < 7 && CURSOR_INCIDENTAL_FINALS@[i] == last) by {
            assert(CURSOR_INCIDENTAL_FINALS@[0] == 0x4a);
            assert(CURSOR_INCIDENTAL_FINALS@[1] == 0x4b);
            assert(CURSOR_INCIDENTAL_FINALS@[2] == 0x4c);
            assert(CURSOR_INCIDENTAL_FINALS@[3] == 0x4d);
            assert(CURSOR_INCIDENTAL_FINALS@[4] == 0x50);
            assert(CURSOR_INCIDENTAL_FINALS@[5] == 0x58);
            assert(CURSOR_INCIDENTAL_FINALS@[6] == 0x40);
        }
    }
}

/// A control sequence decides the placement by the byte that it ends on.
pub proof fn law_control_sequence(tracker: PlacementModel, body: Seq<u8>, last: u8)
    requires
        can_open(tracker),
        is_csi_body(body),
        0x40 <= last <= 0x7e,
    ensures
        tracker.feed(crate::ansi::control_sequence(body, last)) == (PlacementModel {
            position: PlacementParseState::Ground,
            placement: if positions(last) {
                CursorPlacement::Positioned
            } else if edits(last) {
                CursorPlacement::Printed
            } else {
                tracker.placement
            },
        }),
{
    let opening = seq![ESC, '[' as u8];
    lemma_feed_two(tracker, ESC, '[' as u8);
    law_batches_join(tracker, opening, body);
    lemma_csi_body(tracker.at(PlacementParseState::Csi), body);
    lemma_finals(last);
    assert(crate::ansi::control_sequence(body, last).drop_last() =~= opening + body);
}

/// The lists hold the bytes that position and those that edit and no others. No byte
/// does both, all of them end a control sequence, and `s` and `u` do neither.
pub proof fn law_finals_are_apart(byte: u8)
    ensures
        CURSOR_POSITIONING_FINALS@.contains(byte) == positions(byte),
        CURSOR_INCIDENTAL_FINALS@.contains(byte) == edits(byte),
        CURSOR_POSITIONING_FINALS@.contains(byte) ==> crate::ansi::is_final(byte),
        CURSOR_INCIDENTAL_FINALS@.contains(byte) ==> crate::ansi::is_final(byte),
        !(CURSOR_POSITIONING_FINALS@.contains(byte) && CURSOR_INCIDENTAL_FINALS@.contains(byte)),
        byte == 's' as u8 || byte == 'u' as u8 ==> !CURSOR_POSITIONING_FINALS@.contains(byte)
            && !CURSOR_INCIDENTAL_FINALS@.contains(byte),
{
    lemma_finals(byte);
}

/// Styling (`m`) and mode changes (`h`, `l`) do not move the cursor.
pub proof fn law_styling_keeps_placement(tracker: PlacementModel, body: Seq<u8>, last: u8)
    requires
        can_open(tracker),
        is_csi_body(body),
        last == 'm' as u8 || last == 'h' as u8 || last == 'l' as u8,
    ensures
        tracker.feed(crate::ansi::control_sequence(body, last)) == tracker.at(PlacementParseState::Ground),
{
    assert(!CURSOR_POSITIONING_FINALS@.contains(last));
    assert(!CURSOR_INCIDENTAL_FINALS@.contains(last));
    law_control_sequence(tracker, body, last);
}

/// Positioning in order to erase or edit is not a placement, and the positioning that
/// follows such an edit is one.
pub proof fn law_edit_undoes_placement(
    tracker: PlacementModel,
    there: Seq<u8>,
    go: u8,
    what: Seq<u8>,
    edit: u8,
    home: Seq<u8>,
    back: u8,
)
    requires
        can_open(tracker),
        is_csi_body(there),
        is_csi_body(what),
        is_csi_body(home),
        positions(go),
        edits(edit),
        positions(back),
    ensures
        tracker.feed(crate::ansi::control_sequence(there, go)).placement is Positioned,
        tracker.feed(crate::ansi::control_sequence(there, go) + crate::ansi::control_sequence(what, edit)).placement
            is Printed,
        tracker.feed(
            crate::ansi::control_sequence(there, go) + crate::ansi::control_sequence(what, edit) + crate::ansi::control_sequence(
                home,
                back,
            ),
        ).placement is Positioned,
{
    law_finals_are_apart(go);
    law_finals_are_apart(edit);
    law_finals_are_apart(back);
    let gone = tracker.feed(crate::ansi::control_sequence(there, go));
    law_control_sequence(tracker, there, go);
    law_batches_join(tracker, crate::ansi::control_sequence(there, go), crate::ansi::control_sequence(what, edit));
    law_control_sequence(gone, what, edit);
    let edited = gone.feed(crate::ansi::control_sequence(what, edit));
    law_batches_join(
        tracker,
        crate::ansi::control_sequence(there, go) + crate::ansi::control_sequence(what, edit),
        crate::ansi::control_sequence(home, back),
    );
    law_control_sequence(edited, home, back);
}

proof fn lemma_payload(tracker: PlacementModel, payload: Seq<u8>)
    requires
        tracker.position is StringPayload,
        !payload.contains(ESC),
        !payload.contains(BEL),
    ensures
        tracker.feed(payload) == tracker,
    decreases payload.len(),
{
    if payload.len() > 0 {
        assert(payload[payload.len() - 1] != ESC && payload[payload.len() - 1] != BEL);
        assert forall|i: int| 0 <= i < payload.len() - 1 implies payload.drop_last()[i] != ESC
            && payload.drop_last()[i] != BEL by {
            assert(payload[i] != ESC && payload[i] != BEL);
        }
        lemma_payload(tracker, payload.drop_last());
    }
}

/// The payload of a string sequence is not printing, whether a bell ends it or an
/// escape sequence of one byte does.
pub proof fn law_payload_is_not_printing(
    tracker: PlacementModel,
    opener: u8,
    payload: Seq<u8>,
    closer: u8,
)
    requires
        can_open(tracker),
        opener == ']' as u8 || opener == 'P' as u8 || opener == 'X' as u8 || opener == '^' as u8
            || opener == '_' as u8,
        !payload.contains(0x1b),
        !payload.contains(0x07),
        closer != 0x1b,
    ensures
        tracker.feed(seq![0x1b, opener] + payload + seq![0x07]) == (PlacementModel {
            position: PlacementParseState::Ground,
            placement: tracker.placement,
        }),
        tracker.feed(seq![0x1b, opener] + payload + seq![0x1b, closer]) == (PlacementModel {
            position: PlacementParseState::Ground,
            placement: tracker.placement,
        }),
{
    let opening = seq![ESC, opener];
    let inside = tracker.at(PlacementParseState::StringPayload);
    lemma_feed_two(tracker, ESC, opener);
    law_batches_join(tracker, opening, payload);
    lemma_payload(inside, payload);
    assert((opening + payload + seq![BEL]).drop_last() =~= opening + payload);
    law_batches_join(tracker, opening + payload, seq![ESC, closer]);
    lemma_feed_two(inside, ESC, closer);
}

/// Restoring a saved cursor (`ESC 8`) is a placement.
pub proof fn law_restoring_is_a_placement(tracker: PlacementModel)
    requires
        can_open(tracker),
    ensures
        tracker.feed(seq![ESC, '8' as u8]) == (PlacementModel {
            position: PlacementParseState::Ground,
            placement: CursorPlacement::Positioned,
        }),
{
    lemma_feed_two(tracker, ESC, '8' as u8);
}

/// An escape sequence with an intermediate byte, such as one that selects a charset,
/// does not move the cursor, and its last byte is not printing.
pub proof fn law_charset_keeps_placement(tracker: PlacementModel, intermediate: u8, last: u8)
    requires
        can_open(tracker),
        intermediate == '(' as u8 || intermediate == ')' as u8 || intermediate == '*' as u8
            || intermediate == '+' as u8 || intermediate == '%' as u8 || intermediate == '#' as u8
            || intermediate == ' ' as u8,
    ensures
        tracker.feed(seq![0x1b, intermediate]).placement == tracker.placement,
        tracker.feed(seq![0x1b, intermediate, last]) == (PlacementModel {
            position: PlacementParseState::Ground,
            placement: tracker.placement,
        }),
{
    lemma_feed_two(tracker, ESC, intermediate);
    assert(seq![ESC, intermediate, last].drop_last() =~= seq![ESC, intermediate]);
}

/// Each byte that changes the placement has one of four reasons: a control sequence
/// that positions or a restored cursor, and printing or a control sequence that edits.
pub proof fn law_placement_changes_for_a_reason(tracker: PlacementModel, byte: u8)
    ensures
        tracker.placement is Printed && tracker.step(byte).placement is Positioned ==> {
            ||| tracker.position is Csi && CURSOR_POSITIONING_FINALS@.contains(byte)
            ||| tracker.position is Escape && byte == '8' as u8
        },
        tracker.placement is Positioned && tracker.step(byte).placement is Printed ==> {
            ||| tracker.position is Ground && (0x08 <= byte <= 0x0d || byte >= 0x20)
            ||| tracker.position is Csi && CURSOR_INCIDENTAL_FINALS@.contains(byte)
        },
{
}

/// A tracker that has read nothing is outside any sequence, with the cursor placed.
pub proof fn law_placed_at_first()
    ensures
        PlacementModel::initial().position is Ground,
        PlacementModel::initial().placement is Positioned,
{
}

/// An escape sequence of one byte ends at that byte and does not move the cursor: that
/// is any byte but `[`, another `ESC`, `8`, those that open a payload and those that
/// announce one more.
pub proof fn law_short_escape_ends_at_once(tracker: PlacementModel, byte: u8)
    requires
        can_open(tracker),
        byte != '[' as u8 && byte != 0x1b && byte != '8' as u8,
        byte != ']' as u8 && byte != 'P' as u8 && byte != 'X' as u8 && byte != '^' as u8 && byte
            != '_' as u8,
        byte != '(' as u8 && byte != ')' as u8 && byte != '*' as u8 && byte != '+' as u8 && byte
            != '%' as u8 && byte != '#' as u8 && byte != ' ' as u8,
    ensures
        tracker.feed(seq![0x1b, byte]) == (PlacementModel {
            position: PlacementParseState::Ground,
            placement: tracker.placement,
        }),
{
    lemma_feed_two(tracker, 0x1b, byte);
}

/// What follows an escape sequence of one byte is text again: it leaves the cursor
/// printed as soon as one byte of it prints, advances or wraps.
pub proof fn law_text_after_short_escape_prints(tracker: PlacementModel, byte: u8, text: Seq<u8>)
    requires
        can_open(tracker),
        byte != '[' as u8 && byte != 0x1b && byte != '8' as u8,
        byte != ']' as u8 && byte != 'P' as u8 && byte != 'X' as u8 && byte != '^' as u8 && byte
            != '_' as u8,
        byte != '(' as u8 && byte != ')' as u8 && byte != '*' as u8 && byte != '+' as u8 && byte
            != '%' as u8 && byte != '#' as u8 && byte != ' ' as u8,
        !text.contains(0x1b),
    ensures
        tracker.feed(seq![0x1b, byte] + text).placement == if exists|i: int|
            0 <= i < text.len() && (0x08 <= #[trigger] text[i] <= 0x0d || text[i] >= 0x20) {
            CursorPlacement::Printed
        } else {
            tracker.placement
        },
{
    law_short_escape_ends_at_once(tracker, byte);
    law_batches_join(tracker, seq![0x1b, byte], text);
    law_text_prints(tracker.feed(seq![0x1b, byte]), text);
}

/// An `ESC` that can open a sequence does so afresh, whatever sequence it cuts short: a
/// lone `ESC` before it and an unfinished control sequence are as if never written.
pub proof fn law_escape_cuts_short(tracker: PlacementModel, body: Seq<u8>, rest: Seq<u8>)
    requires
        can_open(tracker),
        is_csi_body(body),
    ensures
        tracker.feed(seq![0x1b, 0x1b] + rest) == tracker.feed(seq![0x1b] + rest),
        tracker.feed(seq![0x1b, 0x5b] + body + seq![0x1b] + rest) == tracker.feed(
            seq![0x1b] + rest,
        ),
{
    lemma_feed_two(tracker, 0x1b, 0x1b);
    assert(tracker.feed(seq![0x1bu8]) == tracker.step(0x1b)) by {
        assert(seq![0x1bu8].drop_last() =~= Seq::empty());
        reveal_with_fuel(PlacementModel::feed, 2);
    }
    law_batches_join(tracker, seq![0x1b, 0x1b], rest);
    law_batches_join(tracker, seq![0x1b], rest);
    let opening = seq![0x1bu8, 0x5b];
    lemma_feed_two(tracker, 0x1b, 0x5b);
    law_batches_join(tracker, opening, body);
    lemma_csi_body(tracker.at(PlacementParseState::Csi), body);
    assert((opening + body + seq![0x1bu8]).drop_last() =~= opening + body);
    law_batches_join(tracker, opening + body + seq![0x1b], rest);
}

/// A payload that an `ESC` ends takes every `ESC` that follows and one byte more, and
/// none of them moves the cursor or opens a sequence.
pub proof fn law_payload_takes_its_terminator(
    tracker: PlacementModel,
    opener: u8,
    payload: Seq<u8>,
    escapes: Seq<u8>,
    closer: u8,
)
    requires
        can_open(tracker),
        opener == ']' as u8 || opener == 'P' as u8 || opener == 'X' as u8 || opener == '^' as u8
            || opener == '_' as u8,
        !payload.contains(0x1b),
        !payload.contains(0x07),
        escapes.len() > 0,
        forall|i: int| 0 <= i < escapes.len() ==> #[trigger] escapes[i] == 0x1b,
        closer != 0x1b,
    ensures
        tracker.feed(seq![0x1b, opener] + payload + escapes).placement == tracker.placement,
        tracker.feed(seq![0x1b, opener] + payload + escapes + seq![closer]) == (PlacementModel {
            position: PlacementParseState::Ground,
            placement: tracker.placement,
        }),
{
    let opening = seq![0x1bu8, opener];
    let inside = tracker.at(PlacementParseState::StringPayload);
    lemma_feed_two(tracker, 0x1b, opener);
    law_batches_join(tracker, opening, payload);
    lemma_payload(inside, payload);
    law_batches_join(tracker, opening + payload, escapes);
    lemma_payload_escapes(inside, escapes);
    assert((opening + payload + escapes + seq![closer]).drop_last() =~= opening + payload
        + escapes);
}

proof fn lemma_payload_escapes(tracker: PlacementModel, escapes: Seq<u8>)
    requires
        tracker.position is StringPayload,
        escapes.len() > 0,
        forall|i: int| 0 <= i < escapes.len() ==> #[trigger] escapes[i] == 0x1b,
    ensures
        tracker.feed(escapes) == tracker.at(PlacementParseState::StringPayloadEscape),
    decreases escapes.len(),
{
    let before = escapes.drop_last();
    assert(escapes[escapes.len() - 1] == 0x1b);
    if before.len() > 0 {
        assert forall|i: int| 0 <= i < before.len() implies #[trigger] before[i] == 0x1b by {
            assert(escapes[i] == 0x1b);
        }
        lemma_payload_escapes(tracker, before);
    } else {
        reveal_with_fuel(PlacementModel::feed, 2);
    }
}

/// A sequence moves the cursor only when it ends: while it is unfinished the placement is
/// what it was before.
pub proof fn law_unfinished_sequence_keeps_placement(
    tracker: PlacementModel,
    body: Seq<u8>,
    opener: u8,
    payload: Seq<u8>,
)
    requires
        can_open(tracker),
        is_csi_body(body),
        opener == ']' as u8 || opener == 'P' as u8 || opener == 'X' as u8 || opener == '^' as u8
            || opener == '_' as u8,
        !payload.contains(0x1b),
        !payload.contains(0x07),
    ensures
        tracker.feed(seq![0x1b]).placement == tracker.placement,
        tracker.feed(seq![0x1b, 0x5b] + body).placement == tracker.placement,
        tracker.feed(seq![0x1b, opener] + payload).placement == tracker.placement,
{
    assert(seq![0x1bu8].drop_last() =~= Seq::empty());
    reveal_with_fuel(PlacementModel::feed, 2);
    lemma_feed_two(tracker, 0x1b, 0x5b);
    law_batches_join(tracker, seq![0x1b, 0x5b], body);
    lemma_csi_body(tracker.at(PlacementParseState::Csi), body);
    lemma_feed_two(tracker, 0x1b, opener);
    law_batches_join(tracker, seq![0x1b, opener], payload);
    lemma_payload(tracker.at(PlacementParseState::StringPayload), payload);
}

} // verus!
