//! What holds of the shape tracker over whole sequences and streams.

use vstd::prelude::*;

use crate::ansi::ESC;
use crate::decscusr::{DecscusrModel, DecscusrPosition};

verus! {

/// Whether the first parameter is over somewhere in the body of a control sequence.
pub open spec fn first_param_over(body: Seq<u8>) -> bool {
    exists|i: int|
        0 <= i < body.len() && (#[trigger] body[i] == ';' as u8 || body[i] == ':' as u8 || body[i]
            == ' ' as u8)
}

/// The digits of the first parameter in the body of a control sequence.
pub open spec fn first_param_digits(body: Seq<u8>) -> Seq<u8>
    decreases body.len(),
{
    if body.len() == 0 {
        Seq::empty()
    } else {
        let before = first_param_digits(body.drop_last());
        if 0x30 <= body.last() <= 0x39 && !first_param_over(body.drop_last()) {
            before.push(body.last())
        } else {
            before
        }
    }
}

/// The number that a run of digits is taken for: their decimal value as long as it fits
/// sixteen bits. Beyond, ten times the number before is held at the largest such value,
/// and what a digit adds to it is counted modulo two to the sixteenth.
pub open spec fn param_number(digits: Seq<u8>) -> int
    decreases digits.len(),
{
    if digits.len() == 0 {
        0
    } else {
        let before = param_number(digits.drop_last());
        let tenfold = if before * 10 > 65535 { 65535 } else { before * 10 };
        (tenfold + (digits.last() - 0x30)) % 65536
    }
}

/// The number that a run of digits writes in decimal.
pub open spec fn decimal(digits: Seq<u8>) -> int
    decreases digits.len(),
{
    if digits.len() == 0 {
        0
    } else {
        decimal(digits.drop_last()) * 10 + (digits.last() - 0x30)
    }
}

/// It does not matter how the output is cut into batches.
pub proof fn law_batches_join(tracker: DecscusrModel, left: Seq<u8>, right: Seq<u8>)
    ensures
        tracker.feed(left + right) == tracker.feed(left).feed(right),
    decreases right.len(),
{
    if right.len() == 0 {
        assert(left + right =~= left);
    } else {
        assert((left + right).drop_last() =~= left + right.drop_last());
        law_batches_join(tracker, left, right.drop_last());
    }
}

/// An `ESC` opens a new sequence wherever it comes, and alone changes nothing.
pub proof fn law_escape_restarts(tracker: DecscusrModel)
    ensures
        tracker.step(ESC) == tracker.at(DecscusrPosition::Escape),
{
}

/// Output outside any sequence, as long as it opens none, leaves the tracker as it is.
pub proof fn law_text_is_inert(tracker: DecscusrModel, text: Seq<u8>)
    requires
        tracker.position is Ground,
        !text.contains(ESC),
    ensures
        tracker.feed(text) == tracker,
    decreases text.len(),
{
    if text.len() > 0 {
        assert(text[text.len() - 1] != ESC);
        assert forall|i: int| 0 <= i < text.len() - 1 implies text.drop_last()[i] != ESC by {
            assert(text[i] != ESC);
        }
        law_text_is_inert(tracker, text.drop_last());
    }
}

/// Only a `q` can change whether the shape is overridden.
pub proof fn law_only_q_decides(tracker: DecscusrModel, bytes: Seq<u8>)
    requires
        !bytes.contains('q' as u8),
    ensures
        tracker.feed(bytes).overridden == tracker.overridden,
    decreases bytes.len(),
{
    if bytes.len() > 0 {
        assert(bytes[bytes.len() - 1] != 'q' as u8);
        assert forall|i: int| 0 <= i < bytes.len() - 1 implies bytes.drop_last()[i]
            != 'q' as u8 by {
            assert(bytes[i] != 'q' as u8);
        }
        law_only_q_decides(tracker, bytes.drop_last());
    }
}

/// Where the tracker stands after the body of a control sequence.
proof fn lemma_body(tracker: DecscusrModel, body: Seq<u8>)
    requires
        forall|i: int| 0 <= i < body.len() ==> 0x20 <= #[trigger] body[i] <= 0x3f,
    ensures
        tracker.at(
            DecscusrPosition::Csi { param: 0, collecting: true, space: false },
        ).feed(body) == tracker.at(
            DecscusrPosition::Csi {
                param: param_number(first_param_digits(body)),
                collecting: !first_param_over(body),
                space: body.contains(' ' as u8),
            },
        ),
    decreases body.len(),
{
    if body.len() > 0 {
        let before = body.drop_last();
        let byte = body.last();
        assert forall|i: int| 0 <= i < before.len() implies 0x20 <= #[trigger] before[i] <= 0x3f by {
            assert(before[i] == body[i]);
        }
        lemma_body(tracker, before);
        assert(0x20 <= body[body.len() - 1] <= 0x3f);
        assert(first_param_over(body) == (first_param_over(before) || byte == ';' as u8 || byte
            == ':' as u8 || byte == ' ' as u8)) by {
            if first_param_over(before) {
                let i = choose|i: int|
                    0 <= i < before.len() && (#[trigger] before[i] == ';' as u8 || before[i]
                        == ':' as u8 || before[i] == ' ' as u8);
                assert(body[i] == before[i]);
            }
            if first_param_over(body) && !(byte == ';' as u8 || byte == ':' as u8 || byte
                == ' ' as u8) {
                let i = choose|i: int|
                    0 <= i < body.len() && (#[trigger] body[i] == ';' as u8 || body[i]
                        == ':' as u8 || body[i] == ' ' as u8);
                assert(before[i] == body[i]);
            }
            assert(body[body.len() - 1] == byte);
        }
        assert(body.contains(' ' as u8) == (before.contains(' ' as u8) || byte == ' ' as u8)) by {
            assert(body =~= before.push(byte));
            if before.contains(' ' as u8) {
                let i = choose|i: int| 0 <= i < before.len() && before[i] == ' ' as u8;
                assert(body[i] == ' ' as u8);
            }
            if body.contains(' ' as u8) && byte != ' ' as u8 {
                let i = choose|i: int| 0 <= i < body.len() && body[i] == ' ' as u8;
                assert(before[i] == ' ' as u8);
            }
            assert(body[body.len() - 1] == byte);
        }
        if 0x30 <= byte <= 0x39 && !first_param_over(before) {
            assert(first_param_digits(body).drop_last() =~= first_param_digits(before));
        }
    } else {
        assert(first_param_digits(body) =~= Seq::empty());
    }
}

/// A control sequence is read alike wherever it starts, and leaves the tracker outside
/// any sequence once it ends or a stray byte cuts it off. It decides the override if it
/// ends on `q` and has a space in its body, and then by its first parameter; any other
/// leaves the override alone.
pub proof fn law_control_sequence(tracker: DecscusrModel, body: Seq<u8>, last: u8)
    requires
        forall|i: int| 0 <= i < body.len() ==> 0x20 <= #[trigger] body[i] <= 0x3f,
        last != 0x1b && !(0x20 <= last <= 0x3f),
    ensures
        tracker.feed(crate::ansi::control_sequence(body, last)) == (DecscusrModel {
            position: DecscusrPosition::Ground,
            overridden: if last == 'q' as u8 && body.contains(' ' as u8) && param_number(
                first_param_digits(body),
            ) <= 6 {
                param_number(first_param_digits(body)) != 0
            } else {
                tracker.overridden
            },
        }),
{
    let opening = seq![ESC, '[' as u8];
    let opened = tracker.at(DecscusrPosition::Csi { param: 0, collecting: true, space: false });
    assert(tracker.feed(opening) == opened) by {
        assert(opening.drop_last() =~= seq![ESC]);
        assert(seq![ESC].drop_last() =~= Seq::empty());
        reveal_with_fuel(DecscusrModel::feed, 3);
    }
    law_batches_join(tracker, opening, body);
    lemma_body(tracker, body);
    assert(crate::ansi::control_sequence(body, last).drop_last() =~= opening + body);
}

/// The first parameter always fits sixteen bits.
pub proof fn law_parameter_fits(bytes: Seq<u8>)
    ensures
        DecscusrModel::initial().feed(bytes).position matches DecscusrPosition::Csi { param, .. }
            ==> 0 <= param <= u16::MAX,
    decreases bytes.len(),
{
    if bytes.len() > 0 {
        law_parameter_fits(bytes.drop_last());
    }
}

/// Digits that write a number of at most sixteen bits are taken for that number.
pub proof fn law_parameter_is_decimal(digits: Seq<u8>)
    requires
        forall|i: int| 0 <= i < digits.len() ==> 0x30 <= #[trigger] digits[i] <= 0x39,
        decimal(digits) <= u16::MAX,
    ensures
        param_number(digits) == decimal(digits),
        decimal(digits) >= 0,
    decreases digits.len(),
{
    if digits.len() > 0 {
        assert(0x30 <= digits[digits.len() - 1] <= 0x39);
        assert forall|i: int| 0 <= i < digits.len() - 1 implies 0x30 <= #[trigger] digits.drop_last()[i] <= 0x39 by {
            assert(0x30 <= digits[i] <= 0x39);
        }
        lemma_decimal_not_negative(digits.drop_last());
        law_parameter_is_decimal(digits.drop_last());
    }
}

proof fn lemma_decimal_not_negative(digits: Seq<u8>)
    requires
        forall|i: int| 0 <= i < digits.len() ==> 0x30 <= #[trigger] digits[i] <= 0x39,
    ensures
        decimal(digits) >= 0,
    decreases digits.len(),
{
    if digits.len() > 0 {
        assert(0x30 <= digits[digits.len() - 1] <= 0x39);
        assert forall|i: int| 0 <= i < digits.len() - 1 implies 0x30 <= #[trigger] digits.drop_last()[i] <= 0x39 by {
            assert(0x30 <= digits[i] <= 0x39);
        }
        lemma_decimal_not_negative(digits.drop_last());
    }
}

proof fn lemma_digits_of_plain_body(digits: Seq<u8>)
    requires
        forall|i: int| 0 <= i < digits.len() ==> 0x30 <= #[trigger] digits[i] <= 0x39,
    ensures
        first_param_digits(digits) == digits,
        !first_param_over(digits),
    decreases digits.len(),
{
    if digits.len() > 0 {
        assert(0x30 <= digits[digits.len() - 1] <= 0x39);
        assert forall|i: int| 0 <= i < digits.len() - 1 implies 0x30 <= #[trigger] digits.drop_last()[i] <= 0x39 by {
            assert(0x30 <= digits[i] <= 0x39);
        }
        lemma_digits_of_plain_body(digits.drop_last());
        assert(digits.drop_last().push(digits.last()) =~= digits);
    } else {
        assert(digits =~= Seq::empty());
    }
}

/// `CSI Ps SP q`: a shape from one to six overrides the cursor's shape, zero or no
/// number hands it back, and any other number that fits sixteen bits changes nothing.
pub proof fn law_decscusr(tracker: DecscusrModel, digits: Seq<u8>)
    requires
        forall|i: int| 0 <= i < digits.len() ==> 0x30 <= #[trigger] digits[i] <= 0x39,
        decimal(digits) <= u16::MAX,
    ensures
        tracker.feed(crate::ansi::control_sequence(digits.push(' ' as u8), 'q' as u8)) == (DecscusrModel {
            position: DecscusrPosition::Ground,
            overridden: if decimal(digits) == 0 {
                false
            } else if decimal(digits) <= 6 {
                true
            } else {
                tracker.overridden
            },
        }),
{
    let body = digits.push(' ' as u8);
    assert forall|i: int| 0 <= i < body.len() implies 0x20 <= #[trigger] body[i] <= 0x3f by {
        if i < digits.len() {
            assert(0x30 <= digits[i] <= 0x39);
        }
    }
    assert(body[digits.len() as int] == ' ' as u8);
    assert(body.drop_last() =~= digits);
    lemma_digits_of_plain_body(digits);
    law_parameter_is_decimal(digits);
    law_control_sequence(tracker, body, 'q' as u8);
}

/// A choice of shape stands until another `q` comes, whatever else the child writes.
pub proof fn law_choice_stands(tracker: DecscusrModel, digits: Seq<u8>, rest: Seq<u8>)
    requires
        forall|i: int| 0 <= i < digits.len() ==> 0x30 <= #[trigger] digits[i] <= 0x39,
        decimal(digits) <= 6,
        !rest.contains('q' as u8),
    ensures
        tracker.feed(crate::ansi::control_sequence(digits.push(' ' as u8), 'q' as u8) + rest).overridden == (
        decimal(digits) != 0),
{
    let chosen = crate::ansi::control_sequence(digits.push(' ' as u8), 'q' as u8);
    law_decscusr(tracker, digits);
    law_batches_join(tracker, chosen, rest);
    law_only_q_decides(tracker.feed(chosen), rest);
}

/// The number range that the tracker knows: a run of digits never stands for less than
/// zero or for more than sixteen bits hold.
proof fn lemma_number_fits(digits: Seq<u8>)
    ensures
        0 <= param_number(digits) <= 65535,
    decreases digits.len(),
{
}

/// Every byte from `@` to `~` ends a control sequence, and so does every other that
/// neither belongs to its body nor opens another. What follows it is text: without an
/// `ESC` it changes nothing, whatever it holds.
pub proof fn law_text_after_a_sequence_is_inert(
    tracker: DecscusrModel,
    body: Seq<u8>,
    last: u8,
    text: Seq<u8>,
)
    requires
        forall|i: int| 0 <= i < body.len() ==> 0x20 <= #[trigger] body[i] <= 0x3f,
        last != 0x1b && !(0x20 <= last <= 0x3f),
        !text.contains(0x1b),
    ensures
        tracker.feed(seq![0x1b, 0x5b] + body + seq![last]).position is Ground,
        tracker.feed(seq![0x1b, 0x5b] + body + seq![last] + text) == tracker.feed(
            seq![0x1b, 0x5b] + body + seq![last],
        ),
        last != 'q' as u8 ==> tracker.feed(
            seq![0x1b, 0x5b] + body + seq![last] + text,
        ).overridden == tracker.overridden,
{
    let sequence = seq![0x1b, 0x5b] + body + seq![last];
    assert(sequence =~= crate::ansi::control_sequence(body, last));
    law_control_sequence(tracker, body, last);
    law_batches_join(tracker, sequence, text);
    law_text_is_inert(tracker.feed(sequence), text);
}

/// Whether a control sequence that opens at `start` is still unfinished at the end.
spec fn unfinished(bytes: Seq<u8>, start: int) -> bool {
    &&& 0 <= start
    &&& start + 2 <= bytes.len()
    &&& bytes[start] == 0x1b
    &&& bytes[start + 1] == 0x5b
    &&& forall|k: int| start + 2 <= k < bytes.len() ==> 0x20 <= #[trigger] bytes[k] <= 0x3f
}

/// Whether the bytes from `start` to `end`, both with them, are `ESC [`, a body of bytes
/// from space to `?` with a space among them, and `q`.
pub open spec fn chooses_shape(bytes: Seq<u8>, start: int, end: int) -> bool {
    &&& 0 <= start
    &&& start + 2 <= end < bytes.len()
    &&& bytes[start] == 0x1b
    &&& bytes[start + 1] == 0x5b
    &&& bytes[end] == 'q' as u8
    &&& forall|k: int| start + 2 <= k < end ==> 0x20 <= #[trigger] bytes[k] <= 0x3f
    &&& bytes.subrange(start + 2, end).contains(' ' as u8)
}

/// The shape that the sequence from `start` to `end` asks for.
pub open spec fn chosen_shape(bytes: Seq<u8>, start: int, end: int) -> int {
    param_number(first_param_digits(bytes.subrange(start + 2, end)))
}

/// Whether the bytes from `start` to `end` choose a shape that has a meaning.
pub open spec fn decides(bytes: Seq<u8>, start: int, end: int) -> bool {
    chooses_shape(bytes, start, end) && chosen_shape(bytes, start, end) <= 6
}

proof fn lemma_unfinished(tracker: DecscusrModel, bytes: Seq<u8>, start: int)
    requires
        unfinished(bytes, start),
    ensures
        ({
            let body = bytes.subrange(start + 2, bytes.len() as int);
            tracker.feed(bytes).position == (DecscusrPosition::Csi {
                param: param_number(first_param_digits(body)),
                collecting: !first_param_over(body),
                space: body.contains(' ' as u8),
            })
        }),
{
    let lead = bytes.take(start);
    let opening = seq![0x1bu8, 0x5b];
    let body = bytes.subrange(start + 2, bytes.len() as int);
    assert(bytes =~= lead + (opening + body));
    law_batches_join(tracker, lead, opening + body);
    let before = tracker.feed(lead);
    let opened = before.at(DecscusrPosition::Csi { param: 0, collecting: true, space: false });
    assert(before.feed(opening) == opened) by {
        assert(opening.drop_last() =~= seq![0x1bu8]);
        assert(seq![0x1bu8].drop_last() =~= Seq::empty());
        reveal_with_fuel(DecscusrModel::feed, 3);
    }
    law_batches_join(before, opening, body);
    assert forall|i: int| 0 <= i < body.len() implies 0x20 <= #[trigger] body[i] <= 0x3f by {
        assert(body[i] == bytes[i + start + 2]);
    }
    lemma_body(before, body);
}

proof fn lemma_outside(tracker: DecscusrModel, bytes: Seq<u8>)
    requires
        tracker.position is Ground,
        bytes.len() > 0 ==> bytes.last() != 0x1b,
        forall|start: int| !unfinished(bytes, start),
    ensures
        tracker.feed(bytes).position is Ground,
    decreases bytes.len(),
{
    if bytes.len() > 0 {
        let before = bytes.drop_last();
        let byte = bytes.last();
        if before.len() > 0 && before.last() == 0x1b {
            law_escape_restarts(tracker.feed(before.drop_last()));
            if byte == 0x5b {
                assert(unfinished(bytes, bytes.len() - 2));
            }
        } else if exists|start: int| unfinished(before, start) {
            let start = choose|start: int| unfinished(before, start);
            lemma_unfinished(tracker, before, start);
            if 0x20 <= byte <= 0x3f {
                assert forall|k: int| start + 2 <= k < bytes.len() implies 0x20
                    <= #[trigger] bytes[k] <= 0x3f by {
                    if k < before.len() {
                        assert(before[k] == bytes[k]);
                    }
                }
                assert(before[start] == bytes[start] && before[start + 1] == bytes[start + 1]);
                assert(unfinished(bytes, start));
            }
        } else {
            lemma_outside(tracker, before);
        }
    }
}

/// What the last byte of a stream does to the override.
proof fn lemma_last_byte(tracker: DecscusrModel, bytes: Seq<u8>)
    requires
        tracker.position is Ground,
        bytes.len() > 0,
    ensures
        forall|start: int| #[trigger]
            decides(bytes, start, bytes.len() - 1) ==> tracker.feed(bytes).overridden == (
            chosen_shape(bytes, start, bytes.len() - 1) != 0),
        (forall|start: int| !#[trigger] decides(bytes, start, bytes.len() - 1)) ==> tracker.feed(
            bytes,
        ).overridden == tracker.feed(bytes.drop_last()).overridden,
{
    let before = bytes.drop_last();
    let end = bytes.len() - 1;
    assert forall|start: int| #[trigger] decides(bytes, start, end) implies tracker.feed(
        bytes,
    ).overridden == (chosen_shape(bytes, start, end) != 0) by {
        assert(bytes.subrange(start + 2, end) =~= before.subrange(start + 2, end));
        assert(unfinished(before, start)) by {
            assert forall|k: int| start + 2 <= k < before.len() implies 0x20
                <= #[trigger] before[k] <= 0x3f by {
                assert(before[k] == bytes[k]);
            }
        }
        lemma_unfinished(tracker, before, start);
        lemma_number_fits(first_param_digits(bytes.subrange(start + 2, end)));
    }
    if forall|start: int| !#[trigger] decides(bytes, start, end) {
        if before.len() > 0 && before.last() == 0x1b {
            law_escape_restarts(tracker.feed(before.drop_last()));
        } else if exists|start: int| unfinished(before, start) {
            let start = choose|start: int| unfinished(before, start);
            lemma_unfinished(tracker, before, start);
            lemma_number_fits(first_param_digits(bytes.subrange(start + 2, end)));
            assert(bytes.subrange(start + 2, end) =~= before.subrange(start + 2, end));
            assert(!decides(bytes, start, end));
            assert forall|k: int| start + 2 <= k < end implies 0x20 <= #[trigger] bytes[k]
                <= 0x3f by {
                assert(before[k] == bytes[k]);
            }
            assert(before[start] == bytes[start] && before[start + 1] == bytes[start + 1]);
        } else {
            lemma_outside(tracker, before);
        }
    }
}

proof fn lemma_decides_in_prefix(bytes: Seq<u8>, start: int, end: int)
    requires
        bytes.len() > 0,
        end < bytes.len() - 1,
    ensures
        decides(bytes.drop_last(), start, end) == decides(bytes, start, end),
        0 <= start && start + 2 <= end ==> chosen_shape(bytes.drop_last(), start, end)
            == chosen_shape(bytes, start, end),
{
    let before = bytes.drop_last();
    if 0 <= start && start + 2 <= end {
        assert(before.subrange(start + 2, end) =~= bytes.subrange(start + 2, end));
        assert(before[start] == bytes[start] && before[start + 1] == bytes[start + 1]
            && before[end] == bytes[end]);
        if chooses_shape(bytes, start, end) {
            assert forall|k: int| start + 2 <= k < end implies 0x20 <= #[trigger] before[k]
                <= 0x3f by {
                assert(bytes[k] == before[k]);
            }
        }
        if chooses_shape(before, start, end) {
            assert forall|k: int| start + 2 <= k < end implies 0x20 <= #[trigger] bytes[k]
                <= 0x3f by {
                assert(bytes[k] == before[k]);
            }
        }
    }
}

/// Whatever a child writes, wherever the bytes lie, the override is that of the last
/// sequence among them that chooses a meaningful shape: on for a shape, off for zero.
pub proof fn law_last_choice_decides(
    tracker: DecscusrModel,
    bytes: Seq<u8>,
    start: int,
    end: int,
)
    requires
        tracker.position is Ground,
        decides(bytes, start, end),
        forall|s: int, e: int| #[trigger] decides(bytes, s, e) ==> e <= end,
    ensures
        tracker.feed(bytes).overridden == (chosen_shape(bytes, start, end) != 0),
    decreases bytes.len(),
{
    lemma_last_byte(tracker, bytes);
    if end < bytes.len() - 1 {
        let before = bytes.drop_last();
        lemma_decides_in_prefix(bytes, start, end);
        assert forall|s: int, e: int| #[trigger] decides(before, s, e) implies e <= end by {
            lemma_decides_in_prefix(bytes, s, e);
        }
        law_last_choice_decides(tracker, before, start, end);
        assert forall|s: int| !#[trigger] decides(bytes, s, bytes.len() - 1) by {
        }
    }
}

/// As long as no such sequence is among the bytes, the override stays as it was.
pub proof fn law_no_choice_changes_nothing(tracker: DecscusrModel, bytes: Seq<u8>)
    requires
        tracker.position is Ground,
        forall|s: int, e: int| !#[trigger] decides(bytes, s, e),
    ensures
        tracker.feed(bytes).overridden == tracker.overridden,
    decreases bytes.len(),
{
    if bytes.len() > 0 {
        let before = bytes.drop_last();
        lemma_last_byte(tracker, bytes);
        assert forall|s: int, e: int| !#[trigger] decides(before, s, e) by {
            if decides(before, s, e) {
                lemma_decides_in_prefix(bytes, s, e);
            }
        }
        law_no_choice_changes_nothing(tracker, before);
    }
}

/// A tracker that has read nothing is outside any sequence, and nothing is overridden.
pub proof fn law_nothing_is_chosen_at_first()
    ensures
        DecscusrModel::initial().position is Ground,
        !DecscusrModel::initial().overridden,
        DecscusrModel::initial().feed(Seq::empty()) == DecscusrModel::initial(),
{
}

} // verus!
