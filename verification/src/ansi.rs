//! The bytes of which escape sequences are made.

use vstd::prelude::*;

verus! {

/// Opens an escape sequence.
pub const ESC: u8 = 0x1b;

/// Rings the bell, and ends the payload of an operating system command.
pub const BEL: u8 = 0x07;

/// The bytes that end a control sequence.
pub open spec fn is_final(byte: u8) -> bool {
    0x40 <= byte <= 0x7e
}

/// A control sequence: `ESC [`, a body and the byte that ends it.
pub open spec fn control_sequence(body: Seq<u8>, last: u8) -> Seq<u8> {
    seq![ESC, '[' as u8] + body + seq![last]
}

} // verus!
