//! The cursor as a terminal reports it.

use vstd::prelude::*;

verus! {

/// A cursor on the screen: its cell, whether it shows, and its shape.
#[derive(Debug, Clone, Copy, PartialEq, Eq, Structural)]
pub struct TerminalCursorState {
    pub x: u16,
    pub y: u16,
    pub visible: bool,
    pub shape: u8,
}

} // verus!
