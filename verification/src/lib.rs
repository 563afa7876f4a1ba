//! Decides where a terminal multiplexer shows the cursor of a child program.

pub mod ansi;
pub mod clock;
pub mod decscusr;
pub mod decscusr_laws;
pub mod placement;
pub mod placement_laws;
pub mod settle;
pub mod settle_laws;
pub mod terminal;
