# pane_cursor

Decides where a terminal multiplexer shows the cursor of a child program. The library is
verified with Verus; the contracts and laws stand beside the code.

- `src/decscusr.rs` follows the child's choice of cursor shape (`CSI Ps SP q`).
- `src/placement.rs` tells whether the child placed its cursor or printing left it there.
- `src/settle.rs` holds new positions back until the child has settled on one.
- `src/*_laws.rs` state what holds over whole sequences, streams and runs of calls.
- `src/clock.rs`, `src/terminal.rs` and `src/ansi.rs` hold the values all of them share.
- `app/` translates the machine's monotonic clock into the library's nanosecond counts.

A parameter of more than sixteen bits does not keep its value: see `next_param`.
