# chess_gui

The core of a small chess window, written and proved in Verus.

- `src/pieces.rs`: pieces, the engine's codes for them, and their glyphs
- `src/model.rs`: the window's state as mathematics, and what each event makes of it
- `src/state.rs`: the executable state; clicks, ticks, checkboxes and buttons
- `src/grid.rs`: how the board is drawn
- `src/panel.rs`, `src/text.rs`: the clocks, the list of moves and the numbers in them
- `src/laws.rs`: what holds across the events of a game
- `app/`: the Xilem window around the library, for any engine that implements its
  `Engine` trait; seconds are kept there as floating-point numbers

A periodic tick asks its caller for one step at a time: to read whose turn it is,
to try a move, to start the engine, or to look for its reply. The caller does it
and reports back. The library makes no call into any other crate.
