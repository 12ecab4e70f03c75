# bezy

The editing logic of the Bezy font editor, written in Verus and proved
against its contracts.

`src/` is the verified library:

- `text/` — sorts in text buffers, the buffer cursor, typing, deleting,
  line breaks, cursor movement (including up and down by line), text flow
  offsets in both directions, sort placement and glyph selection.
- `shaping/` — Arabic contextual forms and the hand-off to the HarfRust
  shaping engine.
- `tools/` — the tool state with its temporary-tool stack, tool switching,
  the toolbar entries of the drawing tools and the routing of input events
  to the tools.
- `tui/` — the state machines of the terminal interface: tab cycling,
  global keys, the glyph lists with search, the QA issue browser, the log,
  and the Game of Life.
- `font_loading.rs` — loading the font source once, after startup.
- `strings.rs`, `settings.rs`, `editing/` — string helpers, settings and
  nudging.

`app/` holds the terminal program around the library (drawing with
ratatui, terminal events with crossterm, the tokio event loop) and the
tools' floating-point geometry. `tests/` exercises the library.
