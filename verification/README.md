# ldraw

A native whiteboard (infinite canvas, shape tools, freehand strokes, undo/redo,
SVG/PNG export) split into a verified library and the program around it.

- `src/` — the library, verified with Verus:
  - `history.rs`: bounded undo/redo history of snapshots, with its laws
    (undo restores a checkpoint, redo reverts undo and back, a checkpoint ends
    redo, every operation stays within capacity).
  - `tools.rs`: the tools, their names and hotkeys, the keyboard-shortcut
    decision, the toolbar order, and the placement/anchor/pivot/scaled axes of
    the selection's transform handles.
  - `interaction.rs`: what a pointer press on the canvas starts (rotate,
    resize, move, select, marquee, erase, laser, place text/image, draw), what
    finishing a drawing does, and the command shortcuts (undo, redo, save,
    open, new, duplicate, delete, zoom).
  - `arrange.rs`: deleting the selected shapes and moving them to the front or
    back of the paint order (stable, and a permutation), toggling locks, and
    which selected shapes can move.
  - `theme.rs`: theme and grid cycling and the theme palette.
  - `model.rs`: colors and blend modes.
  - `io.rs`: CSS color notation and XML escaping used when writing SVG, with
    the escaping laws (no markup characters remain, every `&` starts an
    entity, decoding gives the text back).
- `tests/`: tests of the library.
- `app/`: the egui/eframe program: window, painting, input, floating-point
  geometry (bounds, hit tests, transforms, stroke simplification), project
  files (serde_json), SVG and PNG export (tiny-skia), autosave location
  (directories).
