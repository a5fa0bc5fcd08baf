# textdraw

An interactive terminal ASCII diagram editor: lines, boxes, arrows, text and
tables on a character grid, with selection, moving, property editing, table
cell editing, a command line for saving and opening files, and a `--render`
mode that prints a diagram file.

## Layout

- `src/` — the editor's core, verified with Verus: element geometry and
  rendering (`elements`, `geometry`, `drawing`, `grid`), the canvas and the
  editor state (`state`), the drawing tools (`tools`), the keyboard and mouse
  rules of each panel (`components`, `events`, `input`) and the chain that
  hands each event to them in turn (`events::dispatch`), what each panel shows
  as styled runs of text (`components`, `styles`), and the file contents
  (`file`).
- `tests/` — tests of the library on concrete values.
- `app/` — the terminal program: command-line parsing, the event loop, drawing
  with the terminal UI library, and reading and writing diagram files as JSON.

The library decides and computes; the program reads events and files, hands
the library plain values and puts its results on screen.

## Design notes

Cell maps are kept in a `Vec` of cells with the invariant that no cell
occurs twice (`grid::CharGrid`, and the per-cell direction sets of lines and
of the table editor), viewed as a `Map` from cell to character, rather than in
a `HashMap` keyed by `(i32, i32)`. vstd specifies `HashMap` only for key types
known to obey its hashing model — the primitive integers and `bool` — and a
tuple key would need that model assumed without proof, which this crate does
not do. Packing a cell into one integer key would work, but the drawing also
walks its cells in a fixed order (later writes win, rows print left to
right), which a `HashMap` does not specify; the `Vec` gives that order and
the same map view, proved.
