# ironlab_ir

The retained figure representation of IronLAB, written in Verus: the parts of the
figure format that are plain data, with their rules stated as contracts and proved.

## Layout

- `src/ids.rs`, `src/text.rs`, `src/style.rs`, `src/axes.rs`, `src/artist.rs`,
  `src/figure.rs`: the plain-data types of a figure (identifiers, text, styles,
  cells, legends, grids, versions) and the hex form of a colour.
- `src/edit/`: property paths and their registry, the walk that resolves a path on a
  node, edit errors and their counts, the node tree, structural edits with their
  inverses, and transactions of structural edits.
- `src/check.rs`, `src/validate.rs`: the validation of references, shapes, grids,
  images, labels, cells and links, each as a function from plain values to issues.
- `src/link.rs`: axis links, their connected components, and the commands that set
  limits, link axes and remove axes.
- `src/overlay.rs`: the overlay of user edits with undo, redo, conflicts and
  reconciliation against structural changes.
- `src/selection.rs`: selections and how they follow edits.
- `src/data.rs`: shapes of arrays, appending to arrays, data identifiers.
- `src/wire/`: the Protocol Buffers schema of the `.fig` format, its rendering to
  `.proto` text, and the conversion of plain values to and from wire messages.
- `src/schema_json.rs`: the JSON Schema of the `.fig.json` format split into one file
  per module, with references between files relocated.
- `app/`: the program that writes the `.proto` files, and the checks that read
  floating-point values.

Laws that span several functions are public proof functions named `law_*`.

Run the tests with `cargo test`; verify the library with Verus on `src/lib.rs`.
