# plugin_editors

Verified decision logic of the Crisp and Spectral Compressor editors and of the resize handle
widget, written in Verus.

- `src/` holds the verified library: the resize handle's drag state machine, the editor mode
  and window sizes, the analyzer's colors, repaint decisions and threshold curve layout.
  `src/outside.rs` declares the outside types and calls the library relies on.
- `app/` holds the floating point geometry and the egui drawing that sit around it.
- `tests/` exercises the library.
