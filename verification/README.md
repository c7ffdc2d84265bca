# reader_shell

The state and view-model logic of a small GPUI reading-app shell and of two
counter panels, verified with Verus.

- `src/theme.rs`, `src/my_theme.rs`: the dark and light palettes (`0xRRGGBB`).
- `src/layout.rs`: what the shell shows, as plain values.
- `src/app.rs`, `src/my_app.rs`: shell state, its layout, and the state
  changes that navigation and chat-panel clicks make, with their laws.
- `src/frame_meter.rs`: frame counting over half-second windows.
- `src/native_counter.rs`, `src/component_counter.rs`: counter panel state.
- `app/`: the GPUI program that draws these values and feeds clicks, frames
  and the clock back into the library.
