# keyviz

The logic of a key-combination overlay for Wayland, verified with Verus.

- `src/combo.rs`: held modifiers, the modifier of each key code, and the
  combination label (modifiers in the fixed order Super, Ctrl, Alt, AltGr,
  Shift, then the key, joined by U+001F).
- `src/captura.rs`: the step of the capture loop: what a key event does to
  the held modifiers and Caps Lock, and what it shows.
- `src/xkb.rs`: modifier masks and key code handed to an xkb state, and the
  filter on the text it returns.
- `src/localectl.rs`: the X11 layout, variant and options in
  `localectl status` output.
- `src/json.rs`: a JSON value as the library holds it, read by serde_json,
  with member lookup.
- `src/niri.rs`: the active layout group in `niri msg -j keyboard-layouts`
  output, and the polling decisions.
- `src/texto.rs`: splitting and joining character sequences.

`app/` holds the program around it: evdev device threads, the xkbcommon
state, the commands it runs, the Tauri window and the layer-shell setup.
