# winit_gtk4

The platform logic of a GTK 4 backend for a windowing library, written in
Verus and verified.

- `src/keysym.rs`, `src/keysyms.rs`: X11 keysyms to logical keys and key
  locations, with laws on modifier pairs and the keypad.
- `src/dnd/`: drag and drop. `action` converts between the library's actions
  and GDK's action flags; `offer` numbers transfers and keeps the received and
  sent drags; `drag_state` follows a drag over one window; `events` holds the
  decisions of a window's drop target and of a sent drag; `trace` proves the
  order of a drop target's events over any sequence of calls; `data` covers MIME
  types, charsets and the encodings of offered data.
- `src/text.rs`: the text operations of `str` that the MIME handling needs,
  specified over characters.
- `src/icon.rs`: the memory layout of icon textures.
- `app/`: the GTK, GDK and winit-core glue around the library (not verified).
- `tests/`: tests of the library, among them a comparison of every keysym
  value with `xkbcommon-dl`.
