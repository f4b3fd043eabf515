# iced_webview

Web views for iced applications, with the engine bookkeeping proved correct by Verus.

- `src/` is the verified library:
  - `engines/view_manager.rs`: views held under random identifiers (`ViewManager`).
  - `engines/blitz.rs`: the Blitz engine's per-view state (`BlitzView`) and the decisions
    taken on it: update ticks while resources arrive, when and what to render, frame
    de-duplication by a `DefaultHasher` digest of the pixels, navigation, lookups with fallbacks.
  - `engines/input.rs`: keyboard, mouse and cursor values mapped to the engine's.
  - `engines/text.rs`: colour scheme choice, the selector for named anchors, base and
    shown addresses.
  - `image_info.rs`: RGBA frames (`ImageInfo`) and the BGRA to RGBA reordering.
- `app/` holds what depends on the document engine, rendering, floating-point geometry and
  the environment, and converts between iced's, Blitz's and the library's values.
- `tests/` exercises the library on concrete values.
