# snui

A small widget toolkit for Wayland clients, written in Verus: the widgets' geometry and
pixel painting, damage tracking, pointer routing, the state machines of animated widgets,
frame pacing and the image cache carry contracts that Verus proves.

- `src/` — the verified library.
  - `damage`, `proxy`, `view`, `pointer`, `seat`, `scene`: damage levels, how a widget proxy
    routes pointer events, when a view renders and asks for frame callbacks, what window
    messages do, how the client follows the pointer and the keyboard across its views, what it
    keeps of outputs, and how a scene walks the children of a render-tree container.
  - `widgets/`: rectangles and decorations painted into BGRA byte buffers (`base`), placed
    children (`inner`), lists and list boxes, buttons, the revealer/switch/toggle state
    machines (`extra`), images and the window's reaction to configure events.
  - `cache/image`, `cache/path`: decoding images (with the `image` crate) and the cache of
    decoded images, keyed by the components of their paths.
  - `input`, `cursor`, `controller`, `mail`, `data`, `font`, `theme`, `demo`: the vocabulary
    of events, cursors, messages and the animation demo.
- `app/` — plain Rust around the library: reading image files, printing reports, and the
  floating-point geometry, events and easing curves that drive the library's state machines.
- `tests/` — tests of the library's behaviour on concrete values.
