# window (Linux/X11 backend)

The platform window layer of a terminal emulator on Linux, over X11.

- `src/` is the verified library: the key translation table, the routing of
  X11 events to windows and the window registry, the X11 event decoder, the
  connection's atom cache and screen layout, and the protocol requests that
  window operations send. Contracts and laws (`src/laws.rs`) are checked by
  Verus.
- `app/` does the input and output around it: the xcb connection, the
  xkbcommon keyboard state, the system clipboard and the message loop.
- `tests/` exercises the library on concrete values.

Key events: a raw key event goes to its window first; where the window's
handler leaves it unhandled, a key event follows with shift folded into ASCII
letters (`KeyCode::normalize_shift`). Key events carry no physical key code and
no keyboard LED state.
