# halley

The decision logic of the Halley Wayland compositor and of its desktop portal,
verified with Verus.

- `src/` is the library. Every function states in its contract what it decides;
  the public proof functions state what holds across functions.
  - `session`: workspace snapshots and transactions, click-grab coordinates
  - `wayland`: gamma control, dmabuf advertisement and feedback, permissions,
    the virtual keyboard and the input method
  - `xwayland`: the auxiliary X11 control connection
  - `accessibility`, `portal`, `bus`: who may call over the session bus, and the
    portal's sessions
  - `paths`, `text`: helpers
- `app/` performs what the library decides: sockets, files, threads and the
  event loop.
- `tests/` runs the library on concrete values.

Protocol objects, windows and outputs appear in the library as integers, and
paths as bytes. Floating-point numbers do not appear: the X11 pointer takes its
coordinates as bit patterns, and click grabs take theirs in whole units.
