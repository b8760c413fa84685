# qr_utility

The verified core of `qru`, a terminal utility that makes dynamic, expiring
QR codes and serves their redirects on the local network.

- `src/` is the library, checked by Verus: expiration periods and their
  lenient syntax, QR rendering (Unicode, ASCII, SVG, RGBA, PNG/JPEG exports),
  the history store, short-code resolution and the redirect server's answers,
  URL validation, path cleaning, CSV batch planning and tallying, the port search, the settings, the LAN
  address parser, the command line's decisions and the interactive
  interface's state machine (`ui::app`), whose handlers return the outside
  work they need as `Effect`s.
- `app/` is the program around it: argument parsing, files, the HTTP server,
  the clipboard and the terminal drawing and event loop.
- `tests/` runs the library with the real outside crates linked.
