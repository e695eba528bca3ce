# libwmctl

A library and a command line tool (`wmctl`) for shaping and placing windows on EWMH compatible
window managers.

* `src/` is the library, verified with Verus: the window model (shapes, positions, states,
  kinds, classes, map states, gravities, borders), the interpretation of the X server's
  property replies, and the translation of pre-defined shapes and positions into the sizes and
  coordinates a window is moved and resized to.
* `app/` is the `wmctl` program: the command line, logging and the connection to the X server.
  It asks the X server for each property, hands the reply's values to the library, and sends
  back what the library computes.
* `tests/` exercises the library on concrete values.
