# Lunaris compositor

The logic of a Wayland compositor as a Verus library: every function states what it returns or
changes, and Verus proves it. What outside crates and the standard library do, where Verus has no
specification of it, is believed: those contracts are marked `external_body` or
`assume_specification`, and speak of names without a body where a result takes pages to state.

- `src/config`: the main configuration, key bindings, keyboards, input devices, the layout and its
  window rules, and the stored configurations of outputs.
- `src/shell`: windows and stacks of windows, menus, seats, the magnifier, night light, and the
  titlebar that fullscreen windows reveal.
- `src/wayland`: the state behind the protocols for titlebars, attached windows and the shell's
  overlays.
- `src/dbus` and `src/input`: applications and their key bindings on the bus, and which binding a
  key press runs.
- `src/backend`, `src/theme.rs`, `src/event_bus.rs`, `src/logger.rs`: headers of windows, themes,
  events and logging.
- `src/number.rs`, `src/order.rs`, `src/path.rs`, `src/pattern.rs`, `src/seqs.rs`, `src/text.rs`,
  `src/json.rs`, `src/geometry.rs`: what the rest builds on.

`tests/` runs the library. `app/` is the program around it: files, the bus, sockets, timers, and
what is computed in floating point.

Numbers with a fraction are held by their bits (`Float64`, `Float32`) and compared and clamped as
such; times are nanoseconds; surfaces, windows, seats and clients are numbers that the program
hands out. What a change asks of the rest of the compositor is returned as a value.
