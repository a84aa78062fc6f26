# libpd_rs

Safe abstractions over [libpd](https://github.com/libpd/libpd), the embeddable Pure Data,
with their behaviour stated in contracts and proved with Verus.

## Layout

- `src/` is the verified library. It holds what is decided around each libpd call: argument
  checks (names must be C strings), the reading of libpd's status codes into errors, the
  resolution of patch paths, range checks on array transfers, and the state that `Pd` and
  `PdGlobal` keep (audio switch, open patch and temporary patch file, subscriptions, search
  paths). Every call into libpd and every look at the file system is handed in as a closure,
  so the contracts hold for every answer those calls may give.
  - `functions` and its submodules: the single operations (`send`, `receive`, `array`, `gui`,
    `util`).
  - `session`: the subscriptions, search paths and patch state shared by `Pd` and `PdGlobal`.
  - `instance`: creating pd instances and telling them apart.
  - `laws`: properties that span several operations, proved over the specifications above.
  - `path`: the `std::path` operations that patch resolution needs.
- `tests/` runs the library against stand-ins for libpd.
- `app/` wires the library to libpd through `libpd-sys`, and keeps what the library cannot
  hold: atoms and audio buffers of floats, the callbacks that pd calls, instance data, and
  error types that carry `thiserror` messages.
