# plato_core (definition panel)

The inline definition panel of an e-reader and the Latin dictionary lookup
behind it, as a Verus library: every function in `src/` carries a contract
that Verus proves, and the laws of the scroll bar and the panel are public
proof functions.

- `src/` — the verified library (`geom`, `scroll_bar`, `definition_panel`, `collatinus`).
- `tests/` — tests of the library on concrete values.
- `app/` — what the library leaves to its host: the C bindings of the
  Collatinus engine, the shared loading flag, and the sizes that depend on the
  screen density (floating point).
