# nova_vm built-ins

ECMAScript built-in objects (array buffers and data views, arrays and
arguments objects, promises and their jobs, generators and async generators,
iterator helpers, function objects, errors and dates), written in Verus with
their behaviour stated in `requires` / `ensures` contracts and proved.

Each object kind lives in an arena of its own and is named by a `u32` handle.
Work that needs an engine (running ECMAScript code, calling functions,
reading properties through getters, allocating ordinary objects) is not done
here: the functions return what the engine is to do next, and take its
outcome as an argument of the next step.

- `src/` — the verified library, one module per object kind.
- `tests/` — tests of the library on concrete values.
- `app/` — host glue that the library cannot hold: the system clock and the
  float conversions of time values.

The element descriptor map of arrays is an `ahash::AHashMap`; the calls into
it are the only trusted items (`src/descriptor_map.rs`).
