# ffi_c_bindings

C bindings for the [taffy](https://github.com/DioxusLabs/taffy) layout engine.
The checks, status codes and tree bookkeeping behind each C entry point are
proved in Verus against contracts for the taffy calls they make; the layout
algorithms themselves are taffy's and are trusted, not proved.

- `src/` is the verified library:
  - `codes.rs`: the status codes and the numeric discriminators of the C header.
  - `style.rs`: the C style record (floats carried as their bit patterns), its
    decoding into the properties taffy is given and its encoding back, with the
    round-trip laws.
  - `taffy_api.rs`: the calls into taffy, each with the contract that the
    library relies on, stated over names for a tree's nodes, child lists,
    parent links, contexts, dirty flags, rounding setting, styles and stored
    layouts.
  - `tree.rs`: the state behind a tree handle (taffy's tree and the set of live
    ids) and every tree operation, down to the status code it reports.
  - `paths.rs`, `lists.rs`: facts about walks along child lists and about the
    list operations taffy performs.
  - `laws.rs`: properties that relate several operations.
- `app/` is the C ABI itself: raw pointers, `catch_unwind`, the `repr(C)`
  types with `f32` fields, and the conversions between floats and taffy's style
  and layout types.
- `tests/` runs the library against the real taffy crate.
