# monoxus

Headless UI primitives (popover, select, tabs, toast, tooltip) as a verified library: each
primitive's ids, attributes, lifecycle rules and runtime decisions are executable functions
whose contracts Verus proves.

- `src/foundation`: shared ids, open/closed state, presence, focus scope, dismiss layer,
  roving focus and text helpers.
- `src/popover`, `src/select`, `src/tabs`, `src/toast`, `src/tooltip`: one module per
  primitive, split into types, relationships (ids), attributes, state and runtime. A runtime
  takes events and times as arguments and answers the effects its host has to carry out.
- `app/`: the JSON shapes exchanged with the page scripts, and the toaster's pixel settings.
- `tests/`: the tests, run against the compiled library.
