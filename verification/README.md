# next_turbo

The verified core of a module-graph toolkit for a bundler:

- `boundary`, `boundary_types`: boundary information attached to module
  crossings (server components, server utilities, dynamic entries, client
  references) and the kinds of boundary.
- `transitions`: what the server component, server utility and dynamic
  transitions make of a processed module.
- `client_references`: the client reference manifest of a module graph.
- `base_loader_tree`: numbering, imports and inner assets of the loader tree.
- `inlined_bytes_module`: the code of a module that inlines bytes as base64.
- `worker_type`: worker kinds and their modifiers.
- `value_to_string`: parsing of the `ValueToString` derive's attributes and
  format strings, and the plan of the code it generates.

`src/` is verified with Verus. `app/` holds the derive itself (reading input
with `syn`, emitting tokens with `quote`) and serialisable copies of library
types.
