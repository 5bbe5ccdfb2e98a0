# colabie

The verified core of Colabie's user registry.

- `schemou`, `ints`, `bytestrings`, `pairs`, `messages`: the `Serde` binary
  format (little-endian integers, length-prefixed bytes and UTF-8 text,
  fields in order) with its read-back laws, and the registration messages.
- `registry`, `base64`, `extract`: what a registration request becomes in the
  git-backed registry, how it is committed and answered, and how request and
  response bodies are read and written.
- `keys`: the client's ML-DSA-87 key pair.
- `xtasks`: the developer tasks as plans of steps, and a runner that decides
  each next step from how the last one went, with laws on every run.

`app/` holds the outside edges: the axum server and its git store, the
browser glue of the client, and the command line that performs the steps the
runner asks for.
