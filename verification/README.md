# hop

The binding surface of a Hop node: what a host app sees of the mesh, as a foreign object and as a C
ABI. The decisions of that surface are a verified Verus library; the mesh core, the store, the lock
and the raw pointers are ordinary Rust around it.

## Layout

- `src/`: the library.
  - `store_open`: opening the persistent store, and what to do when the file will not open. The
    host does the file work and reports how it went; the laws say what can happen to a file.
  - `node`, `messages`, `services`, `topics`: the methods of a node. A method looks at the host's
    arguments and says what to ask the mesh core, or takes what the core handed out and says what
    the host is told.
  - `mesh`: the mesh core's side, as plain values. `records`, `hps`, `reach`: the host's side.
  - `cabi`: the C ABI's rules, with `Option` for what may be NULL and for a call that panicked.
  - `base58`, `digits`, `bytes`, `text`: addresses, keys and text.
  - `laws`: what holds across operations.
- `app/`: the mesh core behind a lock, the store's file work, the `extern "C"` functions, and the
  records with the derives that the foreign bindings need.
- `tests/`: the library on concrete values.

## What is trusted

Two calls of `bs58` (encode and decode) and one of std (`String::from_utf8`) carry contracts that are
believed; each says in its doc comment what it claims.
