# rem — verified core of an Emacs dynamic-module binding

`src/` is the verified library. Emacs is reached through its C module
interface only by code that holds a live Emacs environment; the library
decides what to ask of Emacs (`call::Request`, `call::Call`) and what to make
of the replies, and Verus proves those decisions against their contracts:

- `error`: non-local exits and `Result`s at the Rust/Lisp boundary
  (`handle_exit`, `maybe_exit`, `handle_panic`, the core error symbols).
- `global`, `func`, `types::vector`, `subr`: global references made on first
  use, function objects and their arities, call arguments, vectors, and the
  primitives called through cached function objects.
- `codegen`: what the `defun` and `module` attribute macros decide — Lisp
  names, the checks on an exported function's signature, the plan of the
  wrapper, the macros' options, and the provided feature's name.

`app/` performs the requests through `emacs_module` and writes the macros'
tokens with `syn`, `quote` and `darling`. `tests/` exercises the library on
concrete values.
