# gouda

The host-agnostic core of Gouda Scripting, an IRC client scripting language.

- `src/` is the verified library (Verus):
  - `effect.rs`: the validated effect payloads (`Text`, `TargetName`,
    `ChannelName`, `ModeString`, `TimerName`), the effects built from them,
    a model of what each constructor accepts, and the guarantees that follow
    (no CR/LF/NUL in any field, as characters or as UTF-8 bytes; no target
    separators; channel prefixes; byte-length caps; the timer alphabet).
  - `chars.rs`: Unicode white space, ASCII letters and digits, and
    first-match search over a string's characters.
  - `event.rs`: event kinds and their stable names.
  - `error.rs`: diagnostics and runtime errors.
  - `ast.rs`: the scope and operator tags of the syntax tree.
- `app/` is ordinary Rust around it: the runtime `Value` type, the syntax
  tree nodes, the error types with their messages (`thiserror`), and the
  client/engine messages.
- `tests/` exercises the library, including exhaustive comparisons of its
  character classes with the standard library over every `char`.
