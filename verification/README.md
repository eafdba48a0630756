# Protocol buffer code generator

Turns protocol buffer descriptors (files, messages, fields, enums) into the
source of Rust modules: per message a struct, its inherent impl and its
`Message` impl; per enum a Rust enum with conversions from and to numbers.

Layout of `src/`:

- `descriptor.rs` – the descriptor types that the generator reads.
- `wire_format.rs` – wire types, fixed sizes and tag sizes.
- `text.rs` – character-level string operations and decimal notation.
- `names.rs` – Rust and `.proto` names of scalar types, trimming of paths
  and package names.
- `model.rs` – fields and messages as read from their descriptors.
- `writer.rs` – the line buffer and the indenting writer.
- `codegen.rs` – the templates, `write_message`, `write_enum` and `gen`.
- `braces.rs` – the weight of a line (its `{` minus its `}`) and the proof
  that every template writes balanced braces.
- `laws.rs` – properties of the naming rules and of the generated code.

Every function carries a contract that Verus proves: each `write_*`
function appends exactly the lines of a spec function of the descriptors,
and `gen` returns, per file, the module's name and the UTF-8 bytes of those
lines.
