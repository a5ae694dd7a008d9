# java-bindgen macros, verified core

The procedural macros of java-bindgen generate JNI glue for Rust functions
and structs. This crate holds their logic as a library verified with Verus:
the generated code is built as source text whose exact shape each function's
contract states, together with the compile errors it reports and where they
point.

- `src/text.rs`: string operations on `Seq<char>` (split, trim, removal,
  search, decimal numbers) with exec versions proved against them.
- `src/tokens.rs`: generated code as segments (code text, compile errors
  with their sites, the macro's input), the error list, and `ts2`.
- `src/attr.rs`: the `key = value` attribute arguments.
- `src/types.rs`: type and input models, lifetime search, `bool` detection.
- `src/signature.rs`: the parameter list of the generated JNI function.
- `src/derive.rs`: the impls generated by the derives.
- `src/bindgen.rs`: the JNI function and Java declaration for a bound function.
- `src/project.rs`: the checks on the project's `Cargo.toml`.
- `src/item.rs`: the annotated item parsed with syn and read into models.
- `src/flow.rs`: each macro's expansion as a whole, from plain values or
  from the item's source text.
- `src/laws.rs`: properties that hold for every input.
- `app/`: adapters between syn/proc-macro tokens and the library's values.
