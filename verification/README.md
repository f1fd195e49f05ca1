# wasmtime_bindings

Bindings between Rust functions and wasm exports for wasmtime: a binding
attribute turns a Rust function into an `extern fn` that wasm calls with ABI
values, and can generate a module whose `Wrapper` calls a wasm export from
Rust.

- `src/abi.rs`: `AbiPrimitive`, the lowering of Rust primitives to their wasm
  ABI integers and back, with the proof that lifting undoes lowering.
- `src/ir_type.rs`: the cranelift IR types of the ABI integers.
- `src/signature.rs`: the classification of the parameters and the result of
  a signature (context pointer, host context, receiver, pointer, primitive).
- `src/ident.rs`: the names of the ABI arguments in generated code.
- `src/method.rs`: the glue code that a binding attribute expands a function
  to, as Rust source text, with its exact contents stated.
- `src/context_use.rs`: that generated code uses the host context `_ctx`
  exactly when the signature needs one.
- `src/demo.rs`: the example types and exports.
- `app/main.rs`: reads a function on standard input, converts its `syn`
  syntax tree into the library's model, prints its expansion; and holds the
  parts that work on raw pointers into wasmtime's runtime.
