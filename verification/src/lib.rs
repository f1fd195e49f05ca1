//! Verified core of the wasmtime bindings: the conversions between Rust
//! primitive values and their wasm ABI representation, the classification of
//! exported function signatures, and the generation of the glue code that the
//! binding attributes expand to.

pub mod abi;
pub mod ident;
pub mod ir_type;
pub mod method;
pub mod signature;
pub mod context_use;
pub mod demo;
