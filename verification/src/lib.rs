//! A small host for sandboxed guest modules: it matches a module's imports against the
//! host namespaces, instantiates the module, and invokes one of its exports with
//! arguments given as text.

pub mod calculator;
pub mod decimal;
pub mod driver;
pub mod engine;
pub mod linker;
pub mod registry;
pub mod text;
pub mod value;
pub mod wasi;
