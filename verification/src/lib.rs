//! Core of a row-oriented JIT code generator: physical layout synthesis for
//! rows of typed, possibly-nullable columns, a byte-level row model, and the
//! lowering of a small SSA IR into a low-level code representation that a
//! machine-code emitter consumes.

pub mod code;
pub mod codegen;
pub mod exprs;
pub mod function;
pub mod ir;
pub mod layout;
pub mod lower;
pub mod row;
pub mod target;

pub use target::{CallConv, NativeType, PointerWidth, TargetConfig};
