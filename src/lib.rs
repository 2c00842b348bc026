//! Analysis and code generation behind the actor macros of the FVM Rust SDK.
//!
//! Declarations (structures and implementations) and the attribute tokens attached to them
//! are handed to this library as plain models. It checks them against the binding schema,
//! builds the program model and renders the glue code that exposes entry points and persists
//! state.

pub mod literal;
pub mod attrs;
pub mod macro_attrs;
pub mod diagnostic;
pub mod decl;
pub mod ast;
pub mod classify;
pub mod analyze;
pub mod codegen;
pub mod expand;
