//! Rewriting of a Rust syntax tree into a form where references become raw
//! pointers and bodies run in `unsafe` scopes, the decisions of the compiler
//! driver around it, and the containers that rewritten code uses in place of
//! `Box` and `Vec`.
pub mod syntax;
pub mod types;
pub mod derives;
pub mod marking;
pub mod replacing;
pub mod laws;
pub mod pipeline;
pub mod shim;
pub mod driver;
mod text;
