//! Generation of the Rust items behind a GObject class declaration.

pub mod ast;
pub mod balance;
pub mod class;
pub mod emit;
pub mod laws;
pub mod letters;
pub mod members;
pub mod names;
pub mod nesting;
pub mod reading;
pub mod template;
pub mod tokens;
pub mod uniform;
