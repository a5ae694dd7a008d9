//! Verified core of the java-bindgen procedural macros.

pub mod text;
pub mod tokens;
pub mod attr;
pub mod types;
pub mod signature;
pub mod derive;
pub mod bindgen;
pub mod project;
pub mod item;
pub mod flow;
pub mod laws;
