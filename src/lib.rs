//! Code generation for a zero-copy binary wire format: from a resolved schema
//! model to the source text of readers, builders and enums.
pub mod ast;
pub mod ir;
pub mod text;
pub mod render;
pub mod layout;
pub mod table;
pub mod enums;
pub mod nodes;
pub mod wire;
