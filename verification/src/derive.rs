//! Generating the code for a protocol enum.
//!
//! The attribute of a protocol enum and those of its variants say which code is generated. Here
//! they are read and checked, and what is to be generated is laid out as a plan.
pub mod args;
pub mod legacy;
pub mod lex;
pub mod plan;
pub mod variant_args;
