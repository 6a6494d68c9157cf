//! The decisions of the interactive wizard: what each answer does to the
//! configuration. The program asks the questions and hands the answers to
//! these functions.
pub mod input;
pub mod artifacts;
pub mod targets;
pub mod overrides;
