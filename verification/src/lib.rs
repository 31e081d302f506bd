//! Partitioning, gathering and memory-budget arithmetic for distributing a
//! workload across locales, together with the text of the artifacts that the
//! distribution tooling emits.

pub mod abi;
pub mod text;
pub mod codegen;
pub mod templates;
