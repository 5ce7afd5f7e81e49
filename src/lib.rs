//! Argument checking and write-set reification for contract calls and
//! transaction dry runs, driven by published interface descriptors.

pub mod types;
pub mod validate;
pub mod reify;
