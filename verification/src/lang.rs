//! Per-language menu translation tables.

pub mod en;
pub mod fr;
pub mod keys;
pub mod sk;
