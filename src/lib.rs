//! Random password generation: character classes, a length partitioner that
//! splits a password's length among the active classes, a per-class symbol
//! extractor, and an assembler that shuffles the drawn symbols together.
pub mod alphabet;
pub mod config;
pub mod partition;
pub mod generate;
