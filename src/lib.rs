//! Time-ordered 64-bit identifiers in the Snowflake layout.
//!
//! An identifier packs, from the most significant bit down, a millisecond
//! timestamp (42 bits), a worker id (10 bits) and a per-millisecond sequence
//! counter (12 bits).
pub mod layout;
pub mod clock;
pub mod error;
pub mod state;
pub mod worker;
