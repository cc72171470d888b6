//! A verified model of the 18-character unified social credit
//! identifier: five positional segments — authority, category (whose
//! valid alphabet depends on the authority), a six-digit region code, a
//! nine-character organization code and a derived checksum character —
//! with generation, parsing, validation and canonical serialization.
//!
//! Every public operation carries a contract over the segments' views:
//! parsing succeeds exactly on valid identifier strings and names the
//! rule a rejected input broke first, serialization is pinned character
//! by character, and the checksum is the weighted modular sum that the
//! scheme prescribes. The laws module states and proves the round-trip,
//! closure and checksum-sensitivity properties that tie them together.

pub mod category;
pub mod checksum;
pub mod common;
pub mod laws;
pub mod rng;
pub mod segments;
pub mod tables;
pub mod usci;
