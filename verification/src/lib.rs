//! Decoder for the battery/charging status that Apple wireless earphones and
//! headphones broadcast in the manufacturer-data field of a Bluetooth Low
//! Energy advertisement.
//!
//! The core is a pure function from a 27-byte buffer to a typed status record:
//! model identification, pod-orientation ("flip") resolution, nibble-level
//! battery extraction, disconnected-state handling, and the choice between the
//! dual-unit (in-ear pair plus case) and single-unit (over-ear) topologies.
//! Radio scanning and output rendering are deliberately kept outside of it.

pub mod decode;
pub mod laws;
pub mod status;
