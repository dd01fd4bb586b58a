//! Logic of a bridge that exposes audio-processing plugins through a
//! fixed, host-defined binary interface: marshaling plugin descriptions
//! into the host's fixed-layout records, a capacity-bounded descriptor
//! registry, and the per-instance port-connection and run protocol.
//!
//! Everything that crosses the untyped host boundary (raw pointers,
//! C-layout memory, callback tables) lives outside this crate; here the
//! same data appears as plain values: byte strings, addresses as
//! integers, and buffer views as base/length pairs.

pub mod descriptor;
pub mod handle;
pub mod marshal;
pub mod ports;
pub mod registry;
