//! Decoding of H.264/AVC parameter-set and supplemental-enhancement layers.
//!
//! The crate turns a buffer of RBSP bytes (a NAL unit's payload with
//! emulation-prevention bytes already removed) into strongly typed, validated
//! structures: the Sequence Parameter Set with its nested VUI and HRD data, and
//! SEI payloads that cross-reference previously decoded parameter sets through
//! a caller-owned registry.

pub mod rbsp;

pub mod pps;

pub mod nal;

pub mod sps;

pub mod context;

pub mod sei;
