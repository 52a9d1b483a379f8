//! Base environment for UEFI-style firmware interfaces.
//!
//! This crate defines the foundational, layout-stable types used at a
//! firmware-call boundary: fixed-width primitive aliases, a one-byte boolean,
//! character types, opaque handle tokens, and the globally unique identifier
//! (`Guid`) with its specified 16-byte big-endian wire layout.
//!
//! The identifier constructors and the byte-level serialization are verified:
//! every contract states the exact byte layout of the result.

pub mod base;
pub mod endian;
