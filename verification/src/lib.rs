//! A safety layer over a vendor-supplied native device-management API.
//!
//! The native library speaks a versioned, handle-and-struct C interface.
//! This crate provides the typed side of that boundary: packed struct
//! version tags for versioned entry points, fallible conversions from raw
//! wire-format enums and structs into exhaustive in-memory variants, and a
//! single closed error domain that preserves the raw status or value behind
//! every failure.

pub mod error;
pub mod raw;
pub mod text;
pub mod unit;
pub mod version;
