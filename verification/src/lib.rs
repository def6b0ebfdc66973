//! A verified normalization layer over a program-database reader.
//!
//! The converters in this crate take the raw, variant-rich records handed out
//! by an already-opened debug-information reader and produce a flat,
//! serializable model (`ParsedPdb` and its nested entities), resolving
//! section-relative addresses, cross-table indices and string offsets along
//! the way.

pub mod error;
pub mod raw;
pub mod reader;
pub mod report;
pub mod resolve;
pub mod typeinfo;
