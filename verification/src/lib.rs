//! Decoder for fixed-layout binary login-accounting records.
//!
//! A log of login events is stored as a sequence of fixed-size records,
//! each `layout::RECORD_WIDTH` bytes wide. This crate defines the byte
//! layout of one record, decodes a raw buffer into typed fields, encodes
//! a record back to bytes, and extracts the text content of the
//! NUL-padded fixed-width byte-array fields.
//!
//! Integer fields are read and written in little-endian byte order; the
//! format mirrors the native representation of its origin platform, and
//! this crate fixes that byte order as part of the layout contract.

pub mod codec;
pub mod layout;
pub mod num;
pub mod text;
