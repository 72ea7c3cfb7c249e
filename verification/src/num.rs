//! Two's-complement views of 16-bit and 32-bit values.
//!
//! The record format stores signed integers as little-endian unsigned
//! bytes; these functions convert between the unsigned value of such a
//! byte group and the signed field value, in both directions.

use vstd::prelude::*;

verus! {

/// The signed value that a 16-bit two's-complement pattern stands for.
pub open spec fn i16_of_u16(u: u16) -> i16 {
    if u < 0x8000 {
        u as i16
    } else {
        (u - 0x10000) as i16
    }
}

/// The 16-bit two's-complement pattern of a signed value.
pub open spec fn u16_of_i16(v: i16) -> u16 {
    if v >= 0 {
        v as u16
    } else {
        (v + 0x10000) as u16
    }
}

/// The signed value that a 32-bit two's-complement pattern stands for.
pub open spec fn i32_of_u32(u: u32) -> i32 {
    if u < 0x80000000 {
        u as i32
    } else {
        (u - 0x100000000) as i32
    }
}

/// The 32-bit two's-complement pattern of a signed value.
pub open spec fn u32_of_i32(v: i32) -> u32 {
    if v >= 0 {
        v as u32
    } else {
        (v + 0x100000000) as u32
    }
}

/// Reading a 16-bit pattern as signed and writing it back is the identity.
pub proof fn lemma_u16_roundtrip(u: u16)
    ensures
        u16_of_i16(i16_of_u16(u)) == u,
{
}

/// Writing a signed 16-bit value and reading it back is the identity.
pub proof fn lemma_i16_roundtrip(v: i16)
    ensures
        i16_of_u16(u16_of_i16(v)) == v,
{
}

/// Reading a 32-bit pattern as signed and writing it back is the identity.
pub proof fn lemma_u32_roundtrip(u: u32)
    ensures
        u32_of_i32(i32_of_u32(u)) == u,
{
}

/// Writing a signed 32-bit value and reading it back is the identity.
pub proof fn lemma_i32_roundtrip(v: i32)
    ensures
        i32_of_u32(u32_of_i32(v)) == v,
{
}

/// Executable form of [`i16_of_u16`].
pub fn i16_from_u16(u: u16) -> (r: i16)
    ensures
        r == i16_of_u16(u),
{
    if u < 0x8000 {
        u as i16
    } else {
        ((u as i32) - 0x10000) as i16
    }
}

/// Executable form of [`u16_of_i16`].
pub fn u16_from_i16(v: i16) -> (r: u16)
    ensures
        r == u16_of_i16(v),
{
    if v >= 0 {
        v as u16
    } else {
        ((v as i32) + 0x10000) as u16
    }
}

/// Executable form of [`i32_of_u32`].
pub fn i32_from_u32(u: u32) -> (r: i32)
    ensures
        r == i32_of_u32(u),
{
    if u < 0x80000000 {
        u as i32
    } else {
        ((u as i64) - 0x100000000) as i32
    }
}

/// Executable form of [`u32_of_i32`].
pub fn u32_from_i32(v: i32) -> (r: u32)
    ensures
        r == u32_of_i32(v),
{
    if v >= 0 {
        v as u32
    } else {
        ((v as i64) + 0x100000000) as u32
    }
}

} // verus!
