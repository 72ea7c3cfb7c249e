//! The record decoder and encoder.
//!
//! `decodes_to` is the layout contract: it ties every field of a decoded
//! record to the exact byte range and byte order of the layout model.
//! `decode` turns one buffer into a record, `encode` turns a record back
//! into bytes, and `decode_stream` splits a whole byte stream into
//! records.

use crate::layout::ADDR_OFFSET;
use crate::layout::EXIT_OFFSET;
use crate::layout::HOST_OFFSET;
use crate::layout::HOST_WIDTH;
use crate::layout::ID_OFFSET;
use crate::layout::ID_WIDTH;
use crate::layout::LINE_OFFSET;
use crate::layout::LINE_WIDTH;
use crate::layout::PID_OFFSET;
use crate::layout::RECORD_WIDTH;
use crate::layout::SESSION_OFFSET;
use crate::layout::TV_OFFSET;
use crate::layout::TYPE_OFFSET;
use crate::layout::UNUSED_OFFSET;
use crate::layout::UNUSED_WIDTH;
use crate::layout::USER_OFFSET;
use crate::layout::USER_WIDTH;
use crate::layout::ExitStatus;
use crate::layout::Timeval;
use crate::layout::Utmpx;
use crate::num::i16_from_u16;
use crate::num::i16_of_u16;
use crate::num::i32_from_u32;
use crate::num::i32_of_u32;
use crate::num::u16_from_i16;
use crate::num::u16_of_i16;
use crate::num::u32_from_i32;
use crate::num::u32_of_i32;
use vstd::bytes::lemma_auto_spec_u16_to_from_le_bytes;
use vstd::bytes::lemma_auto_spec_u32_to_from_le_bytes;
use vstd::bytes::spec_u16_from_le_bytes;
use vstd::bytes::spec_u16_to_le_bytes;
use vstd::bytes::spec_u32_from_le_bytes;
use vstd::bytes::spec_u32_to_le_bytes;
use vstd::bytes::u16_from_le_bytes;
use vstd::bytes::u16_to_le_bytes;
use vstd::bytes::u32_from_le_bytes;
use vstd::bytes::u32_to_le_bytes;
use vstd::prelude::*;
use vstd::slice::slice_subrange;
use vstd::slice::slice_to_vec;

verus! {

/// Why a buffer could not be decoded.
#[derive(Debug, Clone, Copy, PartialEq, Eq, Structural)]
pub enum DecodeError {
    /// A non-empty buffer shorter than one record: the stream ends in a
    /// partial record.
    Truncation,
    /// The decoder was handed a buffer whose length is not exactly
    /// [`RECORD_WIDTH`]: a caller error, not a data error.
    Precondition,
}

/// The signed 16-bit value stored little-endian at byte offset `off`.
pub open spec fn spec_i16_at(b: Seq<u8>, off: int) -> i16 {
    i16_of_u16(spec_u16_from_le_bytes(b.subrange(off, off + 2)))
}

/// The signed 32-bit value stored little-endian at byte offset `off`.
pub open spec fn spec_i32_at(b: Seq<u8>, off: int) -> i32 {
    i32_of_u32(spec_u32_from_le_bytes(b.subrange(off, off + 4)))
}

/// The layout contract: record `r` holds exactly the fields that the
/// buffer `b` stores, each at its offset of the layout model.
pub open spec fn decodes_to(b: Seq<u8>, r: Utmpx) -> bool {
    &&& b.len() == RECORD_WIDTH
    &&& r.ut_type == spec_i16_at(b, TYPE_OFFSET as int)
    &&& r.ut_pid == spec_i32_at(b, PID_OFFSET as int)
    &&& r.ut_line@ == b.subrange(LINE_OFFSET as int, LINE_OFFSET + LINE_WIDTH)
    &&& r.ut_id@ == b.subrange(ID_OFFSET as int, ID_OFFSET + ID_WIDTH)
    &&& r.ut_user@ == b.subrange(USER_OFFSET as int, USER_OFFSET + USER_WIDTH)
    &&& r.ut_host@ == b.subrange(HOST_OFFSET as int, HOST_OFFSET + HOST_WIDTH)
    &&& r.ut_exit.e_termination == spec_i16_at(b, EXIT_OFFSET as int)
    &&& r.ut_exit.e_exit == spec_i16_at(b, EXIT_OFFSET + 2)
    &&& r.ut_session == spec_i32_at(b, SESSION_OFFSET as int)
    &&& r.ut_tv.tv_sec == spec_i32_at(b, TV_OFFSET as int)
    &&& r.ut_tv.tv_usec == spec_i32_at(b, TV_OFFSET + 4)
    &&& r.ut_addr_v6@.len() == 4
    &&& r.ut_addr_v6@[0] == spec_i32_at(b, ADDR_OFFSET as int)
    &&& r.ut_addr_v6@[1] == spec_i32_at(b, ADDR_OFFSET + 4)
    &&& r.ut_addr_v6@[2] == spec_i32_at(b, ADDR_OFFSET + 8)
    &&& r.ut_addr_v6@[3] == spec_i32_at(b, ADDR_OFFSET + 12)
    &&& r.ut_reserved@ == b.subrange(UNUSED_OFFSET as int, UNUSED_OFFSET + UNUSED_WIDTH)
}

/// A record that satisfies the layout contract is well formed.
pub proof fn lemma_decodes_to_wf(b: Seq<u8>, r: Utmpx)
    requires
        decodes_to(b, r),
    ensures
        r.wf(),
{
}

/// Decode one buffer of exactly [`RECORD_WIDTH`] bytes into a record.
///
/// Every correctly sized buffer decodes successfully: any byte pattern is
/// a structurally valid record. A buffer of any other length is rejected.
pub fn decode(buffer: &Vec<u8>) -> (r: Result<Utmpx, DecodeError>)
    ensures
        match r {
            Ok(rec) => buffer@.len() == RECORD_WIDTH && decodes_to(buffer@, rec),
            Err(e) => buffer@.len() != RECORD_WIDTH && e == DecodeError::Precondition,
        },
{
    if buffer.len() != RECORD_WIDTH {
        return Err(DecodeError::Precondition);
    }
    let s = buffer.as_slice();
    let ut_type = i16_from_u16(u16_from_le_bytes(slice_subrange(s, TYPE_OFFSET, TYPE_OFFSET + 2)));
    let ut_pid = i32_from_u32(u32_from_le_bytes(slice_subrange(s, PID_OFFSET, PID_OFFSET + 4)));
    let ut_line = slice_to_vec(slice_subrange(s, LINE_OFFSET, LINE_OFFSET + LINE_WIDTH));
    let ut_id = slice_to_vec(slice_subrange(s, ID_OFFSET, ID_OFFSET + ID_WIDTH));
    let ut_user = slice_to_vec(slice_subrange(s, USER_OFFSET, USER_OFFSET + USER_WIDTH));
    let ut_host = slice_to_vec(slice_subrange(s, HOST_OFFSET, HOST_OFFSET + HOST_WIDTH));
    let e_termination = i16_from_u16(
        u16_from_le_bytes(slice_subrange(s, EXIT_OFFSET, EXIT_OFFSET + 2)),
    );
    let e_exit = i16_from_u16(u16_from_le_bytes(slice_subrange(s, EXIT_OFFSET + 2, EXIT_OFFSET + 4)));
    let ut_session = i32_from_u32(
        u32_from_le_bytes(slice_subrange(s, SESSION_OFFSET, SESSION_OFFSET + 4)),
    );
    let tv_sec = i32_from_u32(u32_from_le_bytes(slice_subrange(s, TV_OFFSET, TV_OFFSET + 4)));
    let tv_usec = i32_from_u32(u32_from_le_bytes(slice_subrange(s, TV_OFFSET + 4, TV_OFFSET + 8)));
    let mut ut_addr_v6: Vec<i32> = Vec::new();
    ut_addr_v6.push(i32_from_u32(u32_from_le_bytes(slice_subrange(s, ADDR_OFFSET, ADDR_OFFSET + 4))));
    ut_addr_v6.push(
        i32_from_u32(u32_from_le_bytes(slice_subrange(s, ADDR_OFFSET + 4, ADDR_OFFSET + 8))),
    );
    ut_addr_v6.push(
        i32_from_u32(u32_from_le_bytes(slice_subrange(s, ADDR_OFFSET + 8, ADDR_OFFSET + 12))),
    );
    ut_addr_v6.push(
        i32_from_u32(u32_from_le_bytes(slice_subrange(s, ADDR_OFFSET + 12, ADDR_OFFSET + 16))),
    );
    let ut_reserved = slice_to_vec(slice_subrange(s, UNUSED_OFFSET, UNUSED_OFFSET + UNUSED_WIDTH));
    Ok(
        Utmpx {
            ut_type,
            ut_pid,
            ut_line,
            ut_id,
            ut_user,
            ut_host,
            ut_exit: ExitStatus { e_termination, e_exit },
            ut_session,
            ut_tv: Timeval { tv_sec, tv_usec },
            ut_addr_v6,
            ut_reserved,
        },
    )
}

/// The exact byte image of a record: every field at its offset of the
/// layout model, integer fields little-endian.
pub open spec fn spec_encode(r: Utmpx) -> Seq<u8> {
    spec_u16_to_le_bytes(u16_of_i16(r.ut_type)) + spec_u32_to_le_bytes(u32_of_i32(r.ut_pid))
        + r.ut_line@ + r.ut_id@ + r.ut_user@ + r.ut_host@ + spec_u16_to_le_bytes(
        u16_of_i16(r.ut_exit.e_termination),
    ) + spec_u16_to_le_bytes(u16_of_i16(r.ut_exit.e_exit)) + spec_u32_to_le_bytes(
        u32_of_i32(r.ut_session),
    ) + spec_u32_to_le_bytes(u32_of_i32(r.ut_tv.tv_sec)) + spec_u32_to_le_bytes(
        u32_of_i32(r.ut_tv.tv_usec),
    ) + spec_u32_to_le_bytes(u32_of_i32(r.ut_addr_v6@[0])) + spec_u32_to_le_bytes(
        u32_of_i32(r.ut_addr_v6@[1]),
    ) + spec_u32_to_le_bytes(u32_of_i32(r.ut_addr_v6@[2])) + spec_u32_to_le_bytes(
        u32_of_i32(r.ut_addr_v6@[3]),
    ) + r.ut_reserved@
}

/// Law: a well-formed record's byte image has the layout width and
/// decodes back to the same record.
#[verifier::rlimit(60)]
pub proof fn lemma_encode_then_decode(r: Utmpx)
    requires
        r.wf(),
    ensures
        spec_encode(r).len() == RECORD_WIDTH,
        decodes_to(spec_encode(r), r),
{
    lemma_auto_spec_u16_to_from_le_bytes();
    lemma_auto_spec_u32_to_from_le_bytes();
    let b = spec_encode(r);
    assert(b.len() == RECORD_WIDTH);
    assert(b.subrange(TYPE_OFFSET as int, TYPE_OFFSET + 2) =~= spec_u16_to_le_bytes(
        u16_of_i16(r.ut_type),
    ));
    assert(b.subrange(PID_OFFSET as int, PID_OFFSET + 4) =~= spec_u32_to_le_bytes(
        u32_of_i32(r.ut_pid),
    ));
    assert(b.subrange(LINE_OFFSET as int, LINE_OFFSET + LINE_WIDTH) =~= r.ut_line@);
    assert(b.subrange(ID_OFFSET as int, ID_OFFSET + ID_WIDTH) =~= r.ut_id@);
    assert(b.subrange(USER_OFFSET as int, USER_OFFSET + USER_WIDTH) =~= r.ut_user@);
    assert(b.subrange(HOST_OFFSET as int, HOST_OFFSET + HOST_WIDTH) =~= r.ut_host@);
    assert(b.subrange(EXIT_OFFSET as int, EXIT_OFFSET + 2) =~= spec_u16_to_le_bytes(
        u16_of_i16(r.ut_exit.e_termination),
    ));
    assert(b.subrange(EXIT_OFFSET + 2, EXIT_OFFSET + 4) =~= spec_u16_to_le_bytes(
        u16_of_i16(r.ut_exit.e_exit),
    ));
    assert(b.subrange(SESSION_OFFSET as int, SESSION_OFFSET + 4) =~= spec_u32_to_le_bytes(
        u32_of_i32(r.ut_session),
    ));
    assert(b.subrange(TV_OFFSET as int, TV_OFFSET + 4) =~= spec_u32_to_le_bytes(
        u32_of_i32(r.ut_tv.tv_sec),
    ));
    assert(b.subrange(TV_OFFSET + 4, TV_OFFSET + 8) =~= spec_u32_to_le_bytes(
        u32_of_i32(r.ut_tv.tv_usec),
    ));
    assert(b.subrange(ADDR_OFFSET as int, ADDR_OFFSET + 4) =~= spec_u32_to_le_bytes(
        u32_of_i32(r.ut_addr_v6@[0]),
    ));
    assert(b.subrange(ADDR_OFFSET + 4, ADDR_OFFSET + 8) =~= spec_u32_to_le_bytes(
        u32_of_i32(r.ut_addr_v6@[1]),
    ));
    assert(b.subrange(ADDR_OFFSET + 8, ADDR_OFFSET + 12) =~= spec_u32_to_le_bytes(
        u32_of_i32(r.ut_addr_v6@[2]),
    ));
    assert(b.subrange(ADDR_OFFSET + 12, ADDR_OFFSET + 16) =~= spec_u32_to_le_bytes(
        u32_of_i32(r.ut_addr_v6@[3]),
    ));
    assert(b.subrange(UNUSED_OFFSET as int, UNUSED_OFFSET + UNUSED_WIDTH) =~= r.ut_reserved@);
    crate::num::lemma_i16_roundtrip(r.ut_type);
    crate::num::lemma_i16_roundtrip(r.ut_exit.e_termination);
    crate::num::lemma_i16_roundtrip(r.ut_exit.e_exit);
    crate::num::lemma_i32_roundtrip(r.ut_pid);
    crate::num::lemma_i32_roundtrip(r.ut_session);
    crate::num::lemma_i32_roundtrip(r.ut_tv.tv_sec);
    crate::num::lemma_i32_roundtrip(r.ut_tv.tv_usec);
    crate::num::lemma_i32_roundtrip(r.ut_addr_v6@[0]);
    crate::num::lemma_i32_roundtrip(r.ut_addr_v6@[1]);
    crate::num::lemma_i32_roundtrip(r.ut_addr_v6@[2]);
    crate::num::lemma_i32_roundtrip(r.ut_addr_v6@[3]);
}

/// Law: decoding pins the buffer: a record's byte image is the one buffer
/// it decodes from, so decoding then encoding reproduces the input byte
/// for byte.
#[verifier::rlimit(60)]
pub proof fn lemma_decode_then_encode(b: Seq<u8>, r: Utmpx)
    requires
        decodes_to(b, r),
    ensures
        spec_encode(r) == b,
{
    lemma_auto_spec_u16_to_from_le_bytes();
    lemma_auto_spec_u32_to_from_le_bytes();
    crate::num::lemma_u16_roundtrip(spec_u16_from_le_bytes(b.subrange(TYPE_OFFSET as int, TYPE_OFFSET + 2)));
    crate::num::lemma_u16_roundtrip(spec_u16_from_le_bytes(b.subrange(EXIT_OFFSET as int, EXIT_OFFSET + 2)));
    crate::num::lemma_u16_roundtrip(spec_u16_from_le_bytes(b.subrange(EXIT_OFFSET + 2, EXIT_OFFSET + 4)));
    crate::num::lemma_u32_roundtrip(spec_u32_from_le_bytes(b.subrange(PID_OFFSET as int, PID_OFFSET + 4)));
    crate::num::lemma_u32_roundtrip(spec_u32_from_le_bytes(b.subrange(SESSION_OFFSET as int, SESSION_OFFSET + 4)));
    crate::num::lemma_u32_roundtrip(spec_u32_from_le_bytes(b.subrange(TV_OFFSET as int, TV_OFFSET + 4)));
    crate::num::lemma_u32_roundtrip(spec_u32_from_le_bytes(b.subrange(TV_OFFSET + 4, TV_OFFSET + 8)));
    crate::num::lemma_u32_roundtrip(spec_u32_from_le_bytes(b.subrange(ADDR_OFFSET as int, ADDR_OFFSET + 4)));
    crate::num::lemma_u32_roundtrip(spec_u32_from_le_bytes(b.subrange(ADDR_OFFSET + 4, ADDR_OFFSET + 8)));
    crate::num::lemma_u32_roundtrip(spec_u32_from_le_bytes(b.subrange(ADDR_OFFSET + 8, ADDR_OFFSET + 12)));
    crate::num::lemma_u32_roundtrip(spec_u32_from_le_bytes(b.subrange(ADDR_OFFSET + 12, ADDR_OFFSET + 16)));
    assert(spec_u16_to_le_bytes(u16_of_i16(r.ut_type)) == b.subrange(
        TYPE_OFFSET as int,
        TYPE_OFFSET + 2,
    ));
    assert(spec_u32_to_le_bytes(u32_of_i32(r.ut_pid)) == b.subrange(
        PID_OFFSET as int,
        PID_OFFSET + 4,
    ));
    assert(spec_u16_to_le_bytes(u16_of_i16(r.ut_exit.e_termination)) == b.subrange(
        EXIT_OFFSET as int,
        EXIT_OFFSET + 2,
    ));
    assert(spec_u16_to_le_bytes(u16_of_i16(r.ut_exit.e_exit)) == b.subrange(
        EXIT_OFFSET + 2,
        EXIT_OFFSET + 4,
    ));
    assert(spec_u32_to_le_bytes(u32_of_i32(r.ut_session)) == b.subrange(
        SESSION_OFFSET as int,
        SESSION_OFFSET + 4,
    ));
    assert(spec_u32_to_le_bytes(u32_of_i32(r.ut_tv.tv_sec)) == b.subrange(
        TV_OFFSET as int,
        TV_OFFSET + 4,
    ));
    assert(spec_u32_to_le_bytes(u32_of_i32(r.ut_tv.tv_usec)) == b.subrange(
        TV_OFFSET + 4,
        TV_OFFSET + 8,
    ));
    assert(spec_u32_to_le_bytes(u32_of_i32(r.ut_addr_v6@[0])) == b.subrange(
        ADDR_OFFSET as int,
        ADDR_OFFSET + 4,
    ));
    assert(spec_u32_to_le_bytes(u32_of_i32(r.ut_addr_v6@[1])) == b.subrange(
        ADDR_OFFSET + 4,
        ADDR_OFFSET + 8,
    ));
    assert(spec_u32_to_le_bytes(u32_of_i32(r.ut_addr_v6@[2])) == b.subrange(
        ADDR_OFFSET + 8,
        ADDR_OFFSET + 12,
    ));
    assert(spec_u32_to_le_bytes(u32_of_i32(r.ut_addr_v6@[3])) == b.subrange(
        ADDR_OFFSET + 12,
        ADDR_OFFSET + 16,
    ));
    assert(spec_encode(r) =~= b);
}

/// Law: a buffer decodes to at most one record: two records that satisfy
/// the layout contract for the same buffer agree field for field.
pub proof fn lemma_decode_deterministic(b: Seq<u8>, r1: Utmpx, r2: Utmpx)
    requires
        decodes_to(b, r1),
        decodes_to(b, r2),
    ensures
        r1.ut_type == r2.ut_type,
        r1.ut_pid == r2.ut_pid,
        r1.ut_line@ == r2.ut_line@,
        r1.ut_id@ == r2.ut_id@,
        r1.ut_user@ == r2.ut_user@,
        r1.ut_host@ == r2.ut_host@,
        r1.ut_exit == r2.ut_exit,
        r1.ut_session == r2.ut_session,
        r1.ut_tv == r2.ut_tv,
        r1.ut_addr_v6@ == r2.ut_addr_v6@,
        r1.ut_reserved@ == r2.ut_reserved@,
{
    assert(r1.ut_addr_v6@ =~= r2.ut_addr_v6@);
}

/// Append the little-endian bytes of a signed 16-bit value.
fn push_i16_le(out: &mut Vec<u8>, v: i16)
    ensures
        final(out)@ == old(out)@ + spec_u16_to_le_bytes(u16_of_i16(v)),
{
    let mut bytes = u16_to_le_bytes(u16_from_i16(v));
    out.append(&mut bytes);
}

/// Append the little-endian bytes of a signed 32-bit value.
fn push_i32_le(out: &mut Vec<u8>, v: i32)
    ensures
        final(out)@ == old(out)@ + spec_u32_to_le_bytes(u32_of_i32(v)),
{
    let mut bytes = u32_to_le_bytes(u32_from_i32(v));
    out.append(&mut bytes);
}

/// Append a copy of a byte array field.
fn push_bytes(out: &mut Vec<u8>, src: &Vec<u8>)
    ensures
        final(out)@ == old(out)@ + src@,
{
    let mut copy = slice_to_vec(src.as_slice());
    out.append(&mut copy);
}

/// Encode a record back into the exact bytes of the layout model.
///
/// The byte image decodes back to the same record, and a record obtained
/// by decoding encodes back to its original buffer byte for byte.
pub fn encode(rec: &Utmpx) -> (r: Vec<u8>)
    requires
        rec.wf(),
    ensures
        r@ == spec_encode(*rec),
        r@.len() == RECORD_WIDTH,
        decodes_to(r@, *rec),
{
    let mut out: Vec<u8> = Vec::new();
    push_i16_le(&mut out, rec.ut_type);
    push_i32_le(&mut out, rec.ut_pid);
    push_bytes(&mut out, &rec.ut_line);
    push_bytes(&mut out, &rec.ut_id);
    push_bytes(&mut out, &rec.ut_user);
    push_bytes(&mut out, &rec.ut_host);
    push_i16_le(&mut out, rec.ut_exit.e_termination);
    push_i16_le(&mut out, rec.ut_exit.e_exit);
    push_i32_le(&mut out, rec.ut_session);
    push_i32_le(&mut out, rec.ut_tv.tv_sec);
    push_i32_le(&mut out, rec.ut_tv.tv_usec);
    push_i32_le(&mut out, rec.ut_addr_v6[0]);
    push_i32_le(&mut out, rec.ut_addr_v6[1]);
    push_i32_le(&mut out, rec.ut_addr_v6[2]);
    push_i32_le(&mut out, rec.ut_addr_v6[3]);
    push_bytes(&mut out, &rec.ut_reserved);
    proof {
        assert(out@ =~= spec_encode(*rec));
        lemma_encode_then_decode(*rec);
    }
    out
}

/// Split a whole byte stream into records.
///
/// The stream has no header or separators: record boundaries are purely
/// positional, at multiples of [`RECORD_WIDTH`]. Every complete chunk
/// decodes to one record, in input order. When the stream length is an
/// exact multiple of the record width the split is clean; otherwise the
/// non-empty trailing chunk is reported as a truncation error after the
/// records decoded before it, which remain valid.
pub fn decode_stream(bytes: &Vec<u8>) -> (r: (Vec<Utmpx>, Option<DecodeError>))
    ensures
        r.0@.len() == (bytes@.len() as int) / (RECORD_WIDTH as int),
        forall|k: int|
            0 <= k < r.0@.len() ==> decodes_to(
                bytes@.subrange(k * (RECORD_WIDTH as int), (k + 1) * (RECORD_WIDTH as int)),
                #[trigger] r.0@[k],
            ),
        (bytes@.len() as int) % (RECORD_WIDTH as int) == 0 ==> r.1 == None::<DecodeError>,
        (bytes@.len() as int) % (RECORD_WIDTH as int) != 0 ==> r.1 == Some(DecodeError::Truncation),
{
    let n = bytes.len() / RECORD_WIDTH;
    let rem = bytes.len() % RECORD_WIDTH;
    proof {
        vstd::arithmetic::div_mod::lemma_fundamental_div_mod(
            bytes@.len() as int,
            RECORD_WIDTH as int,
        );
        vstd::arithmetic::div_mod::lemma_mod_bound(bytes@.len() as int, RECORD_WIDTH as int);
    }
    let mut recs: Vec<Utmpx> = Vec::new();
    let mut i: usize = 0;
    while i < n
        invariant
            n == (bytes@.len() as int) / (RECORD_WIDTH as int),
            n * RECORD_WIDTH <= bytes@.len() <= usize::MAX,
            i <= n,
            recs@.len() == i,
            forall|k: int|
                0 <= k < i ==> decodes_to(
                    bytes@.subrange(k * (RECORD_WIDTH as int), (k + 1) * (RECORD_WIDTH as int)),
                    #[trigger] recs@[k],
                ),
        decreases n - i,
    {
        proof {
            vstd::arithmetic::mul::lemma_mul_inequality(i + 1, n as int, RECORD_WIDTH as int);
            assert((i as int) * (RECORD_WIDTH as int) + (RECORD_WIDTH as int) == (i + 1)
                * (RECORD_WIDTH as int)) by (nonlinear_arith);
        }
        let start = i * RECORD_WIDTH;
        let chunk = slice_to_vec(slice_subrange(bytes.as_slice(), start, start + RECORD_WIDTH));
        let d = decode(&chunk);
        match d {
            Ok(rec) => {
                recs.push(rec);
            },
            Err(_) => {
                proof {
                    assert(false);
                }
            },
        }
        i += 1;
    }
    if rem == 0 {
        (recs, None)
    } else {
        (recs, Some(DecodeError::Truncation))
    }
}

} // verus!
