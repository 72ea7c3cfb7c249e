//! The record layout model: field order, byte offsets and widths of one
//! login-accounting record, and the record type itself.
//!
//! All fields are contiguous, in the order of the offset table below, with
//! no implicit padding. Integer fields are little-endian. The total width
//! is the sum of the field widths.

use vstd::prelude::*;

verus! {

/// Total byte width of one record.
pub const RECORD_WIDTH: usize = 382;

/// Offset of `ut_type` (signed 16-bit record kind code).
pub const TYPE_OFFSET: usize = 0;
/// Offset of `ut_pid` (signed 32-bit process id).
pub const PID_OFFSET: usize = 2;
/// Offset of `ut_line` (fixed-width byte array: tty device suffix).
pub const LINE_OFFSET: usize = 6;
/// Offset of `ut_id` (fixed-width byte array: terminal id suffix).
pub const ID_OFFSET: usize = 38;
/// Offset of `ut_user` (fixed-width byte array: login name, NUL-padded).
pub const USER_OFFSET: usize = 42;
/// Offset of `ut_host` (fixed-width byte array: remote host, NUL-padded).
pub const HOST_OFFSET: usize = 74;
/// Offset of `ut_exit` (two signed 16-bit values: termination and exit status).
pub const EXIT_OFFSET: usize = 330;
/// Offset of `ut_session` (signed 32-bit session id).
pub const SESSION_OFFSET: usize = 334;
/// Offset of `ut_tv` (two signed 32-bit values: seconds and microseconds).
pub const TV_OFFSET: usize = 338;
/// Offset of `ut_addr_v6` (four signed 32-bit values: remote address).
pub const ADDR_OFFSET: usize = 346;
/// Offset of the reserved trailing bytes (preserved, not interpreted).
pub const UNUSED_OFFSET: usize = 362;

/// Width of `ut_line` in bytes.
pub const LINE_WIDTH: usize = 32;
/// Width of `ut_id` in bytes.
pub const ID_WIDTH: usize = 4;
/// Width of `ut_user` in bytes.
pub const USER_WIDTH: usize = 32;
/// Width of `ut_host` in bytes.
pub const HOST_WIDTH: usize = 256;
/// Width of the reserved trailing bytes.
pub const UNUSED_WIDTH: usize = 20;

/// Exit status of a process marked as dead.
#[derive(Debug, Clone, Copy, PartialEq, Eq, Structural)]
pub struct ExitStatus {
    /// Process termination status.
    pub e_termination: i16,
    /// Process exit status.
    pub e_exit: i16,
}

/// Time at which an entry was made.
#[derive(Debug, Clone, Copy, PartialEq, Eq, Structural)]
pub struct Timeval {
    /// Seconds.
    pub tv_sec: i32,
    /// Microseconds.
    pub tv_usec: i32,
}

/// One decoded login-accounting record.
///
/// A value of this type is produced by the decoder from exactly
/// [`RECORD_WIDTH`] bytes; the fixed-width byte-array fields keep their
/// full width, padding included, so that a record can be encoded back to
/// the exact bytes it came from.
#[derive(Debug)]
pub struct Utmpx {
    /// Type of login.
    pub ut_type: i16,
    /// PID of the login process.
    pub ut_pid: i32,
    /// Device name of the tty, without the leading directory.
    pub ut_line: Vec<u8>,
    /// Terminal name suffix, or init id.
    pub ut_id: Vec<u8>,
    /// Username, NUL-padded.
    pub ut_user: Vec<u8>,
    /// Hostname for a remote login, NUL-padded.
    pub ut_host: Vec<u8>,
    /// Exit status of a process marked as dead.
    pub ut_exit: ExitStatus,
    /// Session id.
    pub ut_session: i32,
    /// Time the entry was made.
    pub ut_tv: Timeval,
    /// Internet address of the remote host, v4-in-v6 form.
    pub ut_addr_v6: Vec<i32>,
    /// Reserved bytes, preserved verbatim and not interpreted.
    pub ut_reserved: Vec<u8>,
}

impl Utmpx {
    /// Every fixed-width field holds exactly its layout width.
    pub open spec fn wf(&self) -> bool {
        &&& self.ut_line@.len() == LINE_WIDTH
        &&& self.ut_id@.len() == ID_WIDTH
        &&& self.ut_user@.len() == USER_WIDTH
        &&& self.ut_host@.len() == HOST_WIDTH
        &&& self.ut_addr_v6@.len() == 4
        &&& self.ut_reserved@.len() == UNUSED_WIDTH
    }
}

} // verus!
