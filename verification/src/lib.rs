//! A minimal cross-language memory-ownership protocol: read a whole file into
//! an owned byte buffer and hand that buffer across a foreign boundary as an
//! explicit handle-plus-length pair, with caller-driven release.
//!
//! The boundary protocol is deliberately small. [`cfile_read`] takes a
//! nul-terminated path and returns the transferable [`Handle`] together with
//! a single signed status value: the exact byte length on success, or the
//! reserved sentinel [`CFILE_READ_ERROR`] on any failure. [`cfile_close`]
//! takes the handle back and frees the buffer; because the handle is consumed
//! by value, a second release of the same buffer is unrepresentable.
//!
//! Internally a failure keeps its cause — the path did not decode, or the
//! read failed — and the rich result is narrowed to the single sentinel only
//! at the boundary conversion step.
use vstd::prelude::*;

pub mod decode;
mod handle;

pub use handle::Handle;

verus! {

/// Status value signalled to the caller on any failure. Every non-negative
/// status means success with that exact byte length; this sentinel is the
/// only other value the protocol ever produces.
pub const CFILE_READ_ERROR: i64 = -1;

/// The internal error taxonomy. The distinction never crosses the boundary:
/// both variants collapse into the single sentinel.
#[derive(Clone, Copy, Debug, PartialEq, Eq, Structural)]
pub enum AcquireError {
    /// The path bytes held no nul terminator, or the bytes before it were
    /// not valid UTF-8; the filesystem was never touched.
    Decode,
    /// The file-read collaborator failed (missing file, permissions, any
    /// other I/O failure), or the contents could not be described by the
    /// signed status slot.
    Io,
}

/// Relies on fs_err::read: reads the entire contents of the file at `path`
/// into a byte vector. Whether it succeeds and which bytes come back depend
/// on the filesystem at the moment of the call, so nothing is assumed of the
/// success case; every failure is tagged as an I/O failure.
#[verifier::external_body]
fn read_whole_file(path: &str) -> (r: Result<Vec<u8>, AcquireError>)
    ensures
        r matches Err(e) ==> e == AcquireError::Io,
{
    match fs_err::read(path) {
        Ok(buf) => Ok(buf),
        Err(_) => Err(AcquireError::Io),
    }
}

/// Reparents the file-read collaborator's result into the transferable form:
/// on success the returned handle owns exactly the bytes that were read, and
/// on failure the error is passed through unchanged. The one read outcome no
/// handle can describe — a buffer too long for the signed status slot — is
/// refused as an I/O failure rather than misreported.
pub fn finish_read(read: Result<Vec<u8>, AcquireError>) -> (r: Result<Handle, AcquireError>)
    ensures
        match read {
            Ok(buf) => {
                if buf@.len() <= i64::MAX {
                    r matches Ok(h) && h@ == buf@
                } else {
                    r matches Err(e) && e == AcquireError::Io
                }
            },
            Err(e) => (r matches Err(e2) && e2 == e),
        },
{
    match read {
        Ok(buf) => {
            if buf.len() as u64 <= i64::MAX as u64 {
                Ok(Handle::from_bytes(buf))
            } else {
                Err(AcquireError::Io)
            }
        },
        Err(e) => Err(e),
    }
}

/// Attempts to read the entire file named by the nul-terminated byte string
/// `file_path`, keeping the rich internal error: a decode failure is reported
/// exactly when the path does not decode (and then the filesystem was never
/// touched), and every other failure is an I/O failure.
pub fn acquire(file_path: &[u8]) -> (r: Result<Handle, AcquireError>)
    ensures
        !decode::decodes(file_path@) ==> r == Err::<Handle, AcquireError>(AcquireError::Decode),
        decode::decodes(file_path@) ==> (r matches Err(e) ==> e == AcquireError::Io),
{
    match decode::decode_path(file_path) {
        Some(path) => finish_read(read_whole_file(path)),
        None => Err(AcquireError::Decode),
    }
}

/// The boundary entry point for acquisition. Returns the transferable handle
/// together with the status written to the caller's output slot: on success
/// the handle owns the file's bytes and the status is their exact length; on
/// any failure there is no handle and the status is the sentinel
/// [`CFILE_READ_ERROR`]. The status alone discriminates the two outcomes,
/// and a path that does not decode always fails.
pub fn cfile_read(file_path: &[u8]) -> (r: (Option<Handle>, i64))
    ensures
        (r.1 == CFILE_READ_ERROR) <==> (r.0 is None),
        r.0 matches Some(h) ==> r.1 == h@.len(),
        r.0 is None || r.1 >= 0,
        !decode::decodes(file_path@) ==> r.0 is None,
{
    match acquire(file_path) {
        Ok(handle) => {
            let status = handle.status();
            (Some(handle), status)
        },
        Err(_) => (None, CFILE_READ_ERROR),
    }
}

/// The boundary exit point: takes back a handle produced by a successful
/// [`cfile_read`] and frees the buffer it owns. Consuming the handle by
/// value makes a second release of the same buffer unrepresentable, and the
/// caller of a failed acquisition has no handle to release.
pub fn cfile_close(read_buf: Handle) {
    let _ = read_buf.into_bytes();
}

} // verus!
