//! The arithmetic and decisions of asynchronous file reads / writes: how the file offset and
//! the transfer length are handed to the OS, and what its answer means.

use vstd::prelude::*;

verus! {

/// Splits a 64-bit file offset into its low and high 32-bit halves.
pub fn split_offset(offset: u64) -> (halves: (u32, u32))
    ensures
        halves.0 == offset % 0x1_0000_0000,
        halves.1 == offset / 0x1_0000_0000,
        halves.0 + halves.1 * 0x1_0000_0000 == offset,
{
    let low: u32 = offset as u32;
    let high: u32 = (offset >> 32u64) as u32;
    assert(low == offset % 0x1_0000_0000) by (bit_vector)
        requires low == offset as u32;
    assert(high == offset / 0x1_0000_0000) by (bit_vector)
        requires high == (offset >> 32u64) as u32;
    (low, high)
}

/// The number of bytes transferred in one operation: the buffer length,
/// capped to what a 32-bit length can express.
pub fn io_len(buf_len: usize) -> (len: u32)
    ensures
        len == (if buf_len < u32::MAX { buf_len as int } else { u32::MAX as int }),
{
    if buf_len < u32::MAX as usize {
        buf_len as u32
    } else {
        u32::MAX
    }
}

/// What a read / write request's immediate answer means.
#[derive(Debug, Clone, Copy, PartialEq, Eq)]
pub enum IoOutcome {
    /// Completed synchronously.
    Completed,
    /// Completes asynchronously: the task must wait for it.
    Pending,
    /// Failed with the error code.
    Failed(u32),
}

/// Interprets the answer to a read / write request: a non-zero `result` means it completed;
/// otherwise `error` tells whether it is pending (`io_pending_error`) or failed.
pub fn io_outcome(result: i32, error: u32, io_pending_error: u32) -> (outcome: IoOutcome)
    ensures
        outcome == (if result != 0 {
            IoOutcome::Completed
        } else if error == io_pending_error {
            IoOutcome::Pending
        } else {
            IoOutcome::Failed(error)
        }),
{
    if result != 0 {
        IoOutcome::Completed
    } else if error == io_pending_error {
        IoOutcome::Pending
    } else {
        IoOutcome::Failed(error)
    }
}

/// Whether a read of the whole file past an offset read no more than the file holds
/// (`bytes_read <= file_size`); the bytes read are then the result.
pub fn read_all_len(file_size: usize, bytes_read: usize) -> (len: Option<usize>)
    ensures
        len == (if bytes_read <= file_size { Some(bytes_read) } else { None::<usize> }),
{
    if bytes_read <= file_size {
        Some(bytes_read)
    } else {
        None
    }
}

} // verus!
