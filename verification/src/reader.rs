//! The snapshot reader: turn an externally-owned byte buffer into one
//! validated, internally consistent telemetry record.
//!
//! The caller copies the shared region into a buffer, samples the live
//! sequence counter once more after the copy, and hands both here.  The
//! reader checks the length, checks the schema version before trusting any
//! other field, decodes the record, and then holds the sequence counter the
//! copy carries against the one sampled after it: if they differ, or if the
//! counter is odd (the producer's write-in-progress mark), the copy mixes
//! two update cycles and is discarded as torn.

use vstd::prelude::*;
use crate::codec::u32_at;
use crate::codec::read_u32;
use crate::record::{SharedMemory, snapshot_matches, decode_snapshot, lemma_matches_wf};
use crate::record::{SHARED_MEMORY_SIZE, SEQUENCE_NUMBER_OFFSET, VERSION_OFFSET};

verus! {

/// Why a poll produced no usable snapshot.  Every variant is recoverable
/// from the caller's side: it means "no snapshot this tick".
#[derive(Debug, Clone, Copy, PartialEq, Eq)]
pub enum ReadError {
    /// The buffer is smaller than one record.
    TooShort,
    /// The buffer's start address does not satisfy the record's alignment
    /// requirement.  This reader decodes through a byte cursor and needs no
    /// alignment, so it never returns this; the variant stays in the
    /// taxonomy for callers that reinterpret memory in place instead.
    Misaligned,
    /// The version field decoded from the buffer is not the schema version
    /// the reader was asked for; no other field was interpreted, since a
    /// foreign version makes every other offset meaningless.
    VersionMismatch { expected: u32, found: u32 },
    /// The producer wrote while the buffer was being captured: the sequence
    /// counter moved between the copy and the sample taken after it, or it
    /// was odd, the producer's write-in-progress mark.
    Torn,
}

/// The version field stored in the buffer.
pub open spec fn stored_version(b: Seq<u8>) -> u32 {
    u32_at(b, VERSION_OFFSET as int)
}

/// The sequence counter stored in the buffer.
pub open spec fn stored_sequence(b: Seq<u8>) -> u32 {
    u32_at(b, SEQUENCE_NUMBER_OFFSET as int)
}

/// The capture of `b` is torn: the counter it carries differs from the one
/// sampled after the copy, or is odd (a write was in progress).
pub open spec fn is_torn(b: Seq<u8>, seq_after: u32) -> bool {
    ||| stored_sequence(b) != seq_after
    ||| stored_sequence(b) % 2 == 1
}

/// Read one validated snapshot out of `buffer`.
///
/// `buffer` is the caller's copy of the shared region; `seq_after` is the
/// live sequence counter sampled from the region after that copy was taken
/// (a caller with a quiescent buffer of its own passes the counter the
/// buffer itself carries).  The result is exact in both directions: each
/// error comes on precisely the stated inputs, and on every other input the
/// call succeeds with the byte-for-byte decoding of the record.
pub fn read(buffer: &[u8], expected_version: u32, seq_after: u32) -> (r: Result<
    SharedMemory,
    ReadError,
>)
    ensures
        buffer@.len() < SHARED_MEMORY_SIZE ==> r == Err::<SharedMemory, ReadError>(
            ReadError::TooShort,
        ),
        buffer@.len() >= SHARED_MEMORY_SIZE && stored_version(buffer@) != expected_version ==> r
            == Err::<SharedMemory, ReadError>(
            ReadError::VersionMismatch {
                expected: expected_version,
                found: stored_version(buffer@),
            },
        ),
        buffer@.len() >= SHARED_MEMORY_SIZE && stored_version(buffer@) == expected_version
            && is_torn(buffer@, seq_after) ==> r == Err::<SharedMemory, ReadError>(ReadError::Torn),
        buffer@.len() >= SHARED_MEMORY_SIZE && stored_version(buffer@) == expected_version
            && !is_torn(buffer@, seq_after) ==> r is Ok,
        match r {
            Ok(s) => {
                &&& buffer@.len() >= SHARED_MEMORY_SIZE
                &&& stored_version(buffer@) == expected_version
                &&& !is_torn(buffer@, seq_after)
                &&& snapshot_matches(s, buffer@)
                &&& s.wf()
            },
            Err(e) => match e {
                ReadError::TooShort => buffer@.len() < SHARED_MEMORY_SIZE,
                ReadError::VersionMismatch { expected, found } => {
                    &&& buffer@.len() >= SHARED_MEMORY_SIZE
                    &&& expected == expected_version
                    &&& found == stored_version(buffer@)
                    &&& found != expected_version
                },
                ReadError::Torn => {
                    &&& buffer@.len() >= SHARED_MEMORY_SIZE
                    &&& stored_version(buffer@) == expected_version
                    &&& is_torn(buffer@, seq_after)
                },
                ReadError::Misaligned => false,
            },
        },
{
    if buffer.len() < SHARED_MEMORY_SIZE {
        return Err(ReadError::TooShort);
    }
    let found = read_u32(buffer, VERSION_OFFSET);
    if found != expected_version {
        return Err(ReadError::VersionMismatch { expected: expected_version, found });
    }
    let seq_before = read_u32(buffer, SEQUENCE_NUMBER_OFFSET);
    if seq_before != seq_after || seq_before % 2 == 1 {
        return Err(ReadError::Torn);
    }
    let snapshot = decode_snapshot(buffer);
    proof {
        lemma_matches_wf(snapshot, buffer@);
    }
    Ok(snapshot)
}

/// Decode the record a buffer holds, with no version or torn-read
/// validation: the safe replacement for reinterpreting the buffer in place.
/// Only a buffer shorter than one record is rejected; alignment never
/// matters to the byte cursor.
#[allow(non_snake_case)]
pub fn from_slice_u8_to_SharedMemory(slice: &[u8]) -> (r: Result<SharedMemory, ReadError>)
    ensures
        slice@.len() >= SHARED_MEMORY_SIZE <==> r is Ok,
        match r {
            Ok(s) => {
                &&& slice@.len() >= SHARED_MEMORY_SIZE
                &&& snapshot_matches(s, slice@)
                &&& s.wf()
            },
            Err(e) => {
                &&& e == ReadError::TooShort
                &&& slice@.len() < SHARED_MEMORY_SIZE
            },
        },
{
    if slice.len() < SHARED_MEMORY_SIZE {
        return Err(ReadError::TooShort);
    }
    let snapshot = decode_snapshot(slice);
    proof {
        lemma_matches_wf(snapshot, slice@);
    }
    Ok(snapshot)
}

/// Whether a failed poll is worth retrying within the same tick: only a
/// torn read is, since it is expected under normal operation; the other
/// errors persist until the producer or the mapping changes.
pub fn should_retry(e: &ReadError) -> (r: bool)
    ensures
        r == (e is Torn),
{
    match e {
        ReadError::Torn => true,
        _ => false,
    }
}

} // verus!
