//! Incremental read access to the append-only backend log: a byte-offset
//! cursor, and bounded chunk reads that stream the file forward without
//! gaps or duplication.
//!
//! The file itself is opened and read by the host application; the
//! clamping and offset arithmetic here decides what to read and what
//! offset to hand back, and is what the streaming guarantees rest on.

use crate::textutil::{decode_utf8_lossy, utf8_lossy};
use vstd::prelude::*;

verus! {

/// Smallest admitted byte budget for one chunk read.
pub const MIN_CHUNK_BYTES: usize = 1024;

/// Largest admitted byte budget for one chunk read.
pub const MAX_CHUNK_BYTES: usize = 1048576;

/// Byte budget used when the caller gives none.
pub const DEFAULT_CHUNK_BYTES: usize = 65536;

/// The byte budget clamped into the admitted range.
pub open spec fn spec_clamp_budget(max_bytes: Option<usize>) -> int {
    let raw = match max_bytes {
        Some(m) => m as int,
        None => DEFAULT_CHUNK_BYTES as int,
    };
    if raw < MIN_CHUNK_BYTES as int {
        MIN_CHUNK_BYTES as int
    } else if raw > MAX_CHUNK_BYTES as int {
        MAX_CHUNK_BYTES as int
    } else {
        raw
    }
}

/// Where a chunk read starts: the requested offset clamped to the file.
pub open spec fn spec_chunk_start(file_len: int, offset: int) -> int {
    if offset <= file_len {
        offset
    } else {
        file_len
    }
}

/// How many bytes a chunk read takes: what is available past the start,
/// capped by the clamped budget.
pub open spec fn spec_chunk_count(file_len: int, offset: int, max_bytes: Option<usize>) -> int {
    let avail = file_len - spec_chunk_start(file_len, offset);
    let budget = spec_clamp_budget(max_bytes);
    if avail <= budget {
        avail
    } else {
        budget
    }
}

/// The offset a chunk read hands back to resume from.
pub open spec fn spec_next_offset(file_len: int, offset: int, max_bytes: Option<usize>) -> int {
    spec_chunk_start(file_len, offset) + spec_chunk_count(file_len, offset, max_bytes)
}

/// What one chunk read will do: where it starts and how many bytes it
/// takes.
pub struct ReadPlan {
    pub start: usize,
    pub count: usize,
}

/// Decides one chunk read over a file of `file_len` bytes: the offset is
/// clamped to the file, the byte budget is clamped to the admitted range,
/// and the read never runs past the end.
pub fn plan_chunk(file_len: usize, offset: usize, max_bytes: Option<usize>) -> (p: ReadPlan)
    ensures
        p.start == spec_chunk_start(file_len as int, offset as int),
        p.count == spec_chunk_count(file_len as int, offset as int, max_bytes),
        p.start + p.count <= file_len,
{
    let start: usize = if offset <= file_len {
        offset
    } else {
        file_len
    };
    let raw: usize = match max_bytes {
        Some(m) => m,
        None => DEFAULT_CHUNK_BYTES,
    };
    let budget: usize = if raw < MIN_CHUNK_BYTES {
        MIN_CHUNK_BYTES
    } else if raw > MAX_CHUNK_BYTES {
        MAX_CHUNK_BYTES
    } else {
        raw
    };
    let avail: usize = file_len - start;
    let count: usize = if avail <= budget {
        avail
    } else {
        budget
    };
    ReadPlan { start, count }
}

/// A chunk handed back to the log's reader: the decoded text and the
/// offset to resume from.
pub struct LogChunk {
    pub next_offset: usize,
    pub text: String,
}

/// The chunk read when no log path is known yet: nothing was read, and
/// the caller's offset comes back unchanged.
pub fn empty_chunk(offset: usize) -> (c: LogChunk)
    ensures
        c.next_offset == offset,
        c.text@.len() == 0,
{
    LogChunk { next_offset: offset, text: String::new() }
}

/// Reads one bounded chunk out of the log's bytes: at most the clamped
/// budget, starting at the clamped offset, decoded with replacement
/// characters for invalid sequences, together with the offset to resume
/// from.
pub fn read_chunk(data: &Vec<u8>, offset: usize, max_bytes: Option<usize>) -> (c: LogChunk)
    ensures
        c.next_offset == spec_next_offset(data@.len() as int, offset as int, max_bytes),
        c.next_offset <= data@.len(),
        c.text@ == utf8_lossy(
            data@.subrange(
                spec_chunk_start(data@.len() as int, offset as int),
                spec_next_offset(data@.len() as int, offset as int, max_bytes),
            ),
        ),
{
    let n: usize = data.len();
    let plan = plan_chunk(n, offset, max_bytes);
    let mut window: Vec<u8> = Vec::new();
    let mut i: usize = 0;
    while i < plan.count
        invariant
            n == data@.len(),
            plan.start + plan.count <= n,
            i <= plan.count,
            window@ =~= data@.subrange(plan.start as int, plan.start as int + i as int),
        decreases plan.count - i,
    {
        window.push(data[plan.start + i]);
        i = i + 1;
    }
    let text = decode_utf8_lossy(&window);
    proof {
        assert(window@ =~= data@.subrange(
            spec_chunk_start(data@.len() as int, offset as int),
            spec_next_offset(data@.len() as int, offset as int, max_bytes),
        ));
    }
    LogChunk { next_offset: plan.start + plan.count, text }
}

/// The cursor over the log: the file's current length, or zero while no
/// log path is known yet.
pub fn log_cursor(file_len: Option<usize>) -> (r: usize)
    ensures
        r == match file_len {
            Some(len) => len,
            None => 0,
        },
{
    match file_len {
        Some(len) => len,
        None => 0,
    }
}

/// The cursor over the log's bytes: how much a reader can have
/// consumed, the file's length.
pub open spec fn spec_cursor(log: Seq<u8>) -> int {
    log.len() as int
}

/// The cursor starts at zero and never moves backwards: it is zero over
/// the empty log, and appending to the log never lowers it.
pub proof fn lemma_cursor_monotone(log: Seq<u8>, appended: Seq<u8>)
    ensures
        spec_cursor(Seq::<u8>::empty()) == 0,
        spec_cursor(log) <= spec_cursor(log + appended),
{
}

/// Streaming the log forward terminates and is gapless: a read below the
/// end of the file hands back a strictly larger offset, a read at or past
/// the end hands back the file length itself and takes no bytes, and the
/// bytes taken start exactly at the clamped offset.
pub proof fn lemma_chunk_stream(file_len: int, offset: int, max_bytes: Option<usize>)
    requires
        0 <= offset,
        0 <= file_len,
    ensures
        offset < file_len ==> spec_next_offset(file_len, offset, max_bytes) > offset,
        offset >= file_len ==> spec_next_offset(file_len, offset, max_bytes) == file_len
            && spec_chunk_count(file_len, offset, max_bytes) == 0,
        spec_next_offset(file_len, offset, max_bytes) <= file_len,
{
}

} // verus!
