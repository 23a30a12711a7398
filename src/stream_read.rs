//! Reading from a source: how the outcome of a transport read settles the
//! caller's buffer and what the read reports.
use vstd::prelude::*;
use bytes::BytesMut;
use crate::buffer::{buffer_bytes, buffer_len, buffer_resize, buffer_truncate, buffer_clear, buffer_extend};

verus! {

/// What one read of a source reports.
#[derive(Debug, Clone, PartialEq, Eq)]
pub enum StreamReadResult {
    /// This many bytes were added to the buffer; for a datagram source, the
    /// buffer holds exactly this many bytes.
    BytesRead(usize),
    /// The source has no more data and never will.
    Finished,
    /// The read failed.
    Error(String),
}

/// A source of bytes. Each call blocks until data, the end of the data, or an
/// error is there.
pub trait StreamRead {
    fn read_bytes(&mut self, bytes: &mut BytesMut, num_bytes: usize) -> StreamReadResult;
}

/// `n` zero bytes.
pub open spec fn zeros(n: nat) -> Seq<u8> {
    Seq::new(n, |i: int| 0u8)
}

/// Makes room for a stream read of up to `num_bytes` bytes: appends that many
/// zero bytes to the buffer, which the read then overwrites. Returns the
/// length the buffer had before.
pub fn prepare_read(bytes: &mut BytesMut, num_bytes: usize) -> (old_len: usize)
    requires
        buffer_bytes(*old(bytes)).len() + num_bytes <= isize::MAX,
    ensures
        old_len == buffer_bytes(*old(bytes)).len(),
        buffer_bytes(*final(bytes)) == buffer_bytes(*old(bytes)) + zeros(num_bytes as nat),
{
    let old_len = buffer_len(bytes);
    buffer_resize(bytes, old_len + num_bytes, 0);
    assert(buffer_bytes(*bytes) =~= buffer_bytes(*old(bytes)) + zeros(num_bytes as nat));
    old_len
}

/// Settles the buffer after a stream read into the room that `prepare_read`
/// made at `old_len`: the buffer keeps the bytes before that room and the
/// bytes that were read, and nothing else. A count that runs past the room is
/// refused as an error.
pub fn complete_read(bytes: &mut BytesMut, old_len: usize, outcome: Result<usize, String>) -> (r:
    StreamReadResult)
    requires
        old_len <= buffer_bytes(*old(bytes)).len(),
    ensures
        match outcome {
            Ok(n) => if old_len + n <= buffer_bytes(*old(bytes)).len() {
                r == StreamReadResult::BytesRead(n) && buffer_bytes(*final(bytes))
                    == buffer_bytes(*old(bytes)).take(old_len + n)
            } else {
                r is Error && buffer_bytes(*final(bytes)) == buffer_bytes(*old(bytes)).take(
                    old_len as int,
                )
            },
            Err(e) => r == StreamReadResult::Error(e) && buffer_bytes(*final(bytes))
                == buffer_bytes(*old(bytes)).take(old_len as int),
        },
{
    let len = buffer_len(bytes);
    match outcome {
        Ok(n) => {
            if n <= len - old_len {
                buffer_truncate(bytes, old_len + n);
                StreamReadResult::BytesRead(n)
            } else {
                buffer_truncate(bytes, old_len);
                StreamReadResult::Error(String::from_str("read reported more bytes than requested"))
            }
        },
        Err(e) => {
            buffer_truncate(bytes, old_len);
            StreamReadResult::Error(e)
        },
    }
}

/// The report of a stream source (a file or a TCP connection), where a read
/// of no bytes means that the data has ended.
pub open spec fn stream_report(r: StreamReadResult) -> StreamReadResult {
    if r == StreamReadResult::BytesRead(0) {
        StreamReadResult::Finished
    } else {
        r
    }
}

/// Turns a read of no bytes from a stream source into `Finished`.
pub fn mark_end_of_data(r: StreamReadResult) -> (s: StreamReadResult)
    ensures
        s == stream_report(r),
{
    match r {
        StreamReadResult::BytesRead(n) => if n == 0 {
            StreamReadResult::Finished
        } else {
            StreamReadResult::BytesRead(n)
        },
        _ => r,
    }
}

/// Settles the buffer after a read of a stream source (a file or a TCP
/// connection). A read that finds the end of the data reports `Finished`,
/// never an error, and leaves the buffer as it was before `prepare_read`, so
/// every later read at the end reports `Finished` again.
pub fn complete_stream_read(bytes: &mut BytesMut, old_len: usize, outcome: Result<usize, String>) -> (r:
    StreamReadResult)
    requires
        old_len <= buffer_bytes(*old(bytes)).len(),
    ensures
        match outcome {
            Ok(n) => if old_len + n <= buffer_bytes(*old(bytes)).len() {
                r == stream_report(StreamReadResult::BytesRead(n)) && buffer_bytes(*final(bytes))
                    == buffer_bytes(*old(bytes)).take(old_len + n)
            } else {
                r is Error && buffer_bytes(*final(bytes)) == buffer_bytes(*old(bytes)).take(
                    old_len as int,
                )
            },
            Err(e) => r == StreamReadResult::Error(e) && buffer_bytes(*final(bytes))
                == buffer_bytes(*old(bytes)).take(old_len as int),
        },
        outcome == Ok::<usize, String>(0) ==> r == StreamReadResult::Finished,
{
    mark_end_of_data(complete_read(bytes, old_len, outcome))
}

/// At the end of the data a stream read is the same every time: growing the
/// buffer by the requested room and then reading no bytes reports `Finished`
/// and leaves the buffer as it was, so the next read starts from the same
/// buffer and, while the source stays at its end, ends the same way, never
/// in an error.
pub proof fn lemma_end_of_data_repeats(b: Seq<u8>, num_bytes: nat)
    ensures
        (b + zeros(num_bytes)).take(b.len() as int) == b,
        stream_report(StreamReadResult::BytesRead(0)) == StreamReadResult::Finished,
        !(stream_report(StreamReadResult::BytesRead(0)) is Error),
{
    assert((b + zeros(num_bytes)).take(b.len() as int) =~= b);
}

/// Takes one received datagram as the whole content of the buffer: whatever
/// the buffer held before is dropped, and the report is the datagram's size,
/// an empty datagram included.
pub fn store_datagram(bytes: &mut BytesMut, datagram: &[u8]) -> (r: StreamReadResult)
    requires
        datagram@.len() <= isize::MAX,
    ensures
        buffer_bytes(*final(bytes)) == datagram@,
        r == StreamReadResult::BytesRead(datagram@.len() as usize),
{
    buffer_clear(bytes);
    buffer_extend(bytes, datagram);
    assert(buffer_bytes(*bytes) =~= datagram@);
    StreamReadResult::BytesRead(datagram.len())
}

/// The report of a read of a source that was never configured.
pub fn null_read() -> (r: StreamReadResult)
    ensures
        r is Error,
{
    StreamReadResult::Error(String::from_str("read of a stream that was never opened"))
}

} // verus!
