//! Writing to a sink: what a send reports, given what the transport did.
use vstd::prelude::*;

verus! {

/// A sink of bytes. A successful call has handed over every byte given.
pub trait StreamWrite {
    fn write_bytes(&mut self, bytes: &[u8]) -> Result<usize, String>;
}

/// The report of a full write of `len` bytes to a file or a TCP connection:
/// the transport takes every byte or fails, so success reports `len`.
pub fn complete_write(outcome: Result<(), String>, len: usize) -> (r: Result<usize, String>)
    ensures
        match outcome {
            Ok(()) => r == Ok::<usize, String>(len),
            Err(e) => r == Err::<usize, String>(e),
        },
{
    match outcome {
        Ok(()) => Ok(len),
        Err(e) => Err(e),
    }
}

/// The report of sending `len` bytes as one datagram, given the count that
/// the socket reported: anything short of the whole datagram is an error.
pub fn complete_datagram_send(outcome: Result<usize, String>, len: usize) -> (r: Result<
    usize,
    String,
>)
    ensures
        match outcome {
            Ok(n) => if n == len {
                r == Ok::<usize, String>(len)
            } else {
                r is Err
            },
            Err(e) => r == Err::<usize, String>(e),
        },
{
    match outcome {
        Ok(n) => if n == len {
            Ok(len)
        } else {
            Err(String::from_str("datagram was not sent whole"))
        },
        Err(e) => Err(e),
    }
}

/// The report of a send to a sink that was never configured: the bytes are
/// dropped and all of them count as taken.
pub fn null_send(packet: &[u8]) -> (r: Result<usize, String>)
    ensures
        r == Ok::<usize, String>(packet@.len() as usize),
{
    Ok(packet.len())
}

} // verus!
