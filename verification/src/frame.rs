//! Frames of the TCP path.
//!
//! A frame is a header of four bytes followed by the encrypted payload. The
//! header holds the number of bytes that follow it, big-endian, and is itself not
//! encrypted.
//!
//! A connection is seen here as bytes: `write_frame` appends to the bytes that
//! will be sent, `read_frame` takes a frame off the front of the bytes that came.

use vstd::prelude::*;
use crate::cipher::{decrypt, decrypt_spec, encrypt, encrypt_spec, lemma_decrypt_encrypt};

verus! {

/// The length of a frame's header.
pub const HEADER_LEN: usize = 4;

/// The largest payload that a header can announce.
pub const MAX_PAYLOAD_LEN: usize = 0xFFFF_FFFF;

/// Why a frame could not be written or read.
#[derive(Clone, Copy, Debug, PartialEq, Eq, Structural)]
pub enum FrameError {
    /// The payload is longer than four bytes can announce.
    PayloadTooLarge,
    /// The bytes end before the header does.
    ShortHeader,
    /// The bytes end before the announced number of bytes has come.
    ShortBody,
}

/// The header that announces `len` bytes.
pub open spec fn length_header(len: nat) -> Seq<u8> {
    seq![
        (len / 0x100_0000 % 0x100) as u8,
        (len / 0x1_0000 % 0x100) as u8,
        (len / 0x100 % 0x100) as u8,
        (len % 0x100) as u8,
    ]
}

/// The number of bytes that `header` announces.
pub open spec fn announced_len(header: Seq<u8>) -> nat {
    (header[0] * 0x100_0000 + header[1] * 0x1_0000 + header[2] * 0x100 + header[3]) as nat
}

/// The frame that carries `payload`.
pub open spec fn frame_spec(payload: Seq<u8>) -> Seq<u8> {
    length_header(payload.len()) + encrypt_spec(payload)
}

/// What reading one frame off the front of `conn` gives: the payload and the
/// number of bytes taken, or the reason why `conn` holds no whole frame.
pub open spec fn read_frame_spec(conn: Seq<u8>) -> Result<(Seq<u8>, int), FrameError> {
    if conn.len() < HEADER_LEN {
        Err(FrameError::ShortHeader)
    } else {
        let len = announced_len(conn.take(HEADER_LEN as int));
        if conn.len() - HEADER_LEN < len {
            Err(FrameError::ShortBody)
        } else {
            Ok(
                (
                    decrypt_spec(conn.subrange(HEADER_LEN as int, HEADER_LEN + len)),
                    HEADER_LEN + len,
                ),
            )
        }
    }
}

/// A header announces the length it was made for.
pub proof fn lemma_header_round_trip(len: nat)
    requires
        len <= MAX_PAYLOAD_LEN,
    ensures
        length_header(len).len() == HEADER_LEN,
        announced_len(length_header(len)) == len,
{
}

/// Reading a written frame gives the payload back, whatever follows the frame on
/// the connection: the payload may be empty, and as long as a header can
/// announce.
pub proof fn lemma_read_written_frame(payload: Seq<u8>, rest: Seq<u8>)
    requires
        payload.len() <= MAX_PAYLOAD_LEN,
    ensures
        read_frame_spec(frame_spec(payload) + rest) == Ok::<(Seq<u8>, int), FrameError>(
            (payload, HEADER_LEN + payload.len()),
        ),
{
    let conn = frame_spec(payload) + rest;
    lemma_header_round_trip(payload.len());
    assert(conn.take(HEADER_LEN as int) =~= length_header(payload.len()));
    assert(conn.subrange(HEADER_LEN as int, HEADER_LEN + payload.len()) =~= encrypt_spec(payload));
    lemma_decrypt_encrypt(payload);
}

/// The number of bytes that follow `header`, the first four bytes of a frame.
pub fn body_len(header: &[u8]) -> (len: Result<usize, FrameError>)
    ensures
        header.len() < HEADER_LEN ==> len == Err::<usize, FrameError>(FrameError::ShortHeader),
        header.len() >= HEADER_LEN ==> len == Ok::<usize, FrameError>(
            announced_len(header@.take(HEADER_LEN as int)) as usize,
        ) && announced_len(header@.take(HEADER_LEN as int)) <= MAX_PAYLOAD_LEN,
{
    if header.len() < HEADER_LEN {
        return Err(FrameError::ShortHeader);
    }
    let len: u32 = (header[0] as u32) * 0x100_0000 + (header[1] as u32) * 0x1_0000 + (
    header[2] as u32) * 0x100 + (header[3] as u32);
    Ok(len as usize)
}

/// Appends to `conn` the frame that carries `payload`. A payload that no header
/// can announce is refused, and `conn` is left as it was.
pub fn write_frame(conn: &mut Vec<u8>, payload: &[u8]) -> (written: Result<(), FrameError>)
    ensures
        payload.len() <= MAX_PAYLOAD_LEN ==> written is Ok && final(conn)@ == old(conn)@
            + frame_spec(payload@),
        payload.len() > MAX_PAYLOAD_LEN ==> written == Err::<(), FrameError>(
            FrameError::PayloadTooLarge,
        ) && final(conn)@ == old(conn)@,
{
    let len: usize = payload.len();
    if len > MAX_PAYLOAD_LEN {
        return Err(FrameError::PayloadTooLarge);
    }
    conn.push((len / 0x100_0000 % 0x100) as u8);
    conn.push((len / 0x1_0000 % 0x100) as u8);
    conn.push((len / 0x100 % 0x100) as u8);
    conn.push((len % 0x100) as u8);
    let mut body = encrypt(payload);
    conn.append(&mut body);
    assert(conn@ =~= old(conn)@ + frame_spec(payload@));
    Ok(())
}

/// Takes one frame off the front of `conn`: its payload, and the number of bytes
/// of `conn` that the frame took. Bytes that end before the frame does are an
/// error, which this function does not try to mend.
pub fn read_frame(conn: &[u8]) -> (frame: Result<(Vec<u8>, usize), FrameError>)
    ensures
        match frame {
            Ok((payload, taken)) => read_frame_spec(conn@) == Ok::<(Seq<u8>, int), FrameError>(
                (payload@, taken as int),
            ),
            Err(e) => read_frame_spec(conn@) == Err::<(Seq<u8>, int), FrameError>(e),
        },
{
    let len = match body_len(conn) {
        Ok(len) => len,
        Err(e) => {
            return Err(e);
        },
    };
    if conn.len() - HEADER_LEN < len {
        return Err(FrameError::ShortBody);
    }
    let body = vstd::slice::slice_subrange(conn, HEADER_LEN, HEADER_LEN + len);
    Ok((decrypt(body), HEADER_LEN + len))
}

} // verus!
