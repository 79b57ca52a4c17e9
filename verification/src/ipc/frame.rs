//! Frames: how one message is told from the next on a byte stream.
//!
//! A frame is the length of a message as a little-endian `u32`, then the
//! message. A reader that holds the first bytes of a stream learns from
//! `decode_frame` whether a whole frame has arrived, how many bytes are
//! still missing, or that the sender announced more than a frame may hold.

use crate::ipc::wire::lemma_u32_at_bounds;
use crate::ipc::wire::lemma_u32_bytes_unique;
use crate::ipc::wire::lemma_u32_round_trip;
use crate::ipc::wire::read_u32;
use crate::ipc::wire::u32_at;
use crate::ipc::wire::u32_bytes;
use crate::ipc::wire::write_raw;
use crate::ipc::wire::write_u32;
use vstd::prelude::*;
use vstd::slice::slice_subrange;
use vstd::slice::slice_to_vec;

verus! {

/// The number of bytes in front of each message.
pub const FRAME_HEADER_LEN: usize = 4;

/// The longest message that a frame may hold: 16 MiB.
pub const MAX_FRAME_LEN: u32 = 0x0100_0000;

/// Why a message cannot be framed.
#[derive(Clone, Copy, Debug, PartialEq, Eq, Structural)]
pub enum FrameError {
    /// The message is longer than `MAX_FRAME_LEN`.
    TooLarge,
}

/// What the first bytes of a stream hold.
#[derive(Clone, Debug, PartialEq, Eq)]
pub enum FrameStatus {
    /// No whole frame yet: at least this many bytes are missing.
    NeedMore(usize),
    /// The header announces a message of this length, above the limit.
    Oversized(u32),
    /// A whole frame: its message, and the number of bytes it took.
    Complete { payload: Vec<u8>, consumed: usize },
}

/// A `FrameStatus` as plain mathematical data.
pub enum FrameScan {
    NeedMore(int),
    Oversized(u32),
    Complete { payload: Seq<u8>, consumed: int },
}

impl View for FrameStatus {
    type V = FrameScan;

    open spec fn view(&self) -> FrameScan {
        match *self {
            FrameStatus::NeedMore(missing) => FrameScan::NeedMore(missing as int),
            FrameStatus::Oversized(announced) => FrameScan::Oversized(announced),
            FrameStatus::Complete { payload, consumed } => FrameScan::Complete {
                payload: payload@,
                consumed: consumed as int,
            },
        }
    }
}

/// The frame of a message.
pub open spec fn frame_bytes(payload: Seq<u8>) -> Seq<u8> {
    u32_bytes(payload.len() as u32) + payload
}

/// What the first bytes of a stream hold.
pub open spec fn scan_frame(buffer: Seq<u8>) -> FrameScan {
    if buffer.len() < 4 {
        FrameScan::NeedMore(4 - buffer.len())
    } else {
        let announced = u32_at(buffer, 0);
        if announced > MAX_FRAME_LEN {
            FrameScan::Oversized(announced as u32)
        } else if buffer.len() < 4 + announced {
            FrameScan::NeedMore(4 + announced - buffer.len())
        } else {
            FrameScan::Complete { payload: buffer.subrange(4, 4 + announced), consumed: 4 + announced }
        }
    }
}

/// A frame followed by anything is read back as its message, and the
/// reader takes exactly the frame.
pub proof fn lemma_frame_round_trip(payload: Seq<u8>, rest: Seq<u8>)
    requires
        payload.len() <= MAX_FRAME_LEN,
    ensures
        scan_frame(frame_bytes(payload) + rest) == (FrameScan::Complete {
            payload,
            consumed: 4 + payload.len() as int,
        }),
{
    let buffer = frame_bytes(payload) + rest;
    assert(buffer.subrange(0, 4) =~= u32_bytes(payload.len() as u32));
    lemma_u32_round_trip(payload.len() as u32, buffer, 0);
    assert(buffer.subrange(4, 4 + payload.len() as int) =~= payload);
}

/// Of a frame cut short the reader says that bytes are missing, and once
/// the header is there, how many.
pub proof fn lemma_frame_cut_short(payload: Seq<u8>, kept: int)
    requires
        payload.len() <= MAX_FRAME_LEN,
        0 <= kept < 4 + payload.len(),
    ensures
        scan_frame(frame_bytes(payload).take(kept)) == FrameScan::NeedMore(
            if kept < 4 {
                4 - kept
            } else {
                4 + payload.len() - kept
            },
        ),
{
    let buffer = frame_bytes(payload).take(kept);
    if kept >= 4 {
        assert(buffer.subrange(0, 4) =~= u32_bytes(payload.len() as u32));
        lemma_u32_round_trip(payload.len() as u32, buffer, 0);
    }
}

/// Where the reader finds a whole frame, the bytes it takes are the frame
/// of the message it gives, which is not above the limit.
pub proof fn lemma_frame_bytes_unique(buffer: Seq<u8>)
    requires
        scan_frame(buffer) is Complete,
    ensures
        ({
            let payload = scan_frame(buffer)->payload;
            let consumed = scan_frame(buffer)->consumed;
            &&& payload.len() <= MAX_FRAME_LEN
            &&& consumed == 4 + payload.len()
            &&& consumed <= buffer.len()
            &&& buffer.take(consumed) == frame_bytes(payload)
        }),
{
    let payload = scan_frame(buffer)->payload;
    let consumed = scan_frame(buffer)->consumed;
    lemma_u32_at_bounds(buffer, 0);
    lemma_u32_bytes_unique(buffer, 0);
    assert(buffer.take(consumed) =~= buffer.subrange(0, 4) + payload);
}

/// Puts a message in a frame, unless it is longer than `MAX_FRAME_LEN`.
pub fn encode_frame(payload: &[u8]) -> (result: Result<Vec<u8>, FrameError>)
    ensures
        payload@.len() <= MAX_FRAME_LEN ==> (result matches Ok(frame) && frame@ == frame_bytes(
            payload@,
        )),
        payload@.len() > MAX_FRAME_LEN ==> result == Err::<Vec<u8>, FrameError>(
            FrameError::TooLarge,
        ),
{
    if payload.len() > MAX_FRAME_LEN as usize {
        return Err(FrameError::TooLarge);
    }
    let mut frame: Vec<u8> = Vec::new();
    write_u32(&mut frame, payload.len() as u32);
    write_raw(&mut frame, payload);
    assert(frame@ =~= frame_bytes(payload@));
    Ok(frame)
}

/// Looks for one frame at the start of `buffer`.
pub fn decode_frame(buffer: &[u8]) -> (status: FrameStatus)
    ensures
        status@ == scan_frame(buffer@),
{
    match read_u32(buffer, 0) {
        None => FrameStatus::NeedMore(4 - buffer.len()),
        Some((announced, start)) => {
            if announced > MAX_FRAME_LEN {
                FrameStatus::Oversized(announced)
            } else if buffer.len() - start < announced as usize {
                FrameStatus::NeedMore(announced as usize - (buffer.len() - start))
            } else {
                let end: usize = start + announced as usize;
                let payload = slice_to_vec(slice_subrange(buffer, start, end));
                FrameStatus::Complete { payload, consumed: end }
            }
        },
    }
}

} // verus!
