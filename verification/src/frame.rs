//! The generic frame header that the dispatcher hands to a codec, and the
//! protocol errors a codec can report.

use vstd::prelude::*;

pub mod ping;

verus! {

/// Frame-kind byte identifying a PING frame on the wire.
pub const PING: u8 = 0x6;

/// Protocol violations a codec reports when an inbound frame is malformed.
#[derive(Clone, Copy, Debug, PartialEq, Eq, Structural)]
pub enum Error {
    /// A connection-scoped frame carried a non-zero stream identifier.
    InvalidStreamId,
    /// The payload length differs from what the frame kind mandates.
    BadFrameSize,
}

/// A parsed generic frame header: kind byte, flag byte, and stream identifier.
#[derive(Clone, Copy, Debug, PartialEq, Eq, Structural)]
pub struct Head {
    pub kind: u8,
    pub flag: u8,
    pub stream_id: u32,
}

/// The wire bytes of a generic frame header: the kind byte, the flag byte,
/// the payload length as three big-endian bytes, then the stream identifier
/// as four big-endian bytes.
pub open spec fn spec_head_bytes(kind: u8, flag: u8, len: u32, stream_id: u32) -> Seq<u8> {
    seq![
        kind,
        flag,
        ((len >> 16) & 0xff) as u8,
        ((len >> 8) & 0xff) as u8,
        (len & 0xff) as u8,
        ((stream_id >> 24) & 0xff) as u8,
        ((stream_id >> 16) & 0xff) as u8,
        ((stream_id >> 8) & 0xff) as u8,
        (stream_id & 0xff) as u8,
    ]
}

impl Head {
    pub fn new(kind: u8, flag: u8, stream_id: u32) -> (h: Head)
        ensures
            h == (Head { kind, flag, stream_id }),
    {
        Head { kind, flag, stream_id }
    }

    /// Appends this header's wire bytes, declaring a payload of `len` bytes.
    pub fn encode(&self, len: u32, dst: &mut Vec<u8>)
        requires
            len < 0x1000000,
        ensures
            final(dst)@ == old(dst)@ + spec_head_bytes(self.kind, self.flag, len, self.stream_id),
    {
        dst.push(self.kind);
        dst.push(self.flag);
        dst.push(((len >> 16) & 0xff) as u8);
        dst.push(((len >> 8) & 0xff) as u8);
        dst.push((len & 0xff) as u8);
        dst.push(((self.stream_id >> 24) & 0xff) as u8);
        dst.push(((self.stream_id >> 16) & 0xff) as u8);
        dst.push(((self.stream_id >> 8) & 0xff) as u8);
        dst.push((self.stream_id & 0xff) as u8);
        proof {
            assert(dst@ =~= old(dst)@ + spec_head_bytes(self.kind, self.flag, len, self.stream_id));
        }
    }
}

} // verus!
