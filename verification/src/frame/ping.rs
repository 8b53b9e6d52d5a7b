//! The PING message codec: decoding a raw frame into a typed PING message,
//! encoding a typed message back into wire bytes, and classifying the opaque
//! eight-byte payload.

use crate::frame::{spec_head_bytes, Error, Head, PING};
use vstd::prelude::*;

verus! {

/// An opaque PING payload: always exactly eight bytes on the wire.
pub type Payload = [u8; 8];

/// Bit 0 of the flag byte: set when the message is a response to a probe.
pub const ACK_FLAG: u8 = 0x1;

/// The reserved payload that signals a graceful connection shutdown.
pub open spec fn shutdown_payload_spec() -> Seq<u8> {
    seq![0x0bu8, 0x7bu8, 0xa2u8, 0xf0u8, 0x8bu8, 0x9bu8, 0xfeu8, 0x54u8]
}

/// The seven-byte prefix shared by the reserved user-correlated payloads,
/// whose last byte carries the correlation tag.
pub open spec fn user_prefix() -> Seq<u8> {
    seq![0x3bu8, 0x7cu8, 0xdbu8, 0x7au8, 0x0bu8, 0x87u8, 0x16u8]
}

/// The mathematical value of a PING message: its ACK flag and payload bytes.
#[verifier::ext_equal]
pub ghost struct PingModel {
    pub ack: bool,
    pub payload: Seq<u8>,
}

/// A typed PING message.
#[derive(Debug, PartialEq, Eq)]
pub struct Ping {
    ack: bool,
    payload: Payload,
}

impl View for Ping {
    type V = PingModel;

    closed spec fn view(&self) -> PingModel {
        PingModel { ack: self.ack, payload: self.payload@ }
    }
}

/// The classification of a payload: `Some(tag)` exactly when its first seven
/// bytes equal the reserved user-payload prefix, with `tag` its last byte.
pub open spec fn spec_user_payload_id(m: PingModel) -> Option<u8> {
    if m.payload.len() == 8 && m.payload.subrange(0, 7) == user_prefix() {
        Some(m.payload[7])
    } else {
        None
    }
}

/// What decoding a header and raw payload yields: the stream-identifier
/// check comes first, then the size check, and only bit 0 of the flag byte
/// decides the ACK flag.
pub open spec fn spec_load(head: Head, bytes: Seq<u8>) -> Result<PingModel, Error> {
    if head.stream_id != 0 {
        Err(Error::InvalidStreamId)
    } else if bytes.len() != 8 {
        Err(Error::BadFrameSize)
    } else {
        Ok(PingModel { ack: (head.flag & ACK_FLAG) != 0, payload: bytes })
    }
}

/// The flag byte a message encodes to: bit 0 for ACK, all other bits zero.
pub open spec fn spec_flag(ack: bool) -> u8 {
    if ack {
        ACK_FLAG
    } else {
        0
    }
}

/// The full wire encoding of a message: a PING header declaring an
/// eight-byte payload on stream zero, followed by the payload verbatim.
pub open spec fn spec_encode(m: PingModel) -> Seq<u8> {
    spec_head_bytes(PING, spec_flag(m.ack), 8, 0) + m.payload
}

impl Ping {
    /// Builds a fresh outbound probe carrying `payload` verbatim.
    pub fn new(payload: Payload) -> (p: Ping)
        ensures
            p@ == (PingModel { ack: false, payload: payload@ }),
    {
        Ping { ack: false, payload }
    }

    /// Builds a response to a received probe, echoing `payload` verbatim.
    pub fn pong(payload: Payload) -> (p: Ping)
        ensures
            p@ == (PingModel { ack: true, payload: payload@ }),
    {
        Ping { ack: true, payload }
    }

    /// The reserved shutdown payload value.
    pub fn shutdown_payload() -> (p: Payload)
        ensures
            p@ == shutdown_payload_spec(),
    {
        let p: Payload = [0x0b, 0x7b, 0xa2, 0xf0, 0x8b, 0x9b, 0xfe, 0x54];
        proof {
            assert(p@ =~= shutdown_payload_spec());
        }
        p
    }

    /// The reserved user-correlated payload with correlation tag `id`.
    pub fn user_payload(id: u8) -> (p: Payload)
        requires
            id < 2,
        ensures
            p@ == user_prefix().push(id),
    {
        let p: Payload = [0x3b, 0x7c, 0xdb, 0x7a, 0x0b, 0x87, 0x16, id];
        proof {
            assert(p@ =~= user_prefix().push(id));
        }
        p
    }

    pub fn is_ack(&self) -> (b: bool)
        ensures
            b == self@.ack,
    {
        self.ack
    }

    pub fn payload(&self) -> (p: &Payload)
        ensures
            p@ == self@.payload,
    {
        &self.payload
    }

    pub fn into_payload(self) -> (p: Payload)
        ensures
            p@ == self@.payload,
    {
        self.payload
    }

    /// Classifies the payload: `Some(tag)` exactly when the first seven
    /// bytes equal the reserved user-payload prefix.
    pub fn user_payload_id(&self) -> (r: Option<u8>)
        ensures
            r == spec_user_payload_id(self@),
    {
        if self.payload[0] == 0x3b && self.payload[1] == 0x7c && self.payload[2] == 0xdb
            && self.payload[3] == 0x7a && self.payload[4] == 0x0b && self.payload[5] == 0x87
            && self.payload[6] == 0x16 {
            proof {
                assert(self@.payload.subrange(0, 7) =~= user_prefix());
            }
            Some(self.payload[7])
        } else {
            proof {
                assert(self@.payload.subrange(0, 7) != user_prefix()) by {
                    if self@.payload.subrange(0, 7) == user_prefix() {
                        assert(forall|i: int|
                            0 <= i < 7 ==> self@.payload[i] == #[trigger] user_prefix()[i]);
                    }
                }
            }
            None
        }
    }

    /// Builds a `Ping` message from a raw frame: a non-zero stream
    /// identifier is rejected first, then any payload length other than
    /// eight bytes; otherwise the payload is copied verbatim and the ACK
    /// flag read from bit 0 of the flag byte.
    pub fn load(head: Head, bytes: &[u8]) -> (r: Result<Ping, Error>)
        requires
            head.kind == PING,
        ensures
            ({
                let s = spec_load(head, bytes@);
                match r {
                    Ok(p) => s == Ok::<PingModel, Error>(p@),
                    Err(e) => s == Err::<PingModel, Error>(e),
                }
            }),
    {
        if head.stream_id != 0 {
            return Err(Error::InvalidStreamId);
        }

        if bytes.len() != 8 {
            return Err(Error::BadFrameSize);
        }

        let payload: Payload = [
            bytes[0],
            bytes[1],
            bytes[2],
            bytes[3],
            bytes[4],
            bytes[5],
            bytes[6],
            bytes[7],
        ];
        proof {
            assert(payload@ =~= bytes@);
        }

        let ack = head.flag & ACK_FLAG != 0;

        Ok(Ping { ack, payload })
    }

    /// Appends the wire bytes of this message to `dst`: a PING header with
    /// the computed flag byte and stream identifier zero, then the payload.
    pub fn encode(&self, dst: &mut Vec<u8>)
        ensures
            final(dst)@ == old(dst)@ + spec_encode(self@),
    {
        let flags: u8 = if self.ack {
            ACK_FLAG
        } else {
            0
        };
        let head = Head::new(PING, flags, 0);

        head.encode(8, dst);
        put_payload(dst, &self.payload);
        proof {
            assert(dst@ =~= old(dst)@ + spec_encode(self@));
        }
    }
}

proof fn lemma_or_keeps_ack_bit(f: u8, e: u8)
    by (bit_vector)
    requires
        e & ACK_FLAG == 0,
    ensures
        (f | e) & ACK_FLAG == f & ACK_FLAG,
{
}

proof fn lemma_flag_of_ack(a: bool)
    ensures
        (spec_flag(a) & ACK_FLAG != 0) == a,
{
    assert(1u8 & ACK_FLAG != 0) by (bit_vector);
    assert(0u8 & ACK_FLAG == 0) by (bit_vector);
}

/// Round trip: the wire bytes of any well-formed message are seventeen
/// bytes, open with exactly the header the message encodes to, and decoding
/// that header together with the trailing eight bytes yields the original
/// message back, flag and payload preserved exactly.
pub proof fn lemma_round_trip(m: PingModel)
    requires
        m.payload.len() == 8,
    ensures
        spec_encode(m).len() == 17,
        spec_encode(m).subrange(0, 9) == spec_head_bytes(PING, spec_flag(m.ack), 8, 0),
        spec_load(
            Head { kind: PING, flag: spec_flag(m.ack), stream_id: 0 },
            spec_encode(m).subrange(9, 17),
        ) == Ok::<PingModel, Error>(m),
{
    assert(spec_encode(m).subrange(0, 9) =~= spec_head_bytes(PING, spec_flag(m.ack), 8, 0));
    assert(spec_encode(m).subrange(9, 17) =~= m.payload);
    lemma_flag_of_ack(m.ack);
    assert((PingModel { ack: (spec_flag(m.ack) & ACK_FLAG) != 0, payload: m.payload }) =~= m);
}

/// Flag isolation: setting any of bits 1 to 7 in the inbound flag byte
/// changes nothing about what decoding yields; only bit 0 matters.
pub proof fn lemma_flag_isolation(head: Head, extra: u8, bytes: Seq<u8>)
    requires
        extra & ACK_FLAG == 0,
    ensures
        spec_load(Head { flag: head.flag | extra, ..head }, bytes) == spec_load(head, bytes),
{
    lemma_or_keeps_ack_bit(head.flag, extra);
}

/// Classification of the well-known payloads: whatever the ACK flag, a
/// user-correlated payload classifies as its tag byte, and the shutdown
/// payload does not classify as a user payload.
pub proof fn lemma_classify_well_known(a: bool, id: u8)
    ensures
        spec_user_payload_id(PingModel { ack: a, payload: user_prefix().push(id) }) == Some(id),
        spec_user_payload_id(PingModel { ack: a, payload: shutdown_payload_spec() }) == None::<u8>,
{
    assert(user_prefix().push(id).subrange(0, 7) =~= user_prefix());
    assert(shutdown_payload_spec().subrange(0, 7) != user_prefix()) by {
        if shutdown_payload_spec().subrange(0, 7) == user_prefix() {
            assert(shutdown_payload_spec().subrange(0, 7)[0] == user_prefix()[0]);
        }
    }
}

/// A probe and a response with the same payload encode to wire bytes of the
/// same length that differ only in the flag byte, where the probe carries
/// zero and the response the ACK bit.
pub proof fn lemma_encode_differs_only_in_flag(p: Seq<u8>)
    requires
        p.len() == 8,
    ensures
        ({
            let probe = spec_encode(PingModel { ack: false, payload: p });
            let resp = spec_encode(PingModel { ack: true, payload: p });
            &&& probe.len() == resp.len()
            &&& probe[1] == 0
            &&& resp[1] == ACK_FLAG
            &&& forall|i: int| 0 <= i < probe.len() && i != 1 ==> probe[i] == resp[i]
        }),
{
}

/// Relies on `bytes::BufMut::put_slice` for `Vec<u8>`, which appends the
/// bytes of `src` to the vector by extending it in place.
#[verifier::external_body]
fn put_payload(dst: &mut Vec<u8>, src: &Payload)
    ensures
        final(dst)@ == old(dst)@ + src@,
{
    bytes::BufMut::put_slice(dst, src)
}

} // verus!
