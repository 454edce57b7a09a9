use vstd::prelude::*;

use crate::bytes::ByteWriter;
use crate::error::Error;
use crate::llid::{lemma_llid_roundtrip, llid_bits, llid_from_bits, Llid};

verus! {

/// A data-channel PDU header: the link identifier of the payload and the
/// payload length in bytes.
///
/// The header serializes to exactly two bytes, with no padding: the link
/// identifier in the low two bits of the first byte, the payload length as
/// the second byte. Decoding never fails — any two bytes yield a
/// structurally valid header. The length byte is not checked against the
/// slot capacity here: the producer bounds it at write time and the consumer
/// checks it at read time.
#[derive(Debug, Clone, Copy, PartialEq, Eq, Structural)]
pub struct Header {
    /// The link identifier of the payload.
    pub llid: Llid,
    /// The payload length in bytes.
    pub payload_length: u8,
}

/// The two-byte wire encoding of a header.
pub open spec fn encode_spec(h: Header) -> Seq<u8> {
    seq![llid_bits(h.llid), h.payload_length]
}

/// The header encoded in two raw bytes.
pub open spec fn decode_spec(b0: u8, b1: u8) -> Header {
    Header { llid: llid_from_bits(b0), payload_length: b1 }
}

impl Header {
    /// Creates a header for the given link identifier with payload length 0.
    pub fn new(llid: Llid) -> (r: Header)
        ensures
            r.llid == llid,
            r.payload_length == 0,
    {
        Header { llid, payload_length: 0 }
    }

    /// Replaces the payload length, leaving the link identifier unchanged.
    pub fn set_payload_length(&mut self, len: u8)
        ensures
            final(self).payload_length == len,
            final(self).llid == old(self).llid,
    {
        self.payload_length = len;
    }

    /// Serializes the header into the next two bytes of `w`; fails with
    /// [`Error::Eof`], writing nothing, when fewer than two bytes are free.
    pub fn to_bytes(&self, w: &mut ByteWriter) -> (r: Result<(), Error>)
        requires
            old(w).wf(),
        ensures
            final(w).wf(),
            final(w).cap_spec() == old(w).cap_spec(),
            old(w)@.len() + 2 <= old(w).cap_spec() ==> r == Ok::<(), Error>(())
                && final(w)@ == old(w)@ + encode_spec(*self),
            old(w)@.len() + 2 > old(w).cap_spec() ==> r == Err::<(), Error>(Error::Eof)
                && final(w)@ == old(w)@,
    {
        if w.space_left() < 2 {
            return Err(Error::Eof);
        }
        let r0 = w.write_u8(self.llid.bits());
        let r1 = w.write_u8(self.payload_length);
        proof {
            assert(r0 == Ok::<(), Error>(()) && r1 == Ok::<(), Error>(()));
            assert(w@ =~= old(w)@ + encode_spec(*self));
        }
        Ok(())
    }

    /// Deserializes a header from two raw bytes. Never fails: bits of the
    /// first byte outside the link identifier are ignored, and the length
    /// byte is taken as it stands.
    pub fn parse(raw: &[u8; 2]) -> (r: Header)
        ensures
            r == decode_spec(raw@[0], raw@[1]),
    {
        Header { llid: Llid::from_bits(raw[0]), payload_length: raw[1] }
    }
}

/// The codec round-trips: decoding the two-byte encoding of a header yields
/// that header again, for every header.
pub proof fn lemma_header_roundtrip(h: Header)
    ensures
        decode_spec(encode_spec(h)[0], encode_spec(h)[1]) == h,
{
    lemma_llid_roundtrip(h.llid);
}

} // verus!
