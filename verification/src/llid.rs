use vstd::prelude::*;

verus! {

/// Logical link identifier carried in a data-channel PDU header.
///
/// The tag names the logical channel of the payload; the queue does not
/// interpret it, only its fixed two-bit encoding in the header.
#[derive(Debug, Clone, Copy, PartialEq, Eq, Structural)]
pub enum Llid {
    /// Reserved value (bit pattern 0b00).
    Reserved,
    /// Continuation of an L2CAP message, or an empty PDU (0b01).
    DataCont,
    /// Start of an L2CAP message (0b10).
    DataStart,
    /// LL control PDU (0b11).
    Control,
}

/// The two-bit wire encoding of a link identifier.
pub open spec fn llid_bits(l: Llid) -> u8 {
    match l {
        Llid::Reserved => 0,
        Llid::DataCont => 1,
        Llid::DataStart => 2,
        Llid::Control => 3,
    }
}

/// The link identifier encoded in the low two bits of a raw header byte.
/// Every byte decodes to some identifier: the codec has no failure path.
pub open spec fn llid_from_bits(b: u8) -> Llid {
    if b & 0b11 == 0 {
        Llid::Reserved
    } else if b & 0b11 == 1 {
        Llid::DataCont
    } else if b & 0b11 == 2 {
        Llid::DataStart
    } else {
        Llid::Control
    }
}

impl Llid {
    /// The two-bit encoding of this identifier.
    pub fn bits(&self) -> (r: u8)
        ensures
            r == llid_bits(*self),
    {
        match self {
            Llid::Reserved => 0,
            Llid::DataCont => 1,
            Llid::DataStart => 2,
            Llid::Control => 3,
        }
    }

    /// Decodes the low two bits of a raw header byte; other bits are ignored.
    pub fn from_bits(b: u8) -> (r: Llid)
        ensures
            r == llid_from_bits(b),
    {
        let m = b & 0b11;
        if m == 0 {
            Llid::Reserved
        } else if m == 1 {
            Llid::DataCont
        } else if m == 2 {
            Llid::DataStart
        } else {
            Llid::Control
        }
    }
}

/// Decoding inverts encoding: the two-bit pattern of a link identifier
/// decodes back to the same identifier.
pub proof fn lemma_llid_roundtrip(l: Llid)
    ensures
        llid_from_bits(llid_bits(l)) == l,
{
    assert(0u8 & 0b11 == 0) by (bit_vector);
    assert(1u8 & 0b11 == 1) by (bit_vector);
    assert(2u8 & 0b11 == 2) by (bit_vector);
    assert(3u8 & 0b11 == 3) by (bit_vector);
}

} // verus!
