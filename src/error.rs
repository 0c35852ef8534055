//! Why a datagram, or a structure inside it, could not be decoded.
use vstd::prelude::*;

verus! {

#[derive(Clone, Copy, Debug, PartialEq, Eq, Structural)]
pub enum DecodeError {
    /// A decoder needed `required` octets and only `received` were there.
    ShortBuffer { required: usize, received: usize },
    /// The version word is neither 5 nor 10.
    BadVersion(u16),
    /// A declared length does not agree with the octets received.
    LengthMismatch { declared: usize, received: usize },
    /// An IPFIX field refers to an information element that the registry lacks.
    UnknownFieldId(u16),
    /// An IPFIX template or option template whose id is below 256.
    BadTemplateId(u16),
    /// An IPFIX set id in the reserved range.
    BadSetId(u16),
    /// The record count of a NetFlow v5 header disagrees with the datagram size.
    CountMismatch { declared: usize, received: usize },
}

} // verus!
