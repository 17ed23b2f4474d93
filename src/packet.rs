use vstd::prelude::*;

verus! {

#[verifier::external_type_specification]
#[verifier::external_body]
pub struct ExOscError(rosc::OscError);

/// The largest datagram handed to the decoder: the receive buffer size, the
/// common Ethernet MTU that rosc also uses. The decoder recurses once per
/// level of bundle nesting with no limit of its own, so the input length is
/// what keeps that depth (and the stack it takes) small.
pub const MAX_DATAGRAM: usize = 1536;

/// What the OSC decoder makes of a datagram: `None` when it is refused,
/// `Some(None)` for a bundle, `Some(Some(address))` for a message.
pub uninterp spec fn osc_decoded(bytes: Seq<u8>) -> Option<Option<Seq<char>>>;

/// A decoded datagram. Arguments and bundle contents are kept only as text,
/// for reporting: nothing in the cue logic reads them.
pub enum Packet {
    Message { address: String, arguments: String },
    Bundle { contents: String },
}

impl Packet {
    /// The address of a message; `None` for a bundle, which has no address.
    pub open spec fn address_view(&self) -> Option<Seq<char>> {
        match self {
            Packet::Message { address, .. } => Some(address@),
            Packet::Bundle { .. } => None,
        }
    }
}

/// A datagram that the OSC decoder refused; the decoder's reason is kept.
#[derive(Debug)]
pub struct DecodeError {
    pub cause: rosc::OscError,
}

/// Relies on `rosc::decoder::decode_udp`: it decodes the datagram as one OSC
/// packet (bytes after the packet are left aside), and the outcome depends on
/// the bytes alone.
#[verifier::external_body]
fn decode_udp(bytes: &[u8]) -> (r: Result<Packet, rosc::OscError>)
    requires
        bytes@.len() <= MAX_DATAGRAM,
    ensures
        match r {
            Ok(p) => osc_decoded(bytes@) == Some(p.address_view()),
            Err(_) => osc_decoded(bytes@) is None,
        },
{
    match rosc::decoder::decode_udp(bytes) {
        Ok((_, rosc::OscPacket::Message(m))) => Ok(
            Packet::Message { address: m.addr, arguments: format!("{:?}", m.args) },
        ),
        Ok((_, rosc::OscPacket::Bundle(b))) => Ok(Packet::Bundle { contents: format!("{:?}", b) }),
        Err(e) => Err(e),
    }
}

/// Decodes one datagram of at most `MAX_DATAGRAM` bytes. A refused datagram
/// is an error value, never a fault.
pub fn decode(bytes: &[u8]) -> (r: Result<Packet, DecodeError>)
    requires
        bytes@.len() <= MAX_DATAGRAM,
    ensures
        match r {
            Ok(p) => osc_decoded(bytes@) == Some(p.address_view()),
            Err(_) => osc_decoded(bytes@) is None,
        },
{
    match decode_udp(bytes) {
        Ok(p) => Ok(p),
        Err(cause) => Err(DecodeError { cause }),
    }
}

} // verus!
