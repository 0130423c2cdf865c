//! The data-link layer. Of the link layers the protocol names, only the
//! IP-transport framing (BVLC) is implemented; it wraps a network PDU in a
//! four-byte header for transport over UDP.
pub mod bacnetip;
