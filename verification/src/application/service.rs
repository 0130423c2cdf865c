//! The unconfirmed services carried inside an APDU. Only Who-Is (no
//! payload) and I-Am (a fixed structured payload) are functionally coded;
//! the other service kinds are named but carry no codec.
use vstd::prelude::*;

use crate::{Encode, Error};

verus! {

/// A confirmed service. None is decoded, so one is carried only as its
/// raw service choice.
#[derive(Clone, Debug, Eq, PartialEq, Structural)]
pub enum Service {
    Unsupported(u8),
}

/// The twelve unconfirmed service kinds, in service-choice order. Only
/// `IAm` and `WhoIs` decode and encode.
#[derive(Clone, Debug, Eq, PartialEq, Structural)]
pub enum UnconfirmedService {
    IAm(IAm),
    IHave,
    UnconfirmedCovNotification,
    UnconfirmedEventNotification,
    UnconfirmedPrivateTransfer,
    UnconfirmedTextMessage,
    TimeSynchronization,
    WhoHas,
    WhoIs(),
    UtcTimeSynchronization,
    WriteGroup,
    UnconfirmedCovNotificationMultiple,
}

/// The I-Am announcement. Its wire payload is the fixed twelve-byte
/// encoding of a device object identifier, a maximum-APDU length, a
/// segmentation-support value and a vendor id.
#[derive(Clone, Debug, Eq, PartialEq, Structural)]
pub struct IAm {}

/// The fixed I-Am payload: an object-identifier tag and value, a
/// max-APDU tag and value, a segmentation tag and value, and a vendor-id
/// tag and value.
pub open spec fn spec_i_am_payload() -> Seq<u8> {
    seq![196u8, 2u8, 0u8, 2u8, 87u8, 34u8, 4u8, 0u8, 145u8, 0u8, 33u8, 15u8]
}

impl IAm {
    /// Decodes an I-Am payload. The fields are fixed, so nothing is read.
    pub fn decode(_input: &[u8]) -> (r: Result<IAm, Error>)
        ensures
            r == Ok::<IAm, Error>(IAm {}),
    {
        Ok(IAm {})
    }
}

impl Encode for IAm {
    open spec fn encodable(&self) -> bool {
        true
    }

    open spec fn spec_encode(&self) -> Seq<u8> {
        spec_i_am_payload()
    }

    fn encode(&self, buf: &mut Vec<u8>) {
        buf.push(196);
        buf.push(2);
        buf.push(0);
        buf.push(2);
        buf.push(87);
        buf.push(34);
        buf.push(4);
        buf.push(0);
        buf.push(145);
        buf.push(0);
        buf.push(33);
        buf.push(15);
        proof {
            assert(buf@ =~= old(buf)@ + spec_i_am_payload());
        }
    }

    fn len(&self) -> usize {
        12
    }

    fn check_encodable(&self) -> bool {
        true
    }

    fn encode_vec(&self) -> Vec<u8> {
        let mut buf: Vec<u8> = Vec::new();
        self.encode(&mut buf);
        buf
    }
}

/// Decodes an unconfirmed service from its discriminator octet: 0x00 is
/// I-Am, 0x08 is Who-Is, and every other value is an unsupported service
/// error naming the octet.
pub open spec fn spec_decode_service(b: Seq<u8>) -> Result<UnconfirmedService, Error> {
    if b.len() < 1 {
        Err(Error::TruncatedInput)
    } else if b[0] == 0 {
        Ok(UnconfirmedService::IAm(IAm {}))
    } else if b[0] == 8 {
        Ok(UnconfirmedService::WhoIs())
    } else {
        Err(Error::UnsupportedService(b[0]))
    }
}

impl UnconfirmedService {
    /// Decodes an unconfirmed service: one discriminator octet, then the
    /// service payload.
    pub fn decode(input: &[u8]) -> (r: Result<UnconfirmedService, Error>)
        ensures
            r == spec_decode_service(input@),
    {
        if input.len() < 1 {
            return Err(Error::TruncatedInput);
        }
        let code = input[0];
        match code {
            0x00 => {
                let rest = vstd::slice::slice_subrange(input, 1, input.len());
                match IAm::decode(rest) {
                    Ok(i_am) => Ok(UnconfirmedService::IAm(i_am)),
                    Err(e) => Err(e),
                }
            },
            0x08 => Ok(UnconfirmedService::WhoIs()),
            _ => Err(Error::UnsupportedService(code)),
        }
    }
}

impl Encode for UnconfirmedService {
    /// Only the two functionally coded services have an encoding.
    open spec fn encodable(&self) -> bool {
        match self {
            UnconfirmedService::IAm(a) => a.encodable(),
            UnconfirmedService::WhoIs() => true,
            _ => false,
        }
    }

    /// The service payload alone; the discriminator octet travels as the
    /// APDU's service choice.
    open spec fn spec_encode(&self) -> Seq<u8> {
        match self {
            UnconfirmedService::IAm(a) => a.spec_encode(),
            _ => Seq::empty(),
        }
    }

    fn encode(&self, buf: &mut Vec<u8>) {
        match self {
            UnconfirmedService::IAm(a) => a.encode(buf),
            UnconfirmedService::WhoIs() => {
                proof {
                    assert(buf@ =~= old(buf)@ + self.spec_encode());
                }
            },
            _ => {
                proof {
                    assert(false);
                }
            },
        }
    }

    fn len(&self) -> usize {
        match self {
            UnconfirmedService::IAm(a) => a.len(),
            UnconfirmedService::WhoIs() => 0,
            _ => {
                proof {
                    assert(false);
                }
                0
            },
        }
    }

    fn check_encodable(&self) -> bool {
        match self {
            UnconfirmedService::IAm(_) => true,
            UnconfirmedService::WhoIs() => true,
            _ => false,
        }
    }

    fn encode_vec(&self) -> Vec<u8> {
        let mut buf: Vec<u8> = Vec::new();
        self.encode(&mut buf);
        buf
    }
}

} // verus!
