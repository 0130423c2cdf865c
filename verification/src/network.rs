//! The network layer: the NPDU's control octet, the optional destination
//! and source address records with the trailing hop count, and the embedded
//! APDU or network-layer control message.
//!
//! The control octet holds the priority in bits 0 and 1, data-expecting-
//! reply on bit 2, source presence on bit 3, destination presence on bit 5
//! and message (rather than APDU) content on bit 7. The hop count travels
//! after the source block although it belongs to the destination record.
use vstd::prelude::*;

use crate::application::{spec_decode_apdu, ApduModel, APDU};
use crate::{put_bytes, put_u16_be, read_u16_be, spec_be16, spec_be16_bytes};
use crate::{Encode, Error};

verus! {

/// Network message priority, the two-bit field of the control octet.
#[derive(Copy, Clone, Debug, Eq, PartialEq, Structural)]
pub enum NPDUPriority {
    LifeSafety,
    CriticalEquipment,
    Urgent,
    Normal,
}

impl NPDUPriority {
    /// The two control bits of a priority level.
    pub open spec fn spec_as_u8(self) -> u8 {
        match self {
            NPDUPriority::LifeSafety => 3,
            NPDUPriority::CriticalEquipment => 2,
            NPDUPriority::Urgent => 1,
            NPDUPriority::Normal => 0,
        }
    }

    /// The priority level that two control bits select.
    pub open spec fn spec_from_bits(v: u8) -> NPDUPriority
        recommends
            v <= 3,
    {
        if v == 3 {
            NPDUPriority::LifeSafety
        } else if v == 2 {
            NPDUPriority::CriticalEquipment
        } else if v == 1 {
            NPDUPriority::Urgent
        } else {
            NPDUPriority::Normal
        }
    }

    /// The two control bits of this priority level.
    pub fn as_u8(self) -> (r: u8)
        ensures
            r == self.spec_as_u8(),
    {
        match self {
            NPDUPriority::LifeSafety => 3,
            NPDUPriority::CriticalEquipment => 2,
            NPDUPriority::Urgent => 1,
            NPDUPriority::Normal => 0,
        }
    }

    /// The priority level of a two-bit code; codes above 3 select none.
    pub fn from_u8(v: u8) -> (r: Option<NPDUPriority>)
        ensures
            v <= 3 ==> r == Some(NPDUPriority::spec_from_bits(v)),
            v > 3 ==> r is None,
    {
        match v {
            3 => Some(NPDUPriority::LifeSafety),
            2 => Some(NPDUPriority::CriticalEquipment),
            1 => Some(NPDUPriority::Urgent),
            0 => Some(NPDUPriority::Normal),
            _ => None,
        }
    }

    /// A priority's own bits select it back.
    pub proof fn lemma_bits_round_trip(self)
        ensures
            NPDUPriority::spec_from_bits(self.spec_as_u8()) == self,
    {
    }
}

impl Default for NPDUPriority {
    /// The default priority is Normal.
    fn default() -> (r: Self)
        ensures
            r == NPDUPriority::Normal,
    {
        NPDUPriority::Normal
    }
}

/// The network-layer message kinds, in code order, with the vendor range
/// and the range reserved by ASHRAE. Only `WhoIsRouterToNetwork` and the
/// vendor range are resolved from a code; none has an encoding.
#[derive(Clone, Debug, Eq, PartialEq, Structural)]
pub enum NPDUMessage {
    WhoIsRouterToNetwork,
    IAmRouterToNetwork,
    ICouldBeRouterToNetwork,
    RejectMessageToNetwork,
    RouterBusyToNetwork,
    RouterAvailableToNetwork,
    InitializeRoutingTable,
    InitializeRoutingTableAck,
    EstablishConnectionToNetwork,
    DisconnectConnectionToNetwork,
    ChallengeRequest,
    SecurityPayload,
    SecurityResponse,
    RequestKeyUpdate,
    UpdateKeySet,
    UpdateDistributionKey,
    RequestMasterKey,
    SetMasterKey,
    WhatIsNetworkNumber,
    NetworkNumberIs,
    Proprietary(u8),
    Reserved(u8),
}

impl NPDUMessage {
    /// The message kind a code selects: 0 is Who-Is-Router-To-Network,
    /// 0x80 and above are vendor proprietary, and every other code is an
    /// unsupported function error naming the code.
    pub open spec fn spec_try_from_u8(v: u8) -> Result<NPDUMessage, Error> {
        if v == 0 {
            Ok(NPDUMessage::WhoIsRouterToNetwork)
        } else if v >= 0x80 {
            Ok(NPDUMessage::Proprietary(v))
        } else {
            Err(Error::UnsupportedFunction(v))
        }
    }

    /// Resolves a message code.
    pub fn try_from_u8(v: u8) -> (r: Result<NPDUMessage, Error>)
        ensures
            r == NPDUMessage::spec_try_from_u8(v),
    {
        if v == 0 {
            Ok(NPDUMessage::WhoIsRouterToNetwork)
        } else if v >= 0x80 {
            Ok(NPDUMessage::Proprietary(v))
        } else {
            Err(Error::UnsupportedFunction(v))
        }
    }
}

impl Encode for NPDUMessage {
    /// No network-layer message has an encoding.
    open spec fn encodable(&self) -> bool {
        false
    }

    open spec fn spec_encode(&self) -> Seq<u8> {
        Seq::empty()
    }

    fn encode(&self, buf: &mut Vec<u8>) {
        proof {
            assert(false);
        }
    }

    fn len(&self) -> usize {
        proof {
            assert(false);
        }
        0
    }

    fn check_encodable(&self) -> bool {
        false
    }

    fn encode_vec(&self) -> Vec<u8> {
        proof {
            assert(false);
        }
        Vec::new()
    }
}

/// A destination address record: network number, address octets, and the
/// hop count that travels at the end of the address blocks.
#[derive(Clone, Debug, Eq, PartialEq)]
pub struct NPDUDest {
    pub net: u16,
    pub adr: Vec<u8>,
    pub hops: u8,
}

/// The mathematical value of an [`NPDUDest`].
pub struct DestModel {
    pub net: u16,
    pub adr: Seq<u8>,
    pub hops: u8,
}

impl View for NPDUDest {
    type V = DestModel;

    open spec fn view(&self) -> DestModel {
        DestModel { net: self.net, adr: self.adr@, hops: self.hops }
    }
}

impl NPDUDest {
    /// A destination for `net` with an empty address of the given
    /// capacity and the initial hop count, 255.
    pub fn new(net: u16, capacity: usize) -> (r: NPDUDest)
        ensures
            r.net == net,
            r.adr@ == Seq::<u8>::empty(),
            r.hops == 255,
    {
        NPDUDest { net, adr: Vec::with_capacity(capacity), hops: 255 }
    }
}

/// A source address record: network number and address octets.
#[derive(Clone, Debug, Eq, PartialEq)]
pub struct NPDUSource {
    pub net: u16,
    pub adr: Vec<u8>,
}

/// The mathematical value of an [`NPDUSource`].
pub struct SourceModel {
    pub net: u16,
    pub adr: Seq<u8>,
}

impl View for NPDUSource {
    type V = SourceModel;

    open spec fn view(&self) -> SourceModel {
        SourceModel { net: self.net, adr: self.adr@ }
    }
}

impl NPDUSource {
    /// A source for `net` with an empty address of the given capacity.
    pub fn new(net: u16, capacity: usize) -> (r: NPDUSource)
        ensures
            r.net == net,
            r.adr@ == Seq::<u8>::empty(),
    {
        NPDUSource { net, adr: Vec::with_capacity(capacity) }
    }
}

/// What an NPDU carries: an embedded APDU, or a network-layer control
/// message.
#[derive(Clone, Debug, Eq, PartialEq)]
pub enum NPDUContent<A: Encode = APDU, B: Encode = NPDUMessage> {
    APDU(A),
    Message(B),
}

impl<A: Encode, B: Encode> Encode for NPDUContent<A, B> {
    open spec fn encodable(&self) -> bool {
        match self {
            NPDUContent::APDU(a) => a.encodable(),
            NPDUContent::Message(m) => m.encodable(),
        }
    }

    open spec fn spec_encode(&self) -> Seq<u8> {
        match self {
            NPDUContent::APDU(a) => a.spec_encode(),
            NPDUContent::Message(m) => m.spec_encode(),
        }
    }

    fn encode(&self, buf: &mut Vec<u8>) {
        match self {
            NPDUContent::APDU(a) => a.encode(buf),
            NPDUContent::Message(m) => m.encode(buf),
        }
    }

    fn len(&self) -> usize {
        match self {
            NPDUContent::APDU(a) => a.len(),
            NPDUContent::Message(m) => m.len(),
        }
    }

    fn check_encodable(&self) -> bool {
        match self {
            NPDUContent::APDU(a) => a.check_encodable(),
            NPDUContent::Message(m) => m.check_encodable(),
        }
    }

    fn encode_vec(&self) -> Vec<u8> {
        let mut buf: Vec<u8> = Vec::new();
        self.encode(&mut buf);
        buf
    }
}

/// A network PDU: protocol version, the optional destination and source
/// records, the reply flag, the priority, and the embedded content.
#[derive(Clone, Debug, Eq, PartialEq)]
pub struct NPDU<A: Encode = APDU, B: Encode = NPDUMessage> {
    pub version: u8,
    pub destination: Option<NPDUDest>,
    pub source: Option<NPDUSource>,
    pub data_expecting_reply: bool,
    pub priority: NPDUPriority,
    pub content: NPDUContent<A, B>,
}

impl<A: Encode, B: Encode> NPDU<A, B> {
    /// An NPDU of protocol version 1 around the given content, not
    /// expecting a reply.
    pub fn new(
        content: NPDUContent<A, B>,
        destination: Option<NPDUDest>,
        source: Option<NPDUSource>,
        priority: NPDUPriority,
    ) -> (r: NPDU<A, B>)
        ensures
            r.version == 1,
            r.content == content,
            r.destination == destination,
            r.source == source,
            r.data_expecting_reply == false,
            r.priority == priority,
    {
        NPDU { version: 1, destination, source, data_expecting_reply: false, priority, content }
    }
}

/// The control octet an NPDU's field presence determines: priority bits,
/// reply flag on bit 2, source presence on bit 3, destination presence on
/// bit 5, message content on bit 7.
pub open spec fn spec_control_octet(
    priority: NPDUPriority,
    data_expecting_reply: bool,
    has_source: bool,
    has_destination: bool,
    has_message: bool,
) -> u8 {
    (priority.spec_as_u8() as int + (if data_expecting_reply {
        4int
    } else {
        0
    }) + (if has_source {
        8int
    } else {
        0
    }) + (if has_destination {
        32int
    } else {
        0
    }) + (if has_message {
        128int
    } else {
        0
    })) as u8
}

/// The destination block: network number, address length, address octets.
pub open spec fn spec_dest_bytes(destination: Option<NPDUDest>) -> Seq<u8> {
    match destination {
        Some(d) => spec_be16_bytes(d.net) + seq![d.adr@.len() as u8] + d.adr@,
        None => Seq::empty(),
    }
}

/// The source block: network number, address length, address octets.
pub open spec fn spec_source_bytes(source: Option<NPDUSource>) -> Seq<u8> {
    match source {
        Some(s) => spec_be16_bytes(s.net) + seq![s.adr@.len() as u8] + s.adr@,
        None => Seq::empty(),
    }
}

/// The hop-count octet, present exactly when a destination is.
pub open spec fn spec_hops_bytes(destination: Option<NPDUDest>) -> Seq<u8> {
    match destination {
        Some(d) => seq![d.hops],
        None => Seq::empty(),
    }
}

impl<A: Encode, B: Encode> Encode for NPDU<A, B> {
    /// An NPDU has an encoding when its content has one, each address fits
    /// its one-byte length field, and the whole fits the machine.
    open spec fn encodable(&self) -> bool {
        &&& self.content.encodable()
        &&& (self.destination matches Some(d) ==> d.adr@.len() <= 255)
        &&& (self.source matches Some(s) ==> s.adr@.len() <= 255)
        &&& self.spec_encode().len() <= usize::MAX
    }

    /// `[version][control][dest block][source block][hops][content...]`,
    /// with the control octet computed from field presence.
    open spec fn spec_encode(&self) -> Seq<u8> {
        seq![
            self.version,
            spec_control_octet(
                self.priority,
                self.data_expecting_reply,
                self.source is Some,
                self.destination is Some,
                self.content is Message,
            ),
        ] + spec_dest_bytes(self.destination) + spec_source_bytes(self.source) + spec_hops_bytes(
            self.destination,
        ) + self.content.spec_encode()
    }

    fn encode(&self, buf: &mut Vec<u8>) {
        buf.push(self.version);
        let mut control: u8 = self.priority.as_u8();
        if self.data_expecting_reply {
            control = control + 4;
        }
        if self.source.is_some() {
            control = control + 8;
        }
        if self.destination.is_some() {
            control = control + 32;
        }
        let has_message = match &self.content {
            NPDUContent::Message(_) => true,
            NPDUContent::APDU(_) => false,
        };
        if has_message {
            control = control + 128;
        }
        buf.push(control);
        match &self.destination {
            Some(d) => {
                put_u16_be(buf, d.net);
                buf.push(d.adr.len() as u8);
                put_bytes(buf, d.adr.as_slice());
            },
            None => {},
        }
        match &self.source {
            Some(s) => {
                put_u16_be(buf, s.net);
                buf.push(s.adr.len() as u8);
                put_bytes(buf, s.adr.as_slice());
            },
            None => {},
        }
        match &self.destination {
            Some(d) => {
                buf.push(d.hops);
            },
            None => {},
        }
        self.content.encode(buf);
        proof {
            assert(buf@ =~= old(buf)@ + self.spec_encode());
        }
    }

    fn len(&self) -> usize {
        proof {
            assert(self.spec_encode().len() == 2 + spec_dest_bytes(self.destination).len()
                + spec_source_bytes(self.source).len() + spec_hops_bytes(self.destination).len()
                + self.content.spec_encode().len());
        }
        let mut l: usize = 2;
        match &self.destination {
            Some(d) => {
                l = l + 2 + 1 + d.adr.len() + 1;
            },
            None => {},
        }
        match &self.source {
            Some(s) => {
                l = l + 2 + 1 + s.adr.len();
            },
            None => {},
        }
        l + self.content.len()
    }

    fn check_encodable(&self) -> bool {
        let content_ok = self.content.check_encodable();
        let dest_ok = match &self.destination {
            Some(d) => d.adr.len() <= 255,
            None => true,
        };
        let source_ok = match &self.source {
            Some(s) => s.adr.len() <= 255,
            None => true,
        };
        if !(content_ok && dest_ok && source_ok) {
            return false;
        }
        let mut header: usize = 2;
        match &self.destination {
            Some(d) => {
                header = header + 2 + 1 + d.adr.len() + 1;
            },
            None => {},
        }
        match &self.source {
            Some(s) => {
                header = header + 2 + 1 + s.adr.len();
            },
            None => {},
        }
        let fits = self.content.len() <= usize::MAX - header;
        proof {
            assert(self.spec_encode().len() == header + self.content.spec_encode().len());
        }
        fits
    }

    fn encode_vec(&self) -> Vec<u8> {
        let mut buf: Vec<u8> = Vec::new();
        self.encode(&mut buf);
        buf
    }
}

/// The mathematical value of an NPDU's content.
pub enum NpduContentModel {
    Apdu(ApduModel),
    Message(NPDUMessage),
}

/// The mathematical value of an [`NPDU`] over [`APDU`] content.
pub struct NpduModel {
    pub version: u8,
    pub destination: Option<DestModel>,
    pub source: Option<SourceModel>,
    pub data_expecting_reply: bool,
    pub priority: NPDUPriority,
    pub content: NpduContentModel,
}

impl View for NPDU<APDU, NPDUMessage> {
    type V = NpduModel;

    open spec fn view(&self) -> NpduModel {
        NpduModel {
            version: self.version,
            destination: match self.destination {
                Some(d) => Some(d@),
                None => None,
            },
            source: match self.source {
                Some(s) => Some(s@),
                None => None,
            },
            data_expecting_reply: self.data_expecting_reply,
            priority: self.priority,
            content: match &self.content {
                NPDUContent::APDU(a) => NpduContentModel::Apdu(a@),
                NPDUContent::Message(m) => NpduContentModel::Message(*m),
            },
        }
    }
}

/// Decodes one optional address block at offset `i`: two network-number
/// octets, a length octet, and that many address octets. An absent block
/// consumes nothing.
pub open spec fn spec_decode_addr(b: Seq<u8>, i: int, present: bool) -> Result<
    (Option<(u16, Seq<u8>)>, int),
    Error,
> {
    if !present {
        Ok((None, i))
    } else if b.len() < i + 3 {
        Err(Error::TruncatedInput)
    } else {
        let net = spec_be16(b[i], b[i + 1]);
        let alen = b[i + 2];
        if b.len() < i + 3 + alen {
            Err(Error::MalformedLength)
        } else {
            Ok((Some((net, b.subrange(i + 3, i + 3 + alen))), i + 3 + alen))
        }
    }
}

/// Decodes the content after the address blocks: one message code when the
/// control octet announced a network-layer message, else an embedded APDU
/// out of every remaining byte.
pub open spec fn spec_decode_npdu_content(
    b: Seq<u8>,
    at: int,
    version: u8,
    destination: Option<DestModel>,
    source: Option<SourceModel>,
    data_expecting_reply: bool,
    priority: NPDUPriority,
    has_message: bool,
) -> Result<NpduModel, Error> {
    if has_message {
        if b.len() < at + 1 {
            Err(Error::TruncatedInput)
        } else {
            match NPDUMessage::spec_try_from_u8(b[at]) {
                Err(e) => Err(e),
                Ok(m) => Ok(
                    NpduModel {
                        version,
                        destination,
                        source,
                        data_expecting_reply,
                        priority,
                        content: NpduContentModel::Message(m),
                    },
                ),
            }
        }
    } else {
        match spec_decode_apdu(b.skip(at)) {
            Err(e) => Err(e),
            Ok(am) => Ok(
                NpduModel {
                    version,
                    destination,
                    source,
                    data_expecting_reply,
                    priority,
                    content: NpduContentModel::Apdu(am),
                },
            ),
        }
    }
}

/// Decodes an NPDU: version, control octet, the address blocks the control
/// bits announce, the hop count when a destination is present, then the
/// content.
pub open spec fn spec_decode_npdu(b: Seq<u8>) -> Result<NpduModel, Error> {
    if b.len() < 2 {
        Err(Error::TruncatedInput)
    } else {
        let version = b[0];
        let control = b[1];
        let priority = NPDUPriority::spec_from_bits(control % 4);
        let data_expecting_reply = (control / 4) % 2 == 1;
        let has_source = (control / 8) % 2 == 1;
        let has_destination = (control / 32) % 2 == 1;
        let has_message = (control / 128) % 2 == 1;
        match spec_decode_addr(b, 2, has_destination) {
            Err(e) => Err(e),
            Ok((dest_parts, i)) => match spec_decode_addr(b, i, has_source) {
                Err(e) => Err(e),
                Ok((src_parts, j)) => {
                    let source = match src_parts {
                        Some((net, adr)) => Some(SourceModel { net, adr }),
                        None => None,
                    };
                    if has_destination {
                        if b.len() < j + 1 {
                            Err(Error::TruncatedInput)
                        } else {
                            let destination = match dest_parts {
                                Some((net, adr)) => Some(DestModel { net, adr, hops: b[j] }),
                                None => None,
                            };
                            spec_decode_npdu_content(
                                b,
                                j + 1,
                                version,
                                destination,
                                source,
                                data_expecting_reply,
                                priority,
                                has_message,
                            )
                        }
                    } else {
                        spec_decode_npdu_content(
                            b,
                            j,
                            version,
                            None,
                            source,
                            data_expecting_reply,
                            priority,
                            has_message,
                        )
                    }
                },
            },
        }
    }
}

/// Reads one optional address block at offset `i`.
fn decode_addr(input: &[u8], i: usize, present: bool) -> (r: Result<
    (Option<(u16, Vec<u8>)>, usize),
    Error,
>)
    requires
        i <= input@.len(),
    ensures
        match r {
            Ok((parts, j)) => {
                &&& spec_decode_addr(input@, i as int, present) == Ok::<_, Error>(
                    (
                        match parts {
                            Some((net, adr)) => Some((net, adr@)),
                            None => None::<(u16, Seq<u8>)>,
                        },
                        j as int,
                    ),
                )
                &&& i <= j <= input@.len()
                &&& (parts is Some <==> present)
            },
            Err(e) => spec_decode_addr(input@, i as int, present) == Err::<
                (Option<(u16, Seq<u8>)>, int),
                _,
            >(e),
        },
{
    if !present {
        return Ok((None, i));
    }
    if input.len() - i < 3 {
        return Err(Error::TruncatedInput);
    }
    let net = read_u16_be(input[i], input[i + 1]);
    let alen = input[i + 2];
    if alen as usize > input.len() - (i + 3) {
        return Err(Error::MalformedLength);
    }
    let adr_slice = vstd::slice::slice_subrange(input, i + 3, i + 3 + alen as usize);
    let adr = vstd::slice::slice_to_vec(adr_slice);
    Ok((Some((net, adr)), i + 3 + alen as usize))
}

impl NPDU<APDU, NPDUMessage> {
    /// Decodes an NPDU from the whole of `input`; an embedded APDU takes
    /// every byte after the address blocks.
    pub fn decode(input: &[u8]) -> (r: Result<NPDU<APDU, NPDUMessage>, Error>)
        ensures
            match r {
                Ok(n) => spec_decode_npdu(input@) == Ok::<_, Error>(n@),
                Err(e) => spec_decode_npdu(input@) == Err::<NpduModel, _>(e),
            },
    {
        if input.len() < 2 {
            return Err(Error::TruncatedInput);
        }
        let version = input[0];
        let control = input[1];
        let priority = match NPDUPriority::from_u8(control % 4) {
            Some(p) => p,
            None => {
                proof {
                    assert(false);
                }
                NPDUPriority::Normal
            },
        };
        let data_expecting_reply = (control / 4) % 2 == 1;
        let has_source = (control / 8) % 2 == 1;
        let has_destination = (control / 32) % 2 == 1;
        let has_message = (control / 128) % 2 == 1;
        let (dest_parts, i) = match decode_addr(input, 2, has_destination) {
            Ok(x) => x,
            Err(e) => {
                return Err(e);
            },
        };
        let (src_parts, j) = match decode_addr(input, i, has_source) {
            Ok(x) => x,
            Err(e) => {
                return Err(e);
            },
        };
        let source: Option<NPDUSource> = match src_parts {
            Some((net, adr)) => Some(NPDUSource { net, adr }),
            None => None,
        };
        let destination: Option<NPDUDest>;
        let after: usize;
        match dest_parts {
            Some((net, adr)) => {
                if j >= input.len() {
                    return Err(Error::TruncatedInput);
                }
                destination = Some(NPDUDest { net, adr, hops: input[j] });
                after = j + 1;
            },
            None => {
                destination = None;
                after = j;
            },
        }
        if has_message {
            if after >= input.len() {
                return Err(Error::TruncatedInput);
            }
            let m = match NPDUMessage::try_from_u8(input[after]) {
                Ok(m) => m,
                Err(e) => {
                    return Err(e);
                },
            };
            Ok(
                NPDU {
                    version,
                    destination,
                    source,
                    data_expecting_reply,
                    priority,
                    content: NPDUContent::Message(m),
                },
            )
        } else {
            let rest = vstd::slice::slice_subrange(input, after, input.len());
            proof {
                assert(rest@ =~= input@.skip(after as int));
            }
            let apdu = match APDU::decode(rest) {
                Ok(a) => a,
                Err(e) => {
                    return Err(e);
                },
            };
            Ok(
                NPDU {
                    version,
                    destination,
                    source,
                    data_expecting_reply,
                    priority,
                    content: NPDUContent::APDU(apdu),
                },
            )
        }
    }
}

/// The five fields packed into the control octet come back out of the
/// divisions that the decoder uses.
proof fn lemma_control_octet_fields(p: u8, d: u8, s: u8, t: u8, m: u8)
    requires
        p <= 3,
        d <= 1,
        s <= 1,
        t <= 1,
        m <= 1,
    ensures
        p + d * 4 + s * 8 + t * 32 + m * 128 <= 255,
        ((p + d * 4 + s * 8 + t * 32 + m * 128) as u8) % 4 == p,
        (((p + d * 4 + s * 8 + t * 32 + m * 128) as u8) / 4) % 2 == d,
        (((p + d * 4 + s * 8 + t * 32 + m * 128) as u8) / 8) % 2 == s,
        (((p + d * 4 + s * 8 + t * 32 + m * 128) as u8) / 32) % 2 == t,
        (((p + d * 4 + s * 8 + t * 32 + m * 128) as u8) / 128) % 2 == m,
{
    assert(p + d * 4 + s * 8 + t * 32 + m * 128 <= 255 && ((p + d * 4 + s * 8 + t * 32 + m * 128)
        as u8) % 4 == p && (((p + d * 4 + s * 8 + t * 32 + m * 128) as u8) / 4) % 2 == d && (((p + d
        * 4 + s * 8 + t * 32 + m * 128) as u8) / 8) % 2 == s && (((p + d * 4 + s * 8 + t * 32 + m
        * 128) as u8) / 32) % 2 == t && (((p + d * 4 + s * 8 + t * 32 + m * 128) as u8) / 128) % 2
        == m) by (bit_vector)
        requires
            p <= 3,
            d <= 1,
            s <= 1,
            t <= 1,
            m <= 1,
    ;
}

/// An address block written at offset `i` decodes back to its network
/// number and address octets, and consumes exactly itself.
proof fn lemma_decode_addr_at(prefix: Seq<u8>, net: u16, adr: Seq<u8>, suffix: Seq<u8>)
    requires
        adr.len() <= 255,
    ensures
        ({
            let b = prefix + (spec_be16_bytes(net) + seq![adr.len() as u8] + adr) + suffix;
            spec_decode_addr(b, prefix.len() as int, true) == Ok::<_, Error>(
                (Some((net, adr)), prefix.len() + 3 + adr.len() as int),
            )
        }),
{
    let i = prefix.len() as int;
    let block = spec_be16_bytes(net) + seq![adr.len() as u8] + adr;
    let b = prefix + block + suffix;
    assert(b[i] == spec_be16_bytes(net)[0]);
    assert(b[i + 1] == spec_be16_bytes(net)[1]);
    assert(b[i + 2] == adr.len() as u8);
    crate::lemma_be16_round_trip(net);
    assert(b.subrange(i + 3, i + 3 + adr.len()) =~= adr);
}

/// Field-presence agreement, encoding side: in an encoded NPDU the control
/// octet's source and destination bits are set exactly when the fields are
/// present, and with no destination, no source, normal priority, no reply
/// expected and APDU content the control octet is zero.
pub proof fn lemma_npdu_field_presence(n: NPDU<APDU, NPDUMessage>)
    requires
        n.encodable(),
    ensures
        (n.spec_encode()[1] / 8) % 2 == 1 <==> n.source is Some,
        (n.spec_encode()[1] / 32) % 2 == 1 <==> n.destination is Some,
        (n.destination is None && n.source is None && n.priority == NPDUPriority::Normal
            && !n.data_expecting_reply && n.content is APDU) ==> n.spec_encode()[1] == 0,
{
    let p = n.priority.spec_as_u8();
    let d: u8 = if n.data_expecting_reply {
        1
    } else {
        0
    };
    let s: u8 = if n.source is Some {
        1
    } else {
        0
    };
    let t: u8 = if n.destination is Some {
        1
    } else {
        0
    };
    let m: u8 = if n.content is Message {
        1
    } else {
        0
    };
    lemma_control_octet_fields(p, d, s, t, m);
    assert(n.spec_encode()[1] == spec_control_octet(
        n.priority,
        n.data_expecting_reply,
        n.source is Some,
        n.destination is Some,
        n.content is Message,
    ));
}

/// Assembles the round-trip of an NPDU from the decode steps: once the
/// control bits, the two address blocks, the hop count and the content
/// bytes of its encoding are known to decode right, the whole does.
proof fn lemma_npdu_assemble(n: NPDU<APDU, NPDUMessage>, b: Seq<u8>, i: int, j: int)
    requires
        n.encodable(),
        n.content matches NPDUContent::APDU(a) && a.apdu_type < 16,
        b == n.spec_encode(),
        b.len() >= 2,
        b[0] == n.version,
        NPDUPriority::spec_from_bits(b[1] % 4) == n.priority,
        ((b[1] / 4) % 2 == 1) == n.data_expecting_reply,
        ((b[1] / 8) % 2 == 1) == (n.source is Some),
        ((b[1] / 32) % 2 == 1) == (n.destination is Some),
        (b[1] / 128) % 2 != 1,
        spec_decode_addr(b, 2, n.destination is Some) == Ok::<_, Error>(
            (
                match n.destination {
                    Some(d) => Some((d.net, d.adr@)),
                    None => None::<(u16, Seq<u8>)>,
                },
                i,
            ),
        ),
        spec_decode_addr(b, i, n.source is Some) == Ok::<_, Error>(
            (
                match n.source {
                    Some(s) => Some((s.net, s.adr@)),
                    None => None::<(u16, Seq<u8>)>,
                },
                j,
            ),
        ),
        n.destination matches Some(d) ==> j + 1 <= b.len() && b[j] == d.hops,
        b.skip(
            if n.destination is Some {
                j + 1
            } else {
                j
            },
        ) == n.content.spec_encode(),
    ensures
        spec_decode_npdu(b) == Ok::<_, Error>(n@),
{
    let after: int = if n.destination is Some {
        j + 1
    } else {
        j
    };
    match &n.content {
        NPDUContent::APDU(a) => {
            crate::application::lemma_apdu_round_trip(*a);
            assert(spec_decode_apdu(b.skip(after)) == Ok::<_, Error>(a@));
        },
        NPDUContent::Message(_) => {
            assert(false);
        },
    }
}

/// Header facts of an encoded NPDU: the version octet, and each field the
/// decoder extracts from the control octet.
proof fn lemma_npdu_header_facts(n: NPDU<APDU, NPDUMessage>)
    requires
        n.encodable(),
    ensures
        ({
            let b = n.spec_encode();
            &&& b.len() >= 2
            &&& b[0] == n.version
            &&& NPDUPriority::spec_from_bits(b[1] % 4) == n.priority
            &&& ((b[1] / 4) % 2 == 1) == n.data_expecting_reply
            &&& ((b[1] / 8) % 2 == 1) == (n.source is Some)
            &&& ((b[1] / 32) % 2 == 1) == (n.destination is Some)
            &&& ((b[1] / 128) % 2 == 1) == (n.content is Message)
        }),
{
    let b = n.spec_encode();
    let p = n.priority.spec_as_u8();
    let d: u8 = if n.data_expecting_reply {
        1
    } else {
        0
    };
    let s: u8 = if n.source is Some {
        1
    } else {
        0
    };
    let t: u8 = if n.destination is Some {
        1
    } else {
        0
    };
    let m: u8 = if n.content is Message {
        1
    } else {
        0
    };
    lemma_control_octet_fields(p, d, s, t, m);
    n.priority.lemma_bits_round_trip();
    assert(b[1] == spec_control_octet(
        n.priority,
        n.data_expecting_reply,
        n.source is Some,
        n.destination is Some,
        n.content is Message,
    ));
}

/// The destination block of an encoded NPDU decodes back to the record
/// that was encoded.
proof fn lemma_npdu_dest_decode(n: NPDU<APDU, NPDUMessage>)
    requires
        n.encodable(),
    ensures
        ({
            let b = n.spec_encode();
            spec_decode_addr(b, 2, n.destination is Some) == Ok::<_, Error>(
                (
                    match n.destination {
                        Some(d) => Some((d.net, d.adr@)),
                        None => None::<(u16, Seq<u8>)>,
                    },
                    2 + spec_dest_bytes(n.destination).len() as int,
                ),
            )
        }),
{
    let b = n.spec_encode();
    let control = spec_control_octet(
        n.priority,
        n.data_expecting_reply,
        n.source is Some,
        n.destination is Some,
        n.content is Message,
    );
    let head = seq![n.version, control];
    let sb = spec_source_bytes(n.source);
    let hb = spec_hops_bytes(n.destination);
    let cb = n.content.spec_encode();
    match n.destination {
        Some(dst) => {
            lemma_decode_addr_at(head, dst.net, dst.adr@, sb + hb + cb);
            assert(head + (spec_be16_bytes(dst.net) + seq![dst.adr@.len() as u8] + dst.adr@) + (sb
                + hb + cb) =~= b);
        },
        None => {},
    }
}

/// The source block of an encoded NPDU decodes back to the record that was
/// encoded.
proof fn lemma_npdu_source_decode(n: NPDU<APDU, NPDUMessage>)
    requires
        n.encodable(),
    ensures
        ({
            let b = n.spec_encode();
            let i = 2 + spec_dest_bytes(n.destination).len() as int;
            spec_decode_addr(b, i, n.source is Some) == Ok::<_, Error>(
                (
                    match n.source {
                        Some(s) => Some((s.net, s.adr@)),
                        None => None::<(u16, Seq<u8>)>,
                    },
                    i + spec_source_bytes(n.source).len() as int,
                ),
            )
        }),
{
    let b = n.spec_encode();
    let control = spec_control_octet(
        n.priority,
        n.data_expecting_reply,
        n.source is Some,
        n.destination is Some,
        n.content is Message,
    );
    let head = seq![n.version, control];
    let db = spec_dest_bytes(n.destination);
    let hb = spec_hops_bytes(n.destination);
    let cb = n.content.spec_encode();
    match n.source {
        Some(src) => {
            lemma_decode_addr_at(head + db, src.net, src.adr@, hb + cb);
            assert((head + db) + (spec_be16_bytes(src.net) + seq![src.adr@.len() as u8]
                + src.adr@) + (hb + cb) =~= b);
        },
        None => {},
    }
}

/// Past the address blocks of an encoded NPDU stand the hop count, when a
/// destination is present, and then exactly the content bytes.
proof fn lemma_npdu_tail_facts(n: NPDU<APDU, NPDUMessage>)
    requires
        n.encodable(),
    ensures
        ({
            let b = n.spec_encode();
            let j = 2 + spec_dest_bytes(n.destination).len() as int + spec_source_bytes(
                n.source,
            ).len() as int;
            &&& (n.destination matches Some(d) ==> j + 1 <= b.len() && b[j] == d.hops)
            &&& b.skip(
                if n.destination is Some {
                    j + 1
                } else {
                    j
                },
            ) == n.content.spec_encode()
        }),
{
    let b = n.spec_encode();
    let db = spec_dest_bytes(n.destination);
    let sb = spec_source_bytes(n.source);
    let hb = spec_hops_bytes(n.destination);
    let cb = n.content.spec_encode();
    let j: int = 2 + db.len() as int + sb.len() as int;
    match n.destination {
        Some(dst) => {
            assert(b[j] == hb[0]);
            assert(b.skip(j + 1) =~= cb);
        },
        None => {
            assert(b.skip(j) =~= cb);
        },
    }
}

/// Round-trip of an NPDU carrying an APDU whose type fits its wire nibble:
/// decoding an encoded NPDU gives back every field, the optional address
/// records and the hop count included.
pub proof fn lemma_npdu_round_trip(n: NPDU<APDU, NPDUMessage>)
    requires
        n.encodable(),
        n.content matches NPDUContent::APDU(a) && a.apdu_type < 16,
    ensures
        spec_decode_npdu(n.spec_encode()) == Ok::<_, Error>(n@),
{
    let b = n.spec_encode();
    let i: int = 2 + spec_dest_bytes(n.destination).len() as int;
    let j: int = i + spec_source_bytes(n.source).len() as int;
    lemma_npdu_header_facts(n);
    lemma_npdu_dest_decode(n);
    lemma_npdu_source_decode(n);
    lemma_npdu_tail_facts(n);
    lemma_npdu_assemble(n, b, i, j);
}

} // verus!
