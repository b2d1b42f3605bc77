use vstd::prelude::*;

use crate::de::Deserialize;
use crate::de::Reader;
use crate::de::min_int;
use crate::de::parse_prefixed_str;
use crate::de::parse_u16;
use crate::de::parse_u8;
use crate::error::Error;
use crate::ser::Serialize;
use crate::ser::be_bytes_u16;
use crate::ser::str_prefixed_ok;
use crate::ser::str_prefixed_wire;

verus! {

pub const PAP_AUTH_REQUEST: u8 = 1;

pub const PAP_AUTH_ACK: u8 = 2;

pub const PAP_AUTH_NAK: u8 = 3;

/// A PAP packet payload: one variant per code, plus a catch-all that
/// keeps the raw bytes of any unrecognized code.
#[derive(Clone, Debug, Eq, PartialEq)]
pub enum PapData {
    AuthenticateRequest(PapAuthenticateRequest),
    AuthenticateAck(PapAuthenticateAck),
    AuthenticateNak(PapAuthenticateNak),
    Unhandled(u8, Vec<u8>),
}

/// The abstract form of a PAP payload.
pub enum PapDataV {
    AuthenticateRequest(Seq<char>, Seq<char>),
    AuthenticateAck(Seq<char>),
    AuthenticateNak(Seq<char>),
    Unhandled(u8, Seq<u8>),
}

impl DeepView for PapData {
    type V = PapDataV;

    open spec fn deep_view(&self) -> PapDataV {
        match self {
            PapData::AuthenticateRequest(p) => PapDataV::AuthenticateRequest(
                p.peer_id.deep_view(),
                p.passwd.deep_view(),
            ),
            PapData::AuthenticateAck(p) => PapDataV::AuthenticateAck(p.msg.deep_view()),
            PapData::AuthenticateNak(p) => PapDataV::AuthenticateNak(p.msg.deep_view()),
            PapData::Unhandled(t, b) => PapDataV::Unhandled(*t, b.deep_view()),
        }
    }
}

/// The wire code of a PAP payload.
pub open spec fn pap_data_code(v: PapDataV) -> u8 {
    match v {
        PapDataV::AuthenticateRequest(_, _) => PAP_AUTH_REQUEST,
        PapDataV::AuthenticateAck(_) => PAP_AUTH_ACK,
        PapDataV::AuthenticateNak(_) => PAP_AUTH_NAK,
        PapDataV::Unhandled(t, _) => t,
    }
}

/// The payload bytes of a PAP payload: the code and length octets of
/// the enclosing packet are not included.
pub open spec fn pap_data_wire(v: PapDataV) -> Seq<u8> {
    match v {
        PapDataV::AuthenticateRequest(p, w) => str_prefixed_wire(p) + str_prefixed_wire(w),
        PapDataV::AuthenticateAck(m) => str_prefixed_wire(m),
        PapDataV::AuthenticateNak(m) => str_prefixed_wire(m),
        PapDataV::Unhandled(_, b) => b,
    }
}

/// Whether the text fields of a PAP payload fit their length octets.
pub open spec fn pap_data_ok(v: PapDataV) -> bool {
    match v {
        PapDataV::AuthenticateRequest(p, w) => str_prefixed_ok(p) && str_prefixed_ok(w),
        PapDataV::AuthenticateAck(m) => str_prefixed_ok(m),
        PapDataV::AuthenticateNak(m) => str_prefixed_ok(m),
        PapDataV::Unhandled(_, _) => true,
    }
}

/// Whether a PAP payload names its code by its variant alone: the
/// catch-all never carries a code the catalog knows.
pub open spec fn pap_data_canonical(v: PapDataV) -> bool {
    match v {
        PapDataV::Unhandled(t, _) => t != PAP_AUTH_REQUEST && t != PAP_AUTH_ACK && t
            != PAP_AUTH_NAK,
        _ => true,
    }
}

/// Decode a PAP payload from a window already bounded to the payload
/// length, dispatching on the code read from the wire.
pub open spec fn parse_pap_data(code: u8, b: Seq<u8>) -> Result<(PapDataV, int), Error> {
    if code == PAP_AUTH_REQUEST {
        match parse_prefixed_str(b) {
            Ok((p, n1)) => match parse_prefixed_str(b.skip(n1)) {
                Ok((w, n2)) => Ok((PapDataV::AuthenticateRequest(p, w), n1 + n2)),
                Err(e) => Err(e),
            },
            Err(e) => Err(e),
        }
    } else if code == PAP_AUTH_ACK {
        match parse_prefixed_str(b) {
            Ok((m, n)) => Ok((PapDataV::AuthenticateAck(m), n)),
            Err(e) => Err(e),
        }
    } else if code == PAP_AUTH_NAK {
        match parse_prefixed_str(b) {
            Ok((m, n)) => Ok((PapDataV::AuthenticateNak(m), n)),
            Err(e) => Err(e),
        }
    } else {
        Ok((PapDataV::Unhandled(code, b), b.len() as int))
    }
}

impl Serialize for PapData {
    open spec fn spec_wire(v: PapDataV) -> Seq<u8> {
        pap_data_wire(v)
    }

    open spec fn wire_ok(v: PapDataV) -> bool {
        pap_data_ok(v)
    }

    fn serialize(&self, w: &mut Vec<u8>) -> (res: Result<(), Error>) {
        match self {
            PapData::AuthenticateRequest(p) => {
                p.peer_id.serialize(w)?;
                p.passwd.serialize(w)?;
                Ok(())
            },
            PapData::AuthenticateAck(p) => p.msg.serialize(w),
            PapData::AuthenticateNak(p) => p.msg.serialize(w),
            PapData::Unhandled(_, b) => b.serialize(w),
        }
    }
}

impl PapData {
    /// The wire code this payload is written under.
    pub fn discriminant(&self) -> (code: u8)
        ensures
            code == pap_data_code(self.deep_view()),
    {
        match self {
            PapData::AuthenticateRequest(_) => PAP_AUTH_REQUEST,
            PapData::AuthenticateAck(_) => PAP_AUTH_ACK,
            PapData::AuthenticateNak(_) => PAP_AUTH_NAK,
            PapData::Unhandled(t, _) => *t,
        }
    }

    /// The payload length in bytes.
    pub fn len(&self) -> (n: u16)
        requires
            pap_data_ok(self.deep_view()),
            pap_data_wire(self.deep_view()).len() <= 0xFFFF,
        ensures
            n as int == pap_data_wire(self.deep_view()).len(),
    {
        match self {
            PapData::AuthenticateRequest(p) => p.len(),
            PapData::AuthenticateAck(p) => p.len(),
            PapData::AuthenticateNak(p) => p.len(),
            PapData::Unhandled(_, b) => b.len() as u16,
        }
    }

    /// Decode the payload for a code already read from the wire,
    /// falling back to the catch-all variant on an unrecognized code.
    pub fn deserialize_with_discriminant(
        &mut self,
        r: &mut Reader<'_>,
        discriminant: &u8,
    ) -> (res: Result<(), Error>)
        requires
            old(r).wf(),
        ensures
            final(r).wf(),
            final(r).all_bytes() == old(r).all_bytes(),
            final(r).stop() == old(r).stop(),
            old(r).start() <= final(r).start(),
            match parse_pap_data(*discriminant, old(r).bytes_left()) {
                Ok((v, n)) => res is Ok && final(self).deep_view() == v && final(r).start() == old(
                    r,
                ).start() + n,
                Err(e) => res == Err::<(), Error>(e),
            },
    {
        if *discriminant == PAP_AUTH_REQUEST {
            let mut tmp = PapAuthenticateRequest::default();
            tmp.deserialize(r)?;
            *self = PapData::AuthenticateRequest(tmp);
        } else if *discriminant == PAP_AUTH_ACK {
            let mut tmp = PapAuthenticateAck::default();
            tmp.deserialize(r)?;
            *self = PapData::AuthenticateAck(tmp);
        } else if *discriminant == PAP_AUTH_NAK {
            let mut tmp = PapAuthenticateNak::default();
            tmp.deserialize(r)?;
            *self = PapData::AuthenticateNak(tmp);
        } else {
            let mut tmp: Vec<u8> = Vec::new();
            tmp.deserialize(r)?;
            *self = PapData::Unhandled(*discriminant, tmp);
        }
        Ok(())
    }
}

impl Default for PapData {
    fn default() -> (d: Self)
        ensures
            d.deep_view() == PapDataV::AuthenticateRequest(Seq::<char>::empty(), Seq::<
                char,
            >::empty()),
    {
        PapData::AuthenticateRequest(PapAuthenticateRequest::default())
    }
}

/// A PAP packet: a code octet naming the payload variant, an identifier
/// octet, a length field covering the whole packet, and the payload.
#[derive(Clone, Debug, Eq, PartialEq)]
pub struct PapPkt {
    pub identifier: u8,
    pub data: PapData,
}

impl DeepView for PapPkt {
    type V = (u8, PapDataV);

    open spec fn deep_view(&self) -> (u8, PapDataV) {
        (self.identifier, self.data.deep_view())
    }
}

/// The full wire form of a PAP packet. The length field counts its own
/// four header octets together with the payload.
pub open spec fn pap_pkt_wire(v: (u8, PapDataV)) -> Seq<u8> {
    seq![pap_data_code(v.1), v.0] + be_bytes_u16((4 + pap_data_wire(v.1).len()) as u16)
        + pap_data_wire(v.1)
}

/// Whether a PAP packet can be encoded: its payload must be encodable
/// and the whole packet must fit the 16-bit length field.
pub open spec fn pap_pkt_ok(v: (u8, PapDataV)) -> bool {
    pap_data_ok(v.1) && 4 + pap_data_wire(v.1).len() <= 0xFFFF
}

/// Decode a PAP packet: code, identifier, length, then the payload read
/// from a window bounded to the length field less the header octets.
pub open spec fn parse_pap_pkt(b: Seq<u8>) -> Result<((u8, PapDataV), int), Error> {
    if b.len() < 4 {
        Err(Error::UnexpectedEof)
    } else {
        let code = b[0];
        let id = b[1];
        let len = b[2] as int * 0x100 + b[3] as int;
        if len < 4 {
            Err(Error::UnexpectedEof)
        } else {
            let m = min_int(len - 4, b.len() - 4);
            match parse_pap_data(code, b.subrange(4, 4 + m)) {
                Ok((d, n)) => Ok(((id, d), 4 + n)),
                Err(e) => Err(e),
            }
        }
    }
}

impl Serialize for PapPkt {
    open spec fn spec_wire(v: (u8, PapDataV)) -> Seq<u8> {
        pap_pkt_wire(v)
    }

    open spec fn wire_ok(v: (u8, PapDataV)) -> bool {
        pap_pkt_ok(v)
    }

    fn serialize(&self, w: &mut Vec<u8>) -> (res: Result<(), Error>) {
        let code = self.data.discriminant();
        w.push(code);
        w.push(self.identifier);
        let mark = w.len();
        w.push(0);
        w.push(0);
        self.data.serialize(w)?;
        let n = w.len() - mark - 2;
        if n > 0xFFFF - 4 {
            return Err(Error::TryFromInt);
        }
        let total = (n + 4) as u16;
        w.set(mark, (total / 0x100) as u8);
        w.set(mark + 1, (total % 0x100) as u8);
        proof {
            assert(w@ =~= old(w)@ + pap_pkt_wire(self.deep_view()));
        }
        Ok(())
    }
}

impl Deserialize for PapPkt {
    open spec fn spec_parse(b: Seq<u8>) -> Result<((u8, PapDataV), int), Error> {
        parse_pap_pkt(b)
    }

    fn deserialize(&mut self, r: &mut Reader<'_>) -> (res: Result<(), Error>) {
        let ghost b = r.bytes_left();
        let code = r.read_u8()?;
        let id = r.read_u8()?;
        proof {
            assert(r.bytes_left() =~= b.skip(2));
        }
        let mut len: u16 = 0;
        len.deserialize(r)?;
        if len < 4 {
            return Err(Error::UnexpectedEof);
        }
        let mut sub = r.begin_bounded((len - 4) as usize);
        proof {
            assert(sub.bytes_left() =~= b.subrange(
                4,
                4 + min_int(len as int - 4, b.len() - 4),
            ));
        }
        let mut data = PapData::default();
        let pres = data.deserialize_with_discriminant(&mut sub, &code);
        r.resume_from(&sub);
        pres?;
        *self = PapPkt { identifier: id, data };
        Ok(())
    }
}

impl Default for PapPkt {
    fn default() -> (d: Self)
        ensures
            d.deep_view() == (0u8, PapDataV::AuthenticateRequest(Seq::<char>::empty(), Seq::<
                char,
            >::empty())),
    {
        PapPkt { identifier: 0, data: PapData::default() }
    }
}

impl PapPkt {
    /// An Authenticate-Request carrying a peer identity and a password.
    pub fn new_authenticate_request(identifier: u8, peer_id: String, passwd: String) -> (p: Self)
        ensures
            p.deep_view() == (identifier, PapDataV::AuthenticateRequest(peer_id@, passwd@)),
    {
        PapPkt {
            identifier,
            data: PapData::AuthenticateRequest(PapAuthenticateRequest { peer_id, passwd }),
        }
    }

    /// An Authenticate-Ack carrying a message.
    pub fn new_authenticate_ack(identifier: u8, msg: String) -> (p: Self)
        ensures
            p.deep_view() == (identifier, PapDataV::AuthenticateAck(msg@)),
    {
        PapPkt { identifier, data: PapData::AuthenticateAck(PapAuthenticateAck { msg }) }
    }

    /// An Authenticate-Nak carrying a message.
    pub fn new_authenticate_nak(identifier: u8, msg: String) -> (p: Self)
        ensures
            p.deep_view() == (identifier, PapDataV::AuthenticateNak(msg@)),
    {
        PapPkt { identifier, data: PapData::AuthenticateNak(PapAuthenticateNak { msg }) }
    }

    /// The packet length in bytes, header octets included.
    pub fn len(&self) -> (n: u16)
        requires
            pap_pkt_ok(self.deep_view()),
        ensures
            n as int == pap_pkt_wire(self.deep_view()).len(),
    {
        4 + self.data.len()
    }

    /// Whether the packet carries no payload bytes.
    pub fn is_empty(&self) -> (e: bool)
        requires
            pap_pkt_ok(self.deep_view()),
        ensures
            e == (pap_data_wire(self.deep_view().1).len() == 0),
    {
        self.len() == 4
    }
}

/// The Authenticate-Request payload: two length-prefixed text fields.
#[derive(Clone, Debug, Eq, PartialEq)]
pub struct PapAuthenticateRequest {
    pub peer_id: String,
    pub passwd: String,
}

impl DeepView for PapAuthenticateRequest {
    type V = (Seq<char>, Seq<char>);

    open spec fn deep_view(&self) -> (Seq<char>, Seq<char>) {
        (self.peer_id.deep_view(), self.passwd.deep_view())
    }
}

/// The payload bytes of an Authenticate-Request.
pub open spec fn pap_auth_request_wire(v: (Seq<char>, Seq<char>)) -> Seq<u8> {
    str_prefixed_wire(v.0) + str_prefixed_wire(v.1)
}

impl Serialize for PapAuthenticateRequest {
    open spec fn spec_wire(v: (Seq<char>, Seq<char>)) -> Seq<u8> {
        pap_auth_request_wire(v)
    }

    open spec fn wire_ok(v: (Seq<char>, Seq<char>)) -> bool {
        str_prefixed_ok(v.0) && str_prefixed_ok(v.1)
    }

    fn serialize(&self, w: &mut Vec<u8>) -> (res: Result<(), Error>) {
        self.peer_id.serialize(w)?;
        self.passwd.serialize(w)?;
        Ok(())
    }
}

impl Deserialize for PapAuthenticateRequest {
    open spec fn spec_parse(b: Seq<u8>) -> Result<((Seq<char>, Seq<char>), int), Error> {
        match parse_prefixed_str(b) {
            Ok((p, n1)) => match parse_prefixed_str(b.skip(n1)) {
                Ok((w, n2)) => Ok(((p, w), n1 + n2)),
                Err(e) => Err(e),
            },
            Err(e) => Err(e),
        }
    }

    fn deserialize(&mut self, r: &mut Reader<'_>) -> (res: Result<(), Error>) {
        let ghost b = r.bytes_left();
        self.peer_id.deserialize(r)?;
        proof {
            assert(r.bytes_left() =~= b.skip(r.start() - old(r).start()));
        }
        self.passwd.deserialize(r)?;
        Ok(())
    }
}

impl Default for PapAuthenticateRequest {
    fn default() -> (d: Self)
        ensures
            d.deep_view() == (Seq::<char>::empty(), Seq::<char>::empty()),
    {
        PapAuthenticateRequest { peer_id: String::new(), passwd: String::new() }
    }
}

impl PapAuthenticateRequest {
    /// The payload length in bytes: two length octets plus the texts.
    pub fn len(&self) -> (n: u16)
        requires
            str_prefixed_ok(self.peer_id@),
            str_prefixed_ok(self.passwd@),
        ensures
            n as int == pap_auth_request_wire(self.deep_view()).len(),
    {
        (2 + self.peer_id.as_str().len() + self.passwd.as_str().len()) as u16
    }

    /// Whether both text fields are empty.
    pub fn is_empty(&self) -> (e: bool)
        requires
            str_prefixed_ok(self.peer_id@),
            str_prefixed_ok(self.passwd@),
        ensures
            e == (pap_auth_request_wire(self.deep_view()).len() == 2),
    {
        self.len() == 2
    }
}

/// The Authenticate-Ack payload: one length-prefixed message.
#[derive(Clone, Debug, Eq, PartialEq)]
pub struct PapAuthenticateAck {
    pub msg: String,
}

impl DeepView for PapAuthenticateAck {
    type V = Seq<char>;

    open spec fn deep_view(&self) -> Seq<char> {
        self.msg.deep_view()
    }
}

impl Serialize for PapAuthenticateAck {
    open spec fn spec_wire(v: Seq<char>) -> Seq<u8> {
        str_prefixed_wire(v)
    }

    open spec fn wire_ok(v: Seq<char>) -> bool {
        str_prefixed_ok(v)
    }

    fn serialize(&self, w: &mut Vec<u8>) -> (res: Result<(), Error>) {
        self.msg.serialize(w)
    }
}

impl Deserialize for PapAuthenticateAck {
    open spec fn spec_parse(b: Seq<u8>) -> Result<(Seq<char>, int), Error> {
        parse_prefixed_str(b)
    }

    fn deserialize(&mut self, r: &mut Reader<'_>) -> (res: Result<(), Error>) {
        self.msg.deserialize(r)
    }
}

impl Default for PapAuthenticateAck {
    fn default() -> (d: Self)
        ensures
            d.deep_view() == Seq::<char>::empty(),
    {
        PapAuthenticateAck { msg: String::new() }
    }
}

impl PapAuthenticateAck {
    /// The payload length in bytes: the length octet plus the text.
    pub fn len(&self) -> (n: u16)
        requires
            str_prefixed_ok(self.msg@),
        ensures
            n as int == str_prefixed_wire(self.deep_view()).len(),
    {
        (1 + self.msg.as_str().len()) as u16
    }

    /// Whether the message is empty.
    pub fn is_empty(&self) -> (e: bool)
        requires
            str_prefixed_ok(self.msg@),
        ensures
            e == (str_prefixed_wire(self.deep_view()).len() == 1),
    {
        self.len() == 1
    }
}

/// The Authenticate-Nak payload: one length-prefixed message.
#[derive(Clone, Debug, Eq, PartialEq)]
pub struct PapAuthenticateNak {
    pub msg: String,
}

impl DeepView for PapAuthenticateNak {
    type V = Seq<char>;

    open spec fn deep_view(&self) -> Seq<char> {
        self.msg.deep_view()
    }
}

impl Serialize for PapAuthenticateNak {
    open spec fn spec_wire(v: Seq<char>) -> Seq<u8> {
        str_prefixed_wire(v)
    }

    open spec fn wire_ok(v: Seq<char>) -> bool {
        str_prefixed_ok(v)
    }

    fn serialize(&self, w: &mut Vec<u8>) -> (res: Result<(), Error>) {
        self.msg.serialize(w)
    }
}

impl Deserialize for PapAuthenticateNak {
    open spec fn spec_parse(b: Seq<u8>) -> Result<(Seq<char>, int), Error> {
        parse_prefixed_str(b)
    }

    fn deserialize(&mut self, r: &mut Reader<'_>) -> (res: Result<(), Error>) {
        self.msg.deserialize(r)
    }
}

impl Default for PapAuthenticateNak {
    fn default() -> (d: Self)
        ensures
            d.deep_view() == Seq::<char>::empty(),
    {
        PapAuthenticateNak { msg: String::new() }
    }
}

impl PapAuthenticateNak {
    /// The payload length in bytes: the length octet plus the text.
    pub fn len(&self) -> (n: u16)
        requires
            str_prefixed_ok(self.msg@),
        ensures
            n as int == str_prefixed_wire(self.deep_view()).len(),
    {
        (1 + self.msg.as_str().len()) as u16
    }

    /// Whether the message is empty.
    pub fn is_empty(&self) -> (e: bool)
        requires
            str_prefixed_ok(self.msg@),
        ensures
            e == (str_prefixed_wire(self.deep_view()).len() == 1),
    {
        self.len() == 1
    }
}

/// Parsing inverts encoding for PAP payloads: the payload parser, run
/// on exactly the payload bytes under the payload's own code, finds the
/// value back. The catch-all must not carry a catalog code, since such
/// a value re-decodes as the cataloged variant instead.
pub proof fn lemma_parse_pap_data(v: PapDataV)
    requires
        pap_data_ok(v),
        pap_data_canonical(v),
    ensures
        parse_pap_data(pap_data_code(v), pap_data_wire(v)) == Ok::<(PapDataV, int), Error>(
            (v, pap_data_wire(v).len() as int),
        ),
{
    let b = pap_data_wire(v);
    match v {
        PapDataV::AuthenticateRequest(p, w) => {
            crate::de::lemma_parse_prefixed_str(p, str_prefixed_wire(w));
            assert(b.skip(str_prefixed_wire(p).len() as int) =~= str_prefixed_wire(w));
            crate::de::lemma_parse_prefixed_str(w, Seq::<u8>::empty());
            assert(str_prefixed_wire(w) + Seq::<u8>::empty() =~= str_prefixed_wire(w));
        },
        PapDataV::AuthenticateAck(m) => {
            crate::de::lemma_parse_prefixed_str(m, Seq::<u8>::empty());
            assert(str_prefixed_wire(m) + Seq::<u8>::empty() =~= str_prefixed_wire(m));
        },
        PapDataV::AuthenticateNak(m) => {
            crate::de::lemma_parse_prefixed_str(m, Seq::<u8>::empty());
            assert(str_prefixed_wire(m) + Seq::<u8>::empty() =~= str_prefixed_wire(m));
        },
        PapDataV::Unhandled(_, _) => {},
    }
}

/// Parsing inverts encoding for whole PAP packets, with any trailing
/// bytes left untouched.
pub proof fn lemma_parse_pap_pkt(v: (u8, PapDataV), rest: Seq<u8>)
    requires
        pap_pkt_ok(v),
        pap_data_canonical(v.1),
    ensures
        parse_pap_pkt(pap_pkt_wire(v) + rest) == Ok::<((u8, PapDataV), int), Error>(
            (v, pap_pkt_wire(v).len() as int),
        ),
{
    let pl = pap_data_wire(v.1);
    let total = (4 + pl.len()) as u16;
    let b = pap_pkt_wire(v) + rest;
    assert(b[0] == pap_data_code(v.1));
    assert(b[1] == v.0);
    assert(b.skip(2) =~= be_bytes_u16(total) + (pl + rest));
    crate::de::lemma_parse_be_u16(total, pl + rest);
    assert(b[2] as int * 0x100 + b[3] as int == total as int) by {
        assert(parse_u16(b.skip(2)) == Ok::<(u16, int), Error>((total, 2)));
        assert(b.skip(2)[0] == b[2] && b.skip(2)[1] == b[3]);
    }
    assert(b.subrange(4, 4 + pl.len() as int) =~= pl);
    lemma_parse_pap_data(v.1);
}

} // verus!
