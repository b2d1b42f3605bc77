use vstd::prelude::*;

use crate::de::Deserialize;
use crate::de::Reader;
use crate::de::parse_u16;
use crate::de::parse_u32;
use crate::de::parse_u8;
use crate::error::Error;
use crate::ser::Serialize;
use crate::ser::be_bytes_u16;
use crate::ser::be_bytes_u32;

verus! {

broadcast use crate::de::lemma_deep_view_u8;

pub const LCP: u16 = 0xc021;

pub const PAP: u16 = 0xc023;

pub const CHAP: u16 = 0xc223;

pub const IPCP: u16 = 0x8021;

pub const IPV6CP: u16 = 0x8057;

pub const LQR: u16 = 0xc025;

pub const VAN_JACOBSON: u16 = 0x002d;

pub const CHAP_MD5: u8 = 5;

/// A CHAP algorithm number. The catalog is closed by design: any other
/// wire value is a decode error.
#[derive(Clone, Copy, Debug, Eq, PartialEq, Structural)]
pub enum ChapAlgorithm {
    Md5,
}

impl DeepView for ChapAlgorithm {
    type V = ChapAlgorithm;

    open spec fn deep_view(&self) -> ChapAlgorithm {
        *self
    }
}

/// The wire octet of a CHAP algorithm.
pub open spec fn chap_algorithm_code(a: ChapAlgorithm) -> u8 {
    match a {
        ChapAlgorithm::Md5 => CHAP_MD5,
    }
}

/// One algorithm octet; a number outside the catalog is an error
/// carrying the offending value.
pub open spec fn parse_chap_algorithm(b: Seq<u8>) -> Result<(ChapAlgorithm, int), Error> {
    match parse_u8(b) {
        Ok((x, n)) => {
            if x == CHAP_MD5 {
                Ok((ChapAlgorithm::Md5, n))
            } else {
                Err(Error::InvalidChapAlgorithm(x))
            }
        },
        Err(e) => Err(e),
    }
}

impl Default for ChapAlgorithm {
    fn default() -> (d: Self)
        ensures
            d == ChapAlgorithm::Md5,
    {
        ChapAlgorithm::Md5
    }
}

impl Serialize for ChapAlgorithm {
    open spec fn spec_wire(v: ChapAlgorithm) -> Seq<u8> {
        seq![chap_algorithm_code(v)]
    }

    open spec fn wire_ok(v: ChapAlgorithm) -> bool {
        true
    }

    fn serialize(&self, w: &mut Vec<u8>) -> (res: Result<(), Error>) {
        match self {
            ChapAlgorithm::Md5 => CHAP_MD5.serialize(w),
        }
    }
}

impl Deserialize for ChapAlgorithm {
    open spec fn spec_parse(b: Seq<u8>) -> Result<(ChapAlgorithm, int), Error> {
        parse_chap_algorithm(b)
    }

    fn deserialize(&mut self, r: &mut Reader<'_>) -> (res: Result<(), Error>) {
        let x = r.read_u8()?;
        if x == CHAP_MD5 {
            *self = ChapAlgorithm::Md5;
            Ok(())
        } else {
            Err(Error::InvalidChapAlgorithm(x))
        }
    }
}

/// An authentication protocol: PAP, CHAP with its algorithm, or the
/// catch-all keeping the raw bytes of any unrecognized protocol.
#[derive(Clone, Debug, Eq, PartialEq)]
pub enum AuthProto {
    Pap,
    Chap(ChapAlgorithm),
    Unhandled(u16, Vec<u8>),
}

/// The abstract form of an authentication protocol.
pub enum AuthProtoV {
    Pap,
    Chap(ChapAlgorithm),
    Unhandled(u16, Seq<u8>),
}

impl DeepView for AuthProto {
    type V = AuthProtoV;

    open spec fn deep_view(&self) -> AuthProtoV {
        match self {
            AuthProto::Pap => AuthProtoV::Pap,
            AuthProto::Chap(a) => AuthProtoV::Chap(*a),
            AuthProto::Unhandled(t, b) => AuthProtoV::Unhandled(*t, b.deep_view()),
        }
    }
}

/// The 16-bit protocol number of an authentication protocol.
pub open spec fn auth_proto_code(v: AuthProtoV) -> u16 {
    match v {
        AuthProtoV::Pap => PAP,
        AuthProtoV::Chap(_) => CHAP,
        AuthProtoV::Unhandled(t, _) => t,
    }
}

/// The payload bytes following the protocol number: nothing for PAP,
/// the algorithm octet for CHAP.
pub open spec fn auth_proto_wire(v: AuthProtoV) -> Seq<u8> {
    match v {
        AuthProtoV::Pap => Seq::empty(),
        AuthProtoV::Chap(a) => seq![chap_algorithm_code(a)],
        AuthProtoV::Unhandled(_, b) => b,
    }
}

/// Whether an authentication protocol names its number by its variant
/// alone.
pub open spec fn auth_proto_canonical(v: AuthProtoV) -> bool {
    match v {
        AuthProtoV::Unhandled(t, _) => t != PAP && t != CHAP,
        _ => true,
    }
}

/// Decode the payload after an authentication protocol number,
/// dispatching on that number.
pub open spec fn parse_auth_proto(d: u16, b: Seq<u8>) -> Result<(AuthProtoV, int), Error> {
    if d == PAP {
        Ok((AuthProtoV::Pap, 0))
    } else if d == CHAP {
        match parse_chap_algorithm(b) {
            Ok((a, n)) => Ok((AuthProtoV::Chap(a), n)),
            Err(e) => Err(e),
        }
    } else {
        Ok((AuthProtoV::Unhandled(d, b), b.len() as int))
    }
}

impl Serialize for AuthProto {
    open spec fn spec_wire(v: AuthProtoV) -> Seq<u8> {
        auth_proto_wire(v)
    }

    open spec fn wire_ok(v: AuthProtoV) -> bool {
        true
    }

    fn serialize(&self, w: &mut Vec<u8>) -> (res: Result<(), Error>) {
        match self {
            AuthProto::Pap => Ok(()),
            AuthProto::Chap(a) => a.serialize(w),
            AuthProto::Unhandled(_, b) => b.serialize(w),
        }
    }
}

impl AuthProto {
    /// The protocol number this value is written under.
    pub fn discriminant(&self) -> (d: u16)
        ensures
            d == auth_proto_code(self.deep_view()),
    {
        match self {
            AuthProto::Pap => PAP,
            AuthProto::Chap(_) => CHAP,
            AuthProto::Unhandled(t, _) => *t,
        }
    }

    /// The payload length in bytes, the protocol number not included.
    pub fn len(&self) -> (n: u8)
        requires
            auth_proto_wire(self.deep_view()).len() <= 255,
        ensures
            n as int == auth_proto_wire(self.deep_view()).len(),
    {
        match self {
            AuthProto::Pap => 0,
            AuthProto::Chap(_) => 1,
            AuthProto::Unhandled(_, b) => b.len() as u8,
        }
    }

    /// Decode the payload for a protocol number already read from the
    /// wire, falling back to the catch-all on an unrecognized number.
    pub fn deserialize_with_discriminant(
        &mut self,
        r: &mut Reader<'_>,
        discriminant: &u16,
    ) -> (res: Result<(), Error>)
        requires
            old(r).wf(),
        ensures
            final(r).wf(),
            final(r).all_bytes() == old(r).all_bytes(),
            final(r).stop() == old(r).stop(),
            old(r).start() <= final(r).start(),
            match parse_auth_proto(*discriminant, old(r).bytes_left()) {
                Ok((v, n)) => res is Ok && final(self).deep_view() == v && final(r).start() == old(
                    r,
                ).start() + n,
                Err(e) => res == Err::<(), Error>(e),
            },
    {
        if *discriminant == PAP {
            *self = AuthProto::Pap;
        } else if *discriminant == CHAP {
            let mut tmp = ChapAlgorithm::default();
            tmp.deserialize(r)?;
            *self = AuthProto::Chap(tmp);
        } else {
            let mut tmp: Vec<u8> = Vec::new();
            tmp.deserialize(r)?;
            *self = AuthProto::Unhandled(*discriminant, tmp);
        }
        Ok(())
    }
}

impl Default for AuthProto {
    fn default() -> (d: Self)
        ensures
            d.deep_view() == AuthProtoV::Pap,
    {
        AuthProto::Pap
    }
}

/// An authentication protocol as framed inside an LCP option: the
/// 16-bit protocol number, then the protocol's own payload, with no
/// separate length field.
#[derive(Clone, Debug, Eq, PartialEq)]
pub struct AuthProtocol {
    pub protocol: AuthProto,
}

impl DeepView for AuthProtocol {
    type V = AuthProtoV;

    open spec fn deep_view(&self) -> AuthProtoV {
        self.protocol.deep_view()
    }
}

impl From<AuthProto> for AuthProtocol {
    fn from(protocol: AuthProto) -> (p: Self) {
        AuthProtocol { protocol }
    }
}

impl vstd::std_specs::convert::FromSpecImpl<AuthProto> for AuthProtocol {
    open spec fn obeys_from_spec() -> bool {
        true
    }

    open spec fn from_spec(protocol: AuthProto) -> Self {
        AuthProtocol { protocol }
    }
}

/// The wire form of a framed authentication protocol.
pub open spec fn auth_protocol_wire(v: AuthProtoV) -> Seq<u8> {
    be_bytes_u16(auth_proto_code(v)) + auth_proto_wire(v)
}

/// Decode a framed authentication protocol: the number, then the
/// payload, which runs to the window's end for the catch-all.
pub open spec fn parse_auth_protocol(b: Seq<u8>) -> Result<(AuthProtoV, int), Error> {
    match parse_u16(b) {
        Ok((d, _)) => match parse_auth_proto(d, b.skip(2)) {
            Ok((v, n)) => Ok((v, 2 + n)),
            Err(e) => Err(e),
        },
        Err(e) => Err(e),
    }
}

impl Serialize for AuthProtocol {
    open spec fn spec_wire(v: AuthProtoV) -> Seq<u8> {
        auth_protocol_wire(v)
    }

    open spec fn wire_ok(v: AuthProtoV) -> bool {
        true
    }

    fn serialize(&self, w: &mut Vec<u8>) -> (res: Result<(), Error>) {
        let d = self.protocol.discriminant();
        d.serialize(w)?;
        self.protocol.serialize(w)
    }
}

impl Deserialize for AuthProtocol {
    open spec fn spec_parse(b: Seq<u8>) -> Result<(AuthProtoV, int), Error> {
        parse_auth_protocol(b)
    }

    fn deserialize(&mut self, r: &mut Reader<'_>) -> (res: Result<(), Error>) {
        let ghost b = r.bytes_left();
        let mut d: u16 = 0;
        d.deserialize(r)?;
        proof {
            assert(r.bytes_left() =~= b.skip(2));
        }
        self.protocol.deserialize_with_discriminant(r, &d)
    }
}

impl Default for AuthProtocol {
    fn default() -> (d: Self)
        ensures
            d.deep_view() == AuthProtoV::Pap,
    {
        AuthProtocol { protocol: AuthProto::Pap }
    }
}

impl AuthProtocol {
    /// The framed length in bytes: the protocol number octets plus the
    /// payload.
    pub fn len(&self) -> (n: u8)
        requires
            auth_protocol_wire(self.deep_view()).len() <= 255,
        ensures
            n as int == auth_protocol_wire(self.deep_view()).len(),
    {
        2 + self.protocol.len()
    }

    /// Whether the protocol carries no payload octets.
    pub fn is_empty(&self) -> (e: bool)
        requires
            auth_protocol_wire(self.deep_view()).len() <= 255,
        ensures
            e == (auth_proto_wire(self.deep_view()).len() == 0),
    {
        self.len() == 2
    }
}

/// A quality protocol: only Link-Quality-Report is defined, and the
/// catalog is closed.
#[derive(Clone, Debug, Eq, PartialEq)]
pub enum QualityProto {
    LinkQualityReport(u32),
}

impl DeepView for QualityProto {
    type V = u32;

    open spec fn deep_view(&self) -> u32 {
        match self {
            QualityProto::LinkQualityReport(x) => *x,
        }
    }
}

/// Decode the payload after a quality protocol number: the reporting
/// period for Link-Quality-Report; any other number is an error.
pub open spec fn parse_quality_proto(d: u16, b: Seq<u8>) -> Result<(u32, int), Error> {
    if d == LQR {
        match parse_u32(b) {
            Ok((x, n)) => Ok((x, n)),
            Err(e) => Err(e),
        }
    } else {
        Err(Error::InvalidQualityProtocol(d))
    }
}

impl Serialize for QualityProto {
    open spec fn spec_wire(v: u32) -> Seq<u8> {
        be_bytes_u32(v)
    }

    open spec fn wire_ok(v: u32) -> bool {
        true
    }

    fn serialize(&self, w: &mut Vec<u8>) -> (res: Result<(), Error>) {
        match self {
            QualityProto::LinkQualityReport(x) => x.serialize(w),
        }
    }
}

impl QualityProto {
    /// The protocol number this value is written under.
    pub fn discriminant(&self) -> (d: u16)
        ensures
            d == LQR,
    {
        match self {
            QualityProto::LinkQualityReport(_) => LQR,
        }
    }

    /// The payload length in bytes.
    pub fn len(&self) -> (n: u8)
        ensures
            n == 4,
    {
        match self {
            QualityProto::LinkQualityReport(_) => 4,
        }
    }

    /// Decode the payload for a protocol number already read from the
    /// wire; the quality catalog has no catch-all.
    pub fn deserialize_with_discriminant(
        &mut self,
        r: &mut Reader<'_>,
        discriminant: &u16,
    ) -> (res: Result<(), Error>)
        requires
            old(r).wf(),
        ensures
            final(r).wf(),
            final(r).all_bytes() == old(r).all_bytes(),
            final(r).stop() == old(r).stop(),
            old(r).start() <= final(r).start(),
            match parse_quality_proto(*discriminant, old(r).bytes_left()) {
                Ok((v, n)) => res is Ok && final(self).deep_view() == v && final(r).start() == old(
                    r,
                ).start() + n,
                Err(e) => res == Err::<(), Error>(e),
            },
    {
        if *discriminant == LQR {
            let mut tmp: u32 = 0;
            tmp.deserialize(r)?;
            *self = QualityProto::LinkQualityReport(tmp);
            Ok(())
        } else {
            Err(Error::InvalidQualityProtocol(*discriminant))
        }
    }
}

impl Default for QualityProto {
    fn default() -> (d: Self)
        ensures
            d.deep_view() == 0u32,
    {
        QualityProto::LinkQualityReport(0)
    }
}

/// A quality protocol as framed inside an LCP option: the 16-bit
/// protocol number, then the payload, with no separate length field.
#[derive(Clone, Debug, Eq, PartialEq)]
pub struct QualityProtocol {
    pub protocol: QualityProto,
}

impl DeepView for QualityProtocol {
    type V = u32;

    open spec fn deep_view(&self) -> u32 {
        self.protocol.deep_view()
    }
}

impl From<QualityProto> for QualityProtocol {
    fn from(protocol: QualityProto) -> (p: Self) {
        QualityProtocol { protocol }
    }
}

impl vstd::std_specs::convert::FromSpecImpl<QualityProto> for QualityProtocol {
    open spec fn obeys_from_spec() -> bool {
        true
    }

    open spec fn from_spec(protocol: QualityProto) -> Self {
        QualityProtocol { protocol }
    }
}

/// The wire form of a framed quality protocol.
pub open spec fn quality_protocol_wire(v: u32) -> Seq<u8> {
    be_bytes_u16(LQR) + be_bytes_u32(v)
}

/// Decode a framed quality protocol: the number, then the payload.
pub open spec fn parse_quality_protocol(b: Seq<u8>) -> Result<(u32, int), Error> {
    match parse_u16(b) {
        Ok((d, _)) => match parse_quality_proto(d, b.skip(2)) {
            Ok((v, n)) => Ok((v, 2 + n)),
            Err(e) => Err(e),
        },
        Err(e) => Err(e),
    }
}

impl Serialize for QualityProtocol {
    open spec fn spec_wire(v: u32) -> Seq<u8> {
        quality_protocol_wire(v)
    }

    open spec fn wire_ok(v: u32) -> bool {
        true
    }

    fn serialize(&self, w: &mut Vec<u8>) -> (res: Result<(), Error>) {
        let d = self.protocol.discriminant();
        d.serialize(w)?;
        self.protocol.serialize(w)
    }
}

impl Deserialize for QualityProtocol {
    open spec fn spec_parse(b: Seq<u8>) -> Result<(u32, int), Error> {
        parse_quality_protocol(b)
    }

    fn deserialize(&mut self, r: &mut Reader<'_>) -> (res: Result<(), Error>) {
        let ghost b = r.bytes_left();
        let mut d: u16 = 0;
        d.deserialize(r)?;
        proof {
            assert(r.bytes_left() =~= b.skip(2));
        }
        self.protocol.deserialize_with_discriminant(r, &d)
    }
}

impl Default for QualityProtocol {
    fn default() -> (d: Self)
        ensures
            d.deep_view() == 0u32,
    {
        QualityProtocol { protocol: QualityProto::LinkQualityReport(0) }
    }
}

impl QualityProtocol {
    /// The framed length in bytes: the protocol number octets plus the
    /// payload.
    pub fn len(&self) -> (n: u8)
        ensures
            n as int == quality_protocol_wire(self.deep_view()).len(),
    {
        2 + self.protocol.len()
    }

    /// Whether the protocol carries no payload octets; a quality report
    /// always does.
    pub fn is_empty(&self) -> (e: bool)
        ensures
            e == false,
    {
        self.len() == 2
    }
}

/// An IP compression protocol: Van Jacobson TCP/IP compression, or the
/// catch-all keeping the raw bytes of any unrecognized protocol.
#[derive(Clone, Debug, Eq, PartialEq)]
pub enum IpCompressionProto {
    VanJacobsonTcpIp(VanJacobsonConfig),
    Unhandled(u16, Vec<u8>),
}

/// The abstract form of an IP compression protocol.
pub enum IpCompressionProtoV {
    VanJacobsonTcpIp(u8, u8),
    Unhandled(u16, Seq<u8>),
}

impl DeepView for IpCompressionProto {
    type V = IpCompressionProtoV;

    open spec fn deep_view(&self) -> IpCompressionProtoV {
        match self {
            IpCompressionProto::VanJacobsonTcpIp(c) => IpCompressionProtoV::VanJacobsonTcpIp(
                c.max_slot_id,
                c.comp_slot_id,
            ),
            IpCompressionProto::Unhandled(t, b) => IpCompressionProtoV::Unhandled(
                *t,
                b.deep_view(),
            ),
        }
    }
}

/// The 16-bit protocol number of an IP compression protocol.
pub open spec fn ip_compression_code(v: IpCompressionProtoV) -> u16 {
    match v {
        IpCompressionProtoV::VanJacobsonTcpIp(_, _) => VAN_JACOBSON,
        IpCompressionProtoV::Unhandled(t, _) => t,
    }
}

/// The payload bytes following the protocol number.
pub open spec fn ip_compression_wire(v: IpCompressionProtoV) -> Seq<u8> {
    match v {
        IpCompressionProtoV::VanJacobsonTcpIp(max_slot, comp_slot) => seq![max_slot, comp_slot],
        IpCompressionProtoV::Unhandled(_, b) => b,
    }
}

/// Whether an IP compression protocol names its number by its variant
/// alone.
pub open spec fn ip_compression_canonical(v: IpCompressionProtoV) -> bool {
    match v {
        IpCompressionProtoV::Unhandled(t, _) => t != VAN_JACOBSON,
        _ => true,
    }
}

/// Decode the payload after an IP compression protocol number.
pub open spec fn parse_ip_compression_proto(d: u16, b: Seq<u8>) -> Result<
    (IpCompressionProtoV, int),
    Error,
> {
    if d == VAN_JACOBSON {
        if b.len() >= 2 {
            Ok((IpCompressionProtoV::VanJacobsonTcpIp(b[0], b[1]), 2))
        } else {
            Err(Error::UnexpectedEof)
        }
    } else {
        Ok((IpCompressionProtoV::Unhandled(d, b), b.len() as int))
    }
}

impl Serialize for IpCompressionProto {
    open spec fn spec_wire(v: IpCompressionProtoV) -> Seq<u8> {
        ip_compression_wire(v)
    }

    open spec fn wire_ok(v: IpCompressionProtoV) -> bool {
        true
    }

    fn serialize(&self, w: &mut Vec<u8>) -> (res: Result<(), Error>) {
        match self {
            IpCompressionProto::VanJacobsonTcpIp(c) => c.serialize(w),
            IpCompressionProto::Unhandled(_, b) => b.serialize(w),
        }
    }
}

impl IpCompressionProto {
    /// The protocol number this value is written under.
    pub fn discriminant(&self) -> (d: u16)
        ensures
            d == ip_compression_code(self.deep_view()),
    {
        match self {
            IpCompressionProto::VanJacobsonTcpIp(_) => VAN_JACOBSON,
            IpCompressionProto::Unhandled(t, _) => *t,
        }
    }

    /// The payload length in bytes, the protocol number not included.
    pub fn len(&self) -> (n: u8)
        requires
            ip_compression_wire(self.deep_view()).len() <= 255,
        ensures
            n as int == ip_compression_wire(self.deep_view()).len(),
    {
        match self {
            IpCompressionProto::VanJacobsonTcpIp(c) => c.len(),
            IpCompressionProto::Unhandled(_, b) => b.len() as u8,
        }
    }

    /// Decode the payload for a protocol number already read from the
    /// wire, falling back to the catch-all on an unrecognized number.
    pub fn deserialize_with_discriminant(
        &mut self,
        r: &mut Reader<'_>,
        discriminant: &u16,
    ) -> (res: Result<(), Error>)
        requires
            old(r).wf(),
        ensures
            final(r).wf(),
            final(r).all_bytes() == old(r).all_bytes(),
            final(r).stop() == old(r).stop(),
            old(r).start() <= final(r).start(),
            match parse_ip_compression_proto(*discriminant, old(r).bytes_left()) {
                Ok((v, n)) => res is Ok && final(self).deep_view() == v && final(r).start() == old(
                    r,
                ).start() + n,
                Err(e) => res == Err::<(), Error>(e),
            },
    {
        if *discriminant == VAN_JACOBSON {
            let mut tmp = VanJacobsonConfig::default();
            tmp.deserialize(r)?;
            *self = IpCompressionProto::VanJacobsonTcpIp(tmp);
        } else {
            let mut tmp: Vec<u8> = Vec::new();
            tmp.deserialize(r)?;
            *self = IpCompressionProto::Unhandled(*discriminant, tmp);
        }
        Ok(())
    }
}

impl Default for IpCompressionProto {
    fn default() -> (d: Self)
        ensures
            d.deep_view() == IpCompressionProtoV::VanJacobsonTcpIp(0u8, 0u8),
    {
        IpCompressionProto::VanJacobsonTcpIp(VanJacobsonConfig::default())
    }
}

/// An IP compression protocol as framed inside an IPCP option: the
/// 16-bit protocol number, then the payload, with no separate length
/// field.
#[derive(Clone, Debug, Eq, PartialEq)]
pub struct IpCompressionProtocol {
    pub protocol: IpCompressionProto,
}

impl DeepView for IpCompressionProtocol {
    type V = IpCompressionProtoV;

    open spec fn deep_view(&self) -> IpCompressionProtoV {
        self.protocol.deep_view()
    }
}

impl From<IpCompressionProto> for IpCompressionProtocol {
    fn from(protocol: IpCompressionProto) -> (p: Self) {
        IpCompressionProtocol { protocol }
    }
}

impl vstd::std_specs::convert::FromSpecImpl<IpCompressionProto> for IpCompressionProtocol {
    open spec fn obeys_from_spec() -> bool {
        true
    }

    open spec fn from_spec(protocol: IpCompressionProto) -> Self {
        IpCompressionProtocol { protocol }
    }
}

/// The wire form of a framed IP compression protocol.
pub open spec fn ip_compression_protocol_wire(v: IpCompressionProtoV) -> Seq<u8> {
    be_bytes_u16(ip_compression_code(v)) + ip_compression_wire(v)
}

/// Decode a framed IP compression protocol: the number, then the
/// payload, which runs to the window's end for the catch-all.
pub open spec fn parse_ip_compression_protocol(b: Seq<u8>) -> Result<
    (IpCompressionProtoV, int),
    Error,
> {
    match parse_u16(b) {
        Ok((d, _)) => match parse_ip_compression_proto(d, b.skip(2)) {
            Ok((v, n)) => Ok((v, 2 + n)),
            Err(e) => Err(e),
        },
        Err(e) => Err(e),
    }
}

impl Serialize for IpCompressionProtocol {
    open spec fn spec_wire(v: IpCompressionProtoV) -> Seq<u8> {
        ip_compression_protocol_wire(v)
    }

    open spec fn wire_ok(v: IpCompressionProtoV) -> bool {
        true
    }

    fn serialize(&self, w: &mut Vec<u8>) -> (res: Result<(), Error>) {
        let d = self.protocol.discriminant();
        d.serialize(w)?;
        self.protocol.serialize(w)
    }
}

impl Deserialize for IpCompressionProtocol {
    open spec fn spec_parse(b: Seq<u8>) -> Result<(IpCompressionProtoV, int), Error> {
        parse_ip_compression_protocol(b)
    }

    fn deserialize(&mut self, r: &mut Reader<'_>) -> (res: Result<(), Error>) {
        let ghost b = r.bytes_left();
        let mut d: u16 = 0;
        d.deserialize(r)?;
        proof {
            assert(r.bytes_left() =~= b.skip(2));
        }
        self.protocol.deserialize_with_discriminant(r, &d)
    }
}

impl Default for IpCompressionProtocol {
    fn default() -> (d: Self)
        ensures
            d.deep_view() == IpCompressionProtoV::VanJacobsonTcpIp(0u8, 0u8),
    {
        IpCompressionProtocol { protocol: IpCompressionProto::default() }
    }
}

impl IpCompressionProtocol {
    /// The framed length in bytes: the protocol number octets plus the
    /// payload.
    pub fn len(&self) -> (n: u8)
        requires
            ip_compression_protocol_wire(self.deep_view()).len() <= 255,
        ensures
            n as int == ip_compression_protocol_wire(self.deep_view()).len(),
    {
        2 + self.protocol.len()
    }

    /// Whether the protocol carries no payload octets.
    pub fn is_empty(&self) -> (e: bool)
        requires
            ip_compression_protocol_wire(self.deep_view()).len() <= 255,
        ensures
            e == (ip_compression_wire(self.deep_view()).len() == 0),
    {
        self.len() == 2
    }
}

/// The Van Jacobson TCP/IP compression configuration: the highest slot
/// number and whether slot identifiers may be compressed.
#[derive(Clone, Copy, Debug, Eq, PartialEq, Structural)]
pub struct VanJacobsonConfig {
    pub max_slot_id: u8,
    pub comp_slot_id: u8,
}

impl DeepView for VanJacobsonConfig {
    type V = (u8, u8);

    open spec fn deep_view(&self) -> (u8, u8) {
        (self.max_slot_id, self.comp_slot_id)
    }
}

/// Two configuration octets.
pub open spec fn parse_van_jacobson(b: Seq<u8>) -> Result<((u8, u8), int), Error> {
    if b.len() >= 2 {
        Ok(((b[0], b[1]), 2))
    } else {
        Err(Error::UnexpectedEof)
    }
}

impl Serialize for VanJacobsonConfig {
    open spec fn spec_wire(v: (u8, u8)) -> Seq<u8> {
        seq![v.0, v.1]
    }

    open spec fn wire_ok(v: (u8, u8)) -> bool {
        true
    }

    fn serialize(&self, w: &mut Vec<u8>) -> (res: Result<(), Error>) {
        w.push(self.max_slot_id);
        w.push(self.comp_slot_id);
        proof {
            assert(w@ =~= old(w)@ + seq![self.max_slot_id, self.comp_slot_id]);
        }
        Ok(())
    }
}

impl Deserialize for VanJacobsonConfig {
    open spec fn spec_parse(b: Seq<u8>) -> Result<((u8, u8), int), Error> {
        parse_van_jacobson(b)
    }

    fn deserialize(&mut self, r: &mut Reader<'_>) -> (res: Result<(), Error>) {
        let ghost b = r.bytes_left();
        let b0 = r.read_u8()?;
        proof {
            assert(r.bytes_left() =~= b.skip(1));
        }
        let b1 = r.read_u8()?;
        *self = VanJacobsonConfig { max_slot_id: b0, comp_slot_id: b1 };
        Ok(())
    }
}

impl Default for VanJacobsonConfig {
    fn default() -> (d: Self)
        ensures
            d.deep_view() == (0u8, 0u8),
    {
        VanJacobsonConfig { max_slot_id: 0, comp_slot_id: 0 }
    }
}

impl VanJacobsonConfig {
    /// The payload length in bytes: always the two octets.
    pub fn len(&self) -> (n: u8)
        ensures
            n == 2,
    {
        2
    }

    /// Whether the configuration adds bytes beyond its fixed pair; it
    /// never does.
    pub fn is_empty(&self) -> (e: bool)
        ensures
            e == true,
    {
        true
    }
}

/// A PPP packet payload: one variant per known protocol number, plus a
/// catch-all that keeps the raw bytes of any unrecognized protocol.
#[derive(Clone, Debug, Eq, PartialEq)]
pub enum PppData {
    Lcp(crate::lcp::LcpPkt),
    Pap(crate::pap::PapPkt),
    Chap(crate::chap::ChapPkt),
    Ipcp(crate::ipcp::IpcpPkt),
    Ipv6cp(crate::ipv6cp::Ipv6cpPkt),
    Unhandled(u16, Vec<u8>),
}

/// The abstract form of a PPP payload.
pub enum PppDataV {
    Lcp((u8, crate::lcp::LcpDataV)),
    Pap((u8, crate::pap::PapDataV)),
    Chap((u8, crate::chap::ChapDataV)),
    Ipcp((u8, crate::ipcp::IpcpDataV)),
    Ipv6cp((u8, crate::ipv6cp::Ipv6cpDataV)),
    Unhandled(u16, Seq<u8>),
}

impl DeepView for PppData {
    type V = PppDataV;

    open spec fn deep_view(&self) -> PppDataV {
        match self {
            PppData::Lcp(p) => PppDataV::Lcp(p.deep_view()),
            PppData::Pap(p) => PppDataV::Pap(p.deep_view()),
            PppData::Chap(p) => PppDataV::Chap(p.deep_view()),
            PppData::Ipcp(p) => PppDataV::Ipcp(p.deep_view()),
            PppData::Ipv6cp(p) => PppDataV::Ipv6cp(p.deep_view()),
            PppData::Unhandled(t, b) => PppDataV::Unhandled(*t, b.deep_view()),
        }
    }
}

/// The 16-bit protocol number of a PPP payload.
pub open spec fn ppp_data_code(v: PppDataV) -> u16 {
    match v {
        PppDataV::Lcp(_) => LCP,
        PppDataV::Pap(_) => PAP,
        PppDataV::Chap(_) => CHAP,
        PppDataV::Ipcp(_) => IPCP,
        PppDataV::Ipv6cp(_) => IPV6CP,
        PppDataV::Unhandled(t, _) => t,
    }
}

/// The payload bytes of a PPP payload: the nested control-protocol
/// packet in full.
pub open spec fn ppp_data_wire(v: PppDataV) -> Seq<u8> {
    match v {
        PppDataV::Lcp(p) => crate::lcp::lcp_pkt_wire(p),
        PppDataV::Pap(p) => crate::pap::pap_pkt_wire(p),
        PppDataV::Chap(p) => crate::chap::chap_pkt_wire(p),
        PppDataV::Ipcp(p) => crate::ipcp::ipcp_pkt_wire(p),
        PppDataV::Ipv6cp(p) => crate::ipv6cp::ipv6cp_pkt_wire(p),
        PppDataV::Unhandled(_, b) => b,
    }
}

/// Whether the nested packet can be encoded.
pub open spec fn ppp_data_ok(v: PppDataV) -> bool {
    match v {
        PppDataV::Lcp(p) => crate::lcp::lcp_pkt_ok(p),
        PppDataV::Pap(p) => crate::pap::pap_pkt_ok(p),
        PppDataV::Chap(p) => crate::chap::chap_pkt_ok(p),
        PppDataV::Ipcp(p) => crate::ipcp::ipcp_pkt_ok(p),
        PppDataV::Ipv6cp(p) => crate::ipv6cp::ipv6cp_pkt_ok(p),
        PppDataV::Unhandled(_, _) => true,
    }
}

/// Whether a PPP payload is canonical down through its nesting.
pub open spec fn ppp_data_canonical(v: PppDataV) -> bool {
    match v {
        PppDataV::Lcp(p) => crate::lcp::lcp_data_canonical(p.1),
        PppDataV::Pap(p) => crate::pap::pap_data_canonical(p.1),
        PppDataV::Chap(p) => crate::chap::chap_data_canonical(p.1),
        PppDataV::Ipcp(p) => crate::ipcp::ipcp_data_canonical(p.1),
        PppDataV::Ipv6cp(p) => crate::ipv6cp::ipv6cp_data_canonical(p.1),
        PppDataV::Unhandled(t, _) => t != LCP && t != PAP && t != CHAP && t != IPCP && t != IPV6CP,
    }
}

/// Decode the payload after a PPP protocol number, dispatching on that
/// number. A nested packet bounds itself by its own length field; the
/// catch-all takes every byte left in the window.
pub open spec fn parse_ppp_data(d: u16, b: Seq<u8>) -> Result<(PppDataV, int), Error> {
    if d == LCP {
        match crate::lcp::parse_lcp_pkt(b) {
            Ok((p, n)) => Ok((PppDataV::Lcp(p), n)),
            Err(e) => Err(e),
        }
    } else if d == PAP {
        match crate::pap::parse_pap_pkt(b) {
            Ok((p, n)) => Ok((PppDataV::Pap(p), n)),
            Err(e) => Err(e),
        }
    } else if d == CHAP {
        match crate::chap::parse_chap_pkt(b) {
            Ok((p, n)) => Ok((PppDataV::Chap(p), n)),
            Err(e) => Err(e),
        }
    } else if d == IPCP {
        match crate::ipcp::parse_ipcp_pkt(b) {
            Ok((p, n)) => Ok((PppDataV::Ipcp(p), n)),
            Err(e) => Err(e),
        }
    } else if d == IPV6CP {
        match crate::ipv6cp::parse_ipv6cp_pkt(b) {
            Ok((p, n)) => Ok((PppDataV::Ipv6cp(p), n)),
            Err(e) => Err(e),
        }
    } else {
        Ok((PppDataV::Unhandled(d, b), b.len() as int))
    }
}

impl Serialize for PppData {
    open spec fn spec_wire(v: PppDataV) -> Seq<u8> {
        ppp_data_wire(v)
    }

    open spec fn wire_ok(v: PppDataV) -> bool {
        ppp_data_ok(v)
    }

    fn serialize(&self, w: &mut Vec<u8>) -> (res: Result<(), Error>) {
        match self {
            PppData::Lcp(p) => p.serialize(w),
            PppData::Pap(p) => p.serialize(w),
            PppData::Chap(p) => p.serialize(w),
            PppData::Ipcp(p) => p.serialize(w),
            PppData::Ipv6cp(p) => p.serialize(w),
            PppData::Unhandled(_, b) => b.serialize(w),
        }
    }
}

impl PppData {
    /// The protocol number this payload is written under.
    pub fn discriminant(&self) -> (d: u16)
        ensures
            d == ppp_data_code(self.deep_view()),
    {
        match self {
            PppData::Lcp(_) => LCP,
            PppData::Pap(_) => PAP,
            PppData::Chap(_) => CHAP,
            PppData::Ipcp(_) => IPCP,
            PppData::Ipv6cp(_) => IPV6CP,
            PppData::Unhandled(t, _) => *t,
        }
    }

    /// The payload length in bytes.
    pub fn len(&self) -> (n: u16)
        requires
            ppp_data_ok(self.deep_view()),
            ppp_data_wire(self.deep_view()).len() <= 0xFFFF,
        ensures
            n as int == ppp_data_wire(self.deep_view()).len(),
    {
        match self {
            PppData::Lcp(p) => p.len(),
            PppData::Pap(p) => p.len(),
            PppData::Chap(p) => p.len(),
            PppData::Ipcp(p) => p.len(),
            PppData::Ipv6cp(p) => p.len(),
            PppData::Unhandled(_, b) => b.len() as u16,
        }
    }

    /// Decode the payload for a protocol number already read from the
    /// wire, falling back to the catch-all on an unrecognized number.
    pub fn deserialize_with_discriminant(
        &mut self,
        r: &mut Reader<'_>,
        discriminant: &u16,
    ) -> (res: Result<(), Error>)
        requires
            old(r).wf(),
        ensures
            final(r).wf(),
            final(r).all_bytes() == old(r).all_bytes(),
            final(r).stop() == old(r).stop(),
            old(r).start() <= final(r).start(),
            match parse_ppp_data(*discriminant, old(r).bytes_left()) {
                Ok((v, n)) => res is Ok && final(self).deep_view() == v && final(r).start() == old(
                    r,
                ).start() + n,
                Err(e) => res == Err::<(), Error>(e),
            },
    {
        if *discriminant == LCP {
            let mut tmp = crate::lcp::LcpPkt::default();
            tmp.deserialize(r)?;
            *self = PppData::Lcp(tmp);
        } else if *discriminant == PAP {
            let mut tmp = crate::pap::PapPkt::default();
            tmp.deserialize(r)?;
            *self = PppData::Pap(tmp);
        } else if *discriminant == CHAP {
            let mut tmp = crate::chap::ChapPkt::default();
            tmp.deserialize(r)?;
            *self = PppData::Chap(tmp);
        } else if *discriminant == IPCP {
            let mut tmp = crate::ipcp::IpcpPkt::default();
            tmp.deserialize(r)?;
            *self = PppData::Ipcp(tmp);
        } else if *discriminant == IPV6CP {
            let mut tmp = crate::ipv6cp::Ipv6cpPkt::default();
            tmp.deserialize(r)?;
            *self = PppData::Ipv6cp(tmp);
        } else {
            let mut tmp: Vec<u8> = Vec::new();
            tmp.deserialize(r)?;
            *self = PppData::Unhandled(*discriminant, tmp);
        }
        Ok(())
    }
}

impl Default for PppData {
    fn default() -> (d: Self)
        ensures
            d.deep_view() == PppDataV::Lcp(
                (0u8, crate::lcp::LcpDataV::ConfigureRequest(Seq::<crate::lcp::LcpOptV>::empty())),
            ),
    {
        PppData::Lcp(crate::lcp::LcpPkt::default())
    }
}

/// A PPP packet: a 16-bit protocol number, then the protocol-specific
/// packet; PPP itself adds no length field.
#[derive(Clone, Debug, Eq, PartialEq)]
pub struct PppPkt {
    pub data: PppData,
}

impl DeepView for PppPkt {
    type V = PppDataV;

    open spec fn deep_view(&self) -> PppDataV {
        self.data.deep_view()
    }
}

/// The full wire form of a PPP packet.
pub open spec fn ppp_pkt_wire(v: PppDataV) -> Seq<u8> {
    be_bytes_u16(ppp_data_code(v)) + ppp_data_wire(v)
}

/// Whether a PPP packet can be encoded.
pub open spec fn ppp_pkt_ok(v: PppDataV) -> bool {
    ppp_data_ok(v)
}

/// Decode a PPP packet: the protocol number, then the payload.
pub open spec fn parse_ppp_pkt(b: Seq<u8>) -> Result<(PppDataV, int), Error> {
    match parse_u16(b) {
        Ok((d, _)) => match parse_ppp_data(d, b.skip(2)) {
            Ok((v, n)) => Ok((v, 2 + n)),
            Err(e) => Err(e),
        },
        Err(e) => Err(e),
    }
}

impl Serialize for PppPkt {
    open spec fn spec_wire(v: PppDataV) -> Seq<u8> {
        ppp_pkt_wire(v)
    }

    open spec fn wire_ok(v: PppDataV) -> bool {
        ppp_pkt_ok(v)
    }

    fn serialize(&self, w: &mut Vec<u8>) -> (res: Result<(), Error>) {
        let d = self.data.discriminant();
        d.serialize(w)?;
        self.data.serialize(w)
    }
}

impl Deserialize for PppPkt {
    open spec fn spec_parse(b: Seq<u8>) -> Result<(PppDataV, int), Error> {
        parse_ppp_pkt(b)
    }

    fn deserialize(&mut self, r: &mut Reader<'_>) -> (res: Result<(), Error>) {
        let ghost b = r.bytes_left();
        let mut d: u16 = 0;
        d.deserialize(r)?;
        proof {
            assert(r.bytes_left() =~= b.skip(2));
        }
        let mut data = PppData::default();
        let pres = data.deserialize_with_discriminant(r, &d);
        pres?;
        *self = PppPkt { data };
        Ok(())
    }
}

impl Default for PppPkt {
    fn default() -> (d: Self)
        ensures
            d.deep_view() == PppDataV::Lcp(
                (0u8, crate::lcp::LcpDataV::ConfigureRequest(Seq::<crate::lcp::LcpOptV>::empty())),
            ),
    {
        PppPkt { data: PppData::default() }
    }
}

impl PppPkt {
    /// A PPP packet carrying an LCP packet.
    pub fn new_lcp(lcp: crate::lcp::LcpPkt) -> (p: Self)
        ensures
            p.deep_view() == PppDataV::Lcp(lcp.deep_view()),
    {
        PppPkt { data: PppData::Lcp(lcp) }
    }

    /// A PPP packet carrying a PAP packet.
    pub fn new_pap(pap: crate::pap::PapPkt) -> (p: Self)
        ensures
            p.deep_view() == PppDataV::Pap(pap.deep_view()),
    {
        PppPkt { data: PppData::Pap(pap) }
    }

    /// A PPP packet carrying a CHAP packet.
    pub fn new_chap(chap: crate::chap::ChapPkt) -> (p: Self)
        ensures
            p.deep_view() == PppDataV::Chap(chap.deep_view()),
    {
        PppPkt { data: PppData::Chap(chap) }
    }

    /// A PPP packet carrying an IPCP packet.
    pub fn new_ipcp(ipcp: crate::ipcp::IpcpPkt) -> (p: Self)
        ensures
            p.deep_view() == PppDataV::Ipcp(ipcp.deep_view()),
    {
        PppPkt { data: PppData::Ipcp(ipcp) }
    }

    /// A PPP packet carrying an IPv6CP packet.
    pub fn new_ipv6cp(ipv6cp: crate::ipv6cp::Ipv6cpPkt) -> (p: Self)
        ensures
            p.deep_view() == PppDataV::Ipv6cp(ipv6cp.deep_view()),
    {
        PppPkt { data: PppData::Ipv6cp(ipv6cp) }
    }

    /// The packet length in bytes: the protocol number octets plus the
    /// payload.
    pub fn len(&self) -> (n: u16)
        requires
            ppp_data_ok(self.deep_view()),
            2 + ppp_data_wire(self.deep_view()).len() <= 0xFFFF,
        ensures
            n as int == ppp_pkt_wire(self.deep_view()).len(),
    {
        2 + self.data.len()
    }

    /// Whether the packet carries no payload bytes.
    pub fn is_empty(&self) -> (e: bool)
        requires
            ppp_data_ok(self.deep_view()),
            2 + ppp_data_wire(self.deep_view()).len() <= 0xFFFF,
        ensures
            e == (ppp_data_wire(self.deep_view()).len() == 0),
    {
        self.len() == 2
    }
}

/// Parsing inverts encoding for PPP payloads read against a window
/// that holds exactly the payload, under the payload's own protocol
/// number.
pub proof fn lemma_parse_ppp_data(v: PppDataV)
    requires
        ppp_data_ok(v),
        ppp_data_canonical(v),
    ensures
        parse_ppp_data(ppp_data_code(v), ppp_data_wire(v)) == Ok::<(PppDataV, int), Error>(
            (v, ppp_data_wire(v).len() as int),
        ),
{
    match v {
        PppDataV::Lcp(p) => {
            crate::lcp::lemma_parse_lcp_pkt(p, Seq::<u8>::empty());
            assert(crate::lcp::lcp_pkt_wire(p) + Seq::<u8>::empty() =~= crate::lcp::lcp_pkt_wire(
                p,
            ));
        },
        PppDataV::Pap(p) => {
            crate::pap::lemma_parse_pap_pkt(p, Seq::<u8>::empty());
            assert(crate::pap::pap_pkt_wire(p) + Seq::<u8>::empty() =~= crate::pap::pap_pkt_wire(
                p,
            ));
        },
        PppDataV::Chap(p) => {
            crate::chap::lemma_parse_chap_pkt(p, Seq::<u8>::empty());
            assert(crate::chap::chap_pkt_wire(p) + Seq::<u8>::empty()
                =~= crate::chap::chap_pkt_wire(p));
        },
        PppDataV::Ipcp(p) => {
            crate::ipcp::lemma_parse_ipcp_pkt(p, Seq::<u8>::empty());
            assert(crate::ipcp::ipcp_pkt_wire(p) + Seq::<u8>::empty()
                =~= crate::ipcp::ipcp_pkt_wire(p));
        },
        PppDataV::Ipv6cp(p) => {
            crate::ipv6cp::lemma_parse_ipv6cp_pkt(p, Seq::<u8>::empty());
            assert(crate::ipv6cp::ipv6cp_pkt_wire(p) + Seq::<u8>::empty()
                =~= crate::ipv6cp::ipv6cp_pkt_wire(p));
        },
        PppDataV::Unhandled(_, _) => {},
    }
}

/// Parsing inverts encoding for whole PPP packets read against a
/// window that holds exactly the packet.
pub proof fn lemma_parse_ppp_pkt(v: PppDataV)
    requires
        ppp_data_ok(v),
        ppp_data_canonical(v),
    ensures
        parse_ppp_pkt(ppp_pkt_wire(v)) == Ok::<(PppDataV, int), Error>(
            (v, ppp_pkt_wire(v).len() as int),
        ),
{
    let b = ppp_pkt_wire(v);
    crate::de::lemma_parse_be_u16(ppp_data_code(v), ppp_data_wire(v));
    assert(b.skip(2) =~= ppp_data_wire(v));
    lemma_parse_ppp_data(v);
}

/// Unhandled fidelity: a PPP packet whose protocol number lies outside
/// the catalog decodes to the catch-all holding every byte after the
/// number, and re-encoding that catch-all reproduces the window
/// verbatim.
pub proof fn lemma_ppp_pkt_unhandled_fidelity(b: Seq<u8>)
    requires
        b.len() >= 2,
        b[0] as int * 0x100 + b[1] as int != LCP as int,
        b[0] as int * 0x100 + b[1] as int != PAP as int,
        b[0] as int * 0x100 + b[1] as int != CHAP as int,
        b[0] as int * 0x100 + b[1] as int != IPCP as int,
        b[0] as int * 0x100 + b[1] as int != IPV6CP as int,
    ensures
        parse_ppp_pkt(b) == Ok::<(PppDataV, int), Error>(
            (
                PppDataV::Unhandled((b[0] as int * 0x100 + b[1] as int) as u16, b.skip(2)),
                b.len() as int,
            ),
        ),
        ppp_pkt_wire(PppDataV::Unhandled((b[0] as int * 0x100 + b[1] as int) as u16, b.skip(2)))
            == b,
{
    let d = (b[0] as int * 0x100 + b[1] as int) as u16;
    let x: int = b[0] as int;
    let y: int = b[1] as int;
    assert(d as int / 0x100 == x && d as int % 0x100 == y) by (nonlinear_arith)
        requires
            d as int == x * 0x100 + y,
            0 <= x,
            x < 0x100,
            0 <= y,
            y < 0x100,
    ;
    assert(ppp_pkt_wire(PppDataV::Unhandled(d, b.skip(2))) =~= b);
}

/// A successful framed-authentication-protocol parse consumes at least
/// its two number octets and never more than the window holds.
pub proof fn lemma_parse_auth_protocol_bounds(b: Seq<u8>)
    ensures
        parse_auth_protocol(b) matches Ok(p) ==> 2 <= p.1 <= b.len(),
{
    crate::de::lemma_parse_u16_bounds(b);
}

/// A successful framed-quality-protocol parse consumes exactly six
/// octets, so the window held at least six.
pub proof fn lemma_parse_quality_protocol_bounds(b: Seq<u8>)
    ensures
        parse_quality_protocol(b) matches Ok(p) ==> p.1 == 6 && b.len() >= 6,
{
    crate::de::lemma_parse_u16_bounds(b);
    crate::de::lemma_parse_u32_bounds(b.skip(2));
}

/// A successful framed-IP-compression parse consumes at least its two
/// number octets and never more than the window holds.
pub proof fn lemma_parse_ip_compression_protocol_bounds(b: Seq<u8>)
    ensures
        parse_ip_compression_protocol(b) matches Ok(p) ==> 2 <= p.1 <= b.len(),
{
    crate::de::lemma_parse_u16_bounds(b);
}

/// Parsing inverts encoding for a framed authentication protocol read
/// against a window that holds exactly the frame.
pub proof fn lemma_parse_auth_protocol(v: AuthProtoV)
    requires
        auth_proto_canonical(v),
    ensures
        parse_auth_protocol(auth_protocol_wire(v)) == Ok::<(AuthProtoV, int), Error>(
            (v, auth_protocol_wire(v).len() as int),
        ),
{
    let b = auth_protocol_wire(v);
    crate::de::lemma_parse_be_u16(auth_proto_code(v), auth_proto_wire(v));
    assert(b.skip(2) =~= auth_proto_wire(v));
}

/// Parsing inverts encoding for a framed quality protocol read against
/// a window that holds exactly the frame.
pub proof fn lemma_parse_quality_protocol(v: u32)
    ensures
        parse_quality_protocol(quality_protocol_wire(v)) == Ok::<(u32, int), Error>(
            (v, quality_protocol_wire(v).len() as int),
        ),
{
    let b = quality_protocol_wire(v);
    crate::de::lemma_parse_be_u16(LQR, be_bytes_u32(v));
    assert(b.skip(2) =~= be_bytes_u32(v));
    crate::de::lemma_parse_be_u32(v, Seq::<u8>::empty());
    assert(be_bytes_u32(v) + Seq::<u8>::empty() =~= be_bytes_u32(v));
}

/// Parsing inverts encoding for a framed IP compression protocol read
/// against a window that holds exactly the frame.
pub proof fn lemma_parse_ip_compression_protocol(v: IpCompressionProtoV)
    requires
        ip_compression_canonical(v),
    ensures
        parse_ip_compression_protocol(ip_compression_protocol_wire(v)) == Ok::<
            (IpCompressionProtoV, int),
            Error,
        >((v, ip_compression_protocol_wire(v).len() as int)),
{
    let b = ip_compression_protocol_wire(v);
    crate::de::lemma_parse_be_u16(ip_compression_code(v), ip_compression_wire(v));
    assert(b.skip(2) =~= ip_compression_wire(v));
}

} // verus!
