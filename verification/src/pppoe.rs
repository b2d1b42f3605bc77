use vstd::prelude::*;

use crate::de::Deserialize;
use crate::de::Reader;
use crate::de::min_int;
use crate::de::parse_raw_str;
use crate::de::parse_u16;
use crate::de::read_raw_str;
use crate::error::Error;
use crate::ppp::PppDataV;
use crate::ppp::PppPkt;
use crate::ppp::parse_ppp_pkt;
use crate::ppp::ppp_data_canonical;
use crate::ppp::ppp_data_ok;
use crate::ppp::ppp_pkt_ok;
use crate::ppp::ppp_pkt_wire;
use crate::ser::Serialize;
use crate::ser::be_bytes_u16;
use crate::ser::str_raw_wire;
use crate::ser::write_raw_str;
use crate::types::VerType;

verus! {

broadcast use crate::de::lemma_deep_view_u8;

pub const ETHER_TYPE_PPPOED: u16 = 0x8863;

pub const ETHER_TYPE_PPPOES: u16 = 0x8864;

pub const PPP: u8 = 0x00;

pub const PADI: u8 = 0x09;

pub const PADO: u8 = 0x07;

pub const PADR: u8 = 0x19;

pub const PADS: u8 = 0x65;

pub const PADT: u8 = 0xa7;

pub const TAG_AC_COOKIE: u16 = 0x0104;

pub const TAG_AC_NAME: u16 = 0x0102;

pub const TAG_AC_SYSTEM_ERROR: u16 = 0x0202;

pub const TAG_CREDITS: u16 = 0x0106;

pub const TAG_CREDIT_SCALE_FACTOR: u16 = 0x0109;

pub const TAG_END_OF_LIST: u16 = 0x0000;

pub const TAG_GENERIC_ERROR: u16 = 0x0203;

pub const TAG_HOST_UNIQ: u16 = 0x0103;

pub const TAG_METRICS: u16 = 0x0107;

pub const TAG_PPP_MAX_PAYLOAD: u16 = 0x0120;

pub const TAG_RELAY_SESSION_ID: u16 = 0x0110;

pub const TAG_SEQUENCE_NUMBER: u16 = 0x0108;

pub const TAG_SERVICE_NAME: u16 = 0x0101;

pub const TAG_SERVICE_NAME_ERROR: u16 = 0x0201;

pub const TAG_VENDOR_SPECIFIC: u16 = 0x0105;

/// A medium-access address: six octets as they stand on the wire.
#[derive(Clone, Debug, Eq, PartialEq)]
pub struct MacAddr(pub [u8; 6]);

impl MacAddr {
    /// The all-zero address.
    pub fn unspecified() -> (a: MacAddr)
        ensures
            a.deep_view() =~= seq![0u8, 0u8, 0u8, 0u8, 0u8, 0u8],
    {
        MacAddr([0x00, 0x00, 0x00, 0x00, 0x00, 0x00])
    }

    /// The broadcast address.
    pub fn broadcast() -> (a: MacAddr)
        ensures
            a.deep_view() =~= seq![0xffu8, 0xffu8, 0xffu8, 0xffu8, 0xffu8, 0xffu8],
    {
        MacAddr([0xff, 0xff, 0xff, 0xff, 0xff, 0xff])
    }
}

impl DeepView for MacAddr {
    type V = Seq<u8>;

    open spec fn deep_view(&self) -> Seq<u8> {
        self.0@
    }
}

impl Default for MacAddr {
    /// The unspecified address.
    fn default() -> (d: Self)
        ensures
            d.deep_view() =~= seq![0u8, 0u8, 0u8, 0u8, 0u8, 0u8],
    {
        MacAddr([0, 0, 0, 0, 0, 0])
    }
}

impl From<[u8; 6]> for MacAddr {
    fn from(mac_addr: [u8; 6]) -> (a: Self) {
        MacAddr(mac_addr)
    }
}

impl vstd::std_specs::convert::FromSpecImpl<[u8; 6]> for MacAddr {
    open spec fn obeys_from_spec() -> bool {
        true
    }

    open spec fn from_spec(mac_addr: [u8; 6]) -> Self {
        MacAddr(mac_addr)
    }
}

/// Six address octets.
pub open spec fn parse_mac(b: Seq<u8>) -> Result<(Seq<u8>, int), Error> {
    if b.len() >= 6 {
        Ok((b.subrange(0, 6), 6))
    } else {
        Err(Error::UnexpectedEof)
    }
}

impl Serialize for MacAddr {
    open spec fn spec_wire(v: Seq<u8>) -> Seq<u8> {
        v
    }

    open spec fn wire_ok(v: Seq<u8>) -> bool {
        true
    }

    fn serialize(&self, w: &mut Vec<u8>) -> (res: Result<(), Error>) {
        w.push(self.0[0]);
        w.push(self.0[1]);
        w.push(self.0[2]);
        w.push(self.0[3]);
        w.push(self.0[4]);
        w.push(self.0[5]);
        proof {
            assert(w@ =~= old(w)@ + self.deep_view());
        }
        Ok(())
    }
}

impl Deserialize for MacAddr {
    open spec fn spec_parse(b: Seq<u8>) -> Result<(Seq<u8>, int), Error> {
        parse_mac(b)
    }

    fn deserialize(&mut self, r: &mut Reader<'_>) -> (res: Result<(), Error>) {
        let ghost b = r.bytes_left();
        if r.left() < 6 {
            return Err(Error::UnexpectedEof);
        }
        let b0 = r.read_u8()?;
        proof {
            assert(r.bytes_left() =~= b.skip(1));
        }
        let b1 = r.read_u8()?;
        proof {
            assert(r.bytes_left() =~= b.skip(2));
        }
        let b2 = r.read_u8()?;
        proof {
            assert(r.bytes_left() =~= b.skip(3));
        }
        let b3 = r.read_u8()?;
        proof {
            assert(r.bytes_left() =~= b.skip(4));
        }
        let b4 = r.read_u8()?;
        proof {
            assert(r.bytes_left() =~= b.skip(5));
        }
        let b5 = r.read_u8()?;
        let a = MacAddr([b0, b1, b2, b3, b4, b5]);
        proof {
            assert(a.deep_view() =~= b.subrange(0, 6));
        }
        *self = a;
        Ok(())
    }
}

/// The EtherType of a PPPoE frame: discovery or session traffic. The
/// pair is closed: any other EtherType is a decode error.
#[derive(Clone, Copy, Debug, Eq, PartialEq, Structural)]
pub enum EtherType {
    PppoeDiscovery,
    PppoeSession,
}

impl DeepView for EtherType {
    type V = EtherType;

    open spec fn deep_view(&self) -> EtherType {
        *self
    }
}

/// The 16-bit EtherType value.
pub open spec fn ether_type_code(e: EtherType) -> u16 {
    match e {
        EtherType::PppoeDiscovery => ETHER_TYPE_PPPOED,
        EtherType::PppoeSession => ETHER_TYPE_PPPOES,
    }
}

/// Two EtherType octets; a value outside the PPPoE pair is an error
/// carrying the offending value.
pub open spec fn parse_ether_type(b: Seq<u8>) -> Result<(EtherType, int), Error> {
    match parse_u16(b) {
        Ok((x, n)) => {
            if x == ETHER_TYPE_PPPOED {
                Ok((EtherType::PppoeDiscovery, n))
            } else if x == ETHER_TYPE_PPPOES {
                Ok((EtherType::PppoeSession, n))
            } else {
                Err(Error::InvalidEtherType(x))
            }
        },
        Err(e) => Err(e),
    }
}

impl Default for EtherType {
    fn default() -> (d: Self)
        ensures
            d == EtherType::PppoeDiscovery,
    {
        EtherType::PppoeDiscovery
    }
}

impl Serialize for EtherType {
    open spec fn spec_wire(v: EtherType) -> Seq<u8> {
        be_bytes_u16(ether_type_code(v))
    }

    open spec fn wire_ok(v: EtherType) -> bool {
        true
    }

    fn serialize(&self, w: &mut Vec<u8>) -> (res: Result<(), Error>) {
        let x: u16 = match self {
            EtherType::PppoeDiscovery => ETHER_TYPE_PPPOED,
            EtherType::PppoeSession => ETHER_TYPE_PPPOES,
        };
        x.serialize(w)
    }
}

impl Deserialize for EtherType {
    open spec fn spec_parse(b: Seq<u8>) -> Result<(EtherType, int), Error> {
        parse_ether_type(b)
    }

    fn deserialize(&mut self, r: &mut Reader<'_>) -> (res: Result<(), Error>) {
        let mut x: u16 = 0;
        x.deserialize(r)?;
        if x == ETHER_TYPE_PPPOED {
            *self = EtherType::PppoeDiscovery;
            Ok(())
        } else if x == ETHER_TYPE_PPPOES {
            *self = EtherType::PppoeSession;
            Ok(())
        } else {
            Err(Error::InvalidEtherType(x))
        }
    }
}

/// A PPPoE code octet: the active-session code or one of the five
/// discovery codes. The set is closed: any other octet is a decode
/// error.
#[derive(Clone, Copy, Debug, Eq, PartialEq, Structural)]
pub enum PppoeCode {
    Ppp,
    Padi,
    Pado,
    Padr,
    Pads,
    Padt,
}

impl DeepView for PppoeCode {
    type V = PppoeCode;

    open spec fn deep_view(&self) -> PppoeCode {
        *self
    }
}

/// The wire octet of a PPPoE code.
pub open spec fn pppoe_code_value(c: PppoeCode) -> u8 {
    match c {
        PppoeCode::Ppp => PPP,
        PppoeCode::Padi => PADI,
        PppoeCode::Pado => PADO,
        PppoeCode::Padr => PADR,
        PppoeCode::Pads => PADS,
        PppoeCode::Padt => PADT,
    }
}

/// One code octet; a value outside the catalog is an error carrying
/// the offending value.
pub open spec fn parse_pppoe_code(b: Seq<u8>) -> Result<(PppoeCode, int), Error> {
    if b.len() < 1 {
        Err(Error::UnexpectedEof)
    } else {
        let x = b[0];
        if x == PPP {
            Ok((PppoeCode::Ppp, 1))
        } else if x == PADI {
            Ok((PppoeCode::Padi, 1))
        } else if x == PADO {
            Ok((PppoeCode::Pado, 1))
        } else if x == PADR {
            Ok((PppoeCode::Padr, 1))
        } else if x == PADS {
            Ok((PppoeCode::Pads, 1))
        } else if x == PADT {
            Ok((PppoeCode::Padt, 1))
        } else {
            Err(Error::InvalidPppoeCode(x))
        }
    }
}

impl Default for PppoeCode {
    fn default() -> (d: Self)
        ensures
            d == PppoeCode::Ppp,
    {
        PppoeCode::Ppp
    }
}

impl Serialize for PppoeCode {
    open spec fn spec_wire(v: PppoeCode) -> Seq<u8> {
        seq![pppoe_code_value(v)]
    }

    open spec fn wire_ok(v: PppoeCode) -> bool {
        true
    }

    fn serialize(&self, w: &mut Vec<u8>) -> (res: Result<(), Error>) {
        let x: u8 = match self {
            PppoeCode::Ppp => PPP,
            PppoeCode::Padi => PADI,
            PppoeCode::Pado => PADO,
            PppoeCode::Padr => PADR,
            PppoeCode::Pads => PADS,
            PppoeCode::Padt => PADT,
        };
        x.serialize(w)
    }
}

impl Deserialize for PppoeCode {
    open spec fn spec_parse(b: Seq<u8>) -> Result<(PppoeCode, int), Error> {
        parse_pppoe_code(b)
    }

    fn deserialize(&mut self, r: &mut Reader<'_>) -> (res: Result<(), Error>) {
        let x = r.read_u8()?;
        if x == PPP {
            *self = PppoeCode::Ppp;
        } else if x == PADI {
            *self = PppoeCode::Padi;
        } else if x == PADO {
            *self = PppoeCode::Pado;
        } else if x == PADR {
            *self = PppoeCode::Padr;
        } else if x == PADS {
            *self = PppoeCode::Pads;
        } else if x == PADT {
            *self = PppoeCode::Padt;
        } else {
            return Err(Error::InvalidPppoeCode(x));
        }
        Ok(())
    }
}

/// A PPPoE tag value: one variant per tag type. The tag space is
/// closed by this catalog: an unrecognized tag type is a decode error.
#[derive(Clone, Debug, Eq, PartialEq)]
pub enum PppoeVal {
    AcCookie(Vec<u8>),
    AcName(String),
    AcSystemError(String),
    Credits,
    CreditScaleFactor,
    EndOfList,
    GenericError(String),
    HostUniq(Vec<u8>),
    Metrics,
    PppMaxPayload,
    RelaySessionId(Vec<u8>),
    SequenceNumber,
    ServiceName(String),
    ServiceNameError(String),
    VendorSpecific(Vec<u8>),
}

/// The abstract form of a PPPoE tag value.
pub enum PppoeValV {
    AcCookie(Seq<u8>),
    AcName(Seq<char>),
    AcSystemError(Seq<char>),
    Credits,
    CreditScaleFactor,
    EndOfList,
    GenericError(Seq<char>),
    HostUniq(Seq<u8>),
    Metrics,
    PppMaxPayload,
    RelaySessionId(Seq<u8>),
    SequenceNumber,
    ServiceName(Seq<char>),
    ServiceNameError(Seq<char>),
    VendorSpecific(Seq<u8>),
}

impl DeepView for PppoeVal {
    type V = PppoeValV;

    open spec fn deep_view(&self) -> PppoeValV {
        match self {
            PppoeVal::AcCookie(b) => PppoeValV::AcCookie(b.deep_view()),
            PppoeVal::AcName(s) => PppoeValV::AcName(s.deep_view()),
            PppoeVal::AcSystemError(s) => PppoeValV::AcSystemError(s.deep_view()),
            PppoeVal::Credits => PppoeValV::Credits,
            PppoeVal::CreditScaleFactor => PppoeValV::CreditScaleFactor,
            PppoeVal::EndOfList => PppoeValV::EndOfList,
            PppoeVal::GenericError(s) => PppoeValV::GenericError(s.deep_view()),
            PppoeVal::HostUniq(b) => PppoeValV::HostUniq(b.deep_view()),
            PppoeVal::Metrics => PppoeValV::Metrics,
            PppoeVal::PppMaxPayload => PppoeValV::PppMaxPayload,
            PppoeVal::RelaySessionId(b) => PppoeValV::RelaySessionId(b.deep_view()),
            PppoeVal::SequenceNumber => PppoeValV::SequenceNumber,
            PppoeVal::ServiceName(s) => PppoeValV::ServiceName(s.deep_view()),
            PppoeVal::ServiceNameError(s) => PppoeValV::ServiceNameError(s.deep_view()),
            PppoeVal::VendorSpecific(b) => PppoeValV::VendorSpecific(b.deep_view()),
        }
    }
}

/// The 16-bit tag type of a PPPoE tag value.
pub open spec fn pppoe_val_tag(v: PppoeValV) -> u16 {
    match v {
        PppoeValV::AcCookie(_) => TAG_AC_COOKIE,
        PppoeValV::AcName(_) => TAG_AC_NAME,
        PppoeValV::AcSystemError(_) => TAG_AC_SYSTEM_ERROR,
        PppoeValV::Credits => TAG_CREDITS,
        PppoeValV::CreditScaleFactor => TAG_CREDIT_SCALE_FACTOR,
        PppoeValV::EndOfList => TAG_END_OF_LIST,
        PppoeValV::GenericError(_) => TAG_GENERIC_ERROR,
        PppoeValV::HostUniq(_) => TAG_HOST_UNIQ,
        PppoeValV::Metrics => TAG_METRICS,
        PppoeValV::PppMaxPayload => TAG_PPP_MAX_PAYLOAD,
        PppoeValV::RelaySessionId(_) => TAG_RELAY_SESSION_ID,
        PppoeValV::SequenceNumber => TAG_SEQUENCE_NUMBER,
        PppoeValV::ServiceName(_) => TAG_SERVICE_NAME,
        PppoeValV::ServiceNameError(_) => TAG_SERVICE_NAME_ERROR,
        PppoeValV::VendorSpecific(_) => TAG_VENDOR_SPECIFIC,
    }
}

/// The value bytes of a PPPoE tag: text tags carry raw UTF-8, byte
/// tags carry their bytes, and flag tags carry nothing.
pub open spec fn pppoe_val_wire(v: PppoeValV) -> Seq<u8> {
    match v {
        PppoeValV::AcCookie(b) => b,
        PppoeValV::AcName(s) => str_raw_wire(s),
        PppoeValV::AcSystemError(s) => str_raw_wire(s),
        PppoeValV::Credits => Seq::empty(),
        PppoeValV::CreditScaleFactor => Seq::empty(),
        PppoeValV::EndOfList => Seq::empty(),
        PppoeValV::GenericError(s) => str_raw_wire(s),
        PppoeValV::HostUniq(b) => b,
        PppoeValV::Metrics => Seq::empty(),
        PppoeValV::PppMaxPayload => Seq::empty(),
        PppoeValV::RelaySessionId(b) => b,
        PppoeValV::SequenceNumber => Seq::empty(),
        PppoeValV::ServiceName(s) => str_raw_wire(s),
        PppoeValV::ServiceNameError(s) => str_raw_wire(s),
        PppoeValV::VendorSpecific(b) => b,
    }
}

/// Whether the value fits a tag's 16-bit length field.
pub open spec fn pppoe_val_ok(v: PppoeValV) -> bool {
    pppoe_val_wire(v).len() <= 0xFFFF
}

/// Decode a PPPoE tag value from a window already bounded to the
/// declared value length, dispatching on the tag type; an unrecognized
/// type is an error carrying the offending value.
pub open spec fn parse_pppoe_val(t: u16, b: Seq<u8>) -> Result<(PppoeValV, int), Error> {
    if t == TAG_AC_COOKIE {
        Ok((PppoeValV::AcCookie(b), b.len() as int))
    } else if t == TAG_AC_NAME {
        match parse_raw_str(b) {
            Ok((s, n)) => Ok((PppoeValV::AcName(s), n)),
            Err(e) => Err(e),
        }
    } else if t == TAG_AC_SYSTEM_ERROR {
        match parse_raw_str(b) {
            Ok((s, n)) => Ok((PppoeValV::AcSystemError(s), n)),
            Err(e) => Err(e),
        }
    } else if t == TAG_CREDITS {
        Ok((PppoeValV::Credits, 0))
    } else if t == TAG_CREDIT_SCALE_FACTOR {
        Ok((PppoeValV::CreditScaleFactor, 0))
    } else if t == TAG_END_OF_LIST {
        Ok((PppoeValV::EndOfList, 0))
    } else if t == TAG_GENERIC_ERROR {
        match parse_raw_str(b) {
            Ok((s, n)) => Ok((PppoeValV::GenericError(s), n)),
            Err(e) => Err(e),
        }
    } else if t == TAG_HOST_UNIQ {
        Ok((PppoeValV::HostUniq(b), b.len() as int))
    } else if t == TAG_METRICS {
        Ok((PppoeValV::Metrics, 0))
    } else if t == TAG_PPP_MAX_PAYLOAD {
        Ok((PppoeValV::PppMaxPayload, 0))
    } else if t == TAG_RELAY_SESSION_ID {
        Ok((PppoeValV::RelaySessionId(b), b.len() as int))
    } else if t == TAG_SEQUENCE_NUMBER {
        Ok((PppoeValV::SequenceNumber, 0))
    } else if t == TAG_SERVICE_NAME {
        match parse_raw_str(b) {
            Ok((s, n)) => Ok((PppoeValV::ServiceName(s), n)),
            Err(e) => Err(e),
        }
    } else if t == TAG_SERVICE_NAME_ERROR {
        match parse_raw_str(b) {
            Ok((s, n)) => Ok((PppoeValV::ServiceNameError(s), n)),
            Err(e) => Err(e),
        }
    } else if t == TAG_VENDOR_SPECIFIC {
        Ok((PppoeValV::VendorSpecific(b), b.len() as int))
    } else {
        Err(Error::InvalidPppoeTag(t))
    }
}

impl Serialize for PppoeVal {
    open spec fn spec_wire(v: PppoeValV) -> Seq<u8> {
        pppoe_val_wire(v)
    }

    open spec fn wire_ok(v: PppoeValV) -> bool {
        true
    }

    fn serialize(&self, w: &mut Vec<u8>) -> (res: Result<(), Error>) {
        match self {
            PppoeVal::AcCookie(b) => b.serialize(w),
            PppoeVal::AcName(s) => {
                write_raw_str(w, s);
                Ok(())
            },
            PppoeVal::AcSystemError(s) => {
                write_raw_str(w, s);
                Ok(())
            },
            PppoeVal::Credits => Ok(()),
            PppoeVal::CreditScaleFactor => Ok(()),
            PppoeVal::EndOfList => Ok(()),
            PppoeVal::GenericError(s) => {
                write_raw_str(w, s);
                Ok(())
            },
            PppoeVal::HostUniq(b) => b.serialize(w),
            PppoeVal::Metrics => Ok(()),
            PppoeVal::PppMaxPayload => Ok(()),
            PppoeVal::RelaySessionId(b) => b.serialize(w),
            PppoeVal::SequenceNumber => Ok(()),
            PppoeVal::ServiceName(s) => {
                write_raw_str(w, s);
                Ok(())
            },
            PppoeVal::ServiceNameError(s) => {
                write_raw_str(w, s);
                Ok(())
            },
            PppoeVal::VendorSpecific(b) => b.serialize(w),
        }
    }
}

impl PppoeVal {
    /// The 16-bit tag type this value is written under.
    pub fn discriminant(&self) -> (t: u16)
        ensures
            t == pppoe_val_tag(self.deep_view()),
    {
        match self {
            PppoeVal::AcCookie(_) => TAG_AC_COOKIE,
            PppoeVal::AcName(_) => TAG_AC_NAME,
            PppoeVal::AcSystemError(_) => TAG_AC_SYSTEM_ERROR,
            PppoeVal::Credits => TAG_CREDITS,
            PppoeVal::CreditScaleFactor => TAG_CREDIT_SCALE_FACTOR,
            PppoeVal::EndOfList => TAG_END_OF_LIST,
            PppoeVal::GenericError(_) => TAG_GENERIC_ERROR,
            PppoeVal::HostUniq(_) => TAG_HOST_UNIQ,
            PppoeVal::Metrics => TAG_METRICS,
            PppoeVal::PppMaxPayload => TAG_PPP_MAX_PAYLOAD,
            PppoeVal::RelaySessionId(_) => TAG_RELAY_SESSION_ID,
            PppoeVal::SequenceNumber => TAG_SEQUENCE_NUMBER,
            PppoeVal::ServiceName(_) => TAG_SERVICE_NAME,
            PppoeVal::ServiceNameError(_) => TAG_SERVICE_NAME_ERROR,
            PppoeVal::VendorSpecific(_) => TAG_VENDOR_SPECIFIC,
        }
    }

    /// The value length in bytes.
    pub fn len(&self) -> (n: u16)
        requires
            pppoe_val_ok(self.deep_view()),
        ensures
            n as int == pppoe_val_wire(self.deep_view()).len(),
    {
        match self {
            PppoeVal::AcCookie(b) => b.len() as u16,
            PppoeVal::AcName(s) => s.as_str().len() as u16,
            PppoeVal::AcSystemError(s) => s.as_str().len() as u16,
            PppoeVal::Credits => 0,
            PppoeVal::CreditScaleFactor => 0,
            PppoeVal::EndOfList => 0,
            PppoeVal::GenericError(s) => s.as_str().len() as u16,
            PppoeVal::HostUniq(b) => b.len() as u16,
            PppoeVal::Metrics => 0,
            PppoeVal::PppMaxPayload => 0,
            PppoeVal::RelaySessionId(b) => b.len() as u16,
            PppoeVal::SequenceNumber => 0,
            PppoeVal::ServiceName(s) => s.as_str().len() as u16,
            PppoeVal::ServiceNameError(s) => s.as_str().len() as u16,
            PppoeVal::VendorSpecific(b) => b.len() as u16,
        }
    }

    /// Decode the value for a tag type already read from the wire; a
    /// tag outside the catalog is an error, since PPPoE tags have no
    /// catch-all here.
    pub fn deserialize_with_discriminant(
        &mut self,
        r: &mut Reader<'_>,
        discriminant: &u16,
    ) -> (res: Result<(), Error>)
        requires
            old(r).wf(),
        ensures
            final(r).wf(),
            final(r).all_bytes() == old(r).all_bytes(),
            final(r).stop() == old(r).stop(),
            old(r).start() <= final(r).start(),
            match parse_pppoe_val(*discriminant, old(r).bytes_left()) {
                Ok((v, n)) => res is Ok && final(self).deep_view() == v && final(r).start() == old(
                    r,
                ).start() + n,
                Err(e) => res == Err::<(), Error>(e),
            },
    {
        if *discriminant == TAG_AC_COOKIE {
            let tmp = r.read_rest();
            *self = PppoeVal::AcCookie(tmp);
        } else if *discriminant == TAG_AC_NAME {
            let tmp = read_raw_str(r)?;
            *self = PppoeVal::AcName(tmp);
        } else if *discriminant == TAG_AC_SYSTEM_ERROR {
            let tmp = read_raw_str(r)?;
            *self = PppoeVal::AcSystemError(tmp);
        } else if *discriminant == TAG_CREDITS {
            *self = PppoeVal::Credits;
        } else if *discriminant == TAG_CREDIT_SCALE_FACTOR {
            *self = PppoeVal::CreditScaleFactor;
        } else if *discriminant == TAG_END_OF_LIST {
            *self = PppoeVal::EndOfList;
        } else if *discriminant == TAG_GENERIC_ERROR {
            let tmp = read_raw_str(r)?;
            *self = PppoeVal::GenericError(tmp);
        } else if *discriminant == TAG_HOST_UNIQ {
            let tmp = r.read_rest();
            *self = PppoeVal::HostUniq(tmp);
        } else if *discriminant == TAG_METRICS {
            *self = PppoeVal::Metrics;
        } else if *discriminant == TAG_PPP_MAX_PAYLOAD {
            *self = PppoeVal::PppMaxPayload;
        } else if *discriminant == TAG_RELAY_SESSION_ID {
            let tmp = r.read_rest();
            *self = PppoeVal::RelaySessionId(tmp);
        } else if *discriminant == TAG_SEQUENCE_NUMBER {
            *self = PppoeVal::SequenceNumber;
        } else if *discriminant == TAG_SERVICE_NAME {
            let tmp = read_raw_str(r)?;
            *self = PppoeVal::ServiceName(tmp);
        } else if *discriminant == TAG_SERVICE_NAME_ERROR {
            let tmp = read_raw_str(r)?;
            *self = PppoeVal::ServiceNameError(tmp);
        } else if *discriminant == TAG_VENDOR_SPECIFIC {
            let tmp = r.read_rest();
            *self = PppoeVal::VendorSpecific(tmp);
        } else {
            return Err(Error::InvalidPppoeTag(*discriminant));
        }
        Ok(())
    }
}

/// One PPPoE tag as framed on the wire: a 16-bit tag type, a 16-bit
/// length counting the value alone, then the value.
#[derive(Clone, Debug, Eq, PartialEq)]
pub struct PppoeTag {
    pub data: PppoeVal,
}

impl DeepView for PppoeTag {
    type V = PppoeValV;

    open spec fn deep_view(&self) -> PppoeValV {
        self.data.deep_view()
    }
}

impl From<PppoeVal> for PppoeTag {
    fn from(data: PppoeVal) -> (t: Self) {
        PppoeTag { data }
    }
}

impl vstd::std_specs::convert::FromSpecImpl<PppoeVal> for PppoeTag {
    open spec fn obeys_from_spec() -> bool {
        true
    }

    open spec fn from_spec(data: PppoeVal) -> Self {
        PppoeTag { data }
    }
}

/// The full wire form of one framed PPPoE tag.
pub open spec fn pppoe_tag_wire(v: PppoeValV) -> Seq<u8> {
    be_bytes_u16(pppoe_val_tag(v)) + be_bytes_u16(pppoe_val_wire(v).len() as u16) + pppoe_val_wire(
        v,
    )
}

/// Decode one framed PPPoE tag: type, length, then the value read from
/// a window bounded to the declared length.
pub open spec fn parse_pppoe_tag(b: Seq<u8>) -> Result<(PppoeValV, int), Error> {
    if b.len() < 4 {
        Err(Error::UnexpectedEof)
    } else {
        let t = (b[0] as int * 0x100 + b[1] as int) as u16;
        let l = b[2] as int * 0x100 + b[3] as int;
        let m = min_int(l, b.len() - 4);
        match parse_pppoe_val(t, b.subrange(4, 4 + m)) {
            Ok((v, n)) => Ok((v, 4 + n)),
            Err(e) => Err(e),
        }
    }
}

/// A successful tag parse consumes at least its four header octets and
/// never more than the window holds.
pub proof fn lemma_parse_pppoe_tag_bounds(b: Seq<u8>)
    ensures
        parse_pppoe_tag(b) matches Ok(p) ==> 4 <= p.1 <= b.len(),
{
}

impl Serialize for PppoeTag {
    open spec fn spec_wire(v: PppoeValV) -> Seq<u8> {
        pppoe_tag_wire(v)
    }

    open spec fn wire_ok(v: PppoeValV) -> bool {
        pppoe_val_ok(v)
    }

    fn serialize(&self, w: &mut Vec<u8>) -> (res: Result<(), Error>) {
        let t = self.data.discriminant();
        t.serialize(w)?;
        let mark = w.len();
        w.push(0);
        w.push(0);
        self.data.serialize(w)?;
        let n = w.len() - mark - 2;
        if n > 0xFFFF {
            return Err(Error::TryFromInt);
        }
        let l = n as u16;
        w.set(mark, (l / 0x100) as u8);
        w.set(mark + 1, (l % 0x100) as u8);
        proof {
            assert(w@ =~= old(w)@ + pppoe_tag_wire(self.deep_view()));
        }
        Ok(())
    }
}

impl Deserialize for PppoeTag {
    open spec fn spec_parse(b: Seq<u8>) -> Result<(PppoeValV, int), Error> {
        parse_pppoe_tag(b)
    }

    fn deserialize(&mut self, r: &mut Reader<'_>) -> (res: Result<(), Error>) {
        let ghost b = r.bytes_left();
        let mut t: u16 = 0;
        t.deserialize(r)?;
        proof {
            assert(r.bytes_left() =~= b.skip(2));
        }
        let mut l: u16 = 0;
        l.deserialize(r)?;
        let mut sub = r.begin_bounded(l as usize);
        proof {
            assert(sub.bytes_left() =~= b.subrange(4, 4 + min_int(l as int, b.len() - 4)));
        }
        let mut data = PppoeVal::EndOfList;
        let pres = data.deserialize_with_discriminant(&mut sub, &t);
        r.resume_from(&sub);
        pres?;
        *self = PppoeTag { data };
        Ok(())
    }
}

impl PppoeTag {
    /// The framed length in bytes: the four header octets plus the
    /// value.
    pub fn len(&self) -> (n: u16)
        requires
            pppoe_val_ok(self.deep_view()),
            4 + pppoe_val_wire(self.deep_view()).len() <= 0xFFFF,
        ensures
            n as int == pppoe_tag_wire(self.deep_view()).len(),
    {
        4 + self.data.len()
    }

    /// Whether the tag carries no value octets.
    pub fn is_empty(&self) -> (e: bool)
        requires
            pppoe_val_ok(self.deep_view()),
            4 + pppoe_val_wire(self.deep_view()).len() <= 0xFFFF,
        ensures
            e == (pppoe_val_wire(self.deep_view()).len() == 0),
    {
        self.len() == 4
    }
}

/// The concatenated wire form of a whole tag list.
pub open spec fn pppoe_tags_wire(vs: Seq<PppoeValV>) -> Seq<u8>
    decreases vs.len(),
{
    if vs.len() == 0 {
        Seq::empty()
    } else {
        pppoe_tag_wire(vs[0]) + pppoe_tags_wire(vs.skip(1))
    }
}

/// Whether every tag of a list fits its length field.
pub open spec fn pppoe_tags_ok(vs: Seq<PppoeValV>) -> bool {
    forall|i: int| 0 <= i < vs.len() ==> pppoe_val_ok(#[trigger] vs[i])
}

/// Decode framed tags one after another until the window is empty.
pub open spec fn parse_pppoe_tags(b: Seq<u8>) -> Result<(Seq<PppoeValV>, int), Error>
    decreases b.len(),
{
    if b.len() == 0 {
        Ok((Seq::empty(), 0))
    } else {
        match parse_pppoe_tag(b) {
            Ok((v, n)) => {
                if 1 <= n <= b.len() {
                    match parse_pppoe_tags(b.skip(n)) {
                        Ok((vs, n2)) => Ok((seq![v] + vs, n + n2)),
                        Err(e) => Err(e),
                    }
                } else {
                    Err(Error::UnexpectedEof)
                }
            },
            Err(e) => Err(e),
        }
    }
}

impl Serialize for Vec<PppoeTag> {
    open spec fn spec_wire(vs: Seq<PppoeValV>) -> Seq<u8> {
        pppoe_tags_wire(vs)
    }

    open spec fn wire_ok(vs: Seq<PppoeValV>) -> bool {
        pppoe_tags_ok(vs)
    }

    fn serialize(&self, w: &mut Vec<u8>) -> (res: Result<(), Error>) {
        let ghost dv = self.deep_view();
        let n = self.len();
        proof {
            assert(dv.skip(0) =~= dv);
        }
        let mut i: usize = 0;
        while i < n
            invariant
                i <= n,
                n == self@.len(),
                dv == self.deep_view(),
                dv.len() == n,
                forall|j: int| 0 <= j < i ==> pppoe_val_ok(#[trigger] dv[j]),
                w@ + pppoe_tags_wire(dv.skip(i as int)) == old(w)@ + pppoe_tags_wire(dv),
            decreases n - i,
        {
            let res = self[i].serialize(w);
            proof {
                assert(dv.skip(i as int)[0] == dv[i as int]);
                assert(dv.skip(i as int).skip(1) =~= dv.skip(i as int + 1));
            }
            if res.is_err() {
                return Err(Error::TryFromInt);
            }
            i = i + 1;
        }
        proof {
            assert(dv.skip(n as int) =~= Seq::<PppoeValV>::empty());
        }
        Ok(())
    }
}

impl Deserialize for Vec<PppoeTag> {
    open spec fn spec_parse(b: Seq<u8>) -> Result<(Seq<PppoeValV>, int), Error> {
        parse_pppoe_tags(b)
    }

    fn deserialize(&mut self, r: &mut Reader<'_>) -> (res: Result<(), Error>) {
        let ghost b0 = r.bytes_left();
        let mut acc: Vec<PppoeTag> = Vec::new();
        while r.has_left()
            invariant
                r.wf(),
                r.all_bytes() == old(r).all_bytes(),
                r.stop() == old(r).stop(),
                old(r).start() <= r.start(),
                match parse_pppoe_tags(r.bytes_left()) {
                    Ok((vs, n)) => parse_pppoe_tags(b0) == Ok::<(Seq<PppoeValV>, int), Error>(
                        (acc.deep_view() + vs, (r.start() - old(r).start()) + n),
                    ),
                    Err(e) => parse_pppoe_tags(b0) == Err::<(Seq<PppoeValV>, int), Error>(e),
                },
            decreases r.stop() - r.start(),
        {
            let ghost cur = r.bytes_left();
            let ghost start_iter = r.start();
            let ghost acc0 = acc.deep_view();
            let mut tmp = PppoeTag { data: PppoeVal::EndOfList };
            let pres = tmp.deserialize(r);
            proof {
                lemma_parse_pppoe_tag_bounds(cur);
            }
            match pres {
                Err(e) => {
                    proof {
                        assert(parse_pppoe_tags(cur) == Err::<(Seq<PppoeValV>, int), Error>(e));
                    }
                    return Err(e);
                },
                Ok(_) => {},
            }
            acc.push(tmp);
            proof {
                let n = r.start() - start_iter;
                assert(r.bytes_left() =~= cur.skip(n));
                assert(acc.deep_view() =~= acc0 + seq![tmp.deep_view()]);
                if parse_pppoe_tags(r.bytes_left()) is Ok {
                    let (vs, n2) = parse_pppoe_tags(r.bytes_left())->Ok_0;
                    assert(acc0 + (seq![tmp.deep_view()] + vs) =~= acc.deep_view() + vs);
                }
            }
        }
        proof {
            assert(r.bytes_left() =~= Seq::<u8>::empty());
            assert(acc.deep_view() + Seq::<PppoeValV>::empty() =~= acc.deep_view());
        }
        *self = acc;
        Ok(())
    }
}

/// The summed wire length of a whole tag list.
fn pppoe_tags_len(tags: &Vec<PppoeTag>) -> (n: u16)
    requires
        pppoe_tags_ok(tags.deep_view()),
        pppoe_tags_wire(tags.deep_view()).len() <= 0xFFFF,
    ensures
        n as int == pppoe_tags_wire(tags.deep_view()).len(),
{
    let ghost dv = tags.deep_view();
    proof {
        assert(dv.skip(0) =~= dv);
    }
    let k = tags.len();
    let mut total: usize = 0;
    let mut i: usize = 0;
    while i < k
        invariant
            i <= k,
            total + pppoe_tags_wire(dv.skip(i as int)).len() == pppoe_tags_wire(dv).len(),
        decreases k - i,
    {
        proof {
            assert(dv.skip(i as int)[0] == dv[i as int]);
            assert(dv.skip(i as int).skip(1) =~= dv.skip(i as int + 1));
        }
        let step = tags[i].data.len();
        total = total + 4 + step as usize;
        i = i + 1;
    }
    proof {
        assert(dv.skip(k as int) =~= Seq::<PppoeValV>::empty());
    }
    total as u16
}

/// A PPPoE frame payload: a PPP packet for session traffic, or a tag
/// list under one of the five discovery codes. The code space is
/// closed: an unrecognized code is a decode error.
#[derive(Clone, Debug, Eq, PartialEq)]
pub enum PppoeData {
    Ppp(PppPkt),
    Padi(PppoePadi),
    Pado(PppoePado),
    Padr(PppoePadr),
    Pads(PppoePads),
    Padt(PppoePadt),
}

/// The abstract form of a PPPoE frame payload.
pub enum PppoeDataV {
    Ppp(PppDataV),
    Padi(Seq<PppoeValV>),
    Pado(Seq<PppoeValV>),
    Padr(Seq<PppoeValV>),
    Pads(Seq<PppoeValV>),
    Padt(Seq<PppoeValV>),
}

impl DeepView for PppoeData {
    type V = PppoeDataV;

    open spec fn deep_view(&self) -> PppoeDataV {
        match self {
            PppoeData::Ppp(p) => PppoeDataV::Ppp(p.deep_view()),
            PppoeData::Padi(p) => PppoeDataV::Padi(p.tags.deep_view()),
            PppoeData::Pado(p) => PppoeDataV::Pado(p.tags.deep_view()),
            PppoeData::Padr(p) => PppoeDataV::Padr(p.tags.deep_view()),
            PppoeData::Pads(p) => PppoeDataV::Pads(p.tags.deep_view()),
            PppoeData::Padt(p) => PppoeDataV::Padt(p.tags.deep_view()),
        }
    }
}

/// The wire code of a PPPoE frame payload.
pub open spec fn pppoe_data_code(v: PppoeDataV) -> u8 {
    match v {
        PppoeDataV::Ppp(_) => PPP,
        PppoeDataV::Padi(_) => PADI,
        PppoeDataV::Pado(_) => PADO,
        PppoeDataV::Padr(_) => PADR,
        PppoeDataV::Pads(_) => PADS,
        PppoeDataV::Padt(_) => PADT,
    }
}

/// The payload bytes of a PPPoE frame.
pub open spec fn pppoe_data_wire(v: PppoeDataV) -> Seq<u8> {
    match v {
        PppoeDataV::Ppp(p) => ppp_pkt_wire(p),
        PppoeDataV::Padi(vs) => pppoe_tags_wire(vs),
        PppoeDataV::Pado(vs) => pppoe_tags_wire(vs),
        PppoeDataV::Padr(vs) => pppoe_tags_wire(vs),
        PppoeDataV::Pads(vs) => pppoe_tags_wire(vs),
        PppoeDataV::Padt(vs) => pppoe_tags_wire(vs),
    }
}

/// Whether the payload can be encoded.
pub open spec fn pppoe_data_ok(v: PppoeDataV) -> bool {
    match v {
        PppoeDataV::Ppp(p) => ppp_pkt_ok(p),
        PppoeDataV::Padi(vs) => pppoe_tags_ok(vs),
        PppoeDataV::Pado(vs) => pppoe_tags_ok(vs),
        PppoeDataV::Padr(vs) => pppoe_tags_ok(vs),
        PppoeDataV::Pads(vs) => pppoe_tags_ok(vs),
        PppoeDataV::Padt(vs) => pppoe_tags_ok(vs),
    }
}

/// Whether the payload is canonical down through its nesting.
pub open spec fn pppoe_data_canonical(v: PppoeDataV) -> bool {
    match v {
        PppoeDataV::Ppp(p) => ppp_data_canonical(p),
        _ => true,
    }
}

/// Decode a PPPoE frame payload from a window already bounded to the
/// frame's length field, dispatching on the code octet; an
/// unrecognized code is an error carrying the offending value.
pub open spec fn parse_pppoe_data(code: u8, b: Seq<u8>) -> Result<(PppoeDataV, int), Error> {
    if code == PPP {
        match parse_ppp_pkt(b) {
            Ok((p, n)) => Ok((PppoeDataV::Ppp(p), n)),
            Err(e) => Err(e),
        }
    } else if code == PADI {
        match parse_pppoe_tags(b) {
            Ok((vs, n)) => Ok((PppoeDataV::Padi(vs), n)),
            Err(e) => Err(e),
        }
    } else if code == PADO {
        match parse_pppoe_tags(b) {
            Ok((vs, n)) => Ok((PppoeDataV::Pado(vs), n)),
            Err(e) => Err(e),
        }
    } else if code == PADR {
        match parse_pppoe_tags(b) {
            Ok((vs, n)) => Ok((PppoeDataV::Padr(vs), n)),
            Err(e) => Err(e),
        }
    } else if code == PADS {
        match parse_pppoe_tags(b) {
            Ok((vs, n)) => Ok((PppoeDataV::Pads(vs), n)),
            Err(e) => Err(e),
        }
    } else if code == PADT {
        match parse_pppoe_tags(b) {
            Ok((vs, n)) => Ok((PppoeDataV::Padt(vs), n)),
            Err(e) => Err(e),
        }
    } else {
        Err(Error::InvalidPppoeCode(code))
    }
}

impl Serialize for PppoeData {
    open spec fn spec_wire(v: PppoeDataV) -> Seq<u8> {
        pppoe_data_wire(v)
    }

    open spec fn wire_ok(v: PppoeDataV) -> bool {
        pppoe_data_ok(v)
    }

    fn serialize(&self, w: &mut Vec<u8>) -> (res: Result<(), Error>) {
        match self {
            PppoeData::Ppp(p) => p.serialize(w),
            PppoeData::Padi(p) => p.serialize(w),
            PppoeData::Pado(p) => p.serialize(w),
            PppoeData::Padr(p) => p.serialize(w),
            PppoeData::Pads(p) => p.serialize(w),
            PppoeData::Padt(p) => p.serialize(w),
        }
    }
}

impl PppoeData {
    /// The wire code this payload is written under.
    pub fn discriminant(&self) -> (code: u8)
        ensures
            code == pppoe_data_code(self.deep_view()),
    {
        match self {
            PppoeData::Ppp(_) => PPP,
            PppoeData::Padi(_) => PADI,
            PppoeData::Pado(_) => PADO,
            PppoeData::Padr(_) => PADR,
            PppoeData::Pads(_) => PADS,
            PppoeData::Padt(_) => PADT,
        }
    }

    /// The payload length in bytes.
    pub fn len(&self) -> (n: u16)
        requires
            pppoe_data_ok(self.deep_view()),
            pppoe_data_wire(self.deep_view()).len() <= 0xFFFF,
        ensures
            n as int == pppoe_data_wire(self.deep_view()).len(),
    {
        match self {
            PppoeData::Ppp(p) => p.len(),
            PppoeData::Padi(p) => p.len(),
            PppoeData::Pado(p) => p.len(),
            PppoeData::Padr(p) => p.len(),
            PppoeData::Pads(p) => p.len(),
            PppoeData::Padt(p) => p.len(),
        }
    }

    /// Decode the payload for a code already read from the wire; an
    /// unrecognized code is an error, since the PPPoE code space is
    /// closed.
    pub fn deserialize_with_discriminant(
        &mut self,
        r: &mut Reader<'_>,
        discriminant: &u8,
    ) -> (res: Result<(), Error>)
        requires
            old(r).wf(),
        ensures
            final(r).wf(),
            final(r).all_bytes() == old(r).all_bytes(),
            final(r).stop() == old(r).stop(),
            old(r).start() <= final(r).start(),
            match parse_pppoe_data(*discriminant, old(r).bytes_left()) {
                Ok((v, n)) => res is Ok && final(self).deep_view() == v && final(r).start() == old(
                    r,
                ).start() + n,
                Err(e) => res == Err::<(), Error>(e),
            },
    {
        if *discriminant == PPP {
            let mut tmp = PppPkt::default();
            tmp.deserialize(r)?;
            *self = PppoeData::Ppp(tmp);
        } else if *discriminant == PADI {
            let mut tmp = PppoePadi::default();
            tmp.deserialize(r)?;
            *self = PppoeData::Padi(tmp);
        } else if *discriminant == PADO {
            let mut tmp = PppoePado::default();
            tmp.deserialize(r)?;
            *self = PppoeData::Pado(tmp);
        } else if *discriminant == PADR {
            let mut tmp = PppoePadr::default();
            tmp.deserialize(r)?;
            *self = PppoeData::Padr(tmp);
        } else if *discriminant == PADS {
            let mut tmp = PppoePads::default();
            tmp.deserialize(r)?;
            *self = PppoeData::Pads(tmp);
        } else if *discriminant == PADT {
            let mut tmp = PppoePadt::default();
            tmp.deserialize(r)?;
            *self = PppoeData::Padt(tmp);
        } else {
            return Err(Error::InvalidPppoeCode(*discriminant));
        }
        Ok(())
    }
}

impl Default for PppoeData {
    fn default() -> (d: Self)
        ensures
            d.deep_view() == PppoeDataV::Padi(Seq::<PppoeValV>::empty()),
    {
        let d = PppoeData::Padi(PppoePadi::default());
        proof {
            assert(d.deep_view()->Padi_0 =~= Seq::<PppoeValV>::empty());
        }
        d
    }
}

/// The abstract form of a whole PPPoE frame.
pub struct PppoePktV {
    pub dst_mac: Seq<u8>,
    pub src_mac: Seq<u8>,
    pub ether_type: EtherType,
    pub ver_type: u8,
    pub session_id: u16,
    pub data: PppoeDataV,
}

/// A PPPoE frame: destination and source addresses, the EtherType, the
/// version-and-type octet, the code octet naming the payload, the
/// session identifier, a length field counting the payload alone, and
/// the payload.
#[derive(Clone, Debug, Eq, PartialEq)]
pub struct PppoePkt {
    pub dst_mac: MacAddr,
    pub src_mac: MacAddr,
    pub ether_type: EtherType,
    pub ver_type: VerType,
    pub session_id: u16,
    pub data: PppoeData,
}

impl DeepView for PppoePkt {
    type V = PppoePktV;

    open spec fn deep_view(&self) -> PppoePktV {
        PppoePktV {
            dst_mac: self.dst_mac.deep_view(),
            src_mac: self.src_mac.deep_view(),
            ether_type: self.ether_type,
            ver_type: self.ver_type.deep_view(),
            session_id: self.session_id,
            data: self.data.deep_view(),
        }
    }
}

/// The full wire form of a PPPoE frame. Its length field counts the
/// payload alone, with no header octets.
pub open spec fn pppoe_pkt_wire(v: PppoePktV) -> Seq<u8> {
    v.dst_mac + v.src_mac + be_bytes_u16(ether_type_code(v.ether_type)) + seq![
        v.ver_type,
        pppoe_data_code(v.data),
    ] + be_bytes_u16(v.session_id) + be_bytes_u16(pppoe_data_wire(v.data).len() as u16)
        + pppoe_data_wire(v.data)
}

/// Whether a PPPoE frame can be encoded: both addresses hold their six
/// octets, the payload is encodable, and it fits the length field.
pub open spec fn pppoe_pkt_ok(v: PppoePktV) -> bool {
    v.dst_mac.len() == 6 && v.src_mac.len() == 6 && pppoe_data_ok(v.data) && pppoe_data_wire(
        v.data,
    ).len() <= 0xFFFF
}

/// Whether a PPPoE frame is canonical down through its nesting.
pub open spec fn pppoe_pkt_canonical(v: PppoePktV) -> bool {
    pppoe_data_canonical(v.data)
}

/// Decode a PPPoE frame: the addresses, the EtherType, the
/// version-and-type octet, the code, the session identifier and the
/// length, then the payload read from a window bounded to the length
/// field.
pub open spec fn parse_pppoe_pkt(b: Seq<u8>) -> Result<(PppoePktV, int), Error> {
    if b.len() < 12 {
        Err(Error::UnexpectedEof)
    } else {
        let dst = b.subrange(0, 6);
        let src = b.subrange(6, 12);
        match parse_ether_type(b.skip(12)) {
            Ok((et, _)) => {
                if b.len() < 16 {
                    Err(Error::UnexpectedEof)
                } else {
                    let vt = b[14];
                    let code = b[15];
                    match parse_u16(b.skip(16)) {
                        Ok((sid, _)) => match parse_u16(b.skip(18)) {
                            Ok((l, _)) => {
                                let m = min_int(l as int, b.len() - 20);
                                match parse_pppoe_data(code, b.subrange(20, 20 + m)) {
                                    Ok((d, n)) => Ok(
                                        (
                                            PppoePktV {
                                                dst_mac: dst,
                                                src_mac: src,
                                                ether_type: et,
                                                ver_type: vt,
                                                session_id: sid,
                                                data: d,
                                            },
                                            20 + n,
                                        ),
                                    ),
                                    Err(e) => Err(e),
                                }
                            },
                            Err(e) => Err(e),
                        },
                        Err(e) => Err(e),
                    }
                }
            },
            Err(e) => Err(e),
        }
    }
}

impl Serialize for PppoePkt {
    open spec fn spec_wire(v: PppoePktV) -> Seq<u8> {
        pppoe_pkt_wire(v)
    }

    open spec fn wire_ok(v: PppoePktV) -> bool {
        pppoe_pkt_ok(v)
    }

    fn serialize(&self, w: &mut Vec<u8>) -> (res: Result<(), Error>) {
        self.dst_mac.serialize(w)?;
        self.src_mac.serialize(w)?;
        self.ether_type.serialize(w)?;
        self.ver_type.serialize(w)?;
        let code = self.data.discriminant();
        w.push(code);
        self.session_id.serialize(w)?;
        let mark = w.len();
        w.push(0);
        w.push(0);
        self.data.serialize(w)?;
        let n = w.len() - mark - 2;
        if n > 0xFFFF {
            return Err(Error::TryFromInt);
        }
        let l = n as u16;
        w.set(mark, (l / 0x100) as u8);
        w.set(mark + 1, (l % 0x100) as u8);
        proof {
            assert(w@ =~= old(w)@ + pppoe_pkt_wire(self.deep_view()));
        }
        Ok(())
    }
}

impl Deserialize for PppoePkt {
    open spec fn spec_parse(b: Seq<u8>) -> Result<(PppoePktV, int), Error> {
        parse_pppoe_pkt(b)
    }

    fn deserialize(&mut self, r: &mut Reader<'_>) -> (res: Result<(), Error>) {
        let ghost b = r.bytes_left();
        let mut dst_mac = MacAddr::default();
        dst_mac.deserialize(r)?;
        proof {
            assert(r.bytes_left() =~= b.skip(6));
        }
        let mut src_mac = MacAddr::default();
        src_mac.deserialize(r)?;
        proof {
            assert(r.bytes_left() =~= b.skip(12));
            assert(b.skip(6).subrange(0, 6) =~= b.subrange(6, 12));
        }
        let mut ether_type = EtherType::default();
        ether_type.deserialize(r)?;
        proof {
            assert(r.bytes_left() =~= b.skip(14));
        }
        let mut ver_type = VerType::default();
        ver_type.deserialize(r)?;
        proof {
            assert(r.bytes_left() =~= b.skip(15));
        }
        let code = r.read_u8()?;
        proof {
            assert(r.bytes_left() =~= b.skip(16));
        }
        let mut session_id: u16 = 0;
        session_id.deserialize(r)?;
        proof {
            assert(r.bytes_left() =~= b.skip(18));
        }
        let mut l: u16 = 0;
        l.deserialize(r)?;
        let mut sub = r.begin_bounded(l as usize);
        proof {
            assert(sub.bytes_left() =~= b.subrange(20, 20 + min_int(l as int, b.len() - 20)));
        }
        let mut data = PppoeData::default();
        let pres = data.deserialize_with_discriminant(&mut sub, &code);
        r.resume_from(&sub);
        pres?;
        *self = PppoePkt { dst_mac, src_mac, ether_type, ver_type, session_id, data };
        Ok(())
    }
}

impl Default for PppoePkt {
    fn default() -> (d: Self)
        ensures
            d.deep_view() == (PppoePktV {
                dst_mac: seq![0u8, 0u8, 0u8, 0u8, 0u8, 0u8],
                src_mac: seq![0u8, 0u8, 0u8, 0u8, 0u8, 0u8],
                ether_type: EtherType::PppoeDiscovery,
                ver_type: 0x11u8,
                session_id: 0u16,
                data: PppoeDataV::Padi(Seq::<PppoeValV>::empty()),
            }),
    {
        let d = PppoePkt {
            dst_mac: MacAddr::default(),
            src_mac: MacAddr::default(),
            ether_type: EtherType::default(),
            ver_type: VerType::default(),
            session_id: 0,
            data: PppoeData::default(),
        };
        proof {
            assert(d.deep_view().dst_mac =~= seq![0u8, 0u8, 0u8, 0u8, 0u8, 0u8]);
        }
        d
    }
}

impl PppoePkt {
    /// A PADI frame: broadcast destination, discovery EtherType, no
    /// session yet, and the given tags.
    pub fn new_padi(src_mac: MacAddr, tags: Vec<PppoeTag>) -> (p: Self)
        ensures
            p.deep_view() == (PppoePktV {
                dst_mac: seq![0xffu8, 0xffu8, 0xffu8, 0xffu8, 0xffu8, 0xffu8],
                src_mac: src_mac.deep_view(),
                ether_type: EtherType::PppoeDiscovery,
                ver_type: 0x11u8,
                session_id: 0u16,
                data: PppoeDataV::Padi(tags.deep_view()),
            }),
    {
        let p = PppoePkt {
            dst_mac: MacAddr::broadcast(),
            src_mac,
            ether_type: EtherType::PppoeDiscovery,
            ver_type: VerType::default(),
            session_id: 0,
            data: PppoeData::Padi(PppoePadi { tags }),
        };
        proof {
            assert(p.deep_view().dst_mac =~= seq![0xffu8, 0xffu8, 0xffu8, 0xffu8, 0xffu8, 0xffu8]);
        }
        p
    }

    /// A PADO frame carrying the access concentrator's offer tags.
    pub fn new_pado(dst_mac: MacAddr, src_mac: MacAddr, tags: Vec<PppoeTag>) -> (p: Self)
        ensures
            p.deep_view() == (PppoePktV {
                dst_mac: dst_mac.deep_view(),
                src_mac: src_mac.deep_view(),
                ether_type: EtherType::PppoeDiscovery,
                ver_type: 0x11u8,
                session_id: 0u16,
                data: PppoeDataV::Pado(tags.deep_view()),
            }),
    {
        PppoePkt {
            dst_mac,
            src_mac,
            ether_type: EtherType::PppoeDiscovery,
            ver_type: VerType::default(),
            session_id: 0,
            data: PppoeData::Pado(PppoePado { tags }),
        }
    }

    /// A PADR frame carrying the host's request tags.
    pub fn new_padr(dst_mac: MacAddr, src_mac: MacAddr, tags: Vec<PppoeTag>) -> (p: Self)
        ensures
            p.deep_view() == (PppoePktV {
                dst_mac: dst_mac.deep_view(),
                src_mac: src_mac.deep_view(),
                ether_type: EtherType::PppoeDiscovery,
                ver_type: 0x11u8,
                session_id: 0u16,
                data: PppoeDataV::Padr(tags.deep_view()),
            }),
    {
        PppoePkt {
            dst_mac,
            src_mac,
            ether_type: EtherType::PppoeDiscovery,
            ver_type: VerType::default(),
            session_id: 0,
            data: PppoeData::Padr(PppoePadr { tags }),
        }
    }

    /// A PADS frame confirming a session identifier.
    pub fn new_pads(
        dst_mac: MacAddr,
        src_mac: MacAddr,
        session_id: u16,
        tags: Vec<PppoeTag>,
    ) -> (p: Self)
        ensures
            p.deep_view() == (PppoePktV {
                dst_mac: dst_mac.deep_view(),
                src_mac: src_mac.deep_view(),
                ether_type: EtherType::PppoeDiscovery,
                ver_type: 0x11u8,
                session_id: session_id,
                data: PppoeDataV::Pads(tags.deep_view()),
            }),
    {
        PppoePkt {
            dst_mac,
            src_mac,
            ether_type: EtherType::PppoeDiscovery,
            ver_type: VerType::default(),
            session_id,
            data: PppoeData::Pads(PppoePads { tags }),
        }
    }

    /// A PADT frame ending a session.
    pub fn new_padt(
        dst_mac: MacAddr,
        src_mac: MacAddr,
        session_id: u16,
        tags: Vec<PppoeTag>,
    ) -> (p: Self)
        ensures
            p.deep_view() == (PppoePktV {
                dst_mac: dst_mac.deep_view(),
                src_mac: src_mac.deep_view(),
                ether_type: EtherType::PppoeDiscovery,
                ver_type: 0x11u8,
                session_id: session_id,
                data: PppoeDataV::Padt(tags.deep_view()),
            }),
    {
        PppoePkt {
            dst_mac,
            src_mac,
            ether_type: EtherType::PppoeDiscovery,
            ver_type: VerType::default(),
            session_id,
            data: PppoeData::Padt(PppoePadt { tags }),
        }
    }

    /// A session frame carrying a PPP packet.
    pub fn new_ppp(dst_mac: MacAddr, src_mac: MacAddr, session_id: u16, pkt: PppPkt) -> (p: Self)
        ensures
            p.deep_view() == (PppoePktV {
                dst_mac: dst_mac.deep_view(),
                src_mac: src_mac.deep_view(),
                ether_type: EtherType::PppoeSession,
                ver_type: 0x11u8,
                session_id: session_id,
                data: PppoeDataV::Ppp(pkt.deep_view()),
            }),
    {
        PppoePkt {
            dst_mac,
            src_mac,
            ether_type: EtherType::PppoeSession,
            ver_type: VerType::default(),
            session_id,
            data: PppoeData::Ppp(pkt),
        }
    }
}

/// The PADI payload: a tag list.
#[derive(Clone, Debug, Eq, PartialEq)]
pub struct PppoePadi {
    pub tags: Vec<PppoeTag>,
}

impl DeepView for PppoePadi {
    type V = Seq<PppoeValV>;

    open spec fn deep_view(&self) -> Seq<PppoeValV> {
        self.tags.deep_view()
    }
}

impl Serialize for PppoePadi {
    open spec fn spec_wire(vs: Seq<PppoeValV>) -> Seq<u8> {
        pppoe_tags_wire(vs)
    }

    open spec fn wire_ok(vs: Seq<PppoeValV>) -> bool {
        pppoe_tags_ok(vs)
    }

    fn serialize(&self, w: &mut Vec<u8>) -> (res: Result<(), Error>) {
        self.tags.serialize(w)
    }
}

impl Deserialize for PppoePadi {
    open spec fn spec_parse(b: Seq<u8>) -> Result<(Seq<PppoeValV>, int), Error> {
        parse_pppoe_tags(b)
    }

    fn deserialize(&mut self, r: &mut Reader<'_>) -> (res: Result<(), Error>) {
        self.tags.deserialize(r)
    }
}

impl Default for PppoePadi {
    fn default() -> (d: Self)
        ensures
            d.deep_view() == Seq::<PppoeValV>::empty(),
    {
        let d = PppoePadi { tags: Vec::new() };
        proof {
            assert(d.deep_view() =~= Seq::<PppoeValV>::empty());
        }
        d
    }
}

impl PppoePadi {
    /// The payload length in bytes: the summed length of the tags.
    pub fn len(&self) -> (n: u16)
        requires
            pppoe_tags_ok(self.deep_view()),
            pppoe_tags_wire(self.deep_view()).len() <= 0xFFFF,
        ensures
            n as int == pppoe_tags_wire(self.deep_view()).len(),
    {
        pppoe_tags_len(&self.tags)
    }

    /// Whether the tag list is empty.
    pub fn is_empty(&self) -> (e: bool)
        ensures
            e == (self.deep_view().len() == 0),
    {
        self.tags.is_empty()
    }
}

/// The PADO payload: a tag list.
#[derive(Clone, Debug, Eq, PartialEq)]
pub struct PppoePado {
    pub tags: Vec<PppoeTag>,
}

impl DeepView for PppoePado {
    type V = Seq<PppoeValV>;

    open spec fn deep_view(&self) -> Seq<PppoeValV> {
        self.tags.deep_view()
    }
}

impl Serialize for PppoePado {
    open spec fn spec_wire(vs: Seq<PppoeValV>) -> Seq<u8> {
        pppoe_tags_wire(vs)
    }

    open spec fn wire_ok(vs: Seq<PppoeValV>) -> bool {
        pppoe_tags_ok(vs)
    }

    fn serialize(&self, w: &mut Vec<u8>) -> (res: Result<(), Error>) {
        self.tags.serialize(w)
    }
}

impl Deserialize for PppoePado {
    open spec fn spec_parse(b: Seq<u8>) -> Result<(Seq<PppoeValV>, int), Error> {
        parse_pppoe_tags(b)
    }

    fn deserialize(&mut self, r: &mut Reader<'_>) -> (res: Result<(), Error>) {
        self.tags.deserialize(r)
    }
}

impl Default for PppoePado {
    fn default() -> (d: Self)
        ensures
            d.deep_view() == Seq::<PppoeValV>::empty(),
    {
        let d = PppoePado { tags: Vec::new() };
        proof {
            assert(d.deep_view() =~= Seq::<PppoeValV>::empty());
        }
        d
    }
}

impl PppoePado {
    /// The payload length in bytes: the summed length of the tags.
    pub fn len(&self) -> (n: u16)
        requires
            pppoe_tags_ok(self.deep_view()),
            pppoe_tags_wire(self.deep_view()).len() <= 0xFFFF,
        ensures
            n as int == pppoe_tags_wire(self.deep_view()).len(),
    {
        pppoe_tags_len(&self.tags)
    }

    /// Whether the tag list is empty.
    pub fn is_empty(&self) -> (e: bool)
        ensures
            e == (self.deep_view().len() == 0),
    {
        self.tags.is_empty()
    }
}

/// The PADR payload: a tag list.
#[derive(Clone, Debug, Eq, PartialEq)]
pub struct PppoePadr {
    pub tags: Vec<PppoeTag>,
}

impl DeepView for PppoePadr {
    type V = Seq<PppoeValV>;

    open spec fn deep_view(&self) -> Seq<PppoeValV> {
        self.tags.deep_view()
    }
}

impl Serialize for PppoePadr {
    open spec fn spec_wire(vs: Seq<PppoeValV>) -> Seq<u8> {
        pppoe_tags_wire(vs)
    }

    open spec fn wire_ok(vs: Seq<PppoeValV>) -> bool {
        pppoe_tags_ok(vs)
    }

    fn serialize(&self, w: &mut Vec<u8>) -> (res: Result<(), Error>) {
        self.tags.serialize(w)
    }
}

impl Deserialize for PppoePadr {
    open spec fn spec_parse(b: Seq<u8>) -> Result<(Seq<PppoeValV>, int), Error> {
        parse_pppoe_tags(b)
    }

    fn deserialize(&mut self, r: &mut Reader<'_>) -> (res: Result<(), Error>) {
        self.tags.deserialize(r)
    }
}

impl Default for PppoePadr {
    fn default() -> (d: Self)
        ensures
            d.deep_view() == Seq::<PppoeValV>::empty(),
    {
        let d = PppoePadr { tags: Vec::new() };
        proof {
            assert(d.deep_view() =~= Seq::<PppoeValV>::empty());
        }
        d
    }
}

impl PppoePadr {
    /// The payload length in bytes: the summed length of the tags.
    pub fn len(&self) -> (n: u16)
        requires
            pppoe_tags_ok(self.deep_view()),
            pppoe_tags_wire(self.deep_view()).len() <= 0xFFFF,
        ensures
            n as int == pppoe_tags_wire(self.deep_view()).len(),
    {
        pppoe_tags_len(&self.tags)
    }

    /// Whether the tag list is empty.
    pub fn is_empty(&self) -> (e: bool)
        ensures
            e == (self.deep_view().len() == 0),
    {
        self.tags.is_empty()
    }
}

/// The PADS payload: a tag list.
#[derive(Clone, Debug, Eq, PartialEq)]
pub struct PppoePads {
    pub tags: Vec<PppoeTag>,
}

impl DeepView for PppoePads {
    type V = Seq<PppoeValV>;

    open spec fn deep_view(&self) -> Seq<PppoeValV> {
        self.tags.deep_view()
    }
}

impl Serialize for PppoePads {
    open spec fn spec_wire(vs: Seq<PppoeValV>) -> Seq<u8> {
        pppoe_tags_wire(vs)
    }

    open spec fn wire_ok(vs: Seq<PppoeValV>) -> bool {
        pppoe_tags_ok(vs)
    }

    fn serialize(&self, w: &mut Vec<u8>) -> (res: Result<(), Error>) {
        self.tags.serialize(w)
    }
}

impl Deserialize for PppoePads {
    open spec fn spec_parse(b: Seq<u8>) -> Result<(Seq<PppoeValV>, int), Error> {
        parse_pppoe_tags(b)
    }

    fn deserialize(&mut self, r: &mut Reader<'_>) -> (res: Result<(), Error>) {
        self.tags.deserialize(r)
    }
}

impl Default for PppoePads {
    fn default() -> (d: Self)
        ensures
            d.deep_view() == Seq::<PppoeValV>::empty(),
    {
        let d = PppoePads { tags: Vec::new() };
        proof {
            assert(d.deep_view() =~= Seq::<PppoeValV>::empty());
        }
        d
    }
}

impl PppoePads {
    /// The payload length in bytes: the summed length of the tags.
    pub fn len(&self) -> (n: u16)
        requires
            pppoe_tags_ok(self.deep_view()),
            pppoe_tags_wire(self.deep_view()).len() <= 0xFFFF,
        ensures
            n as int == pppoe_tags_wire(self.deep_view()).len(),
    {
        pppoe_tags_len(&self.tags)
    }

    /// Whether the tag list is empty.
    pub fn is_empty(&self) -> (e: bool)
        ensures
            e == (self.deep_view().len() == 0),
    {
        self.tags.is_empty()
    }
}

/// The PADT payload: a tag list.
#[derive(Clone, Debug, Eq, PartialEq)]
pub struct PppoePadt {
    pub tags: Vec<PppoeTag>,
}

impl DeepView for PppoePadt {
    type V = Seq<PppoeValV>;

    open spec fn deep_view(&self) -> Seq<PppoeValV> {
        self.tags.deep_view()
    }
}

impl Serialize for PppoePadt {
    open spec fn spec_wire(vs: Seq<PppoeValV>) -> Seq<u8> {
        pppoe_tags_wire(vs)
    }

    open spec fn wire_ok(vs: Seq<PppoeValV>) -> bool {
        pppoe_tags_ok(vs)
    }

    fn serialize(&self, w: &mut Vec<u8>) -> (res: Result<(), Error>) {
        self.tags.serialize(w)
    }
}

impl Deserialize for PppoePadt {
    open spec fn spec_parse(b: Seq<u8>) -> Result<(Seq<PppoeValV>, int), Error> {
        parse_pppoe_tags(b)
    }

    fn deserialize(&mut self, r: &mut Reader<'_>) -> (res: Result<(), Error>) {
        self.tags.deserialize(r)
    }
}

impl Default for PppoePadt {
    fn default() -> (d: Self)
        ensures
            d.deep_view() == Seq::<PppoeValV>::empty(),
    {
        let d = PppoePadt { tags: Vec::new() };
        proof {
            assert(d.deep_view() =~= Seq::<PppoeValV>::empty());
        }
        d
    }
}

impl PppoePadt {
    /// The payload length in bytes: the summed length of the tags.
    pub fn len(&self) -> (n: u16)
        requires
            pppoe_tags_ok(self.deep_view()),
            pppoe_tags_wire(self.deep_view()).len() <= 0xFFFF,
        ensures
            n as int == pppoe_tags_wire(self.deep_view()).len(),
    {
        pppoe_tags_len(&self.tags)
    }

    /// Whether the tag list is empty.
    pub fn is_empty(&self) -> (e: bool)
        ensures
            e == (self.deep_view().len() == 0),
    {
        self.tags.is_empty()
    }
}

/// Parsing inverts encoding for PPPoE frame payloads read against a
/// window that holds exactly the payload, under the payload's own
/// code.
pub proof fn lemma_parse_pppoe_data(v: PppoeDataV)
    requires
        pppoe_data_ok(v),
        pppoe_data_canonical(v),
    ensures
        parse_pppoe_data(pppoe_data_code(v), pppoe_data_wire(v)) == Ok::<(PppoeDataV, int), Error>(
            (v, pppoe_data_wire(v).len() as int),
        ),
{
    match v {
        PppoeDataV::Ppp(p) => crate::ppp::lemma_parse_ppp_pkt(p),
        PppoeDataV::Padi(vs) => lemma_parse_pppoe_tags(vs),
        PppoeDataV::Pado(vs) => lemma_parse_pppoe_tags(vs),
        PppoeDataV::Padr(vs) => lemma_parse_pppoe_tags(vs),
        PppoeDataV::Pads(vs) => lemma_parse_pppoe_tags(vs),
        PppoeDataV::Padt(vs) => lemma_parse_pppoe_tags(vs),
    }
}

/// Parsing inverts encoding for whole PPPoE frames, with any trailing
/// bytes left untouched. Together with the per-layer lemmas this is
/// the end-to-end round trip: every canonical, encodable frame decodes
/// from its own encoding back to itself.
#[verifier::rlimit(50)]
pub proof fn lemma_parse_pppoe_pkt(v: PppoePktV, rest: Seq<u8>)
    requires
        pppoe_pkt_ok(v),
        pppoe_pkt_canonical(v),
    ensures
        parse_pppoe_pkt(pppoe_pkt_wire(v) + rest) == Ok::<(PppoePktV, int), Error>(
            (v, pppoe_pkt_wire(v).len() as int),
        ),
{
    let pl = pppoe_data_wire(v.data);
    let et = ether_type_code(v.ether_type);
    let l = pl.len() as u16;
    let b = pppoe_pkt_wire(v) + rest;
    assert(b.subrange(0, 6) =~= v.dst_mac);
    assert(b.subrange(6, 12) =~= v.src_mac);
    assert(b.skip(12) =~= be_bytes_u16(et) + (seq![v.ver_type, pppoe_data_code(v.data)]
        + be_bytes_u16(v.session_id) + be_bytes_u16(l) + pl + rest));
    crate::de::lemma_parse_be_u16(
        et,
        seq![v.ver_type, pppoe_data_code(v.data)] + be_bytes_u16(v.session_id) + be_bytes_u16(l)
            + pl + rest,
    );
    assert(b[14] == v.ver_type);
    assert(b[15] == pppoe_data_code(v.data));
    assert(b.skip(16) =~= be_bytes_u16(v.session_id) + (be_bytes_u16(l) + pl + rest));
    crate::de::lemma_parse_be_u16(v.session_id, be_bytes_u16(l) + pl + rest);
    assert(b.skip(18) =~= be_bytes_u16(l) + (pl + rest));
    crate::de::lemma_parse_be_u16(l, pl + rest);
    assert(b.subrange(20, 20 + pl.len() as int) =~= pl);
    lemma_parse_pppoe_data(v.data);
}

/// Parsing inverts encoding for one framed tag, with any trailing
/// bytes left untouched.
pub proof fn lemma_parse_pppoe_tag(v: PppoeValV, rest: Seq<u8>)
    requires
        pppoe_val_ok(v),
    ensures
        parse_pppoe_tag(pppoe_tag_wire(v) + rest) == Ok::<(PppoeValV, int), Error>(
            (v, pppoe_tag_wire(v).len() as int),
        ),
{
    let pl = pppoe_val_wire(v);
    let b = pppoe_tag_wire(v) + rest;
    assert(b.subrange(0, 2) =~= be_bytes_u16(pppoe_val_tag(v)));
    crate::de::lemma_parse_be_u16(
        pppoe_val_tag(v),
        be_bytes_u16(pl.len() as u16) + pl + rest,
    );
    assert(b =~= be_bytes_u16(pppoe_val_tag(v)) + (be_bytes_u16(pl.len() as u16) + pl + rest));
    assert(b[0] as int * 0x100 + b[1] as int == pppoe_val_tag(v) as int) by {
        assert(parse_u16(b) == Ok::<(u16, int), Error>((pppoe_val_tag(v), 2)));
    }
    assert(b.skip(2) =~= be_bytes_u16(pl.len() as u16) + (pl + rest));
    crate::de::lemma_parse_be_u16(pl.len() as u16, pl + rest);
    assert(b[2] as int * 0x100 + b[3] as int == pl.len() as int) by {
        assert(parse_u16(b.skip(2)) == Ok::<(u16, int), Error>((pl.len() as u16, 2)));
        assert(b.skip(2)[0] == b[2] && b.skip(2)[1] == b[3]);
    }
    assert(b.subrange(4, 4 + pl.len() as int) =~= pl);
    match v {
        PppoeValV::AcName(s) => crate::de::lemma_parse_raw_str(s),
        PppoeValV::AcSystemError(s) => crate::de::lemma_parse_raw_str(s),
        PppoeValV::GenericError(s) => crate::de::lemma_parse_raw_str(s),
        PppoeValV::ServiceName(s) => crate::de::lemma_parse_raw_str(s),
        PppoeValV::ServiceNameError(s) => crate::de::lemma_parse_raw_str(s),
        _ => {},
    }
}

/// Empty-list law: an empty tag list encodes to no bytes at all, and
/// an empty window decodes to the empty list.
pub proof fn lemma_pppoe_tags_empty()
    ensures
        pppoe_tags_wire(Seq::<PppoeValV>::empty()) == Seq::<u8>::empty(),
        parse_pppoe_tags(Seq::<u8>::empty()) == Ok::<(Seq<PppoeValV>, int), Error>(
            (Seq::<PppoeValV>::empty(), 0),
        ),
{
}

/// Length invariant: in every encodable tag's wire form, the length
/// field holds exactly the value's own length.
pub proof fn lemma_pppoe_tag_length_field(v: PppoeValV)
    requires
        pppoe_val_ok(v),
    ensures
        parse_u16(pppoe_tag_wire(v).skip(2)) == Ok::<(u16, int), Error>(
            (pppoe_val_wire(v).len() as u16, 2),
        ),
{
    assert(pppoe_tag_wire(v).skip(2) =~= be_bytes_u16(pppoe_val_wire(v).len() as u16)
        + pppoe_val_wire(v));
    crate::de::lemma_parse_be_u16(pppoe_val_wire(v).len() as u16, pppoe_val_wire(v));
}

/// Parsing inverts encoding for whole tag lists read against a window
/// that holds exactly the list.
pub proof fn lemma_parse_pppoe_tags(vs: Seq<PppoeValV>)
    requires
        pppoe_tags_ok(vs),
    ensures
        parse_pppoe_tags(pppoe_tags_wire(vs)) == Ok::<(Seq<PppoeValV>, int), Error>(
            (vs, pppoe_tags_wire(vs).len() as int),
        ),
    decreases vs.len(),
{
    if vs.len() == 0 {
        assert(vs =~= Seq::<PppoeValV>::empty());
    } else {
        let w0 = pppoe_tag_wire(vs[0]);
        let wr = pppoe_tags_wire(vs.skip(1));
        let b = pppoe_tags_wire(vs);
        lemma_parse_pppoe_tag(vs[0], wr);
        assert(b.skip(w0.len() as int) =~= wr);
        assert(pppoe_tags_ok(vs.skip(1))) by {
            assert(forall|i: int| 0 <= i < vs.skip(1).len() ==> #[trigger] vs.skip(1)[i] == vs[i
                + 1]);
        }
        lemma_parse_pppoe_tags(vs.skip(1));
        assert(w0.len() >= 4);
        assert(seq![vs[0]] + vs.skip(1) =~= vs);
    }
}

} // verus!
