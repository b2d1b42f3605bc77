use vstd::prelude::*;

use crate::de::Deserialize;
use crate::de::Reader;
use crate::de::min_int;
use crate::de::parse_prefixed_bytes;
use crate::de::parse_raw_str;
use crate::de::parse_u16;
use crate::de::parse_u8;
use crate::de::read_prefixed_bytes;
use crate::de::read_raw_str;
use crate::error::Error;
use crate::ser::Serialize;
use crate::ser::be_bytes_u16;
use crate::ser::bytes_prefixed_ok;
use crate::ser::bytes_prefixed_wire;
use crate::ser::str_raw_wire;
use crate::ser::write_prefixed_bytes;
use crate::ser::write_raw_str;

verus! {

broadcast use crate::de::lemma_deep_view_u8;

pub const CHAP_CHALLENGE: u8 = 1;

pub const CHAP_RESPONSE: u8 = 2;

pub const CHAP_SUCCESS: u8 = 3;

pub const CHAP_FAILURE: u8 = 4;

/// A CHAP packet payload: one variant per code, plus a catch-all that
/// keeps the raw bytes of any unrecognized code.
#[derive(Clone, Debug, Eq, PartialEq)]
pub enum ChapData {
    Challenge(ChapChallenge),
    Response(ChapResponse),
    Success(ChapSuccess),
    Failure(ChapFailure),
    Unhandled(u8, Vec<u8>),
}

/// The abstract form of a CHAP payload.
pub enum ChapDataV {
    Challenge(Seq<u8>, Seq<char>),
    Response(Seq<u8>, Seq<char>),
    Success(Seq<char>),
    Failure(Seq<char>),
    Unhandled(u8, Seq<u8>),
}

impl DeepView for ChapData {
    type V = ChapDataV;

    open spec fn deep_view(&self) -> ChapDataV {
        match self {
            ChapData::Challenge(p) => ChapDataV::Challenge(p.value.deep_view(), p.name.deep_view()),
            ChapData::Response(p) => ChapDataV::Response(p.value.deep_view(), p.name.deep_view()),
            ChapData::Success(p) => ChapDataV::Success(p.message.deep_view()),
            ChapData::Failure(p) => ChapDataV::Failure(p.message.deep_view()),
            ChapData::Unhandled(t, b) => ChapDataV::Unhandled(*t, b.deep_view()),
        }
    }
}

/// The wire code of a CHAP payload.
pub open spec fn chap_data_code(v: ChapDataV) -> u8 {
    match v {
        ChapDataV::Challenge(_, _) => CHAP_CHALLENGE,
        ChapDataV::Response(_, _) => CHAP_RESPONSE,
        ChapDataV::Success(_) => CHAP_SUCCESS,
        ChapDataV::Failure(_) => CHAP_FAILURE,
        ChapDataV::Unhandled(t, _) => t,
    }
}

/// The payload bytes of a CHAP payload: a challenge or response is a
/// length-prefixed value followed by the unprefixed name; a success or
/// failure is one unprefixed message.
pub open spec fn chap_data_wire(v: ChapDataV) -> Seq<u8> {
    match v {
        ChapDataV::Challenge(value, name) => bytes_prefixed_wire(value) + str_raw_wire(name),
        ChapDataV::Response(value, name) => bytes_prefixed_wire(value) + str_raw_wire(name),
        ChapDataV::Success(m) => str_raw_wire(m),
        ChapDataV::Failure(m) => str_raw_wire(m),
        ChapDataV::Unhandled(_, b) => b,
    }
}

/// Whether the challenge or response value fits its length octet.
pub open spec fn chap_data_ok(v: ChapDataV) -> bool {
    match v {
        ChapDataV::Challenge(value, _) => bytes_prefixed_ok(value),
        ChapDataV::Response(value, _) => bytes_prefixed_ok(value),
        _ => true,
    }
}

/// Whether a CHAP payload names its code by its variant alone.
pub open spec fn chap_data_canonical(v: ChapDataV) -> bool {
    match v {
        ChapDataV::Unhandled(t, _) => t != CHAP_CHALLENGE && t != CHAP_RESPONSE && t
            != CHAP_SUCCESS && t != CHAP_FAILURE,
        _ => true,
    }
}

/// Decode a CHAP payload from a window already bounded to the payload
/// length, dispatching on the code read from the wire.
pub open spec fn parse_chap_data(code: u8, b: Seq<u8>) -> Result<(ChapDataV, int), Error> {
    if code == CHAP_CHALLENGE {
        match parse_prefixed_bytes(b) {
            Ok((value, n1)) => match parse_raw_str(b.skip(n1)) {
                Ok((name, n2)) => Ok((ChapDataV::Challenge(value, name), n1 + n2)),
                Err(e) => Err(e),
            },
            Err(e) => Err(e),
        }
    } else if code == CHAP_RESPONSE {
        match parse_prefixed_bytes(b) {
            Ok((value, n1)) => match parse_raw_str(b.skip(n1)) {
                Ok((name, n2)) => Ok((ChapDataV::Response(value, name), n1 + n2)),
                Err(e) => Err(e),
            },
            Err(e) => Err(e),
        }
    } else if code == CHAP_SUCCESS {
        match parse_raw_str(b) {
            Ok((m, n)) => Ok((ChapDataV::Success(m), n)),
            Err(e) => Err(e),
        }
    } else if code == CHAP_FAILURE {
        match parse_raw_str(b) {
            Ok((m, n)) => Ok((ChapDataV::Failure(m), n)),
            Err(e) => Err(e),
        }
    } else {
        Ok((ChapDataV::Unhandled(code, b), b.len() as int))
    }
}

impl Serialize for ChapData {
    open spec fn spec_wire(v: ChapDataV) -> Seq<u8> {
        chap_data_wire(v)
    }

    open spec fn wire_ok(v: ChapDataV) -> bool {
        chap_data_ok(v)
    }

    fn serialize(&self, w: &mut Vec<u8>) -> (res: Result<(), Error>) {
        match self {
            ChapData::Challenge(p) => p.serialize(w),
            ChapData::Response(p) => p.serialize(w),
            ChapData::Success(p) => p.serialize(w),
            ChapData::Failure(p) => p.serialize(w),
            ChapData::Unhandled(_, b) => b.serialize(w),
        }
    }
}

impl ChapData {
    /// The wire code this payload is written under.
    pub fn discriminant(&self) -> (code: u8)
        ensures
            code == chap_data_code(self.deep_view()),
    {
        match self {
            ChapData::Challenge(_) => CHAP_CHALLENGE,
            ChapData::Response(_) => CHAP_RESPONSE,
            ChapData::Success(_) => CHAP_SUCCESS,
            ChapData::Failure(_) => CHAP_FAILURE,
            ChapData::Unhandled(t, _) => *t,
        }
    }

    /// The payload length in bytes.
    pub fn len(&self) -> (n: u16)
        requires
            chap_data_ok(self.deep_view()),
            chap_data_wire(self.deep_view()).len() <= 0xFFFF,
        ensures
            n as int == chap_data_wire(self.deep_view()).len(),
    {
        match self {
            ChapData::Challenge(p) => p.len(),
            ChapData::Response(p) => p.len(),
            ChapData::Success(p) => p.len(),
            ChapData::Failure(p) => p.len(),
            ChapData::Unhandled(_, b) => b.len() as u16,
        }
    }

    /// Decode the payload for a code already read from the wire,
    /// falling back to the catch-all variant on an unrecognized code.
    pub fn deserialize_with_discriminant(
        &mut self,
        r: &mut Reader<'_>,
        discriminant: &u8,
    ) -> (res: Result<(), Error>)
        requires
            old(r).wf(),
        ensures
            final(r).wf(),
            final(r).all_bytes() == old(r).all_bytes(),
            final(r).stop() == old(r).stop(),
            old(r).start() <= final(r).start(),
            match parse_chap_data(*discriminant, old(r).bytes_left()) {
                Ok((v, n)) => res is Ok && final(self).deep_view() == v && final(r).start() == old(
                    r,
                ).start() + n,
                Err(e) => res == Err::<(), Error>(e),
            },
    {
        if *discriminant == CHAP_CHALLENGE {
            let mut tmp = ChapChallenge::default();
            tmp.deserialize(r)?;
            *self = ChapData::Challenge(tmp);
        } else if *discriminant == CHAP_RESPONSE {
            let mut tmp = ChapResponse::default();
            tmp.deserialize(r)?;
            *self = ChapData::Response(tmp);
        } else if *discriminant == CHAP_SUCCESS {
            let mut tmp = ChapSuccess::default();
            tmp.deserialize(r)?;
            *self = ChapData::Success(tmp);
        } else if *discriminant == CHAP_FAILURE {
            let mut tmp = ChapFailure::default();
            tmp.deserialize(r)?;
            *self = ChapData::Failure(tmp);
        } else {
            let mut tmp: Vec<u8> = Vec::new();
            tmp.deserialize(r)?;
            *self = ChapData::Unhandled(*discriminant, tmp);
        }
        Ok(())
    }
}

impl Default for ChapData {
    fn default() -> (d: Self)
        ensures
            d.deep_view() == ChapDataV::Challenge(Seq::<u8>::empty(), Seq::<char>::empty()),
    {
        ChapData::Challenge(ChapChallenge::default())
    }
}

/// A CHAP packet: a code octet naming the payload variant, an
/// identifier octet, a length field covering the whole packet, and the
/// payload.
#[derive(Clone, Debug, Eq, PartialEq)]
pub struct ChapPkt {
    pub identifier: u8,
    pub data: ChapData,
}

impl DeepView for ChapPkt {
    type V = (u8, ChapDataV);

    open spec fn deep_view(&self) -> (u8, ChapDataV) {
        (self.identifier, self.data.deep_view())
    }
}

/// The full wire form of a CHAP packet. The length field counts its own
/// four header octets together with the payload.
pub open spec fn chap_pkt_wire(v: (u8, ChapDataV)) -> Seq<u8> {
    seq![chap_data_code(v.1), v.0] + be_bytes_u16((4 + chap_data_wire(v.1).len()) as u16)
        + chap_data_wire(v.1)
}

/// Whether a CHAP packet can be encoded.
pub open spec fn chap_pkt_ok(v: (u8, ChapDataV)) -> bool {
    chap_data_ok(v.1) && 4 + chap_data_wire(v.1).len() <= 0xFFFF
}

/// Decode a CHAP packet: code, identifier, length, then the payload
/// read from a window bounded to the length field less the header.
pub open spec fn parse_chap_pkt(b: Seq<u8>) -> Result<((u8, ChapDataV), int), Error> {
    if b.len() < 4 {
        Err(Error::UnexpectedEof)
    } else {
        let code = b[0];
        let id = b[1];
        let len = b[2] as int * 0x100 + b[3] as int;
        if len < 4 {
            Err(Error::UnexpectedEof)
        } else {
            let m = min_int(len - 4, b.len() - 4);
            match parse_chap_data(code, b.subrange(4, 4 + m)) {
                Ok((d, n)) => Ok(((id, d), 4 + n)),
                Err(e) => Err(e),
            }
        }
    }
}

impl Serialize for ChapPkt {
    open spec fn spec_wire(v: (u8, ChapDataV)) -> Seq<u8> {
        chap_pkt_wire(v)
    }

    open spec fn wire_ok(v: (u8, ChapDataV)) -> bool {
        chap_pkt_ok(v)
    }

    fn serialize(&self, w: &mut Vec<u8>) -> (res: Result<(), Error>) {
        let code = self.data.discriminant();
        w.push(code);
        w.push(self.identifier);
        let mark = w.len();
        w.push(0);
        w.push(0);
        self.data.serialize(w)?;
        let n = w.len() - mark - 2;
        if n > 0xFFFF - 4 {
            return Err(Error::TryFromInt);
        }
        let total = (n + 4) as u16;
        w.set(mark, (total / 0x100) as u8);
        w.set(mark + 1, (total % 0x100) as u8);
        proof {
            assert(w@ =~= old(w)@ + chap_pkt_wire(self.deep_view()));
        }
        Ok(())
    }
}

impl Deserialize for ChapPkt {
    open spec fn spec_parse(b: Seq<u8>) -> Result<((u8, ChapDataV), int), Error> {
        parse_chap_pkt(b)
    }

    fn deserialize(&mut self, r: &mut Reader<'_>) -> (res: Result<(), Error>) {
        let ghost b = r.bytes_left();
        let code = r.read_u8()?;
        let id = r.read_u8()?;
        proof {
            assert(r.bytes_left() =~= b.skip(2));
        }
        let mut len: u16 = 0;
        len.deserialize(r)?;
        if len < 4 {
            return Err(Error::UnexpectedEof);
        }
        let mut sub = r.begin_bounded((len - 4) as usize);
        proof {
            assert(sub.bytes_left() =~= b.subrange(4, 4 + min_int(len as int - 4, b.len() - 4)));
        }
        let mut data = ChapData::default();
        let pres = data.deserialize_with_discriminant(&mut sub, &code);
        r.resume_from(&sub);
        pres?;
        *self = ChapPkt { identifier: id, data };
        Ok(())
    }
}

impl Default for ChapPkt {
    fn default() -> (d: Self)
        ensures
            d.deep_view() == (0u8, ChapDataV::Challenge(Seq::<u8>::empty(), Seq::<char>::empty())),
    {
        ChapPkt { identifier: 0, data: ChapData::default() }
    }
}

impl ChapPkt {
    /// A Challenge carrying an opaque value and the sender's name.
    pub fn new_challenge(identifier: u8, value: Vec<u8>, name: String) -> (p: Self)
        ensures
            p.deep_view() == (identifier, ChapDataV::Challenge(value@, name@)),
    {
        ChapPkt { identifier, data: ChapData::Challenge(ChapChallenge { value, name }) }
    }

    /// A Response carrying an opaque value and the sender's name.
    pub fn new_response(identifier: u8, value: Vec<u8>, name: String) -> (p: Self)
        ensures
            p.deep_view() == (identifier, ChapDataV::Response(value@, name@)),
    {
        ChapPkt { identifier, data: ChapData::Response(ChapResponse { value, name }) }
    }

    /// A Success carrying a message.
    pub fn new_success(identifier: u8, message: String) -> (p: Self)
        ensures
            p.deep_view() == (identifier, ChapDataV::Success(message@)),
    {
        ChapPkt { identifier, data: ChapData::Success(ChapSuccess { message }) }
    }

    /// A Failure carrying a message.
    pub fn new_failure(identifier: u8, message: String) -> (p: Self)
        ensures
            p.deep_view() == (identifier, ChapDataV::Failure(message@)),
    {
        ChapPkt { identifier, data: ChapData::Failure(ChapFailure { message }) }
    }

    /// The packet length in bytes, header octets included.
    pub fn len(&self) -> (n: u16)
        requires
            chap_pkt_ok(self.deep_view()),
        ensures
            n as int == chap_pkt_wire(self.deep_view()).len(),
    {
        4 + self.data.len()
    }

    /// Whether the packet carries no payload bytes.
    pub fn is_empty(&self) -> (e: bool)
        requires
            chap_pkt_ok(self.deep_view()),
        ensures
            e == (chap_data_wire(self.deep_view().1).len() == 0),
    {
        self.len() == 4
    }
}

/// The Challenge payload: a length-prefixed value, then the name.
#[derive(Clone, Debug, Eq, PartialEq)]
pub struct ChapChallenge {
    pub value: Vec<u8>,
    pub name: String,
}

impl DeepView for ChapChallenge {
    type V = (Seq<u8>, Seq<char>);

    open spec fn deep_view(&self) -> (Seq<u8>, Seq<char>) {
        (self.value.deep_view(), self.name.deep_view())
    }
}

/// The payload bytes of a challenge or response: the value behind its
/// length octet, then the unprefixed name.
pub open spec fn chap_value_name_wire(v: (Seq<u8>, Seq<char>)) -> Seq<u8> {
    bytes_prefixed_wire(v.0) + str_raw_wire(v.1)
}

/// A length-prefixed value, then a name that runs to the window's end.
pub open spec fn parse_chap_value_name(b: Seq<u8>) -> Result<((Seq<u8>, Seq<char>), int), Error> {
    match parse_prefixed_bytes(b) {
        Ok((value, n1)) => match parse_raw_str(b.skip(n1)) {
            Ok((name, n2)) => Ok(((value, name), n1 + n2)),
            Err(e) => Err(e),
        },
        Err(e) => Err(e),
    }
}

impl Serialize for ChapChallenge {
    open spec fn spec_wire(v: (Seq<u8>, Seq<char>)) -> Seq<u8> {
        chap_value_name_wire(v)
    }

    open spec fn wire_ok(v: (Seq<u8>, Seq<char>)) -> bool {
        bytes_prefixed_ok(v.0)
    }

    fn serialize(&self, w: &mut Vec<u8>) -> (res: Result<(), Error>) {
        write_prefixed_bytes(w, &self.value)?;
        write_raw_str(w, &self.name);
        Ok(())
    }
}

impl Deserialize for ChapChallenge {
    open spec fn spec_parse(b: Seq<u8>) -> Result<((Seq<u8>, Seq<char>), int), Error> {
        parse_chap_value_name(b)
    }

    fn deserialize(&mut self, r: &mut Reader<'_>) -> (res: Result<(), Error>) {
        let ghost b = r.bytes_left();
        let value = read_prefixed_bytes(r)?;
        proof {
            assert(r.bytes_left() =~= b.skip(r.start() - old(r).start()));
        }
        let name = read_raw_str(r)?;
        *self = ChapChallenge { value, name };
        Ok(())
    }
}

impl Default for ChapChallenge {
    fn default() -> (d: Self)
        ensures
            d.deep_view() == (Seq::<u8>::empty(), Seq::<char>::empty()),
    {
        ChapChallenge { value: Vec::new(), name: String::new() }
    }
}

impl ChapChallenge {
    /// The payload length in bytes: the length octet, the value, and
    /// the name.
    pub fn len(&self) -> (n: u16)
        requires
            bytes_prefixed_ok(self.value@),
            chap_value_name_wire(self.deep_view()).len() <= 0xFFFF,
        ensures
            n as int == chap_value_name_wire(self.deep_view()).len(),
    {
        (1 + self.value.len() + self.name.as_str().len()) as u16
    }

    /// Whether both the value and the name are empty.
    pub fn is_empty(&self) -> (e: bool)
        requires
            bytes_prefixed_ok(self.value@),
            chap_value_name_wire(self.deep_view()).len() <= 0xFFFF,
        ensures
            e == (chap_value_name_wire(self.deep_view()).len() == 1),
    {
        self.len() == 1
    }
}

/// The Response payload: a length-prefixed value, then the name.
#[derive(Clone, Debug, Eq, PartialEq)]
pub struct ChapResponse {
    pub value: Vec<u8>,
    pub name: String,
}

impl DeepView for ChapResponse {
    type V = (Seq<u8>, Seq<char>);

    open spec fn deep_view(&self) -> (Seq<u8>, Seq<char>) {
        (self.value.deep_view(), self.name.deep_view())
    }
}

impl Serialize for ChapResponse {
    open spec fn spec_wire(v: (Seq<u8>, Seq<char>)) -> Seq<u8> {
        chap_value_name_wire(v)
    }

    open spec fn wire_ok(v: (Seq<u8>, Seq<char>)) -> bool {
        bytes_prefixed_ok(v.0)
    }

    fn serialize(&self, w: &mut Vec<u8>) -> (res: Result<(), Error>) {
        write_prefixed_bytes(w, &self.value)?;
        write_raw_str(w, &self.name);
        Ok(())
    }
}

impl Deserialize for ChapResponse {
    open spec fn spec_parse(b: Seq<u8>) -> Result<((Seq<u8>, Seq<char>), int), Error> {
        parse_chap_value_name(b)
    }

    fn deserialize(&mut self, r: &mut Reader<'_>) -> (res: Result<(), Error>) {
        let ghost b = r.bytes_left();
        let value = read_prefixed_bytes(r)?;
        proof {
            assert(r.bytes_left() =~= b.skip(r.start() - old(r).start()));
        }
        let name = read_raw_str(r)?;
        *self = ChapResponse { value, name };
        Ok(())
    }
}

impl Default for ChapResponse {
    fn default() -> (d: Self)
        ensures
            d.deep_view() == (Seq::<u8>::empty(), Seq::<char>::empty()),
    {
        ChapResponse { value: Vec::new(), name: String::new() }
    }
}

impl ChapResponse {
    /// The payload length in bytes: the length octet, the value, and
    /// the name.
    pub fn len(&self) -> (n: u16)
        requires
            bytes_prefixed_ok(self.value@),
            chap_value_name_wire(self.deep_view()).len() <= 0xFFFF,
        ensures
            n as int == chap_value_name_wire(self.deep_view()).len(),
    {
        (1 + self.value.len() + self.name.as_str().len()) as u16
    }

    /// Whether both the value and the name are empty.
    pub fn is_empty(&self) -> (e: bool)
        requires
            bytes_prefixed_ok(self.value@),
            chap_value_name_wire(self.deep_view()).len() <= 0xFFFF,
        ensures
            e == (chap_value_name_wire(self.deep_view()).len() == 1),
    {
        self.len() == 1
    }
}

/// The Success payload: one unprefixed message.
#[derive(Clone, Debug, Eq, PartialEq)]
pub struct ChapSuccess {
    pub message: String,
}

impl DeepView for ChapSuccess {
    type V = Seq<char>;

    open spec fn deep_view(&self) -> Seq<char> {
        self.message.deep_view()
    }
}

impl Serialize for ChapSuccess {
    open spec fn spec_wire(v: Seq<char>) -> Seq<u8> {
        str_raw_wire(v)
    }

    open spec fn wire_ok(v: Seq<char>) -> bool {
        true
    }

    fn serialize(&self, w: &mut Vec<u8>) -> (res: Result<(), Error>) {
        write_raw_str(w, &self.message);
        Ok(())
    }
}

impl Deserialize for ChapSuccess {
    open spec fn spec_parse(b: Seq<u8>) -> Result<(Seq<char>, int), Error> {
        parse_raw_str(b)
    }

    fn deserialize(&mut self, r: &mut Reader<'_>) -> (res: Result<(), Error>) {
        let m = read_raw_str(r)?;
        *self = ChapSuccess { message: m };
        Ok(())
    }
}

impl Default for ChapSuccess {
    fn default() -> (d: Self)
        ensures
            d.deep_view() == Seq::<char>::empty(),
    {
        ChapSuccess { message: String::new() }
    }
}

impl ChapSuccess {
    /// The payload length in bytes: the message alone.
    pub fn len(&self) -> (n: u16)
        requires
            str_raw_wire(self.message@).len() <= 0xFFFF,
        ensures
            n as int == str_raw_wire(self.deep_view()).len(),
    {
        self.message.as_str().len() as u16
    }

    /// Whether the message is empty.
    pub fn is_empty(&self) -> (e: bool)
        requires
            str_raw_wire(self.message@).len() <= 0xFFFF,
        ensures
            e == (str_raw_wire(self.deep_view()).len() == 0),
    {
        self.len() == 0
    }
}

/// The Failure payload: one unprefixed message.
#[derive(Clone, Debug, Eq, PartialEq)]
pub struct ChapFailure {
    pub message: String,
}

impl DeepView for ChapFailure {
    type V = Seq<char>;

    open spec fn deep_view(&self) -> Seq<char> {
        self.message.deep_view()
    }
}

impl Serialize for ChapFailure {
    open spec fn spec_wire(v: Seq<char>) -> Seq<u8> {
        str_raw_wire(v)
    }

    open spec fn wire_ok(v: Seq<char>) -> bool {
        true
    }

    fn serialize(&self, w: &mut Vec<u8>) -> (res: Result<(), Error>) {
        write_raw_str(w, &self.message);
        Ok(())
    }
}

impl Deserialize for ChapFailure {
    open spec fn spec_parse(b: Seq<u8>) -> Result<(Seq<char>, int), Error> {
        parse_raw_str(b)
    }

    fn deserialize(&mut self, r: &mut Reader<'_>) -> (res: Result<(), Error>) {
        let m = read_raw_str(r)?;
        *self = ChapFailure { message: m };
        Ok(())
    }
}

impl Default for ChapFailure {
    fn default() -> (d: Self)
        ensures
            d.deep_view() == Seq::<char>::empty(),
    {
        ChapFailure { message: String::new() }
    }
}

impl ChapFailure {
    /// The payload length in bytes: the message alone.
    pub fn len(&self) -> (n: u16)
        requires
            str_raw_wire(self.message@).len() <= 0xFFFF,
        ensures
            n as int == str_raw_wire(self.deep_view()).len(),
    {
        self.message.as_str().len() as u16
    }

    /// Whether the message is empty.
    pub fn is_empty(&self) -> (e: bool)
        requires
            str_raw_wire(self.message@).len() <= 0xFFFF,
        ensures
            e == (str_raw_wire(self.deep_view()).len() == 0),
    {
        self.len() == 0
    }
}

/// Parsing inverts encoding for a value-and-name payload read against a
/// window that holds exactly the payload.
pub proof fn lemma_parse_chap_value_name(v: (Seq<u8>, Seq<char>))
    requires
        bytes_prefixed_ok(v.0),
    ensures
        parse_chap_value_name(chap_value_name_wire(v)) == Ok::<((Seq<u8>, Seq<char>), int), Error>(
            (v, chap_value_name_wire(v).len() as int),
        ),
{
    let b = chap_value_name_wire(v);
    crate::de::lemma_parse_prefixed_bytes(v.0, str_raw_wire(v.1));
    assert(b.skip(v.0.len() as int + 1) =~= str_raw_wire(v.1));
    crate::de::lemma_parse_raw_str(v.1);
}

/// Parsing inverts encoding for CHAP payloads read against a window
/// that holds exactly the payload, under the payload's own code. The
/// catch-all must not carry a catalog code.
pub proof fn lemma_parse_chap_data(v: ChapDataV)
    requires
        chap_data_ok(v),
        chap_data_canonical(v),
    ensures
        parse_chap_data(chap_data_code(v), chap_data_wire(v)) == Ok::<(ChapDataV, int), Error>(
            (v, chap_data_wire(v).len() as int),
        ),
{
    match v {
        ChapDataV::Challenge(value, name) => {
            lemma_parse_chap_value_name((value, name));
        },
        ChapDataV::Response(value, name) => {
            lemma_parse_chap_value_name((value, name));
        },
        ChapDataV::Success(m) => {
            crate::de::lemma_parse_raw_str(m);
        },
        ChapDataV::Failure(m) => {
            crate::de::lemma_parse_raw_str(m);
        },
        ChapDataV::Unhandled(_, _) => {},
    }
}

/// Parsing inverts encoding for whole CHAP packets, with any trailing
/// bytes left untouched.
pub proof fn lemma_parse_chap_pkt(v: (u8, ChapDataV), rest: Seq<u8>)
    requires
        chap_pkt_ok(v),
        chap_data_canonical(v.1),
    ensures
        parse_chap_pkt(chap_pkt_wire(v) + rest) == Ok::<((u8, ChapDataV), int), Error>(
            (v, chap_pkt_wire(v).len() as int),
        ),
{
    let pl = chap_data_wire(v.1);
    let total = (4 + pl.len()) as u16;
    let b = chap_pkt_wire(v) + rest;
    assert(b[0] == chap_data_code(v.1));
    assert(b[1] == v.0);
    assert(b.skip(2) =~= be_bytes_u16(total) + (pl + rest));
    crate::de::lemma_parse_be_u16(total, pl + rest);
    assert(b[2] as int * 0x100 + b[3] as int == total as int) by {
        assert(parse_u16(b.skip(2)) == Ok::<(u16, int), Error>((total, 2)));
        assert(b.skip(2)[0] == b[2] && b.skip(2)[1] == b[3]);
    }
    assert(b.subrange(4, 4 + pl.len() as int) =~= pl);
    lemma_parse_chap_data(v.1);
}

} // verus!
