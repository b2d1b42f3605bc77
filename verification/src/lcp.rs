use vstd::prelude::*;

use crate::de::Deserialize;
use crate::de::Reader;
use crate::de::min_int;
use crate::de::parse_u16;
use crate::de::parse_u32;
use crate::de::parse_u8;
use crate::error::Error;
use crate::ppp::AuthProtoV;
use crate::ppp::AuthProtocol;
use crate::ppp::QualityProtocol;
use crate::ppp::auth_proto_canonical;
use crate::ppp::auth_protocol_wire;
use crate::ppp::lemma_parse_auth_protocol;
use crate::ppp::lemma_parse_auth_protocol_bounds;
use crate::ppp::lemma_parse_quality_protocol;
use crate::ppp::lemma_parse_quality_protocol_bounds;
use crate::ppp::parse_auth_protocol;
use crate::ppp::parse_quality_protocol;
use crate::ppp::quality_protocol_wire;
use crate::ser::Serialize;
use crate::ser::be_bytes_u16;
use crate::ser::be_bytes_u32;

verus! {

broadcast use crate::de::lemma_deep_view_u8;

pub const LCP_CONFIGURE_REQUEST: u8 = 1;

pub const LCP_CONFIGURE_ACK: u8 = 2;

pub const LCP_CONFIGURE_NAK: u8 = 3;

pub const LCP_CONFIGURE_REJECT: u8 = 4;

pub const LCP_TERMINATE_REQUEST: u8 = 5;

pub const LCP_TERMINATE_ACK: u8 = 6;

pub const LCP_CODE_REJECT: u8 = 7;

pub const LCP_PROTOCOL_REJECT: u8 = 8;

pub const LCP_ECHO_REQUEST: u8 = 9;

pub const LCP_ECHO_REPLY: u8 = 10;

pub const LCP_DISCARD_REQUEST: u8 = 11;

pub const OPT_MRU: u8 = 1;

pub const OPT_AUTHENTICATION_PROTOCOL: u8 = 3;

pub const OPT_QUALITY_PROTOCOL: u8 = 4;

pub const OPT_MAGIC_NUMBER: u8 = 5;

pub const OPT_PROTOCOL_FIELD_COMPRESSION: u8 = 7;

pub const OPT_ADDR_CTL_FIELD_COMPRESSION: u8 = 8;

/// An LCP configuration option value: one variant per known type, plus
/// a catch-all keeping the raw bytes of any unrecognized type.
#[derive(Clone, Debug, Eq, PartialEq)]
pub enum LcpOpt {
    Mru(u16),
    AuthenticationProtocol(AuthProtocol),
    QualityProtocol(QualityProtocol),
    MagicNumber(u32),
    ProtocolFieldCompression,
    AddrCtlFieldCompression,
    Unhandled(u8, Vec<u8>),
}

/// The abstract form of an LCP option value.
pub enum LcpOptV {
    Mru(u16),
    AuthenticationProtocol(AuthProtoV),
    QualityProtocol(u32),
    MagicNumber(u32),
    ProtocolFieldCompression,
    AddrCtlFieldCompression,
    Unhandled(u8, Seq<u8>),
}

impl DeepView for LcpOpt {
    type V = LcpOptV;

    open spec fn deep_view(&self) -> LcpOptV {
        match self {
            LcpOpt::Mru(x) => LcpOptV::Mru(*x),
            LcpOpt::AuthenticationProtocol(p) => LcpOptV::AuthenticationProtocol(p.deep_view()),
            LcpOpt::QualityProtocol(p) => LcpOptV::QualityProtocol(p.deep_view()),
            LcpOpt::MagicNumber(x) => LcpOptV::MagicNumber(*x),
            LcpOpt::ProtocolFieldCompression => LcpOptV::ProtocolFieldCompression,
            LcpOpt::AddrCtlFieldCompression => LcpOptV::AddrCtlFieldCompression,
            LcpOpt::Unhandled(t, b) => LcpOptV::Unhandled(*t, b.deep_view()),
        }
    }
}

/// The wire type octet of an LCP option value.
pub open spec fn lcp_opt_type(v: LcpOptV) -> u8 {
    match v {
        LcpOptV::Mru(_) => OPT_MRU,
        LcpOptV::AuthenticationProtocol(_) => OPT_AUTHENTICATION_PROTOCOL,
        LcpOptV::QualityProtocol(_) => OPT_QUALITY_PROTOCOL,
        LcpOptV::MagicNumber(_) => OPT_MAGIC_NUMBER,
        LcpOptV::ProtocolFieldCompression => OPT_PROTOCOL_FIELD_COMPRESSION,
        LcpOptV::AddrCtlFieldCompression => OPT_ADDR_CTL_FIELD_COMPRESSION,
        LcpOptV::Unhandled(t, _) => t,
    }
}

/// The value bytes of an LCP option: type and length octets not
/// included. The authentication and quality protocols are themselves
/// framed records nested inside the option value.
pub open spec fn lcp_opt_wire(v: LcpOptV) -> Seq<u8> {
    match v {
        LcpOptV::Mru(x) => be_bytes_u16(x),
        LcpOptV::AuthenticationProtocol(a) => auth_protocol_wire(a),
        LcpOptV::QualityProtocol(q) => quality_protocol_wire(q),
        LcpOptV::MagicNumber(x) => be_bytes_u32(x),
        LcpOptV::ProtocolFieldCompression => Seq::empty(),
        LcpOptV::AddrCtlFieldCompression => Seq::empty(),
        LcpOptV::Unhandled(_, b) => b,
    }
}

/// Whether the value fits an option's one-octet length field, which
/// also counts the two header octets.
pub open spec fn lcp_opt_ok(v: LcpOptV) -> bool {
    lcp_opt_wire(v).len() <= 253
}

/// Whether an LCP option names its type by its variant alone, down
/// into the nested authentication protocol.
pub open spec fn lcp_opt_canonical(v: LcpOptV) -> bool {
    match v {
        LcpOptV::AuthenticationProtocol(a) => auth_proto_canonical(a),
        LcpOptV::Unhandled(t, _) => t != OPT_MRU && t != OPT_AUTHENTICATION_PROTOCOL && t
            != OPT_QUALITY_PROTOCOL && t != OPT_MAGIC_NUMBER && t != OPT_PROTOCOL_FIELD_COMPRESSION
            && t != OPT_ADDR_CTL_FIELD_COMPRESSION,
        _ => true,
    }
}

/// Decode an LCP option value from a window already bounded to the
/// declared value length, dispatching on the type octet.
pub open spec fn parse_lcp_opt(t: u8, b: Seq<u8>) -> Result<(LcpOptV, int), Error> {
    if t == OPT_MRU {
        match parse_u16(b) {
            Ok((x, n)) => Ok((LcpOptV::Mru(x), n)),
            Err(e) => Err(e),
        }
    } else if t == OPT_AUTHENTICATION_PROTOCOL {
        match parse_auth_protocol(b) {
            Ok((a, n)) => Ok((LcpOptV::AuthenticationProtocol(a), n)),
            Err(e) => Err(e),
        }
    } else if t == OPT_QUALITY_PROTOCOL {
        match parse_quality_protocol(b) {
            Ok((q, n)) => Ok((LcpOptV::QualityProtocol(q), n)),
            Err(e) => Err(e),
        }
    } else if t == OPT_MAGIC_NUMBER {
        match parse_u32(b) {
            Ok((x, n)) => Ok((LcpOptV::MagicNumber(x), n)),
            Err(e) => Err(e),
        }
    } else if t == OPT_PROTOCOL_FIELD_COMPRESSION {
        Ok((LcpOptV::ProtocolFieldCompression, 0))
    } else if t == OPT_ADDR_CTL_FIELD_COMPRESSION {
        Ok((LcpOptV::AddrCtlFieldCompression, 0))
    } else {
        Ok((LcpOptV::Unhandled(t, b), b.len() as int))
    }
}

impl Serialize for LcpOpt {
    open spec fn spec_wire(v: LcpOptV) -> Seq<u8> {
        lcp_opt_wire(v)
    }

    open spec fn wire_ok(v: LcpOptV) -> bool {
        true
    }

    fn serialize(&self, w: &mut Vec<u8>) -> (res: Result<(), Error>) {
        match self {
            LcpOpt::Mru(x) => x.serialize(w),
            LcpOpt::AuthenticationProtocol(p) => p.serialize(w),
            LcpOpt::QualityProtocol(p) => p.serialize(w),
            LcpOpt::MagicNumber(x) => x.serialize(w),
            LcpOpt::ProtocolFieldCompression => Ok(()),
            LcpOpt::AddrCtlFieldCompression => Ok(()),
            LcpOpt::Unhandled(_, b) => b.serialize(w),
        }
    }
}

impl LcpOpt {
    /// The wire type octet this value is written under.
    pub fn discriminant(&self) -> (t: u8)
        ensures
            t == lcp_opt_type(self.deep_view()),
    {
        match self {
            LcpOpt::Mru(_) => OPT_MRU,
            LcpOpt::AuthenticationProtocol(_) => OPT_AUTHENTICATION_PROTOCOL,
            LcpOpt::QualityProtocol(_) => OPT_QUALITY_PROTOCOL,
            LcpOpt::MagicNumber(_) => OPT_MAGIC_NUMBER,
            LcpOpt::ProtocolFieldCompression => OPT_PROTOCOL_FIELD_COMPRESSION,
            LcpOpt::AddrCtlFieldCompression => OPT_ADDR_CTL_FIELD_COMPRESSION,
            LcpOpt::Unhandled(t, _) => *t,
        }
    }

    /// The value length in bytes.
    pub fn len(&self) -> (n: u8)
        requires
            lcp_opt_ok(self.deep_view()),
        ensures
            n as int == lcp_opt_wire(self.deep_view()).len(),
    {
        match self {
            LcpOpt::Mru(_) => 2,
            LcpOpt::AuthenticationProtocol(p) => p.len(),
            LcpOpt::QualityProtocol(p) => p.len(),
            LcpOpt::MagicNumber(_) => 4,
            LcpOpt::ProtocolFieldCompression => 0,
            LcpOpt::AddrCtlFieldCompression => 0,
            LcpOpt::Unhandled(_, b) => b.len() as u8,
        }
    }

    /// Decode the value for a type octet already read from the wire,
    /// falling back to the catch-all variant on an unrecognized type.
    pub fn deserialize_with_discriminant(
        &mut self,
        r: &mut Reader<'_>,
        discriminant: &u8,
    ) -> (res: Result<(), Error>)
        requires
            old(r).wf(),
        ensures
            final(r).wf(),
            final(r).all_bytes() == old(r).all_bytes(),
            final(r).stop() == old(r).stop(),
            old(r).start() <= final(r).start(),
            match parse_lcp_opt(*discriminant, old(r).bytes_left()) {
                Ok((v, n)) => res is Ok && final(self).deep_view() == v && final(r).start() == old(
                    r,
                ).start() + n,
                Err(e) => res == Err::<(), Error>(e),
            },
    {
        if *discriminant == OPT_MRU {
            let mut tmp: u16 = 0;
            tmp.deserialize(r)?;
            *self = LcpOpt::Mru(tmp);
        } else if *discriminant == OPT_AUTHENTICATION_PROTOCOL {
            let mut tmp = AuthProtocol::default();
            tmp.deserialize(r)?;
            *self = LcpOpt::AuthenticationProtocol(tmp);
        } else if *discriminant == OPT_QUALITY_PROTOCOL {
            let mut tmp = QualityProtocol::default();
            tmp.deserialize(r)?;
            *self = LcpOpt::QualityProtocol(tmp);
        } else if *discriminant == OPT_MAGIC_NUMBER {
            let mut tmp: u32 = 0;
            tmp.deserialize(r)?;
            *self = LcpOpt::MagicNumber(tmp);
        } else if *discriminant == OPT_PROTOCOL_FIELD_COMPRESSION {
            *self = LcpOpt::ProtocolFieldCompression;
        } else if *discriminant == OPT_ADDR_CTL_FIELD_COMPRESSION {
            *self = LcpOpt::AddrCtlFieldCompression;
        } else {
            let mut tmp: Vec<u8> = Vec::new();
            tmp.deserialize(r)?;
            *self = LcpOpt::Unhandled(*discriminant, tmp);
        }
        Ok(())
    }
}

/// One LCP option as framed on the wire: a type octet, a length octet
/// counting itself, the type octet and the value, then the value.
#[derive(Clone, Debug, Eq, PartialEq)]
pub struct LcpOption {
    pub value: LcpOpt,
}

impl DeepView for LcpOption {
    type V = LcpOptV;

    open spec fn deep_view(&self) -> LcpOptV {
        self.value.deep_view()
    }
}

impl From<LcpOpt> for LcpOption {
    fn from(value: LcpOpt) -> (o: Self) {
        LcpOption { value }
    }
}

impl vstd::std_specs::convert::FromSpecImpl<LcpOpt> for LcpOption {
    open spec fn obeys_from_spec() -> bool {
        true
    }

    open spec fn from_spec(value: LcpOpt) -> Self {
        LcpOption { value }
    }
}

/// The full wire form of one framed LCP option.
pub open spec fn lcp_option_wire(v: LcpOptV) -> Seq<u8> {
    seq![lcp_opt_type(v), (2 + lcp_opt_wire(v).len()) as u8] + lcp_opt_wire(v)
}

/// Decode one framed LCP option: type, length, then the value read
/// from a window bounded to the length less the two header octets.
pub open spec fn parse_lcp_option(b: Seq<u8>) -> Result<(LcpOptV, int), Error> {
    if b.len() < 2 {
        Err(Error::UnexpectedEof)
    } else {
        let t = b[0];
        let l = b[1] as int;
        if l < 2 {
            Err(Error::UnexpectedEof)
        } else {
            let m = min_int(l - 2, b.len() - 2);
            match parse_lcp_opt(t, b.subrange(2, 2 + m)) {
                Ok((v, n)) => Ok((v, 2 + n)),
                Err(e) => Err(e),
            }
        }
    }
}

/// A successful option parse consumes at least its two header octets
/// and never more than the window holds.
pub proof fn lemma_parse_lcp_option_bounds(b: Seq<u8>)
    ensures
        parse_lcp_option(b) matches Ok(p) ==> 2 <= p.1 <= b.len(),
{
    if b.len() >= 2 && b[1] as int >= 2 {
        let m = min_int(b[1] as int - 2, b.len() - 2);
        let sub = b.subrange(2, 2 + m);
        crate::de::lemma_parse_u16_bounds(sub);
        crate::de::lemma_parse_u32_bounds(sub);
        lemma_parse_auth_protocol_bounds(sub);
        lemma_parse_quality_protocol_bounds(sub);
    }
}

impl Serialize for LcpOption {
    open spec fn spec_wire(v: LcpOptV) -> Seq<u8> {
        lcp_option_wire(v)
    }

    open spec fn wire_ok(v: LcpOptV) -> bool {
        lcp_opt_ok(v)
    }

    fn serialize(&self, w: &mut Vec<u8>) -> (res: Result<(), Error>) {
        let t = self.value.discriminant();
        w.push(t);
        let mark = w.len();
        w.push(0);
        self.value.serialize(w)?;
        let n = w.len() - mark - 1;
        if n > 253 {
            return Err(Error::TryFromInt);
        }
        w.set(mark, (n + 2) as u8);
        proof {
            assert(w@ =~= old(w)@ + lcp_option_wire(self.deep_view()));
        }
        Ok(())
    }
}

impl Deserialize for LcpOption {
    open spec fn spec_parse(b: Seq<u8>) -> Result<(LcpOptV, int), Error> {
        parse_lcp_option(b)
    }

    fn deserialize(&mut self, r: &mut Reader<'_>) -> (res: Result<(), Error>) {
        let ghost b = r.bytes_left();
        let t = r.read_u8()?;
        let l = r.read_u8()?;
        if l < 2 {
            return Err(Error::UnexpectedEof);
        }
        let mut sub = r.begin_bounded((l - 2) as usize);
        proof {
            assert(sub.bytes_left() =~= b.subrange(2, 2 + min_int(l as int - 2, b.len() - 2)));
        }
        let mut value = LcpOpt::MagicNumber(0);
        let pres = value.deserialize_with_discriminant(&mut sub, &t);
        r.resume_from(&sub);
        pres?;
        *self = LcpOption { value };
        Ok(())
    }
}

impl LcpOption {
    /// The framed length in bytes: the two header octets plus the
    /// value.
    pub fn len(&self) -> (n: u8)
        requires
            lcp_opt_ok(self.deep_view()),
        ensures
            n as int == lcp_option_wire(self.deep_view()).len(),
    {
        2 + self.value.len()
    }

    /// Whether the option carries no value octets.
    pub fn is_empty(&self) -> (e: bool)
        requires
            lcp_opt_ok(self.deep_view()),
        ensures
            e == (lcp_opt_wire(self.deep_view()).len() == 0),
    {
        self.len() == 2
    }
}

/// The concatenated wire form of a whole option list.
pub open spec fn lcp_options_wire(vs: Seq<LcpOptV>) -> Seq<u8>
    decreases vs.len(),
{
    if vs.len() == 0 {
        Seq::empty()
    } else {
        lcp_option_wire(vs[0]) + lcp_options_wire(vs.skip(1))
    }
}

/// Whether every option of a list fits its length octet.
pub open spec fn lcp_options_ok(vs: Seq<LcpOptV>) -> bool {
    forall|i: int| 0 <= i < vs.len() ==> lcp_opt_ok(#[trigger] vs[i])
}

/// Whether every option of a list is canonical.
pub open spec fn lcp_options_canonical(vs: Seq<LcpOptV>) -> bool {
    forall|i: int| 0 <= i < vs.len() ==> lcp_opt_canonical(#[trigger] vs[i])
}

/// Decode framed options one after another until the window is empty.
pub open spec fn parse_lcp_options(b: Seq<u8>) -> Result<(Seq<LcpOptV>, int), Error>
    decreases b.len(),
{
    if b.len() == 0 {
        Ok((Seq::empty(), 0))
    } else {
        match parse_lcp_option(b) {
            Ok((v, n)) => {
                if 1 <= n <= b.len() {
                    match parse_lcp_options(b.skip(n)) {
                        Ok((vs, n2)) => Ok((seq![v] + vs, n + n2)),
                        Err(e) => Err(e),
                    }
                } else {
                    Err(Error::UnexpectedEof)
                }
            },
            Err(e) => Err(e),
        }
    }
}

impl Serialize for Vec<LcpOption> {
    open spec fn spec_wire(vs: Seq<LcpOptV>) -> Seq<u8> {
        lcp_options_wire(vs)
    }

    open spec fn wire_ok(vs: Seq<LcpOptV>) -> bool {
        lcp_options_ok(vs)
    }

    fn serialize(&self, w: &mut Vec<u8>) -> (res: Result<(), Error>) {
        let ghost dv = self.deep_view();
        let n = self.len();
        proof {
            assert(dv.skip(0) =~= dv);
        }
        let mut i: usize = 0;
        while i < n
            invariant
                i <= n,
                n == self@.len(),
                dv == self.deep_view(),
                dv.len() == n,
                forall|j: int| 0 <= j < i ==> lcp_opt_ok(#[trigger] dv[j]),
                w@ + lcp_options_wire(dv.skip(i as int)) == old(w)@ + lcp_options_wire(dv),
            decreases n - i,
        {
            let res = self[i].serialize(w);
            proof {
                assert(dv.skip(i as int)[0] == dv[i as int]);
                assert(dv.skip(i as int).skip(1) =~= dv.skip(i as int + 1));
            }
            if res.is_err() {
                return Err(Error::TryFromInt);
            }
            i = i + 1;
        }
        proof {
            assert(dv.skip(n as int) =~= Seq::<LcpOptV>::empty());
        }
        Ok(())
    }
}

impl Deserialize for Vec<LcpOption> {
    open spec fn spec_parse(b: Seq<u8>) -> Result<(Seq<LcpOptV>, int), Error> {
        parse_lcp_options(b)
    }

    fn deserialize(&mut self, r: &mut Reader<'_>) -> (res: Result<(), Error>) {
        let ghost b0 = r.bytes_left();
        let mut acc: Vec<LcpOption> = Vec::new();
        while r.has_left()
            invariant
                r.wf(),
                r.all_bytes() == old(r).all_bytes(),
                r.stop() == old(r).stop(),
                old(r).start() <= r.start(),
                match parse_lcp_options(r.bytes_left()) {
                    Ok((vs, n)) => parse_lcp_options(b0) == Ok::<(Seq<LcpOptV>, int), Error>(
                        (acc.deep_view() + vs, (r.start() - old(r).start()) + n),
                    ),
                    Err(e) => parse_lcp_options(b0) == Err::<(Seq<LcpOptV>, int), Error>(e),
                },
            decreases r.stop() - r.start(),
        {
            let ghost cur = r.bytes_left();
            let ghost start_iter = r.start();
            let ghost acc0 = acc.deep_view();
            let mut tmp = LcpOption { value: LcpOpt::MagicNumber(0) };
            let pres = tmp.deserialize(r);
            proof {
                lemma_parse_lcp_option_bounds(cur);
            }
            match pres {
                Err(e) => {
                    proof {
                        assert(parse_lcp_options(cur) == Err::<(Seq<LcpOptV>, int), Error>(e));
                    }
                    return Err(e);
                },
                Ok(_) => {},
            }
            acc.push(tmp);
            proof {
                let n = r.start() - start_iter;
                assert(r.bytes_left() =~= cur.skip(n));
                assert(acc.deep_view() =~= acc0 + seq![tmp.deep_view()]);
                if parse_lcp_options(r.bytes_left()) is Ok {
                    let (vs, n2) = parse_lcp_options(r.bytes_left())->Ok_0;
                    assert(acc0 + (seq![tmp.deep_view()] + vs) =~= acc.deep_view() + vs);
                }
            }
        }
        proof {
            assert(r.bytes_left() =~= Seq::<u8>::empty());
            assert(acc.deep_view() + Seq::<LcpOptV>::empty() =~= acc.deep_view());
        }
        *self = acc;
        Ok(())
    }
}

/// The summed wire length of a whole option list.
fn lcp_options_len(options: &Vec<LcpOption>) -> (n: u16)
    requires
        lcp_options_ok(options.deep_view()),
        lcp_options_wire(options.deep_view()).len() <= 0xFFFF,
    ensures
        n as int == lcp_options_wire(options.deep_view()).len(),
{
    let ghost dv = options.deep_view();
    proof {
        assert(dv.skip(0) =~= dv);
    }
    let k = options.len();
    let mut total: usize = 0;
    let mut i: usize = 0;
    while i < k
        invariant
            i <= k,
            total + lcp_options_wire(dv.skip(i as int)).len() == lcp_options_wire(dv).len(),
        decreases k - i,
    {
        proof {
            assert(dv.skip(i as int)[0] == dv[i as int]);
            assert(dv.skip(i as int).skip(1) =~= dv.skip(i as int + 1));
        }
        let step = options[i].value.len();
        total = total + 2 + step as usize;
        i = i + 1;
    }
    proof {
        assert(dv.skip(k as int) =~= Seq::<LcpOptV>::empty());
    }
    total as u16
}

/// An LCP packet payload: one variant per code, plus a catch-all that
/// keeps the raw bytes of any unrecognized code.
#[derive(Clone, Debug, Eq, PartialEq)]
pub enum LcpData {
    ConfigureRequest(LcpConfigureRequest),
    ConfigureAck(LcpConfigureAck),
    ConfigureNak(LcpConfigureNak),
    ConfigureReject(LcpConfigureReject),
    TerminateRequest(LcpTerminateRequest),
    TerminateAck(LcpTerminateAck),
    CodeReject(LcpCodeReject),
    ProtocolReject(LcpProtocolReject),
    EchoRequest(LcpEchoRequest),
    EchoReply(LcpEchoReply),
    DiscardRequest(LcpDiscardRequest),
    Unhandled(u8, Vec<u8>),
}

/// The abstract form of an LCP payload.
pub enum LcpDataV {
    ConfigureRequest(Seq<LcpOptV>),
    ConfigureAck(Seq<LcpOptV>),
    ConfigureNak(Seq<LcpOptV>),
    ConfigureReject(Seq<LcpOptV>),
    TerminateRequest(Seq<u8>),
    TerminateAck(Seq<u8>),
    CodeReject(Seq<u8>),
    ProtocolReject(u16, Seq<u8>),
    EchoRequest(u32, Seq<u8>),
    EchoReply(u32, Seq<u8>),
    DiscardRequest(u32, Seq<u8>),
    Unhandled(u8, Seq<u8>),
}

impl DeepView for LcpData {
    type V = LcpDataV;

    open spec fn deep_view(&self) -> LcpDataV {
        match self {
            LcpData::ConfigureRequest(p) => LcpDataV::ConfigureRequest(p.options.deep_view()),
            LcpData::ConfigureAck(p) => LcpDataV::ConfigureAck(p.options.deep_view()),
            LcpData::ConfigureNak(p) => LcpDataV::ConfigureNak(p.options.deep_view()),
            LcpData::ConfigureReject(p) => LcpDataV::ConfigureReject(p.options.deep_view()),
            LcpData::TerminateRequest(p) => LcpDataV::TerminateRequest(p.data.deep_view()),
            LcpData::TerminateAck(p) => LcpDataV::TerminateAck(p.data.deep_view()),
            LcpData::CodeReject(p) => LcpDataV::CodeReject(p.pkt.deep_view()),
            LcpData::ProtocolReject(p) => LcpDataV::ProtocolReject(p.protocol, p.pkt.deep_view()),
            LcpData::EchoRequest(p) => LcpDataV::EchoRequest(p.magic, p.data.deep_view()),
            LcpData::EchoReply(p) => LcpDataV::EchoReply(p.magic, p.data.deep_view()),
            LcpData::DiscardRequest(p) => LcpDataV::DiscardRequest(p.magic, p.data.deep_view()),
            LcpData::Unhandled(t, b) => LcpDataV::Unhandled(*t, b.deep_view()),
        }
    }
}

/// The wire code of an LCP payload.
pub open spec fn lcp_data_code(v: LcpDataV) -> u8 {
    match v {
        LcpDataV::ConfigureRequest(_) => LCP_CONFIGURE_REQUEST,
        LcpDataV::ConfigureAck(_) => LCP_CONFIGURE_ACK,
        LcpDataV::ConfigureNak(_) => LCP_CONFIGURE_NAK,
        LcpDataV::ConfigureReject(_) => LCP_CONFIGURE_REJECT,
        LcpDataV::TerminateRequest(_) => LCP_TERMINATE_REQUEST,
        LcpDataV::TerminateAck(_) => LCP_TERMINATE_ACK,
        LcpDataV::CodeReject(_) => LCP_CODE_REJECT,
        LcpDataV::ProtocolReject(_, _) => LCP_PROTOCOL_REJECT,
        LcpDataV::EchoRequest(_, _) => LCP_ECHO_REQUEST,
        LcpDataV::EchoReply(_, _) => LCP_ECHO_REPLY,
        LcpDataV::DiscardRequest(_, _) => LCP_DISCARD_REQUEST,
        LcpDataV::Unhandled(t, _) => t,
    }
}

/// The payload bytes of an LCP payload.
pub open spec fn lcp_data_wire(v: LcpDataV) -> Seq<u8> {
    match v {
        LcpDataV::ConfigureRequest(vs) => lcp_options_wire(vs),
        LcpDataV::ConfigureAck(vs) => lcp_options_wire(vs),
        LcpDataV::ConfigureNak(vs) => lcp_options_wire(vs),
        LcpDataV::ConfigureReject(vs) => lcp_options_wire(vs),
        LcpDataV::TerminateRequest(d) => d,
        LcpDataV::TerminateAck(d) => d,
        LcpDataV::CodeReject(d) => d,
        LcpDataV::ProtocolReject(p, d) => be_bytes_u16(p) + d,
        LcpDataV::EchoRequest(m, d) => be_bytes_u32(m) + d,
        LcpDataV::EchoReply(m, d) => be_bytes_u32(m) + d,
        LcpDataV::DiscardRequest(m, d) => be_bytes_u32(m) + d,
        LcpDataV::Unhandled(_, d) => d,
    }
}

/// Whether every option of the payload fits its length octet.
pub open spec fn lcp_data_ok(v: LcpDataV) -> bool {
    match v {
        LcpDataV::ConfigureRequest(vs) => lcp_options_ok(vs),
        LcpDataV::ConfigureAck(vs) => lcp_options_ok(vs),
        LcpDataV::ConfigureNak(vs) => lcp_options_ok(vs),
        LcpDataV::ConfigureReject(vs) => lcp_options_ok(vs),
        _ => true,
    }
}

/// Whether the payload is canonical: every option names its type by
/// its variant, and the catch-all never carries a catalog code.
pub open spec fn lcp_data_canonical(v: LcpDataV) -> bool {
    match v {
        LcpDataV::ConfigureRequest(vs) => lcp_options_canonical(vs),
        LcpDataV::ConfigureAck(vs) => lcp_options_canonical(vs),
        LcpDataV::ConfigureNak(vs) => lcp_options_canonical(vs),
        LcpDataV::ConfigureReject(vs) => lcp_options_canonical(vs),
        LcpDataV::Unhandled(t, _) => t != LCP_CONFIGURE_REQUEST && t != LCP_CONFIGURE_ACK && t
            != LCP_CONFIGURE_NAK && t != LCP_CONFIGURE_REJECT && t != LCP_TERMINATE_REQUEST && t
            != LCP_TERMINATE_ACK && t != LCP_CODE_REJECT && t != LCP_PROTOCOL_REJECT && t
            != LCP_ECHO_REQUEST && t != LCP_ECHO_REPLY && t != LCP_DISCARD_REQUEST,
        _ => true,
    }
}

/// A 16-bit protocol number, then raw data to the window's end.
pub open spec fn parse_proto_then_rest(b: Seq<u8>) -> Result<((u16, Seq<u8>), int), Error> {
    match parse_u16(b) {
        Ok((p, _)) => Ok(((p, b.skip(2)), b.len() as int)),
        Err(e) => Err(e),
    }
}

/// A 32-bit magic number, then raw data to the window's end.
pub open spec fn parse_magic_then_rest(b: Seq<u8>) -> Result<((u32, Seq<u8>), int), Error> {
    match parse_u32(b) {
        Ok((m, _)) => Ok(((m, b.skip(4)), b.len() as int)),
        Err(e) => Err(e),
    }
}

/// Decode an LCP payload from a window already bounded to the payload
/// length, dispatching on the code read from the wire.
pub open spec fn parse_lcp_data(code: u8, b: Seq<u8>) -> Result<(LcpDataV, int), Error> {
    if code == LCP_CONFIGURE_REQUEST {
        match parse_lcp_options(b) {
            Ok((vs, n)) => Ok((LcpDataV::ConfigureRequest(vs), n)),
            Err(e) => Err(e),
        }
    } else if code == LCP_CONFIGURE_ACK {
        match parse_lcp_options(b) {
            Ok((vs, n)) => Ok((LcpDataV::ConfigureAck(vs), n)),
            Err(e) => Err(e),
        }
    } else if code == LCP_CONFIGURE_NAK {
        match parse_lcp_options(b) {
            Ok((vs, n)) => Ok((LcpDataV::ConfigureNak(vs), n)),
            Err(e) => Err(e),
        }
    } else if code == LCP_CONFIGURE_REJECT {
        match parse_lcp_options(b) {
            Ok((vs, n)) => Ok((LcpDataV::ConfigureReject(vs), n)),
            Err(e) => Err(e),
        }
    } else if code == LCP_TERMINATE_REQUEST {
        Ok((LcpDataV::TerminateRequest(b), b.len() as int))
    } else if code == LCP_TERMINATE_ACK {
        Ok((LcpDataV::TerminateAck(b), b.len() as int))
    } else if code == LCP_CODE_REJECT {
        Ok((LcpDataV::CodeReject(b), b.len() as int))
    } else if code == LCP_PROTOCOL_REJECT {
        match parse_proto_then_rest(b) {
            Ok(((p, d), n)) => Ok((LcpDataV::ProtocolReject(p, d), n)),
            Err(e) => Err(e),
        }
    } else if code == LCP_ECHO_REQUEST {
        match parse_magic_then_rest(b) {
            Ok(((m, d), n)) => Ok((LcpDataV::EchoRequest(m, d), n)),
            Err(e) => Err(e),
        }
    } else if code == LCP_ECHO_REPLY {
        match parse_magic_then_rest(b) {
            Ok(((m, d), n)) => Ok((LcpDataV::EchoReply(m, d), n)),
            Err(e) => Err(e),
        }
    } else if code == LCP_DISCARD_REQUEST {
        match parse_magic_then_rest(b) {
            Ok(((m, d), n)) => Ok((LcpDataV::DiscardRequest(m, d), n)),
            Err(e) => Err(e),
        }
    } else {
        Ok((LcpDataV::Unhandled(code, b), b.len() as int))
    }
}

impl Serialize for LcpData {
    open spec fn spec_wire(v: LcpDataV) -> Seq<u8> {
        lcp_data_wire(v)
    }

    open spec fn wire_ok(v: LcpDataV) -> bool {
        lcp_data_ok(v)
    }

    fn serialize(&self, w: &mut Vec<u8>) -> (res: Result<(), Error>) {
        match self {
            LcpData::ConfigureRequest(p) => p.serialize(w),
            LcpData::ConfigureAck(p) => p.serialize(w),
            LcpData::ConfigureNak(p) => p.serialize(w),
            LcpData::ConfigureReject(p) => p.serialize(w),
            LcpData::TerminateRequest(p) => p.serialize(w),
            LcpData::TerminateAck(p) => p.serialize(w),
            LcpData::CodeReject(p) => p.serialize(w),
            LcpData::ProtocolReject(p) => p.serialize(w),
            LcpData::EchoRequest(p) => p.serialize(w),
            LcpData::EchoReply(p) => p.serialize(w),
            LcpData::DiscardRequest(p) => p.serialize(w),
            LcpData::Unhandled(_, b) => b.serialize(w),
        }
    }
}

impl LcpData {
    /// The wire code this payload is written under.
    pub fn discriminant(&self) -> (code: u8)
        ensures
            code == lcp_data_code(self.deep_view()),
    {
        match self {
            LcpData::ConfigureRequest(_) => LCP_CONFIGURE_REQUEST,
            LcpData::ConfigureAck(_) => LCP_CONFIGURE_ACK,
            LcpData::ConfigureNak(_) => LCP_CONFIGURE_NAK,
            LcpData::ConfigureReject(_) => LCP_CONFIGURE_REJECT,
            LcpData::TerminateRequest(_) => LCP_TERMINATE_REQUEST,
            LcpData::TerminateAck(_) => LCP_TERMINATE_ACK,
            LcpData::CodeReject(_) => LCP_CODE_REJECT,
            LcpData::ProtocolReject(_) => LCP_PROTOCOL_REJECT,
            LcpData::EchoRequest(_) => LCP_ECHO_REQUEST,
            LcpData::EchoReply(_) => LCP_ECHO_REPLY,
            LcpData::DiscardRequest(_) => LCP_DISCARD_REQUEST,
            LcpData::Unhandled(t, _) => *t,
        }
    }

    /// The payload length in bytes.
    pub fn len(&self) -> (n: u16)
        requires
            lcp_data_ok(self.deep_view()),
            lcp_data_wire(self.deep_view()).len() <= 0xFFFF,
        ensures
            n as int == lcp_data_wire(self.deep_view()).len(),
    {
        match self {
            LcpData::ConfigureRequest(p) => p.len(),
            LcpData::ConfigureAck(p) => p.len(),
            LcpData::ConfigureNak(p) => p.len(),
            LcpData::ConfigureReject(p) => p.len(),
            LcpData::TerminateRequest(p) => p.len(),
            LcpData::TerminateAck(p) => p.len(),
            LcpData::CodeReject(p) => p.len(),
            LcpData::ProtocolReject(p) => p.len(),
            LcpData::EchoRequest(p) => p.len(),
            LcpData::EchoReply(p) => p.len(),
            LcpData::DiscardRequest(p) => p.len(),
            LcpData::Unhandled(_, b) => b.len() as u16,
        }
    }

    /// Decode the payload for a code already read from the wire,
    /// falling back to the catch-all variant on an unrecognized code.
    pub fn deserialize_with_discriminant(
        &mut self,
        r: &mut Reader<'_>,
        discriminant: &u8,
    ) -> (res: Result<(), Error>)
        requires
            old(r).wf(),
        ensures
            final(r).wf(),
            final(r).all_bytes() == old(r).all_bytes(),
            final(r).stop() == old(r).stop(),
            old(r).start() <= final(r).start(),
            match parse_lcp_data(*discriminant, old(r).bytes_left()) {
                Ok((v, n)) => res is Ok && final(self).deep_view() == v && final(r).start() == old(
                    r,
                ).start() + n,
                Err(e) => res == Err::<(), Error>(e),
            },
    {
        if *discriminant == LCP_CONFIGURE_REQUEST {
            let mut tmp = LcpConfigureRequest::default();
            tmp.deserialize(r)?;
            *self = LcpData::ConfigureRequest(tmp);
        } else if *discriminant == LCP_CONFIGURE_ACK {
            let mut tmp = LcpConfigureAck::default();
            tmp.deserialize(r)?;
            *self = LcpData::ConfigureAck(tmp);
        } else if *discriminant == LCP_CONFIGURE_NAK {
            let mut tmp = LcpConfigureNak::default();
            tmp.deserialize(r)?;
            *self = LcpData::ConfigureNak(tmp);
        } else if *discriminant == LCP_CONFIGURE_REJECT {
            let mut tmp = LcpConfigureReject::default();
            tmp.deserialize(r)?;
            *self = LcpData::ConfigureReject(tmp);
        } else if *discriminant == LCP_TERMINATE_REQUEST {
            let mut tmp = LcpTerminateRequest::default();
            tmp.deserialize(r)?;
            *self = LcpData::TerminateRequest(tmp);
        } else if *discriminant == LCP_TERMINATE_ACK {
            let mut tmp = LcpTerminateAck::default();
            tmp.deserialize(r)?;
            *self = LcpData::TerminateAck(tmp);
        } else if *discriminant == LCP_CODE_REJECT {
            let mut tmp = LcpCodeReject::default();
            tmp.deserialize(r)?;
            *self = LcpData::CodeReject(tmp);
        } else if *discriminant == LCP_PROTOCOL_REJECT {
            let mut tmp = LcpProtocolReject::default();
            tmp.deserialize(r)?;
            *self = LcpData::ProtocolReject(tmp);
        } else if *discriminant == LCP_ECHO_REQUEST {
            let mut tmp = LcpEchoRequest::default();
            tmp.deserialize(r)?;
            *self = LcpData::EchoRequest(tmp);
        } else if *discriminant == LCP_ECHO_REPLY {
            let mut tmp = LcpEchoReply::default();
            tmp.deserialize(r)?;
            *self = LcpData::EchoReply(tmp);
        } else if *discriminant == LCP_DISCARD_REQUEST {
            let mut tmp = LcpDiscardRequest::default();
            tmp.deserialize(r)?;
            *self = LcpData::DiscardRequest(tmp);
        } else {
            let mut tmp: Vec<u8> = Vec::new();
            tmp.deserialize(r)?;
            *self = LcpData::Unhandled(*discriminant, tmp);
        }
        Ok(())
    }
}

impl Default for LcpData {
    fn default() -> (d: Self)
        ensures
            d.deep_view() == LcpDataV::ConfigureRequest(Seq::<LcpOptV>::empty()),
    {
        let d = LcpData::ConfigureRequest(LcpConfigureRequest::default());
        proof {
            assert(d.deep_view()->ConfigureRequest_0 =~= Seq::<LcpOptV>::empty());
        }
        d
    }
}

/// An LCP packet: a code octet naming the payload variant, an
/// identifier octet, a length field covering the whole packet, and the
/// payload.
#[derive(Clone, Debug, Eq, PartialEq)]
pub struct LcpPkt {
    pub identifier: u8,
    pub data: LcpData,
}

impl DeepView for LcpPkt {
    type V = (u8, LcpDataV);

    open spec fn deep_view(&self) -> (u8, LcpDataV) {
        (self.identifier, self.data.deep_view())
    }
}

/// The full wire form of an LCP packet. The length field counts its
/// own four header octets together with the payload.
pub open spec fn lcp_pkt_wire(v: (u8, LcpDataV)) -> Seq<u8> {
    seq![lcp_data_code(v.1), v.0] + be_bytes_u16((4 + lcp_data_wire(v.1).len()) as u16)
        + lcp_data_wire(v.1)
}

/// Whether an LCP packet can be encoded.
pub open spec fn lcp_pkt_ok(v: (u8, LcpDataV)) -> bool {
    lcp_data_ok(v.1) && 4 + lcp_data_wire(v.1).len() <= 0xFFFF
}

/// Decode an LCP packet: code, identifier, length, then the payload
/// read from a window bounded to the length field less the header.
pub open spec fn parse_lcp_pkt(b: Seq<u8>) -> Result<((u8, LcpDataV), int), Error> {
    if b.len() < 4 {
        Err(Error::UnexpectedEof)
    } else {
        let code = b[0];
        let id = b[1];
        let len = b[2] as int * 0x100 + b[3] as int;
        if len < 4 {
            Err(Error::UnexpectedEof)
        } else {
            let m = min_int(len - 4, b.len() - 4);
            match parse_lcp_data(code, b.subrange(4, 4 + m)) {
                Ok((d, n)) => Ok(((id, d), 4 + n)),
                Err(e) => Err(e),
            }
        }
    }
}

impl Serialize for LcpPkt {
    open spec fn spec_wire(v: (u8, LcpDataV)) -> Seq<u8> {
        lcp_pkt_wire(v)
    }

    open spec fn wire_ok(v: (u8, LcpDataV)) -> bool {
        lcp_pkt_ok(v)
    }

    fn serialize(&self, w: &mut Vec<u8>) -> (res: Result<(), Error>) {
        let code = self.data.discriminant();
        w.push(code);
        w.push(self.identifier);
        let mark = w.len();
        w.push(0);
        w.push(0);
        self.data.serialize(w)?;
        let n = w.len() - mark - 2;
        if n > 0xFFFF - 4 {
            return Err(Error::TryFromInt);
        }
        let total = (n + 4) as u16;
        w.set(mark, (total / 0x100) as u8);
        w.set(mark + 1, (total % 0x100) as u8);
        proof {
            assert(w@ =~= old(w)@ + lcp_pkt_wire(self.deep_view()));
        }
        Ok(())
    }
}

impl Deserialize for LcpPkt {
    open spec fn spec_parse(b: Seq<u8>) -> Result<((u8, LcpDataV), int), Error> {
        parse_lcp_pkt(b)
    }

    fn deserialize(&mut self, r: &mut Reader<'_>) -> (res: Result<(), Error>) {
        let ghost b = r.bytes_left();
        let code = r.read_u8()?;
        let id = r.read_u8()?;
        proof {
            assert(r.bytes_left() =~= b.skip(2));
        }
        let mut len: u16 = 0;
        len.deserialize(r)?;
        if len < 4 {
            return Err(Error::UnexpectedEof);
        }
        let mut sub = r.begin_bounded((len - 4) as usize);
        proof {
            assert(sub.bytes_left() =~= b.subrange(4, 4 + min_int(len as int - 4, b.len() - 4)));
        }
        let mut data = LcpData::default();
        let pres = data.deserialize_with_discriminant(&mut sub, &code);
        r.resume_from(&sub);
        pres?;
        *self = LcpPkt { identifier: id, data };
        Ok(())
    }
}

impl Default for LcpPkt {
    fn default() -> (d: Self)
        ensures
            d.deep_view() == (0u8, LcpDataV::ConfigureRequest(Seq::<LcpOptV>::empty())),
    {
        LcpPkt { identifier: 0, data: LcpData::default() }
    }
}

impl LcpPkt {
    /// A Configure-Request carrying an option list.
    pub fn new_configure_request(identifier: u8, options: Vec<LcpOption>) -> (p: Self)
        ensures
            p.deep_view() == (identifier, LcpDataV::ConfigureRequest(options.deep_view())),
    {
        LcpPkt { identifier, data: LcpData::ConfigureRequest(LcpConfigureRequest { options }) }
    }

    /// A Configure-Ack carrying the acknowledged option list.
    pub fn new_configure_ack(identifier: u8, options: Vec<LcpOption>) -> (p: Self)
        ensures
            p.deep_view() == (identifier, LcpDataV::ConfigureAck(options.deep_view())),
    {
        LcpPkt { identifier, data: LcpData::ConfigureAck(LcpConfigureAck { options }) }
    }

    /// A Configure-Nak carrying the nak'd option values.
    pub fn new_configure_nak(identifier: u8, options: Vec<LcpOption>) -> (p: Self)
        ensures
            p.deep_view() == (identifier, LcpDataV::ConfigureNak(options.deep_view())),
    {
        LcpPkt { identifier, data: LcpData::ConfigureNak(LcpConfigureNak { options }) }
    }

    /// A Configure-Reject carrying the unacceptable options.
    pub fn new_configure_reject(identifier: u8, options: Vec<LcpOption>) -> (p: Self)
        ensures
            p.deep_view() == (identifier, LcpDataV::ConfigureReject(options.deep_view())),
    {
        LcpPkt { identifier, data: LcpData::ConfigureReject(LcpConfigureReject { options }) }
    }

    /// A Terminate-Request carrying arbitrary data.
    pub fn new_terminate_request(identifier: u8, data: Vec<u8>) -> (p: Self)
        ensures
            p.deep_view() == (identifier, LcpDataV::TerminateRequest(data@)),
    {
        LcpPkt { identifier, data: LcpData::TerminateRequest(LcpTerminateRequest { data }) }
    }

    /// A Terminate-Ack carrying arbitrary data.
    pub fn new_terminate_ack(identifier: u8, data: Vec<u8>) -> (p: Self)
        ensures
            p.deep_view() == (identifier, LcpDataV::TerminateAck(data@)),
    {
        LcpPkt { identifier, data: LcpData::TerminateAck(LcpTerminateAck { data }) }
    }

    /// A Code-Reject carrying the rejected packet.
    pub fn new_code_reject(identifier: u8, pkt: Vec<u8>) -> (p: Self)
        ensures
            p.deep_view() == (identifier, LcpDataV::CodeReject(pkt@)),
    {
        LcpPkt { identifier, data: LcpData::CodeReject(LcpCodeReject { pkt }) }
    }

    /// A Protocol-Reject naming the rejected protocol and carrying the
    /// rejected packet.
    pub fn new_protocol_reject(identifier: u8, protocol: u16, pkt: Vec<u8>) -> (p: Self)
        ensures
            p.deep_view() == (identifier, LcpDataV::ProtocolReject(protocol, pkt@)),
    {
        LcpPkt { identifier, data: LcpData::ProtocolReject(LcpProtocolReject { protocol, pkt }) }
    }

    /// An Echo-Request carrying the magic number and arbitrary data.
    pub fn new_echo_request(identifier: u8, magic: u32, data: Vec<u8>) -> (p: Self)
        ensures
            p.deep_view() == (identifier, LcpDataV::EchoRequest(magic, data@)),
    {
        LcpPkt { identifier, data: LcpData::EchoRequest(LcpEchoRequest { magic, data }) }
    }

    /// An Echo-Reply carrying the magic number and arbitrary data.
    pub fn new_echo_reply(identifier: u8, magic: u32, data: Vec<u8>) -> (p: Self)
        ensures
            p.deep_view() == (identifier, LcpDataV::EchoReply(magic, data@)),
    {
        LcpPkt { identifier, data: LcpData::EchoReply(LcpEchoReply { magic, data }) }
    }

    /// A Discard-Request carrying the magic number and arbitrary data.
    pub fn new_discard_request(identifier: u8, magic: u32, data: Vec<u8>) -> (p: Self)
        ensures
            p.deep_view() == (identifier, LcpDataV::DiscardRequest(magic, data@)),
    {
        LcpPkt { identifier, data: LcpData::DiscardRequest(LcpDiscardRequest { magic, data }) }
    }

    /// The packet length in bytes, header octets included.
    pub fn len(&self) -> (n: u16)
        requires
            lcp_pkt_ok(self.deep_view()),
        ensures
            n as int == lcp_pkt_wire(self.deep_view()).len(),
    {
        4 + self.data.len()
    }

    /// Whether the packet carries no payload bytes.
    pub fn is_empty(&self) -> (e: bool)
        requires
            lcp_pkt_ok(self.deep_view()),
        ensures
            e == (lcp_data_wire(self.deep_view().1).len() == 0),
    {
        self.len() == 4
    }
}

/// The Configure-Request payload: an option list.
#[derive(Clone, Debug, Eq, PartialEq)]
pub struct LcpConfigureRequest {
    pub options: Vec<LcpOption>,
}

impl DeepView for LcpConfigureRequest {
    type V = Seq<LcpOptV>;

    open spec fn deep_view(&self) -> Seq<LcpOptV> {
        self.options.deep_view()
    }
}

impl Serialize for LcpConfigureRequest {
    open spec fn spec_wire(vs: Seq<LcpOptV>) -> Seq<u8> {
        lcp_options_wire(vs)
    }

    open spec fn wire_ok(vs: Seq<LcpOptV>) -> bool {
        lcp_options_ok(vs)
    }

    fn serialize(&self, w: &mut Vec<u8>) -> (res: Result<(), Error>) {
        self.options.serialize(w)
    }
}

impl Deserialize for LcpConfigureRequest {
    open spec fn spec_parse(b: Seq<u8>) -> Result<(Seq<LcpOptV>, int), Error> {
        parse_lcp_options(b)
    }

    fn deserialize(&mut self, r: &mut Reader<'_>) -> (res: Result<(), Error>) {
        self.options.deserialize(r)
    }
}

impl Default for LcpConfigureRequest {
    fn default() -> (d: Self)
        ensures
            d.deep_view() == Seq::<LcpOptV>::empty(),
    {
        let d = LcpConfigureRequest { options: Vec::new() };
        proof {
            assert(d.deep_view() =~= Seq::<LcpOptV>::empty());
        }
        d
    }
}

impl LcpConfigureRequest {
    /// The payload length in bytes: the summed length of the options.
    pub fn len(&self) -> (n: u16)
        requires
            lcp_options_ok(self.deep_view()),
            lcp_options_wire(self.deep_view()).len() <= 0xFFFF,
        ensures
            n as int == lcp_options_wire(self.deep_view()).len(),
    {
        lcp_options_len(&self.options)
    }

    /// Whether the option list is empty.
    pub fn is_empty(&self) -> (e: bool)
        ensures
            e == (self.deep_view().len() == 0),
    {
        self.options.is_empty()
    }
}

/// The Configure-Ack payload: an option list.
#[derive(Clone, Debug, Eq, PartialEq)]
pub struct LcpConfigureAck {
    pub options: Vec<LcpOption>,
}

impl DeepView for LcpConfigureAck {
    type V = Seq<LcpOptV>;

    open spec fn deep_view(&self) -> Seq<LcpOptV> {
        self.options.deep_view()
    }
}

impl Serialize for LcpConfigureAck {
    open spec fn spec_wire(vs: Seq<LcpOptV>) -> Seq<u8> {
        lcp_options_wire(vs)
    }

    open spec fn wire_ok(vs: Seq<LcpOptV>) -> bool {
        lcp_options_ok(vs)
    }

    fn serialize(&self, w: &mut Vec<u8>) -> (res: Result<(), Error>) {
        self.options.serialize(w)
    }
}

impl Deserialize for LcpConfigureAck {
    open spec fn spec_parse(b: Seq<u8>) -> Result<(Seq<LcpOptV>, int), Error> {
        parse_lcp_options(b)
    }

    fn deserialize(&mut self, r: &mut Reader<'_>) -> (res: Result<(), Error>) {
        self.options.deserialize(r)
    }
}

impl Default for LcpConfigureAck {
    fn default() -> (d: Self)
        ensures
            d.deep_view() == Seq::<LcpOptV>::empty(),
    {
        let d = LcpConfigureAck { options: Vec::new() };
        proof {
            assert(d.deep_view() =~= Seq::<LcpOptV>::empty());
        }
        d
    }
}

impl LcpConfigureAck {
    /// The payload length in bytes: the summed length of the options.
    pub fn len(&self) -> (n: u16)
        requires
            lcp_options_ok(self.deep_view()),
            lcp_options_wire(self.deep_view()).len() <= 0xFFFF,
        ensures
            n as int == lcp_options_wire(self.deep_view()).len(),
    {
        lcp_options_len(&self.options)
    }

    /// Whether the option list is empty.
    pub fn is_empty(&self) -> (e: bool)
        ensures
            e == (self.deep_view().len() == 0),
    {
        self.options.is_empty()
    }
}

/// The Configure-Nak payload: an option list.
#[derive(Clone, Debug, Eq, PartialEq)]
pub struct LcpConfigureNak {
    pub options: Vec<LcpOption>,
}

impl DeepView for LcpConfigureNak {
    type V = Seq<LcpOptV>;

    open spec fn deep_view(&self) -> Seq<LcpOptV> {
        self.options.deep_view()
    }
}

impl Serialize for LcpConfigureNak {
    open spec fn spec_wire(vs: Seq<LcpOptV>) -> Seq<u8> {
        lcp_options_wire(vs)
    }

    open spec fn wire_ok(vs: Seq<LcpOptV>) -> bool {
        lcp_options_ok(vs)
    }

    fn serialize(&self, w: &mut Vec<u8>) -> (res: Result<(), Error>) {
        self.options.serialize(w)
    }
}

impl Deserialize for LcpConfigureNak {
    open spec fn spec_parse(b: Seq<u8>) -> Result<(Seq<LcpOptV>, int), Error> {
        parse_lcp_options(b)
    }

    fn deserialize(&mut self, r: &mut Reader<'_>) -> (res: Result<(), Error>) {
        self.options.deserialize(r)
    }
}

impl Default for LcpConfigureNak {
    fn default() -> (d: Self)
        ensures
            d.deep_view() == Seq::<LcpOptV>::empty(),
    {
        let d = LcpConfigureNak { options: Vec::new() };
        proof {
            assert(d.deep_view() =~= Seq::<LcpOptV>::empty());
        }
        d
    }
}

impl LcpConfigureNak {
    /// The payload length in bytes: the summed length of the options.
    pub fn len(&self) -> (n: u16)
        requires
            lcp_options_ok(self.deep_view()),
            lcp_options_wire(self.deep_view()).len() <= 0xFFFF,
        ensures
            n as int == lcp_options_wire(self.deep_view()).len(),
    {
        lcp_options_len(&self.options)
    }

    /// Whether the option list is empty.
    pub fn is_empty(&self) -> (e: bool)
        ensures
            e == (self.deep_view().len() == 0),
    {
        self.options.is_empty()
    }
}

/// The Configure-Reject payload: an option list.
#[derive(Clone, Debug, Eq, PartialEq)]
pub struct LcpConfigureReject {
    pub options: Vec<LcpOption>,
}

impl DeepView for LcpConfigureReject {
    type V = Seq<LcpOptV>;

    open spec fn deep_view(&self) -> Seq<LcpOptV> {
        self.options.deep_view()
    }
}

impl Serialize for LcpConfigureReject {
    open spec fn spec_wire(vs: Seq<LcpOptV>) -> Seq<u8> {
        lcp_options_wire(vs)
    }

    open spec fn wire_ok(vs: Seq<LcpOptV>) -> bool {
        lcp_options_ok(vs)
    }

    fn serialize(&self, w: &mut Vec<u8>) -> (res: Result<(), Error>) {
        self.options.serialize(w)
    }
}

impl Deserialize for LcpConfigureReject {
    open spec fn spec_parse(b: Seq<u8>) -> Result<(Seq<LcpOptV>, int), Error> {
        parse_lcp_options(b)
    }

    fn deserialize(&mut self, r: &mut Reader<'_>) -> (res: Result<(), Error>) {
        self.options.deserialize(r)
    }
}

impl Default for LcpConfigureReject {
    fn default() -> (d: Self)
        ensures
            d.deep_view() == Seq::<LcpOptV>::empty(),
    {
        let d = LcpConfigureReject { options: Vec::new() };
        proof {
            assert(d.deep_view() =~= Seq::<LcpOptV>::empty());
        }
        d
    }
}

impl LcpConfigureReject {
    /// The payload length in bytes: the summed length of the options.
    pub fn len(&self) -> (n: u16)
        requires
            lcp_options_ok(self.deep_view()),
            lcp_options_wire(self.deep_view()).len() <= 0xFFFF,
        ensures
            n as int == lcp_options_wire(self.deep_view()).len(),
    {
        lcp_options_len(&self.options)
    }

    /// Whether the option list is empty.
    pub fn is_empty(&self) -> (e: bool)
        ensures
            e == (self.deep_view().len() == 0),
    {
        self.options.is_empty()
    }
}

/// The Terminate-Request payload: raw data.
#[derive(Clone, Debug, Eq, PartialEq)]
pub struct LcpTerminateRequest {
    pub data: Vec<u8>,
}

impl DeepView for LcpTerminateRequest {
    type V = Seq<u8>;

    open spec fn deep_view(&self) -> Seq<u8> {
        self.data.deep_view()
    }
}

impl Serialize for LcpTerminateRequest {
    open spec fn spec_wire(v: Seq<u8>) -> Seq<u8> {
        v
    }

    open spec fn wire_ok(v: Seq<u8>) -> bool {
        true
    }

    fn serialize(&self, w: &mut Vec<u8>) -> (res: Result<(), Error>) {
        self.data.serialize(w)
    }
}

impl Deserialize for LcpTerminateRequest {
    open spec fn spec_parse(b: Seq<u8>) -> Result<(Seq<u8>, int), Error> {
        Ok((b, b.len() as int))
    }

    fn deserialize(&mut self, r: &mut Reader<'_>) -> (res: Result<(), Error>) {
        self.data.deserialize(r)
    }
}

impl Default for LcpTerminateRequest {
    fn default() -> (d: Self)
        ensures
            d.deep_view() == Seq::<u8>::empty(),
    {
        LcpTerminateRequest { data: Vec::new() }
    }
}

impl LcpTerminateRequest {
    /// The payload length in bytes.
    pub fn len(&self) -> (n: u16)
        requires
            self.deep_view().len() <= 0xFFFF,
        ensures
            n as int == self.deep_view().len(),
    {
        self.data.len() as u16
    }

    /// Whether the data is empty.
    pub fn is_empty(&self) -> (e: bool)
        ensures
            e == (self.deep_view().len() == 0),
    {
        self.data.is_empty()
    }
}

/// The Terminate-Ack payload: raw data.
#[derive(Clone, Debug, Eq, PartialEq)]
pub struct LcpTerminateAck {
    pub data: Vec<u8>,
}

impl DeepView for LcpTerminateAck {
    type V = Seq<u8>;

    open spec fn deep_view(&self) -> Seq<u8> {
        self.data.deep_view()
    }
}

impl Serialize for LcpTerminateAck {
    open spec fn spec_wire(v: Seq<u8>) -> Seq<u8> {
        v
    }

    open spec fn wire_ok(v: Seq<u8>) -> bool {
        true
    }

    fn serialize(&self, w: &mut Vec<u8>) -> (res: Result<(), Error>) {
        self.data.serialize(w)
    }
}

impl Deserialize for LcpTerminateAck {
    open spec fn spec_parse(b: Seq<u8>) -> Result<(Seq<u8>, int), Error> {
        Ok((b, b.len() as int))
    }

    fn deserialize(&mut self, r: &mut Reader<'_>) -> (res: Result<(), Error>) {
        self.data.deserialize(r)
    }
}

impl Default for LcpTerminateAck {
    fn default() -> (d: Self)
        ensures
            d.deep_view() == Seq::<u8>::empty(),
    {
        LcpTerminateAck { data: Vec::new() }
    }
}

impl LcpTerminateAck {
    /// The payload length in bytes.
    pub fn len(&self) -> (n: u16)
        requires
            self.deep_view().len() <= 0xFFFF,
        ensures
            n as int == self.deep_view().len(),
    {
        self.data.len() as u16
    }

    /// Whether the data is empty.
    pub fn is_empty(&self) -> (e: bool)
        ensures
            e == (self.deep_view().len() == 0),
    {
        self.data.is_empty()
    }
}

/// The Code-Reject payload: the rejected packet's bytes.
#[derive(Clone, Debug, Eq, PartialEq)]
pub struct LcpCodeReject {
    pub pkt: Vec<u8>,
}

impl DeepView for LcpCodeReject {
    type V = Seq<u8>;

    open spec fn deep_view(&self) -> Seq<u8> {
        self.pkt.deep_view()
    }
}

impl Serialize for LcpCodeReject {
    open spec fn spec_wire(v: Seq<u8>) -> Seq<u8> {
        v
    }

    open spec fn wire_ok(v: Seq<u8>) -> bool {
        true
    }

    fn serialize(&self, w: &mut Vec<u8>) -> (res: Result<(), Error>) {
        self.pkt.serialize(w)
    }
}

impl Deserialize for LcpCodeReject {
    open spec fn spec_parse(b: Seq<u8>) -> Result<(Seq<u8>, int), Error> {
        Ok((b, b.len() as int))
    }

    fn deserialize(&mut self, r: &mut Reader<'_>) -> (res: Result<(), Error>) {
        self.pkt.deserialize(r)
    }
}

impl Default for LcpCodeReject {
    fn default() -> (d: Self)
        ensures
            d.deep_view() == Seq::<u8>::empty(),
    {
        LcpCodeReject { pkt: Vec::new() }
    }
}

impl LcpCodeReject {
    /// The payload length in bytes.
    pub fn len(&self) -> (n: u16)
        requires
            self.deep_view().len() <= 0xFFFF,
        ensures
            n as int == self.deep_view().len(),
    {
        self.pkt.len() as u16
    }

    /// Whether the rejected packet is empty.
    pub fn is_empty(&self) -> (e: bool)
        ensures
            e == (self.deep_view().len() == 0),
    {
        self.pkt.is_empty()
    }
}

/// The Protocol-Reject payload: the rejected protocol number, then the
/// rejected packet's bytes.
#[derive(Clone, Debug, Eq, PartialEq)]
pub struct LcpProtocolReject {
    pub protocol: u16,
    pub pkt: Vec<u8>,
}

impl DeepView for LcpProtocolReject {
    type V = (u16, Seq<u8>);

    open spec fn deep_view(&self) -> (u16, Seq<u8>) {
        (self.protocol, self.pkt.deep_view())
    }
}

impl Serialize for LcpProtocolReject {
    open spec fn spec_wire(v: (u16, Seq<u8>)) -> Seq<u8> {
        be_bytes_u16(v.0) + v.1
    }

    open spec fn wire_ok(v: (u16, Seq<u8>)) -> bool {
        true
    }

    fn serialize(&self, w: &mut Vec<u8>) -> (res: Result<(), Error>) {
        self.protocol.serialize(w)?;
        self.pkt.serialize(w)
    }
}

impl Deserialize for LcpProtocolReject {
    open spec fn spec_parse(b: Seq<u8>) -> Result<((u16, Seq<u8>), int), Error> {
        parse_proto_then_rest(b)
    }

    fn deserialize(&mut self, r: &mut Reader<'_>) -> (res: Result<(), Error>) {
        let ghost b = r.bytes_left();
        let mut protocol: u16 = 0;
        protocol.deserialize(r)?;
        proof {
            assert(r.bytes_left() =~= b.skip(2));
        }
        let pkt = r.read_rest();
        *self = LcpProtocolReject { protocol, pkt };
        Ok(())
    }
}

impl Default for LcpProtocolReject {
    fn default() -> (d: Self)
        ensures
            d.deep_view() == (0u16, Seq::<u8>::empty()),
    {
        LcpProtocolReject { protocol: 0, pkt: Vec::new() }
    }
}

impl LcpProtocolReject {
    /// The payload length in bytes: the protocol number octets plus
    /// the rejected packet.
    pub fn len(&self) -> (n: u16)
        requires
            2 + self.deep_view().1.len() <= 0xFFFF,
        ensures
            n as int == 2 + self.deep_view().1.len(),
    {
        2 + self.pkt.len() as u16
    }

    /// Whether the rejected packet is empty.
    pub fn is_empty(&self) -> (e: bool)
        requires
            2 + self.deep_view().1.len() <= 0xFFFF,
        ensures
            e == (self.deep_view().1.len() == 0),
    {
        self.len() == 2
    }
}

/// The Echo-Request payload: the magic number, then arbitrary data.
#[derive(Clone, Debug, Eq, PartialEq)]
pub struct LcpEchoRequest {
    pub magic: u32,
    pub data: Vec<u8>,
}

impl DeepView for LcpEchoRequest {
    type V = (u32, Seq<u8>);

    open spec fn deep_view(&self) -> (u32, Seq<u8>) {
        (self.magic, self.data.deep_view())
    }
}

impl Serialize for LcpEchoRequest {
    open spec fn spec_wire(v: (u32, Seq<u8>)) -> Seq<u8> {
        be_bytes_u32(v.0) + v.1
    }

    open spec fn wire_ok(v: (u32, Seq<u8>)) -> bool {
        true
    }

    fn serialize(&self, w: &mut Vec<u8>) -> (res: Result<(), Error>) {
        self.magic.serialize(w)?;
        self.data.serialize(w)
    }
}

impl Deserialize for LcpEchoRequest {
    open spec fn spec_parse(b: Seq<u8>) -> Result<((u32, Seq<u8>), int), Error> {
        parse_magic_then_rest(b)
    }

    fn deserialize(&mut self, r: &mut Reader<'_>) -> (res: Result<(), Error>) {
        let ghost b = r.bytes_left();
        let mut magic: u32 = 0;
        magic.deserialize(r)?;
        proof {
            assert(r.bytes_left() =~= b.skip(4));
        }
        let data = r.read_rest();
        *self = LcpEchoRequest { magic, data };
        Ok(())
    }
}

impl Default for LcpEchoRequest {
    fn default() -> (d: Self)
        ensures
            d.deep_view() == (0u32, Seq::<u8>::empty()),
    {
        LcpEchoRequest { magic: 0, data: Vec::new() }
    }
}

impl LcpEchoRequest {
    /// The payload length in bytes: the magic number octets plus the
    /// data.
    pub fn len(&self) -> (n: u16)
        requires
            4 + self.deep_view().1.len() <= 0xFFFF,
        ensures
            n as int == 4 + self.deep_view().1.len(),
    {
        4 + self.data.len() as u16
    }

    /// Whether the data is empty.
    pub fn is_empty(&self) -> (e: bool)
        requires
            4 + self.deep_view().1.len() <= 0xFFFF,
        ensures
            e == (self.deep_view().1.len() == 0),
    {
        self.len() == 4
    }
}

/// The Echo-Reply payload: the magic number, then arbitrary data.
#[derive(Clone, Debug, Eq, PartialEq)]
pub struct LcpEchoReply {
    pub magic: u32,
    pub data: Vec<u8>,
}

impl DeepView for LcpEchoReply {
    type V = (u32, Seq<u8>);

    open spec fn deep_view(&self) -> (u32, Seq<u8>) {
        (self.magic, self.data.deep_view())
    }
}

impl Serialize for LcpEchoReply {
    open spec fn spec_wire(v: (u32, Seq<u8>)) -> Seq<u8> {
        be_bytes_u32(v.0) + v.1
    }

    open spec fn wire_ok(v: (u32, Seq<u8>)) -> bool {
        true
    }

    fn serialize(&self, w: &mut Vec<u8>) -> (res: Result<(), Error>) {
        self.magic.serialize(w)?;
        self.data.serialize(w)
    }
}

impl Deserialize for LcpEchoReply {
    open spec fn spec_parse(b: Seq<u8>) -> Result<((u32, Seq<u8>), int), Error> {
        parse_magic_then_rest(b)
    }

    fn deserialize(&mut self, r: &mut Reader<'_>) -> (res: Result<(), Error>) {
        let ghost b = r.bytes_left();
        let mut magic: u32 = 0;
        magic.deserialize(r)?;
        proof {
            assert(r.bytes_left() =~= b.skip(4));
        }
        let data = r.read_rest();
        *self = LcpEchoReply { magic, data };
        Ok(())
    }
}

impl Default for LcpEchoReply {
    fn default() -> (d: Self)
        ensures
            d.deep_view() == (0u32, Seq::<u8>::empty()),
    {
        LcpEchoReply { magic: 0, data: Vec::new() }
    }
}

impl LcpEchoReply {
    /// The payload length in bytes: the magic number octets plus the
    /// data.
    pub fn len(&self) -> (n: u16)
        requires
            4 + self.deep_view().1.len() <= 0xFFFF,
        ensures
            n as int == 4 + self.deep_view().1.len(),
    {
        4 + self.data.len() as u16
    }

    /// Whether the data is empty.
    pub fn is_empty(&self) -> (e: bool)
        requires
            4 + self.deep_view().1.len() <= 0xFFFF,
        ensures
            e == (self.deep_view().1.len() == 0),
    {
        self.len() == 4
    }
}

/// The Discard-Request payload: the magic number, then arbitrary data.
#[derive(Clone, Debug, Eq, PartialEq)]
pub struct LcpDiscardRequest {
    pub magic: u32,
    pub data: Vec<u8>,
}

impl DeepView for LcpDiscardRequest {
    type V = (u32, Seq<u8>);

    open spec fn deep_view(&self) -> (u32, Seq<u8>) {
        (self.magic, self.data.deep_view())
    }
}

impl Serialize for LcpDiscardRequest {
    open spec fn spec_wire(v: (u32, Seq<u8>)) -> Seq<u8> {
        be_bytes_u32(v.0) + v.1
    }

    open spec fn wire_ok(v: (u32, Seq<u8>)) -> bool {
        true
    }

    fn serialize(&self, w: &mut Vec<u8>) -> (res: Result<(), Error>) {
        self.magic.serialize(w)?;
        self.data.serialize(w)
    }
}

impl Deserialize for LcpDiscardRequest {
    open spec fn spec_parse(b: Seq<u8>) -> Result<((u32, Seq<u8>), int), Error> {
        parse_magic_then_rest(b)
    }

    fn deserialize(&mut self, r: &mut Reader<'_>) -> (res: Result<(), Error>) {
        let ghost b = r.bytes_left();
        let mut magic: u32 = 0;
        magic.deserialize(r)?;
        proof {
            assert(r.bytes_left() =~= b.skip(4));
        }
        let data = r.read_rest();
        *self = LcpDiscardRequest { magic, data };
        Ok(())
    }
}

impl Default for LcpDiscardRequest {
    fn default() -> (d: Self)
        ensures
            d.deep_view() == (0u32, Seq::<u8>::empty()),
    {
        LcpDiscardRequest { magic: 0, data: Vec::new() }
    }
}

impl LcpDiscardRequest {
    /// The payload length in bytes: the magic number octets plus the
    /// data.
    pub fn len(&self) -> (n: u16)
        requires
            4 + self.deep_view().1.len() <= 0xFFFF,
        ensures
            n as int == 4 + self.deep_view().1.len(),
    {
        4 + self.data.len() as u16
    }

    /// Whether the data is empty.
    pub fn is_empty(&self) -> (e: bool)
        requires
            4 + self.deep_view().1.len() <= 0xFFFF,
        ensures
            e == (self.deep_view().1.len() == 0),
    {
        self.len() == 4
    }
}

/// Parsing inverts encoding for LCP payloads read against a window
/// that holds exactly the payload, under the payload's own code.
pub proof fn lemma_parse_lcp_data(v: LcpDataV)
    requires
        lcp_data_ok(v),
        lcp_data_canonical(v),
    ensures
        parse_lcp_data(lcp_data_code(v), lcp_data_wire(v)) == Ok::<(LcpDataV, int), Error>(
            (v, lcp_data_wire(v).len() as int),
        ),
{
    match v {
        LcpDataV::ConfigureRequest(vs) => lemma_parse_lcp_options(vs),
        LcpDataV::ConfigureAck(vs) => lemma_parse_lcp_options(vs),
        LcpDataV::ConfigureNak(vs) => lemma_parse_lcp_options(vs),
        LcpDataV::ConfigureReject(vs) => lemma_parse_lcp_options(vs),
        LcpDataV::ProtocolReject(p, d) => {
            crate::de::lemma_parse_be_u16(p, d);
            assert((be_bytes_u16(p) + d).skip(2) =~= d);
        },
        LcpDataV::EchoRequest(m, d) => {
            crate::de::lemma_parse_be_u32(m, d);
            assert((be_bytes_u32(m) + d).skip(4) =~= d);
        },
        LcpDataV::EchoReply(m, d) => {
            crate::de::lemma_parse_be_u32(m, d);
            assert((be_bytes_u32(m) + d).skip(4) =~= d);
        },
        LcpDataV::DiscardRequest(m, d) => {
            crate::de::lemma_parse_be_u32(m, d);
            assert((be_bytes_u32(m) + d).skip(4) =~= d);
        },
        _ => {},
    }
}

/// Parsing inverts encoding for whole LCP packets, with any trailing
/// bytes left untouched.
pub proof fn lemma_parse_lcp_pkt(v: (u8, LcpDataV), rest: Seq<u8>)
    requires
        lcp_pkt_ok(v),
        lcp_data_canonical(v.1),
    ensures
        parse_lcp_pkt(lcp_pkt_wire(v) + rest) == Ok::<((u8, LcpDataV), int), Error>(
            (v, lcp_pkt_wire(v).len() as int),
        ),
{
    let pl = lcp_data_wire(v.1);
    let total = (4 + pl.len()) as u16;
    let b = lcp_pkt_wire(v) + rest;
    assert(b[0] == lcp_data_code(v.1));
    assert(b[1] == v.0);
    assert(b.skip(2) =~= be_bytes_u16(total) + (pl + rest));
    crate::de::lemma_parse_be_u16(total, pl + rest);
    assert(b[2] as int * 0x100 + b[3] as int == total as int) by {
        assert(parse_u16(b.skip(2)) == Ok::<(u16, int), Error>((total, 2)));
        assert(b.skip(2)[0] == b[2] && b.skip(2)[1] == b[3]);
    }
    assert(b.subrange(4, 4 + pl.len() as int) =~= pl);
    lemma_parse_lcp_data(v.1);
}

/// Parsing inverts encoding for one framed option, with any trailing
/// bytes left untouched.
pub proof fn lemma_parse_lcp_option(v: LcpOptV, rest: Seq<u8>)
    requires
        lcp_opt_ok(v),
        lcp_opt_canonical(v),
    ensures
        parse_lcp_option(lcp_option_wire(v) + rest) == Ok::<(LcpOptV, int), Error>(
            (v, lcp_option_wire(v).len() as int),
        ),
{
    let pl = lcp_opt_wire(v);
    let b = lcp_option_wire(v) + rest;
    assert(b[0] == lcp_opt_type(v));
    assert(b[1] as int == 2 + pl.len());
    assert(b.subrange(2, 2 + pl.len() as int) =~= pl);
    match v {
        LcpOptV::Mru(x) => {
            crate::de::lemma_parse_be_u16(x, Seq::<u8>::empty());
            assert(be_bytes_u16(x) + Seq::<u8>::empty() =~= be_bytes_u16(x));
        },
        LcpOptV::AuthenticationProtocol(a) => {
            lemma_parse_auth_protocol(a);
        },
        LcpOptV::QualityProtocol(q) => {
            lemma_parse_quality_protocol(q);
        },
        LcpOptV::MagicNumber(x) => {
            crate::de::lemma_parse_be_u32(x, Seq::<u8>::empty());
            assert(be_bytes_u32(x) + Seq::<u8>::empty() =~= be_bytes_u32(x));
        },
        _ => {},
    }
}

/// Unhandled fidelity: a framed option whose type octet lies outside
/// the catalog, and whose length claim is met by the window, decodes
/// to the catch-all holding exactly the claimed bytes, and re-encoding
/// that catch-all reproduces the consumed bytes verbatim.
pub proof fn lemma_lcp_option_unhandled_fidelity(b: Seq<u8>)
    requires
        b.len() >= 2,
        b[0] != OPT_MRU,
        b[0] != OPT_AUTHENTICATION_PROTOCOL,
        b[0] != OPT_QUALITY_PROTOCOL,
        b[0] != OPT_MAGIC_NUMBER,
        b[0] != OPT_PROTOCOL_FIELD_COMPRESSION,
        b[0] != OPT_ADDR_CTL_FIELD_COMPRESSION,
        2 <= b[1] as int <= b.len(),
    ensures
        parse_lcp_option(b) == Ok::<(LcpOptV, int), Error>(
            (LcpOptV::Unhandled(b[0], b.subrange(2, b[1] as int)), b[1] as int),
        ),
        lcp_option_wire(LcpOptV::Unhandled(b[0], b.subrange(2, b[1] as int))) == b.take(
            b[1] as int,
        ),
{
    let l = b[1] as int;
    let payload = b.subrange(2, l);
    assert(lcp_option_wire(LcpOptV::Unhandled(b[0], payload)) =~= b.take(l));
}

/// Length invariant: in every encodable packet's wire form, the length
/// field holds the four header octets plus the payload's own length.
pub proof fn lemma_lcp_pkt_length_field(v: (u8, LcpDataV))
    requires
        lcp_pkt_ok(v),
    ensures
        parse_u16(lcp_pkt_wire(v).skip(2)) == Ok::<(u16, int), Error>(
            ((4 + lcp_data_wire(v.1).len()) as u16, 2),
        ),
{
    let total = (4 + lcp_data_wire(v.1).len()) as u16;
    assert(lcp_pkt_wire(v).skip(2) =~= be_bytes_u16(total) + lcp_data_wire(v.1));
    crate::de::lemma_parse_be_u16(total, lcp_data_wire(v.1));
}

/// Empty-list law: an empty option list encodes to no bytes at all,
/// and an empty window decodes to the empty list.
pub proof fn lemma_lcp_options_empty()
    ensures
        lcp_options_wire(Seq::<LcpOptV>::empty()) == Seq::<u8>::empty(),
        parse_lcp_options(Seq::<u8>::empty()) == Ok::<(Seq<LcpOptV>, int), Error>(
            (Seq::<LcpOptV>::empty(), 0),
        ),
{
}

/// Parsing inverts encoding for whole option lists read against a
/// window that holds exactly the list.
pub proof fn lemma_parse_lcp_options(vs: Seq<LcpOptV>)
    requires
        lcp_options_ok(vs),
        lcp_options_canonical(vs),
    ensures
        parse_lcp_options(lcp_options_wire(vs)) == Ok::<(Seq<LcpOptV>, int), Error>(
            (vs, lcp_options_wire(vs).len() as int),
        ),
    decreases vs.len(),
{
    if vs.len() == 0 {
        assert(vs =~= Seq::<LcpOptV>::empty());
    } else {
        let w0 = lcp_option_wire(vs[0]);
        let wr = lcp_options_wire(vs.skip(1));
        let b = lcp_options_wire(vs);
        lemma_parse_lcp_option(vs[0], wr);
        assert(b.skip(w0.len() as int) =~= wr);
        assert(lcp_options_ok(vs.skip(1)) && lcp_options_canonical(vs.skip(1))) by {
            assert(forall|i: int| 0 <= i < vs.skip(1).len() ==> #[trigger] vs.skip(1)[i] == vs[i
                + 1]);
        }
        lemma_parse_lcp_options(vs.skip(1));
        assert(w0.len() >= 2);
        assert(seq![vs[0]] + vs.skip(1) =~= vs);
    }
}

} // verus!
