use vstd::prelude::*;

use crate::de::Deserialize;
use crate::de::Reader;
use crate::de::min_int;
use crate::de::parse_u16;
use crate::error::Error;
use crate::ppp::IpCompressionProtoV;
use crate::ppp::IpCompressionProtocol;
use crate::ppp::ip_compression_canonical;
use crate::ppp::ip_compression_protocol_wire;
use crate::ppp::lemma_parse_ip_compression_protocol;
use crate::ppp::lemma_parse_ip_compression_protocol_bounds;
use crate::ppp::parse_ip_compression_protocol;
use crate::ser::Serialize;
use crate::ser::be_bytes_u16;
use crate::types::Ipv4Addr;
use crate::types::parse_ipv4;

verus! {

broadcast use crate::de::lemma_deep_view_u8;

pub const IPCP_CONFIGURE_REQUEST: u8 = 1;

pub const IPCP_CONFIGURE_ACK: u8 = 2;

pub const IPCP_CONFIGURE_NAK: u8 = 3;

pub const IPCP_CONFIGURE_REJECT: u8 = 4;

pub const IPCP_TERMINATE_REQUEST: u8 = 5;

pub const IPCP_TERMINATE_ACK: u8 = 6;

pub const IPCP_CODE_REJECT: u8 = 7;

pub const OPT_IP_COMPRESSION_PROTOCOL: u8 = 2;

pub const OPT_IP_ADDRESS: u8 = 3;

pub const OPT_PRIMARY_DNS: u8 = 129;

pub const OPT_SECONDARY_DNS: u8 = 131;

/// An IPCP configuration option value: one variant per known type,
/// plus a catch-all keeping the raw bytes of any unrecognized type.
#[derive(Clone, Debug, Eq, PartialEq)]
pub enum IpcpOpt {
    IpCompressionProtocol(IpCompressionProtocol),
    IpAddr(Ipv4Addr),
    PrimaryDns(Ipv4Addr),
    SecondaryDns(Ipv4Addr),
    Unhandled(u8, Vec<u8>),
}

/// The abstract form of an IPCP option value.
pub enum IpcpOptV {
    IpCompressionProtocol(IpCompressionProtoV),
    IpAddr(Seq<u8>),
    PrimaryDns(Seq<u8>),
    SecondaryDns(Seq<u8>),
    Unhandled(u8, Seq<u8>),
}

impl DeepView for IpcpOpt {
    type V = IpcpOptV;

    open spec fn deep_view(&self) -> IpcpOptV {
        match self {
            IpcpOpt::IpCompressionProtocol(p) => IpcpOptV::IpCompressionProtocol(p.deep_view()),
            IpcpOpt::IpAddr(a) => IpcpOptV::IpAddr(a.deep_view()),
            IpcpOpt::PrimaryDns(a) => IpcpOptV::PrimaryDns(a.deep_view()),
            IpcpOpt::SecondaryDns(a) => IpcpOptV::SecondaryDns(a.deep_view()),
            IpcpOpt::Unhandled(t, b) => IpcpOptV::Unhandled(*t, b.deep_view()),
        }
    }
}

/// The wire type octet of an IPCP option value.
pub open spec fn ipcp_opt_type(v: IpcpOptV) -> u8 {
    match v {
        IpcpOptV::IpCompressionProtocol(_) => OPT_IP_COMPRESSION_PROTOCOL,
        IpcpOptV::IpAddr(_) => OPT_IP_ADDRESS,
        IpcpOptV::PrimaryDns(_) => OPT_PRIMARY_DNS,
        IpcpOptV::SecondaryDns(_) => OPT_SECONDARY_DNS,
        IpcpOptV::Unhandled(t, _) => t,
    }
}

/// The value bytes of an IPCP option: type and length octets not
/// included.
pub open spec fn ipcp_opt_wire(v: IpcpOptV) -> Seq<u8> {
    match v {
        IpcpOptV::IpCompressionProtocol(p) => ip_compression_protocol_wire(p),
        IpcpOptV::IpAddr(a) => a,
        IpcpOptV::PrimaryDns(a) => a,
        IpcpOptV::SecondaryDns(a) => a,
        IpcpOptV::Unhandled(_, b) => b,
    }
}

/// Whether the value fits an option's one-octet length field, which
/// also counts the two header octets.
pub open spec fn ipcp_opt_ok(v: IpcpOptV) -> bool {
    ipcp_opt_wire(v).len() <= 253
}

/// Whether an IPCP option names its type by its variant alone, down
/// into the nested compression protocol, and every address variant
/// holds its four octets.
pub open spec fn ipcp_opt_canonical(v: IpcpOptV) -> bool {
    match v {
        IpcpOptV::IpCompressionProtocol(p) => ip_compression_canonical(p),
        IpcpOptV::IpAddr(a) => a.len() == 4,
        IpcpOptV::PrimaryDns(a) => a.len() == 4,
        IpcpOptV::SecondaryDns(a) => a.len() == 4,
        IpcpOptV::Unhandled(t, _) => t != OPT_IP_COMPRESSION_PROTOCOL && t != OPT_IP_ADDRESS && t
            != OPT_PRIMARY_DNS && t != OPT_SECONDARY_DNS,
    }
}

/// Decode an IPCP option value from a window already bounded to the
/// declared value length, dispatching on the type octet.
pub open spec fn parse_ipcp_opt(t: u8, b: Seq<u8>) -> Result<(IpcpOptV, int), Error> {
    if t == OPT_IP_COMPRESSION_PROTOCOL {
        match parse_ip_compression_protocol(b) {
            Ok((p, n)) => Ok((IpcpOptV::IpCompressionProtocol(p), n)),
            Err(e) => Err(e),
        }
    } else if t == OPT_IP_ADDRESS {
        match parse_ipv4(b) {
            Ok((a, n)) => Ok((IpcpOptV::IpAddr(a), n)),
            Err(e) => Err(e),
        }
    } else if t == OPT_PRIMARY_DNS {
        match parse_ipv4(b) {
            Ok((a, n)) => Ok((IpcpOptV::PrimaryDns(a), n)),
            Err(e) => Err(e),
        }
    } else if t == OPT_SECONDARY_DNS {
        match parse_ipv4(b) {
            Ok((a, n)) => Ok((IpcpOptV::SecondaryDns(a), n)),
            Err(e) => Err(e),
        }
    } else {
        Ok((IpcpOptV::Unhandled(t, b), b.len() as int))
    }
}

impl Serialize for IpcpOpt {
    open spec fn spec_wire(v: IpcpOptV) -> Seq<u8> {
        ipcp_opt_wire(v)
    }

    open spec fn wire_ok(v: IpcpOptV) -> bool {
        true
    }

    fn serialize(&self, w: &mut Vec<u8>) -> (res: Result<(), Error>) {
        match self {
            IpcpOpt::IpCompressionProtocol(p) => p.serialize(w),
            IpcpOpt::IpAddr(a) => a.serialize(w),
            IpcpOpt::PrimaryDns(a) => a.serialize(w),
            IpcpOpt::SecondaryDns(a) => a.serialize(w),
            IpcpOpt::Unhandled(_, b) => b.serialize(w),
        }
    }
}

impl IpcpOpt {
    /// The wire type octet this value is written under.
    pub fn discriminant(&self) -> (t: u8)
        ensures
            t == ipcp_opt_type(self.deep_view()),
    {
        match self {
            IpcpOpt::IpCompressionProtocol(_) => OPT_IP_COMPRESSION_PROTOCOL,
            IpcpOpt::IpAddr(_) => OPT_IP_ADDRESS,
            IpcpOpt::PrimaryDns(_) => OPT_PRIMARY_DNS,
            IpcpOpt::SecondaryDns(_) => OPT_SECONDARY_DNS,
            IpcpOpt::Unhandled(t, _) => *t,
        }
    }

    /// The value length in bytes.
    pub fn len(&self) -> (n: u8)
        requires
            ipcp_opt_ok(self.deep_view()),
        ensures
            n as int == ipcp_opt_wire(self.deep_view()).len(),
    {
        match self {
            IpcpOpt::IpCompressionProtocol(p) => p.len(),
            IpcpOpt::IpAddr(_) => 4,
            IpcpOpt::PrimaryDns(_) => 4,
            IpcpOpt::SecondaryDns(_) => 4,
            IpcpOpt::Unhandled(_, b) => b.len() as u8,
        }
    }

    /// Decode the value for a type octet already read from the wire,
    /// falling back to the catch-all variant on an unrecognized type.
    pub fn deserialize_with_discriminant(
        &mut self,
        r: &mut Reader<'_>,
        discriminant: &u8,
    ) -> (res: Result<(), Error>)
        requires
            old(r).wf(),
        ensures
            final(r).wf(),
            final(r).all_bytes() == old(r).all_bytes(),
            final(r).stop() == old(r).stop(),
            old(r).start() <= final(r).start(),
            match parse_ipcp_opt(*discriminant, old(r).bytes_left()) {
                Ok((v, n)) => res is Ok && final(self).deep_view() == v && final(r).start() == old(
                    r,
                ).start() + n,
                Err(e) => res == Err::<(), Error>(e),
            },
    {
        if *discriminant == OPT_IP_COMPRESSION_PROTOCOL {
            let mut tmp = IpCompressionProtocol::default();
            tmp.deserialize(r)?;
            *self = IpcpOpt::IpCompressionProtocol(tmp);
        } else if *discriminant == OPT_IP_ADDRESS {
            let mut tmp = Ipv4Addr::default();
            tmp.deserialize(r)?;
            *self = IpcpOpt::IpAddr(tmp);
        } else if *discriminant == OPT_PRIMARY_DNS {
            let mut tmp = Ipv4Addr::default();
            tmp.deserialize(r)?;
            *self = IpcpOpt::PrimaryDns(tmp);
        } else if *discriminant == OPT_SECONDARY_DNS {
            let mut tmp = Ipv4Addr::default();
            tmp.deserialize(r)?;
            *self = IpcpOpt::SecondaryDns(tmp);
        } else {
            let mut tmp: Vec<u8> = Vec::new();
            tmp.deserialize(r)?;
            *self = IpcpOpt::Unhandled(*discriminant, tmp);
        }
        Ok(())
    }
}

/// One IPCP option as framed on the wire: a type octet, a length octet
/// counting itself, the type octet and the value, then the value.
#[derive(Clone, Debug, Eq, PartialEq)]
pub struct IpcpOption {
    pub value: IpcpOpt,
}

impl DeepView for IpcpOption {
    type V = IpcpOptV;

    open spec fn deep_view(&self) -> IpcpOptV {
        self.value.deep_view()
    }
}

impl From<IpcpOpt> for IpcpOption {
    fn from(value: IpcpOpt) -> (o: Self) {
        IpcpOption { value }
    }
}

impl vstd::std_specs::convert::FromSpecImpl<IpcpOpt> for IpcpOption {
    open spec fn obeys_from_spec() -> bool {
        true
    }

    open spec fn from_spec(value: IpcpOpt) -> Self {
        IpcpOption { value }
    }
}

/// The full wire form of one framed IPCP option.
pub open spec fn ipcp_option_wire(v: IpcpOptV) -> Seq<u8> {
    seq![ipcp_opt_type(v), (2 + ipcp_opt_wire(v).len()) as u8] + ipcp_opt_wire(v)
}

/// Decode one framed IPCP option: type, length, then the value read
/// from a window bounded to the length less the two header octets.
pub open spec fn parse_ipcp_option(b: Seq<u8>) -> Result<(IpcpOptV, int), Error> {
    if b.len() < 2 {
        Err(Error::UnexpectedEof)
    } else {
        let t = b[0];
        let l = b[1] as int;
        if l < 2 {
            Err(Error::UnexpectedEof)
        } else {
            let m = min_int(l - 2, b.len() - 2);
            match parse_ipcp_opt(t, b.subrange(2, 2 + m)) {
                Ok((v, n)) => Ok((v, 2 + n)),
                Err(e) => Err(e),
            }
        }
    }
}

/// A successful option parse consumes at least its two header octets
/// and never more than the window holds.
pub proof fn lemma_parse_ipcp_option_bounds(b: Seq<u8>)
    ensures
        parse_ipcp_option(b) matches Ok(p) ==> 2 <= p.1 <= b.len(),
{
    if b.len() >= 2 && b[1] as int >= 2 {
        let m = min_int(b[1] as int - 2, b.len() - 2);
        lemma_parse_ip_compression_protocol_bounds(b.subrange(2, 2 + m));
    }
}

impl Serialize for IpcpOption {
    open spec fn spec_wire(v: IpcpOptV) -> Seq<u8> {
        ipcp_option_wire(v)
    }

    open spec fn wire_ok(v: IpcpOptV) -> bool {
        ipcp_opt_ok(v)
    }

    fn serialize(&self, w: &mut Vec<u8>) -> (res: Result<(), Error>) {
        let t = self.value.discriminant();
        w.push(t);
        let mark = w.len();
        w.push(0);
        self.value.serialize(w)?;
        let n = w.len() - mark - 1;
        if n > 253 {
            return Err(Error::TryFromInt);
        }
        w.set(mark, (n + 2) as u8);
        proof {
            assert(w@ =~= old(w)@ + ipcp_option_wire(self.deep_view()));
        }
        Ok(())
    }
}

impl Deserialize for IpcpOption {
    open spec fn spec_parse(b: Seq<u8>) -> Result<(IpcpOptV, int), Error> {
        parse_ipcp_option(b)
    }

    fn deserialize(&mut self, r: &mut Reader<'_>) -> (res: Result<(), Error>) {
        let ghost b = r.bytes_left();
        let t = r.read_u8()?;
        let l = r.read_u8()?;
        if l < 2 {
            return Err(Error::UnexpectedEof);
        }
        let mut sub = r.begin_bounded((l - 2) as usize);
        proof {
            assert(sub.bytes_left() =~= b.subrange(2, 2 + min_int(l as int - 2, b.len() - 2)));
        }
        let mut value = IpcpOpt::IpAddr(Ipv4Addr::default());
        let pres = value.deserialize_with_discriminant(&mut sub, &t);
        r.resume_from(&sub);
        pres?;
        *self = IpcpOption { value };
        Ok(())
    }
}

impl IpcpOption {
    /// The framed length in bytes: the two header octets plus the
    /// value.
    pub fn len(&self) -> (n: u8)
        requires
            ipcp_opt_ok(self.deep_view()),
        ensures
            n as int == ipcp_option_wire(self.deep_view()).len(),
    {
        2 + self.value.len()
    }

    /// Whether the option carries no value octets.
    pub fn is_empty(&self) -> (e: bool)
        requires
            ipcp_opt_ok(self.deep_view()),
        ensures
            e == (ipcp_opt_wire(self.deep_view()).len() == 0),
    {
        self.len() == 2
    }
}

/// The concatenated wire form of a whole option list.
pub open spec fn ipcp_options_wire(vs: Seq<IpcpOptV>) -> Seq<u8>
    decreases vs.len(),
{
    if vs.len() == 0 {
        Seq::empty()
    } else {
        ipcp_option_wire(vs[0]) + ipcp_options_wire(vs.skip(1))
    }
}

/// Whether every option of a list fits its length octet.
pub open spec fn ipcp_options_ok(vs: Seq<IpcpOptV>) -> bool {
    forall|i: int| 0 <= i < vs.len() ==> ipcp_opt_ok(#[trigger] vs[i])
}

/// Whether every option of a list is canonical.
pub open spec fn ipcp_options_canonical(vs: Seq<IpcpOptV>) -> bool {
    forall|i: int| 0 <= i < vs.len() ==> ipcp_opt_canonical(#[trigger] vs[i])
}

/// Decode framed options one after another until the window is empty.
pub open spec fn parse_ipcp_options(b: Seq<u8>) -> Result<(Seq<IpcpOptV>, int), Error>
    decreases b.len(),
{
    if b.len() == 0 {
        Ok((Seq::empty(), 0))
    } else {
        match parse_ipcp_option(b) {
            Ok((v, n)) => {
                if 1 <= n <= b.len() {
                    match parse_ipcp_options(b.skip(n)) {
                        Ok((vs, n2)) => Ok((seq![v] + vs, n + n2)),
                        Err(e) => Err(e),
                    }
                } else {
                    Err(Error::UnexpectedEof)
                }
            },
            Err(e) => Err(e),
        }
    }
}

impl Serialize for Vec<IpcpOption> {
    open spec fn spec_wire(vs: Seq<IpcpOptV>) -> Seq<u8> {
        ipcp_options_wire(vs)
    }

    open spec fn wire_ok(vs: Seq<IpcpOptV>) -> bool {
        ipcp_options_ok(vs)
    }

    fn serialize(&self, w: &mut Vec<u8>) -> (res: Result<(), Error>) {
        let ghost dv = self.deep_view();
        let n = self.len();
        proof {
            assert(dv.skip(0) =~= dv);
        }
        let mut i: usize = 0;
        while i < n
            invariant
                i <= n,
                n == self@.len(),
                dv == self.deep_view(),
                dv.len() == n,
                forall|j: int| 0 <= j < i ==> ipcp_opt_ok(#[trigger] dv[j]),
                w@ + ipcp_options_wire(dv.skip(i as int)) == old(w)@ + ipcp_options_wire(dv),
            decreases n - i,
        {
            let res = self[i].serialize(w);
            proof {
                assert(dv.skip(i as int)[0] == dv[i as int]);
                assert(dv.skip(i as int).skip(1) =~= dv.skip(i as int + 1));
            }
            if res.is_err() {
                return Err(Error::TryFromInt);
            }
            i = i + 1;
        }
        proof {
            assert(dv.skip(n as int) =~= Seq::<IpcpOptV>::empty());
        }
        Ok(())
    }
}

impl Deserialize for Vec<IpcpOption> {
    open spec fn spec_parse(b: Seq<u8>) -> Result<(Seq<IpcpOptV>, int), Error> {
        parse_ipcp_options(b)
    }

    fn deserialize(&mut self, r: &mut Reader<'_>) -> (res: Result<(), Error>) {
        let ghost b0 = r.bytes_left();
        let mut acc: Vec<IpcpOption> = Vec::new();
        while r.has_left()
            invariant
                r.wf(),
                r.all_bytes() == old(r).all_bytes(),
                r.stop() == old(r).stop(),
                old(r).start() <= r.start(),
                match parse_ipcp_options(r.bytes_left()) {
                    Ok((vs, n)) => parse_ipcp_options(b0) == Ok::<(Seq<IpcpOptV>, int), Error>(
                        (acc.deep_view() + vs, (r.start() - old(r).start()) + n),
                    ),
                    Err(e) => parse_ipcp_options(b0) == Err::<(Seq<IpcpOptV>, int), Error>(e),
                },
            decreases r.stop() - r.start(),
        {
            let ghost cur = r.bytes_left();
            let ghost start_iter = r.start();
            let ghost acc0 = acc.deep_view();
            let mut tmp = IpcpOption { value: IpcpOpt::IpAddr(Ipv4Addr::default()) };
            let pres = tmp.deserialize(r);
            proof {
                lemma_parse_ipcp_option_bounds(cur);
            }
            match pres {
                Err(e) => {
                    proof {
                        assert(parse_ipcp_options(cur) == Err::<(Seq<IpcpOptV>, int), Error>(e));
                    }
                    return Err(e);
                },
                Ok(_) => {},
            }
            acc.push(tmp);
            proof {
                let n = r.start() - start_iter;
                assert(r.bytes_left() =~= cur.skip(n));
                assert(acc.deep_view() =~= acc0 + seq![tmp.deep_view()]);
                if parse_ipcp_options(r.bytes_left()) is Ok {
                    let (vs, n2) = parse_ipcp_options(r.bytes_left())->Ok_0;
                    assert(acc0 + (seq![tmp.deep_view()] + vs) =~= acc.deep_view() + vs);
                }
            }
        }
        proof {
            assert(r.bytes_left() =~= Seq::<u8>::empty());
            assert(acc.deep_view() + Seq::<IpcpOptV>::empty() =~= acc.deep_view());
        }
        *self = acc;
        Ok(())
    }
}

/// The summed wire length of a whole option list.
fn ipcp_options_len(options: &Vec<IpcpOption>) -> (n: u16)
    requires
        ipcp_options_ok(options.deep_view()),
        ipcp_options_wire(options.deep_view()).len() <= 0xFFFF,
    ensures
        n as int == ipcp_options_wire(options.deep_view()).len(),
{
    let ghost dv = options.deep_view();
    proof {
        assert(dv.skip(0) =~= dv);
    }
    let k = options.len();
    let mut total: usize = 0;
    let mut i: usize = 0;
    while i < k
        invariant
            i <= k,
            total + ipcp_options_wire(dv.skip(i as int)).len() == ipcp_options_wire(dv).len(),
        decreases k - i,
    {
        proof {
            assert(dv.skip(i as int)[0] == dv[i as int]);
            assert(dv.skip(i as int).skip(1) =~= dv.skip(i as int + 1));
        }
        let step = options[i].value.len();
        total = total + 2 + step as usize;
        i = i + 1;
    }
    proof {
        assert(dv.skip(k as int) =~= Seq::<IpcpOptV>::empty());
    }
    total as u16
}

/// An IPCP packet payload: one variant per code, plus a catch-all that
/// keeps the raw bytes of any unrecognized code.
#[derive(Clone, Debug, Eq, PartialEq)]
pub enum IpcpData {
    ConfigureRequest(IpcpConfigureRequest),
    ConfigureAck(IpcpConfigureAck),
    ConfigureNak(IpcpConfigureNak),
    ConfigureReject(IpcpConfigureReject),
    TerminateRequest(IpcpTerminateRequest),
    TerminateAck(IpcpTerminateAck),
    CodeReject(IpcpCodeReject),
    Unhandled(u8, Vec<u8>),
}

/// The abstract form of an IPCP payload.
pub enum IpcpDataV {
    ConfigureRequest(Seq<IpcpOptV>),
    ConfigureAck(Seq<IpcpOptV>),
    ConfigureNak(Seq<IpcpOptV>),
    ConfigureReject(Seq<IpcpOptV>),
    TerminateRequest(Seq<u8>),
    TerminateAck(Seq<u8>),
    CodeReject(Seq<u8>),
    Unhandled(u8, Seq<u8>),
}

impl DeepView for IpcpData {
    type V = IpcpDataV;

    open spec fn deep_view(&self) -> IpcpDataV {
        match self {
            IpcpData::ConfigureRequest(p) => IpcpDataV::ConfigureRequest(p.options.deep_view()),
            IpcpData::ConfigureAck(p) => IpcpDataV::ConfigureAck(p.options.deep_view()),
            IpcpData::ConfigureNak(p) => IpcpDataV::ConfigureNak(p.options.deep_view()),
            IpcpData::ConfigureReject(p) => IpcpDataV::ConfigureReject(p.options.deep_view()),
            IpcpData::TerminateRequest(p) => IpcpDataV::TerminateRequest(p.data.deep_view()),
            IpcpData::TerminateAck(p) => IpcpDataV::TerminateAck(p.data.deep_view()),
            IpcpData::CodeReject(p) => IpcpDataV::CodeReject(p.pkt.deep_view()),
            IpcpData::Unhandled(t, b) => IpcpDataV::Unhandled(*t, b.deep_view()),
        }
    }
}

/// The wire code of an IPCP payload.
pub open spec fn ipcp_data_code(v: IpcpDataV) -> u8 {
    match v {
        IpcpDataV::ConfigureRequest(_) => IPCP_CONFIGURE_REQUEST,
        IpcpDataV::ConfigureAck(_) => IPCP_CONFIGURE_ACK,
        IpcpDataV::ConfigureNak(_) => IPCP_CONFIGURE_NAK,
        IpcpDataV::ConfigureReject(_) => IPCP_CONFIGURE_REJECT,
        IpcpDataV::TerminateRequest(_) => IPCP_TERMINATE_REQUEST,
        IpcpDataV::TerminateAck(_) => IPCP_TERMINATE_ACK,
        IpcpDataV::CodeReject(_) => IPCP_CODE_REJECT,
        IpcpDataV::Unhandled(t, _) => t,
    }
}

/// The payload bytes of an IPCP payload.
pub open spec fn ipcp_data_wire(v: IpcpDataV) -> Seq<u8> {
    match v {
        IpcpDataV::ConfigureRequest(vs) => ipcp_options_wire(vs),
        IpcpDataV::ConfigureAck(vs) => ipcp_options_wire(vs),
        IpcpDataV::ConfigureNak(vs) => ipcp_options_wire(vs),
        IpcpDataV::ConfigureReject(vs) => ipcp_options_wire(vs),
        IpcpDataV::TerminateRequest(d) => d,
        IpcpDataV::TerminateAck(d) => d,
        IpcpDataV::CodeReject(d) => d,
        IpcpDataV::Unhandled(_, d) => d,
    }
}

/// Whether every option of the payload fits its length octet.
pub open spec fn ipcp_data_ok(v: IpcpDataV) -> bool {
    match v {
        IpcpDataV::ConfigureRequest(vs) => ipcp_options_ok(vs),
        IpcpDataV::ConfigureAck(vs) => ipcp_options_ok(vs),
        IpcpDataV::ConfigureNak(vs) => ipcp_options_ok(vs),
        IpcpDataV::ConfigureReject(vs) => ipcp_options_ok(vs),
        _ => true,
    }
}

/// Whether the payload is canonical.
pub open spec fn ipcp_data_canonical(v: IpcpDataV) -> bool {
    match v {
        IpcpDataV::ConfigureRequest(vs) => ipcp_options_canonical(vs),
        IpcpDataV::ConfigureAck(vs) => ipcp_options_canonical(vs),
        IpcpDataV::ConfigureNak(vs) => ipcp_options_canonical(vs),
        IpcpDataV::ConfigureReject(vs) => ipcp_options_canonical(vs),
        IpcpDataV::Unhandled(t, _) => t != IPCP_CONFIGURE_REQUEST && t != IPCP_CONFIGURE_ACK && t
            != IPCP_CONFIGURE_NAK && t != IPCP_CONFIGURE_REJECT && t != IPCP_TERMINATE_REQUEST && t
            != IPCP_TERMINATE_ACK && t != IPCP_CODE_REJECT,
        _ => true,
    }
}

/// Decode an IPCP payload from a window already bounded to the payload
/// length, dispatching on the code read from the wire.
pub open spec fn parse_ipcp_data(code: u8, b: Seq<u8>) -> Result<(IpcpDataV, int), Error> {
    if code == IPCP_CONFIGURE_REQUEST {
        match parse_ipcp_options(b) {
            Ok((vs, n)) => Ok((IpcpDataV::ConfigureRequest(vs), n)),
            Err(e) => Err(e),
        }
    } else if code == IPCP_CONFIGURE_ACK {
        match parse_ipcp_options(b) {
            Ok((vs, n)) => Ok((IpcpDataV::ConfigureAck(vs), n)),
            Err(e) => Err(e),
        }
    } else if code == IPCP_CONFIGURE_NAK {
        match parse_ipcp_options(b) {
            Ok((vs, n)) => Ok((IpcpDataV::ConfigureNak(vs), n)),
            Err(e) => Err(e),
        }
    } else if code == IPCP_CONFIGURE_REJECT {
        match parse_ipcp_options(b) {
            Ok((vs, n)) => Ok((IpcpDataV::ConfigureReject(vs), n)),
            Err(e) => Err(e),
        }
    } else if code == IPCP_TERMINATE_REQUEST {
        Ok((IpcpDataV::TerminateRequest(b), b.len() as int))
    } else if code == IPCP_TERMINATE_ACK {
        Ok((IpcpDataV::TerminateAck(b), b.len() as int))
    } else if code == IPCP_CODE_REJECT {
        Ok((IpcpDataV::CodeReject(b), b.len() as int))
    } else {
        Ok((IpcpDataV::Unhandled(code, b), b.len() as int))
    }
}

impl Serialize for IpcpData {
    open spec fn spec_wire(v: IpcpDataV) -> Seq<u8> {
        ipcp_data_wire(v)
    }

    open spec fn wire_ok(v: IpcpDataV) -> bool {
        ipcp_data_ok(v)
    }

    fn serialize(&self, w: &mut Vec<u8>) -> (res: Result<(), Error>) {
        match self {
            IpcpData::ConfigureRequest(p) => p.serialize(w),
            IpcpData::ConfigureAck(p) => p.serialize(w),
            IpcpData::ConfigureNak(p) => p.serialize(w),
            IpcpData::ConfigureReject(p) => p.serialize(w),
            IpcpData::TerminateRequest(p) => p.serialize(w),
            IpcpData::TerminateAck(p) => p.serialize(w),
            IpcpData::CodeReject(p) => p.serialize(w),
            IpcpData::Unhandled(_, b) => b.serialize(w),
        }
    }
}

impl IpcpData {
    /// The wire code this payload is written under.
    pub fn discriminant(&self) -> (code: u8)
        ensures
            code == ipcp_data_code(self.deep_view()),
    {
        match self {
            IpcpData::ConfigureRequest(_) => IPCP_CONFIGURE_REQUEST,
            IpcpData::ConfigureAck(_) => IPCP_CONFIGURE_ACK,
            IpcpData::ConfigureNak(_) => IPCP_CONFIGURE_NAK,
            IpcpData::ConfigureReject(_) => IPCP_CONFIGURE_REJECT,
            IpcpData::TerminateRequest(_) => IPCP_TERMINATE_REQUEST,
            IpcpData::TerminateAck(_) => IPCP_TERMINATE_ACK,
            IpcpData::CodeReject(_) => IPCP_CODE_REJECT,
            IpcpData::Unhandled(t, _) => *t,
        }
    }

    /// The payload length in bytes.
    pub fn len(&self) -> (n: u16)
        requires
            ipcp_data_ok(self.deep_view()),
            ipcp_data_wire(self.deep_view()).len() <= 0xFFFF,
        ensures
            n as int == ipcp_data_wire(self.deep_view()).len(),
    {
        match self {
            IpcpData::ConfigureRequest(p) => p.len(),
            IpcpData::ConfigureAck(p) => p.len(),
            IpcpData::ConfigureNak(p) => p.len(),
            IpcpData::ConfigureReject(p) => p.len(),
            IpcpData::TerminateRequest(p) => p.len(),
            IpcpData::TerminateAck(p) => p.len(),
            IpcpData::CodeReject(p) => p.len(),
            IpcpData::Unhandled(_, b) => b.len() as u16,
        }
    }

    /// Decode the payload for a code already read from the wire,
    /// falling back to the catch-all variant on an unrecognized code.
    pub fn deserialize_with_discriminant(
        &mut self,
        r: &mut Reader<'_>,
        discriminant: &u8,
    ) -> (res: Result<(), Error>)
        requires
            old(r).wf(),
        ensures
            final(r).wf(),
            final(r).all_bytes() == old(r).all_bytes(),
            final(r).stop() == old(r).stop(),
            old(r).start() <= final(r).start(),
            match parse_ipcp_data(*discriminant, old(r).bytes_left()) {
                Ok((v, n)) => res is Ok && final(self).deep_view() == v && final(r).start() == old(
                    r,
                ).start() + n,
                Err(e) => res == Err::<(), Error>(e),
            },
    {
        if *discriminant == IPCP_CONFIGURE_REQUEST {
            let mut tmp = IpcpConfigureRequest::default();
            tmp.deserialize(r)?;
            *self = IpcpData::ConfigureRequest(tmp);
        } else if *discriminant == IPCP_CONFIGURE_ACK {
            let mut tmp = IpcpConfigureAck::default();
            tmp.deserialize(r)?;
            *self = IpcpData::ConfigureAck(tmp);
        } else if *discriminant == IPCP_CONFIGURE_NAK {
            let mut tmp = IpcpConfigureNak::default();
            tmp.deserialize(r)?;
            *self = IpcpData::ConfigureNak(tmp);
        } else if *discriminant == IPCP_CONFIGURE_REJECT {
            let mut tmp = IpcpConfigureReject::default();
            tmp.deserialize(r)?;
            *self = IpcpData::ConfigureReject(tmp);
        } else if *discriminant == IPCP_TERMINATE_REQUEST {
            let mut tmp = IpcpTerminateRequest::default();
            tmp.deserialize(r)?;
            *self = IpcpData::TerminateRequest(tmp);
        } else if *discriminant == IPCP_TERMINATE_ACK {
            let mut tmp = IpcpTerminateAck::default();
            tmp.deserialize(r)?;
            *self = IpcpData::TerminateAck(tmp);
        } else if *discriminant == IPCP_CODE_REJECT {
            let mut tmp = IpcpCodeReject::default();
            tmp.deserialize(r)?;
            *self = IpcpData::CodeReject(tmp);
        } else {
            let mut tmp: Vec<u8> = Vec::new();
            tmp.deserialize(r)?;
            *self = IpcpData::Unhandled(*discriminant, tmp);
        }
        Ok(())
    }
}

impl Default for IpcpData {
    fn default() -> (d: Self)
        ensures
            d.deep_view() == IpcpDataV::ConfigureRequest(Seq::<IpcpOptV>::empty()),
    {
        let d = IpcpData::ConfigureRequest(IpcpConfigureRequest::default());
        proof {
            assert(d.deep_view()->ConfigureRequest_0 =~= Seq::<IpcpOptV>::empty());
        }
        d
    }
}

/// An IPCP packet: a code octet naming the payload variant, an
/// identifier octet, a length field covering the whole packet, and the
/// payload.
#[derive(Clone, Debug, Eq, PartialEq)]
pub struct IpcpPkt {
    pub identifier: u8,
    pub data: IpcpData,
}

impl DeepView for IpcpPkt {
    type V = (u8, IpcpDataV);

    open spec fn deep_view(&self) -> (u8, IpcpDataV) {
        (self.identifier, self.data.deep_view())
    }
}

/// The full wire form of an IPCP packet. The length field counts its
/// own four header octets together with the payload.
pub open spec fn ipcp_pkt_wire(v: (u8, IpcpDataV)) -> Seq<u8> {
    seq![ipcp_data_code(v.1), v.0] + be_bytes_u16((4 + ipcp_data_wire(v.1).len()) as u16)
        + ipcp_data_wire(v.1)
}

/// Whether an IPCP packet can be encoded.
pub open spec fn ipcp_pkt_ok(v: (u8, IpcpDataV)) -> bool {
    ipcp_data_ok(v.1) && 4 + ipcp_data_wire(v.1).len() <= 0xFFFF
}

/// Decode an IPCP packet: code, identifier, length, then the payload
/// read from a window bounded to the length field less the header.
pub open spec fn parse_ipcp_pkt(b: Seq<u8>) -> Result<((u8, IpcpDataV), int), Error> {
    if b.len() < 4 {
        Err(Error::UnexpectedEof)
    } else {
        let code = b[0];
        let id = b[1];
        let len = b[2] as int * 0x100 + b[3] as int;
        if len < 4 {
            Err(Error::UnexpectedEof)
        } else {
            let m = min_int(len - 4, b.len() - 4);
            match parse_ipcp_data(code, b.subrange(4, 4 + m)) {
                Ok((d, n)) => Ok(((id, d), 4 + n)),
                Err(e) => Err(e),
            }
        }
    }
}

impl Serialize for IpcpPkt {
    open spec fn spec_wire(v: (u8, IpcpDataV)) -> Seq<u8> {
        ipcp_pkt_wire(v)
    }

    open spec fn wire_ok(v: (u8, IpcpDataV)) -> bool {
        ipcp_pkt_ok(v)
    }

    fn serialize(&self, w: &mut Vec<u8>) -> (res: Result<(), Error>) {
        let code = self.data.discriminant();
        w.push(code);
        w.push(self.identifier);
        let mark = w.len();
        w.push(0);
        w.push(0);
        self.data.serialize(w)?;
        let n = w.len() - mark - 2;
        if n > 0xFFFF - 4 {
            return Err(Error::TryFromInt);
        }
        let total = (n + 4) as u16;
        w.set(mark, (total / 0x100) as u8);
        w.set(mark + 1, (total % 0x100) as u8);
        proof {
            assert(w@ =~= old(w)@ + ipcp_pkt_wire(self.deep_view()));
        }
        Ok(())
    }
}

impl Deserialize for IpcpPkt {
    open spec fn spec_parse(b: Seq<u8>) -> Result<((u8, IpcpDataV), int), Error> {
        parse_ipcp_pkt(b)
    }

    fn deserialize(&mut self, r: &mut Reader<'_>) -> (res: Result<(), Error>) {
        let ghost b = r.bytes_left();
        let code = r.read_u8()?;
        let id = r.read_u8()?;
        proof {
            assert(r.bytes_left() =~= b.skip(2));
        }
        let mut len: u16 = 0;
        len.deserialize(r)?;
        if len < 4 {
            return Err(Error::UnexpectedEof);
        }
        let mut sub = r.begin_bounded((len - 4) as usize);
        proof {
            assert(sub.bytes_left() =~= b.subrange(4, 4 + min_int(len as int - 4, b.len() - 4)));
        }
        let mut data = IpcpData::default();
        let pres = data.deserialize_with_discriminant(&mut sub, &code);
        r.resume_from(&sub);
        pres?;
        *self = IpcpPkt { identifier: id, data };
        Ok(())
    }
}

impl Default for IpcpPkt {
    fn default() -> (d: Self)
        ensures
            d.deep_view() == (0u8, IpcpDataV::ConfigureRequest(Seq::<IpcpOptV>::empty())),
    {
        IpcpPkt { identifier: 0, data: IpcpData::default() }
    }
}

impl IpcpPkt {
    /// A Configure-Request carrying an option list.
    pub fn new_configure_request(identifier: u8, options: Vec<IpcpOption>) -> (p: Self)
        ensures
            p.deep_view() == (identifier, IpcpDataV::ConfigureRequest(options.deep_view())),
    {
        IpcpPkt { identifier, data: IpcpData::ConfigureRequest(IpcpConfigureRequest { options }) }
    }

    /// A Configure-Ack carrying the acknowledged option list.
    pub fn new_configure_ack(identifier: u8, options: Vec<IpcpOption>) -> (p: Self)
        ensures
            p.deep_view() == (identifier, IpcpDataV::ConfigureAck(options.deep_view())),
    {
        IpcpPkt { identifier, data: IpcpData::ConfigureAck(IpcpConfigureAck { options }) }
    }

    /// A Configure-Nak carrying the nak'd option values.
    pub fn new_configure_nak(identifier: u8, options: Vec<IpcpOption>) -> (p: Self)
        ensures
            p.deep_view() == (identifier, IpcpDataV::ConfigureNak(options.deep_view())),
    {
        IpcpPkt { identifier, data: IpcpData::ConfigureNak(IpcpConfigureNak { options }) }
    }

    /// A Configure-Reject carrying the unacceptable options.
    pub fn new_configure_reject(identifier: u8, options: Vec<IpcpOption>) -> (p: Self)
        ensures
            p.deep_view() == (identifier, IpcpDataV::ConfigureReject(options.deep_view())),
    {
        IpcpPkt { identifier, data: IpcpData::ConfigureReject(IpcpConfigureReject { options }) }
    }

    /// A Terminate-Request carrying arbitrary data.
    pub fn new_terminate_request(identifier: u8, data: Vec<u8>) -> (p: Self)
        ensures
            p.deep_view() == (identifier, IpcpDataV::TerminateRequest(data@)),
    {
        IpcpPkt { identifier, data: IpcpData::TerminateRequest(IpcpTerminateRequest { data }) }
    }

    /// A Terminate-Ack carrying arbitrary data.
    pub fn new_terminate_ack(identifier: u8, data: Vec<u8>) -> (p: Self)
        ensures
            p.deep_view() == (identifier, IpcpDataV::TerminateAck(data@)),
    {
        IpcpPkt { identifier, data: IpcpData::TerminateAck(IpcpTerminateAck { data }) }
    }

    /// A Code-Reject carrying the rejected packet.
    pub fn new_code_reject(identifier: u8, pkt: Vec<u8>) -> (p: Self)
        ensures
            p.deep_view() == (identifier, IpcpDataV::CodeReject(pkt@)),
    {
        IpcpPkt { identifier, data: IpcpData::CodeReject(IpcpCodeReject { pkt }) }
    }

    /// The packet length in bytes, header octets included.
    pub fn len(&self) -> (n: u16)
        requires
            ipcp_pkt_ok(self.deep_view()),
        ensures
            n as int == ipcp_pkt_wire(self.deep_view()).len(),
    {
        4 + self.data.len()
    }

    /// Whether the packet carries no payload bytes.
    pub fn is_empty(&self) -> (e: bool)
        requires
            ipcp_pkt_ok(self.deep_view()),
        ensures
            e == (ipcp_data_wire(self.deep_view().1).len() == 0),
    {
        self.len() == 4
    }
}

/// The Configure-Request payload: an option list.
#[derive(Clone, Debug, Eq, PartialEq)]
pub struct IpcpConfigureRequest {
    pub options: Vec<IpcpOption>,
}

impl DeepView for IpcpConfigureRequest {
    type V = Seq<IpcpOptV>;

    open spec fn deep_view(&self) -> Seq<IpcpOptV> {
        self.options.deep_view()
    }
}

impl Serialize for IpcpConfigureRequest {
    open spec fn spec_wire(vs: Seq<IpcpOptV>) -> Seq<u8> {
        ipcp_options_wire(vs)
    }

    open spec fn wire_ok(vs: Seq<IpcpOptV>) -> bool {
        ipcp_options_ok(vs)
    }

    fn serialize(&self, w: &mut Vec<u8>) -> (res: Result<(), Error>) {
        self.options.serialize(w)
    }
}

impl Deserialize for IpcpConfigureRequest {
    open spec fn spec_parse(b: Seq<u8>) -> Result<(Seq<IpcpOptV>, int), Error> {
        parse_ipcp_options(b)
    }

    fn deserialize(&mut self, r: &mut Reader<'_>) -> (res: Result<(), Error>) {
        self.options.deserialize(r)
    }
}

impl Default for IpcpConfigureRequest {
    fn default() -> (d: Self)
        ensures
            d.deep_view() == Seq::<IpcpOptV>::empty(),
    {
        let d = IpcpConfigureRequest { options: Vec::new() };
        proof {
            assert(d.deep_view() =~= Seq::<IpcpOptV>::empty());
        }
        d
    }
}

impl IpcpConfigureRequest {
    /// The payload length in bytes: the summed length of the options.
    pub fn len(&self) -> (n: u16)
        requires
            ipcp_options_ok(self.deep_view()),
            ipcp_options_wire(self.deep_view()).len() <= 0xFFFF,
        ensures
            n as int == ipcp_options_wire(self.deep_view()).len(),
    {
        ipcp_options_len(&self.options)
    }

    /// Whether the option list is empty.
    pub fn is_empty(&self) -> (e: bool)
        ensures
            e == (self.deep_view().len() == 0),
    {
        self.options.is_empty()
    }
}

/// The Configure-Ack payload: an option list.
#[derive(Clone, Debug, Eq, PartialEq)]
pub struct IpcpConfigureAck {
    pub options: Vec<IpcpOption>,
}

impl DeepView for IpcpConfigureAck {
    type V = Seq<IpcpOptV>;

    open spec fn deep_view(&self) -> Seq<IpcpOptV> {
        self.options.deep_view()
    }
}

impl Serialize for IpcpConfigureAck {
    open spec fn spec_wire(vs: Seq<IpcpOptV>) -> Seq<u8> {
        ipcp_options_wire(vs)
    }

    open spec fn wire_ok(vs: Seq<IpcpOptV>) -> bool {
        ipcp_options_ok(vs)
    }

    fn serialize(&self, w: &mut Vec<u8>) -> (res: Result<(), Error>) {
        self.options.serialize(w)
    }
}

impl Deserialize for IpcpConfigureAck {
    open spec fn spec_parse(b: Seq<u8>) -> Result<(Seq<IpcpOptV>, int), Error> {
        parse_ipcp_options(b)
    }

    fn deserialize(&mut self, r: &mut Reader<'_>) -> (res: Result<(), Error>) {
        self.options.deserialize(r)
    }
}

impl Default for IpcpConfigureAck {
    fn default() -> (d: Self)
        ensures
            d.deep_view() == Seq::<IpcpOptV>::empty(),
    {
        let d = IpcpConfigureAck { options: Vec::new() };
        proof {
            assert(d.deep_view() =~= Seq::<IpcpOptV>::empty());
        }
        d
    }
}

impl IpcpConfigureAck {
    /// The payload length in bytes: the summed length of the options.
    pub fn len(&self) -> (n: u16)
        requires
            ipcp_options_ok(self.deep_view()),
            ipcp_options_wire(self.deep_view()).len() <= 0xFFFF,
        ensures
            n as int == ipcp_options_wire(self.deep_view()).len(),
    {
        ipcp_options_len(&self.options)
    }

    /// Whether the option list is empty.
    pub fn is_empty(&self) -> (e: bool)
        ensures
            e == (self.deep_view().len() == 0),
    {
        self.options.is_empty()
    }
}

/// The Configure-Nak payload: an option list.
#[derive(Clone, Debug, Eq, PartialEq)]
pub struct IpcpConfigureNak {
    pub options: Vec<IpcpOption>,
}

impl DeepView for IpcpConfigureNak {
    type V = Seq<IpcpOptV>;

    open spec fn deep_view(&self) -> Seq<IpcpOptV> {
        self.options.deep_view()
    }
}

impl Serialize for IpcpConfigureNak {
    open spec fn spec_wire(vs: Seq<IpcpOptV>) -> Seq<u8> {
        ipcp_options_wire(vs)
    }

    open spec fn wire_ok(vs: Seq<IpcpOptV>) -> bool {
        ipcp_options_ok(vs)
    }

    fn serialize(&self, w: &mut Vec<u8>) -> (res: Result<(), Error>) {
        self.options.serialize(w)
    }
}

impl Deserialize for IpcpConfigureNak {
    open spec fn spec_parse(b: Seq<u8>) -> Result<(Seq<IpcpOptV>, int), Error> {
        parse_ipcp_options(b)
    }

    fn deserialize(&mut self, r: &mut Reader<'_>) -> (res: Result<(), Error>) {
        self.options.deserialize(r)
    }
}

impl Default for IpcpConfigureNak {
    fn default() -> (d: Self)
        ensures
            d.deep_view() == Seq::<IpcpOptV>::empty(),
    {
        let d = IpcpConfigureNak { options: Vec::new() };
        proof {
            assert(d.deep_view() =~= Seq::<IpcpOptV>::empty());
        }
        d
    }
}

impl IpcpConfigureNak {
    /// The payload length in bytes: the summed length of the options.
    pub fn len(&self) -> (n: u16)
        requires
            ipcp_options_ok(self.deep_view()),
            ipcp_options_wire(self.deep_view()).len() <= 0xFFFF,
        ensures
            n as int == ipcp_options_wire(self.deep_view()).len(),
    {
        ipcp_options_len(&self.options)
    }

    /// Whether the option list is empty.
    pub fn is_empty(&self) -> (e: bool)
        ensures
            e == (self.deep_view().len() == 0),
    {
        self.options.is_empty()
    }
}

/// The Configure-Reject payload: an option list.
#[derive(Clone, Debug, Eq, PartialEq)]
pub struct IpcpConfigureReject {
    pub options: Vec<IpcpOption>,
}

impl DeepView for IpcpConfigureReject {
    type V = Seq<IpcpOptV>;

    open spec fn deep_view(&self) -> Seq<IpcpOptV> {
        self.options.deep_view()
    }
}

impl Serialize for IpcpConfigureReject {
    open spec fn spec_wire(vs: Seq<IpcpOptV>) -> Seq<u8> {
        ipcp_options_wire(vs)
    }

    open spec fn wire_ok(vs: Seq<IpcpOptV>) -> bool {
        ipcp_options_ok(vs)
    }

    fn serialize(&self, w: &mut Vec<u8>) -> (res: Result<(), Error>) {
        self.options.serialize(w)
    }
}

impl Deserialize for IpcpConfigureReject {
    open spec fn spec_parse(b: Seq<u8>) -> Result<(Seq<IpcpOptV>, int), Error> {
        parse_ipcp_options(b)
    }

    fn deserialize(&mut self, r: &mut Reader<'_>) -> (res: Result<(), Error>) {
        self.options.deserialize(r)
    }
}

impl Default for IpcpConfigureReject {
    fn default() -> (d: Self)
        ensures
            d.deep_view() == Seq::<IpcpOptV>::empty(),
    {
        let d = IpcpConfigureReject { options: Vec::new() };
        proof {
            assert(d.deep_view() =~= Seq::<IpcpOptV>::empty());
        }
        d
    }
}

impl IpcpConfigureReject {
    /// The payload length in bytes: the summed length of the options.
    pub fn len(&self) -> (n: u16)
        requires
            ipcp_options_ok(self.deep_view()),
            ipcp_options_wire(self.deep_view()).len() <= 0xFFFF,
        ensures
            n as int == ipcp_options_wire(self.deep_view()).len(),
    {
        ipcp_options_len(&self.options)
    }

    /// Whether the option list is empty.
    pub fn is_empty(&self) -> (e: bool)
        ensures
            e == (self.deep_view().len() == 0),
    {
        self.options.is_empty()
    }
}

/// The Terminate-Request payload: raw data.
#[derive(Clone, Debug, Eq, PartialEq)]
pub struct IpcpTerminateRequest {
    pub data: Vec<u8>,
}

impl DeepView for IpcpTerminateRequest {
    type V = Seq<u8>;

    open spec fn deep_view(&self) -> Seq<u8> {
        self.data.deep_view()
    }
}

impl Serialize for IpcpTerminateRequest {
    open spec fn spec_wire(v: Seq<u8>) -> Seq<u8> {
        v
    }

    open spec fn wire_ok(v: Seq<u8>) -> bool {
        true
    }

    fn serialize(&self, w: &mut Vec<u8>) -> (res: Result<(), Error>) {
        self.data.serialize(w)
    }
}

impl Deserialize for IpcpTerminateRequest {
    open spec fn spec_parse(b: Seq<u8>) -> Result<(Seq<u8>, int), Error> {
        Ok((b, b.len() as int))
    }

    fn deserialize(&mut self, r: &mut Reader<'_>) -> (res: Result<(), Error>) {
        self.data.deserialize(r)
    }
}

impl Default for IpcpTerminateRequest {
    fn default() -> (d: Self)
        ensures
            d.deep_view() == Seq::<u8>::empty(),
    {
        IpcpTerminateRequest { data: Vec::new() }
    }
}

impl IpcpTerminateRequest {
    /// The payload length in bytes.
    pub fn len(&self) -> (n: u16)
        requires
            self.deep_view().len() <= 0xFFFF,
        ensures
            n as int == self.deep_view().len(),
    {
        self.data.len() as u16
    }

    /// Whether the data is empty.
    pub fn is_empty(&self) -> (e: bool)
        ensures
            e == (self.deep_view().len() == 0),
    {
        self.data.is_empty()
    }
}

/// The Terminate-Ack payload: raw data.
#[derive(Clone, Debug, Eq, PartialEq)]
pub struct IpcpTerminateAck {
    pub data: Vec<u8>,
}

impl DeepView for IpcpTerminateAck {
    type V = Seq<u8>;

    open spec fn deep_view(&self) -> Seq<u8> {
        self.data.deep_view()
    }
}

impl Serialize for IpcpTerminateAck {
    open spec fn spec_wire(v: Seq<u8>) -> Seq<u8> {
        v
    }

    open spec fn wire_ok(v: Seq<u8>) -> bool {
        true
    }

    fn serialize(&self, w: &mut Vec<u8>) -> (res: Result<(), Error>) {
        self.data.serialize(w)
    }
}

impl Deserialize for IpcpTerminateAck {
    open spec fn spec_parse(b: Seq<u8>) -> Result<(Seq<u8>, int), Error> {
        Ok((b, b.len() as int))
    }

    fn deserialize(&mut self, r: &mut Reader<'_>) -> (res: Result<(), Error>) {
        self.data.deserialize(r)
    }
}

impl Default for IpcpTerminateAck {
    fn default() -> (d: Self)
        ensures
            d.deep_view() == Seq::<u8>::empty(),
    {
        IpcpTerminateAck { data: Vec::new() }
    }
}

impl IpcpTerminateAck {
    /// The payload length in bytes.
    pub fn len(&self) -> (n: u16)
        requires
            self.deep_view().len() <= 0xFFFF,
        ensures
            n as int == self.deep_view().len(),
    {
        self.data.len() as u16
    }

    /// Whether the data is empty.
    pub fn is_empty(&self) -> (e: bool)
        ensures
            e == (self.deep_view().len() == 0),
    {
        self.data.is_empty()
    }
}

/// The Code-Reject payload: the rejected packet's bytes.
#[derive(Clone, Debug, Eq, PartialEq)]
pub struct IpcpCodeReject {
    pub pkt: Vec<u8>,
}

impl DeepView for IpcpCodeReject {
    type V = Seq<u8>;

    open spec fn deep_view(&self) -> Seq<u8> {
        self.pkt.deep_view()
    }
}

impl Serialize for IpcpCodeReject {
    open spec fn spec_wire(v: Seq<u8>) -> Seq<u8> {
        v
    }

    open spec fn wire_ok(v: Seq<u8>) -> bool {
        true
    }

    fn serialize(&self, w: &mut Vec<u8>) -> (res: Result<(), Error>) {
        self.pkt.serialize(w)
    }
}

impl Deserialize for IpcpCodeReject {
    open spec fn spec_parse(b: Seq<u8>) -> Result<(Seq<u8>, int), Error> {
        Ok((b, b.len() as int))
    }

    fn deserialize(&mut self, r: &mut Reader<'_>) -> (res: Result<(), Error>) {
        self.pkt.deserialize(r)
    }
}

impl Default for IpcpCodeReject {
    fn default() -> (d: Self)
        ensures
            d.deep_view() == Seq::<u8>::empty(),
    {
        IpcpCodeReject { pkt: Vec::new() }
    }
}

impl IpcpCodeReject {
    /// The payload length in bytes.
    pub fn len(&self) -> (n: u16)
        requires
            self.deep_view().len() <= 0xFFFF,
        ensures
            n as int == self.deep_view().len(),
    {
        self.pkt.len() as u16
    }

    /// Whether the rejected packet is empty.
    pub fn is_empty(&self) -> (e: bool)
        ensures
            e == (self.deep_view().len() == 0),
    {
        self.pkt.is_empty()
    }
}

/// Parsing inverts encoding for one framed option, with any trailing
/// bytes left untouched.
pub proof fn lemma_parse_ipcp_option(v: IpcpOptV, rest: Seq<u8>)
    requires
        ipcp_opt_ok(v),
        ipcp_opt_canonical(v),
    ensures
        parse_ipcp_option(ipcp_option_wire(v) + rest) == Ok::<(IpcpOptV, int), Error>(
            (v, ipcp_option_wire(v).len() as int),
        ),
{
    let pl = ipcp_opt_wire(v);
    let b = ipcp_option_wire(v) + rest;
    assert(b[0] == ipcp_opt_type(v));
    assert(b[1] as int == 2 + pl.len());
    assert(b.subrange(2, 2 + pl.len() as int) =~= pl);
    match v {
        IpcpOptV::IpCompressionProtocol(p) => {
            lemma_parse_ip_compression_protocol(p);
        },
        IpcpOptV::IpAddr(a) => {
            crate::types::lemma_parse_ipv4(a, Seq::<u8>::empty());
            assert(a + Seq::<u8>::empty() =~= a);
        },
        IpcpOptV::PrimaryDns(a) => {
            crate::types::lemma_parse_ipv4(a, Seq::<u8>::empty());
            assert(a + Seq::<u8>::empty() =~= a);
        },
        IpcpOptV::SecondaryDns(a) => {
            crate::types::lemma_parse_ipv4(a, Seq::<u8>::empty());
            assert(a + Seq::<u8>::empty() =~= a);
        },
        IpcpOptV::Unhandled(_, _) => {},
    }
}

/// Parsing inverts encoding for whole option lists read against a
/// window that holds exactly the list.
pub proof fn lemma_parse_ipcp_options(vs: Seq<IpcpOptV>)
    requires
        ipcp_options_ok(vs),
        ipcp_options_canonical(vs),
    ensures
        parse_ipcp_options(ipcp_options_wire(vs)) == Ok::<(Seq<IpcpOptV>, int), Error>(
            (vs, ipcp_options_wire(vs).len() as int),
        ),
    decreases vs.len(),
{
    if vs.len() == 0 {
        assert(vs =~= Seq::<IpcpOptV>::empty());
    } else {
        let w0 = ipcp_option_wire(vs[0]);
        let wr = ipcp_options_wire(vs.skip(1));
        let b = ipcp_options_wire(vs);
        lemma_parse_ipcp_option(vs[0], wr);
        assert(b.skip(w0.len() as int) =~= wr);
        assert(ipcp_options_ok(vs.skip(1)) && ipcp_options_canonical(vs.skip(1))) by {
            assert(forall|i: int| 0 <= i < vs.skip(1).len() ==> #[trigger] vs.skip(1)[i] == vs[i
                + 1]);
        }
        lemma_parse_ipcp_options(vs.skip(1));
        assert(w0.len() >= 2);
        assert(seq![vs[0]] + vs.skip(1) =~= vs);
    }
}

/// Parsing inverts encoding for IPCP payloads read against a window
/// that holds exactly the payload, under the payload's own code.
pub proof fn lemma_parse_ipcp_data(v: IpcpDataV)
    requires
        ipcp_data_ok(v),
        ipcp_data_canonical(v),
    ensures
        parse_ipcp_data(ipcp_data_code(v), ipcp_data_wire(v)) == Ok::<(IpcpDataV, int), Error>(
            (v, ipcp_data_wire(v).len() as int),
        ),
{
    match v {
        IpcpDataV::ConfigureRequest(vs) => lemma_parse_ipcp_options(vs),
        IpcpDataV::ConfigureAck(vs) => lemma_parse_ipcp_options(vs),
        IpcpDataV::ConfigureNak(vs) => lemma_parse_ipcp_options(vs),
        IpcpDataV::ConfigureReject(vs) => lemma_parse_ipcp_options(vs),
        _ => {},
    }
}

/// Parsing inverts encoding for whole IPCP packets, with any trailing
/// bytes left untouched.
pub proof fn lemma_parse_ipcp_pkt(v: (u8, IpcpDataV), rest: Seq<u8>)
    requires
        ipcp_pkt_ok(v),
        ipcp_data_canonical(v.1),
    ensures
        parse_ipcp_pkt(ipcp_pkt_wire(v) + rest) == Ok::<((u8, IpcpDataV), int), Error>(
            (v, ipcp_pkt_wire(v).len() as int),
        ),
{
    let pl = ipcp_data_wire(v.1);
    let total = (4 + pl.len()) as u16;
    let b = ipcp_pkt_wire(v) + rest;
    assert(b[0] == ipcp_data_code(v.1));
    assert(b[1] == v.0);
    assert(b.skip(2) =~= be_bytes_u16(total) + (pl + rest));
    crate::de::lemma_parse_be_u16(total, pl + rest);
    assert(b[2] as int * 0x100 + b[3] as int == total as int) by {
        assert(parse_u16(b.skip(2)) == Ok::<(u16, int), Error>((total, 2)));
        assert(b.skip(2)[0] == b[2] && b.skip(2)[1] == b[3]);
    }
    assert(b.subrange(4, 4 + pl.len() as int) =~= pl);
    lemma_parse_ipcp_data(v.1);
}

} // verus!
