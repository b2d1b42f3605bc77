use vstd::prelude::*;

use crate::de::Deserialize;
use crate::de::Reader;
use crate::de::lemma_parse_u64_bounds;
use crate::de::min_int;
use crate::de::parse_u16;
use crate::de::parse_u64;
use crate::de::parse_u8;
use crate::error::Error;
use crate::ser::Serialize;
use crate::ser::be_bytes_u16;
use crate::ser::be_bytes_u64;

verus! {

broadcast use crate::de::lemma_deep_view_u8;

pub const IPV6CP_CONFIGURE_REQUEST: u8 = 1;

pub const IPV6CP_CONFIGURE_ACK: u8 = 2;

pub const IPV6CP_CONFIGURE_NAK: u8 = 3;

pub const IPV6CP_CONFIGURE_REJECT: u8 = 4;

pub const IPV6CP_TERMINATE_REQUEST: u8 = 5;

pub const IPV6CP_TERMINATE_ACK: u8 = 6;

pub const IPV6CP_CODE_REJECT: u8 = 7;

pub const OPT_INTERFACE_IDENTIFIER: u8 = 1;

/// An IPv6CP configuration option value: the interface identifier, or
/// the catch-all keeping the raw bytes of any unrecognized type.
#[derive(Clone, Debug, Eq, PartialEq)]
pub enum Ipv6cpOpt {
    InterfaceId(u64),
    Unhandled(u8, Vec<u8>),
}

/// The abstract form of an IPv6CP option value.
pub enum Ipv6cpOptV {
    InterfaceId(u64),
    Unhandled(u8, Seq<u8>),
}

impl DeepView for Ipv6cpOpt {
    type V = Ipv6cpOptV;

    open spec fn deep_view(&self) -> Ipv6cpOptV {
        match self {
            Ipv6cpOpt::InterfaceId(x) => Ipv6cpOptV::InterfaceId(*x),
            Ipv6cpOpt::Unhandled(t, b) => Ipv6cpOptV::Unhandled(*t, b.deep_view()),
        }
    }
}

/// The wire type octet of an IPv6CP option value.
pub open spec fn ipv6cp_opt_type(v: Ipv6cpOptV) -> u8 {
    match v {
        Ipv6cpOptV::InterfaceId(_) => OPT_INTERFACE_IDENTIFIER,
        Ipv6cpOptV::Unhandled(t, _) => t,
    }
}

/// The value bytes of an IPv6CP option: type and length octets not
/// included.
pub open spec fn ipv6cp_opt_wire(v: Ipv6cpOptV) -> Seq<u8> {
    match v {
        Ipv6cpOptV::InterfaceId(x) => be_bytes_u64(x),
        Ipv6cpOptV::Unhandled(_, b) => b,
    }
}

/// Whether the value fits an option's one-octet length field, which
/// also counts the two header octets.
pub open spec fn ipv6cp_opt_ok(v: Ipv6cpOptV) -> bool {
    ipv6cp_opt_wire(v).len() <= 253
}

/// Whether an IPv6CP option names its type by its variant alone.
pub open spec fn ipv6cp_opt_canonical(v: Ipv6cpOptV) -> bool {
    match v {
        Ipv6cpOptV::Unhandled(t, _) => t != OPT_INTERFACE_IDENTIFIER,
        _ => true,
    }
}

/// Decode an IPv6CP option value from a window already bounded to the
/// declared value length, dispatching on the type octet.
pub open spec fn parse_ipv6cp_opt(t: u8, b: Seq<u8>) -> Result<(Ipv6cpOptV, int), Error> {
    if t == OPT_INTERFACE_IDENTIFIER {
        match parse_u64(b) {
            Ok((x, n)) => Ok((Ipv6cpOptV::InterfaceId(x), n)),
            Err(e) => Err(e),
        }
    } else {
        Ok((Ipv6cpOptV::Unhandled(t, b), b.len() as int))
    }
}

impl Serialize for Ipv6cpOpt {
    open spec fn spec_wire(v: Ipv6cpOptV) -> Seq<u8> {
        ipv6cp_opt_wire(v)
    }

    open spec fn wire_ok(v: Ipv6cpOptV) -> bool {
        true
    }

    fn serialize(&self, w: &mut Vec<u8>) -> (res: Result<(), Error>) {
        match self {
            Ipv6cpOpt::InterfaceId(x) => x.serialize(w),
            Ipv6cpOpt::Unhandled(_, b) => b.serialize(w),
        }
    }
}

impl Ipv6cpOpt {
    /// The wire type octet this value is written under.
    pub fn discriminant(&self) -> (t: u8)
        ensures
            t == ipv6cp_opt_type(self.deep_view()),
    {
        match self {
            Ipv6cpOpt::InterfaceId(_) => OPT_INTERFACE_IDENTIFIER,
            Ipv6cpOpt::Unhandled(t, _) => *t,
        }
    }

    /// The value length in bytes.
    pub fn len(&self) -> (n: u8)
        requires
            ipv6cp_opt_ok(self.deep_view()),
        ensures
            n as int == ipv6cp_opt_wire(self.deep_view()).len(),
    {
        match self {
            Ipv6cpOpt::InterfaceId(_) => 8,
            Ipv6cpOpt::Unhandled(_, b) => b.len() as u8,
        }
    }

    /// Decode the value for a type octet already read from the wire,
    /// falling back to the catch-all variant on an unrecognized type.
    pub fn deserialize_with_discriminant(
        &mut self,
        r: &mut Reader<'_>,
        discriminant: &u8,
    ) -> (res: Result<(), Error>)
        requires
            old(r).wf(),
        ensures
            final(r).wf(),
            final(r).all_bytes() == old(r).all_bytes(),
            final(r).stop() == old(r).stop(),
            old(r).start() <= final(r).start(),
            match parse_ipv6cp_opt(*discriminant, old(r).bytes_left()) {
                Ok((v, n)) => res is Ok && final(self).deep_view() == v && final(r).start() == old(
                    r,
                ).start() + n,
                Err(e) => res == Err::<(), Error>(e),
            },
    {
        if *discriminant == OPT_INTERFACE_IDENTIFIER {
            let mut tmp: u64 = 0;
            tmp.deserialize(r)?;
            *self = Ipv6cpOpt::InterfaceId(tmp);
        } else {
            let mut tmp: Vec<u8> = Vec::new();
            tmp.deserialize(r)?;
            *self = Ipv6cpOpt::Unhandled(*discriminant, tmp);
        }
        Ok(())
    }
}

/// One IPv6CP option as framed on the wire: a type octet, a length
/// octet counting itself, the type octet and the value, then the value.
#[derive(Clone, Debug, Eq, PartialEq)]
pub struct Ipv6cpOption {
    pub value: Ipv6cpOpt,
}

impl DeepView for Ipv6cpOption {
    type V = Ipv6cpOptV;

    open spec fn deep_view(&self) -> Ipv6cpOptV {
        self.value.deep_view()
    }
}

impl From<Ipv6cpOpt> for Ipv6cpOption {
    fn from(value: Ipv6cpOpt) -> (o: Self) {
        Ipv6cpOption { value }
    }
}

impl vstd::std_specs::convert::FromSpecImpl<Ipv6cpOpt> for Ipv6cpOption {
    open spec fn obeys_from_spec() -> bool {
        true
    }

    open spec fn from_spec(value: Ipv6cpOpt) -> Self {
        Ipv6cpOption { value }
    }
}

/// The full wire form of one framed IPv6CP option.
pub open spec fn ipv6cp_option_wire(v: Ipv6cpOptV) -> Seq<u8> {
    seq![ipv6cp_opt_type(v), (2 + ipv6cp_opt_wire(v).len()) as u8] + ipv6cp_opt_wire(v)
}

/// Decode one framed IPv6CP option: type, length, then the value read
/// from a window bounded to the length less the two header octets.
pub open spec fn parse_ipv6cp_option(b: Seq<u8>) -> Result<(Ipv6cpOptV, int), Error> {
    if b.len() < 2 {
        Err(Error::UnexpectedEof)
    } else {
        let t = b[0];
        let l = b[1] as int;
        if l < 2 {
            Err(Error::UnexpectedEof)
        } else {
            let m = min_int(l - 2, b.len() - 2);
            match parse_ipv6cp_opt(t, b.subrange(2, 2 + m)) {
                Ok((v, n)) => Ok((v, 2 + n)),
                Err(e) => Err(e),
            }
        }
    }
}

/// A successful option parse consumes at least its two header octets
/// and never more than the window holds.
pub proof fn lemma_parse_ipv6cp_option_bounds(b: Seq<u8>)
    ensures
        parse_ipv6cp_option(b) matches Ok(p) ==> 2 <= p.1 <= b.len(),
{
    if b.len() >= 2 && b[1] as int >= 2 {
        let m = min_int(b[1] as int - 2, b.len() - 2);
        lemma_parse_u64_bounds(b.subrange(2, 2 + m));
    }
}

impl Serialize for Ipv6cpOption {
    open spec fn spec_wire(v: Ipv6cpOptV) -> Seq<u8> {
        ipv6cp_option_wire(v)
    }

    open spec fn wire_ok(v: Ipv6cpOptV) -> bool {
        ipv6cp_opt_ok(v)
    }

    fn serialize(&self, w: &mut Vec<u8>) -> (res: Result<(), Error>) {
        let t = self.value.discriminant();
        w.push(t);
        let mark = w.len();
        w.push(0);
        self.value.serialize(w)?;
        let n = w.len() - mark - 1;
        if n > 253 {
            return Err(Error::TryFromInt);
        }
        w.set(mark, (n + 2) as u8);
        proof {
            assert(w@ =~= old(w)@ + ipv6cp_option_wire(self.deep_view()));
        }
        Ok(())
    }
}

impl Deserialize for Ipv6cpOption {
    open spec fn spec_parse(b: Seq<u8>) -> Result<(Ipv6cpOptV, int), Error> {
        parse_ipv6cp_option(b)
    }

    fn deserialize(&mut self, r: &mut Reader<'_>) -> (res: Result<(), Error>) {
        let ghost b = r.bytes_left();
        let t = r.read_u8()?;
        let l = r.read_u8()?;
        if l < 2 {
            return Err(Error::UnexpectedEof);
        }
        let mut sub = r.begin_bounded((l - 2) as usize);
        proof {
            assert(sub.bytes_left() =~= b.subrange(2, 2 + min_int(l as int - 2, b.len() - 2)));
        }
        let mut value = Ipv6cpOpt::InterfaceId(0);
        let pres = value.deserialize_with_discriminant(&mut sub, &t);
        r.resume_from(&sub);
        pres?;
        *self = Ipv6cpOption { value };
        Ok(())
    }
}

/// The concatenated wire form of a whole option list.
pub open spec fn ipv6cp_options_wire(vs: Seq<Ipv6cpOptV>) -> Seq<u8>
    decreases vs.len(),
{
    if vs.len() == 0 {
        Seq::empty()
    } else {
        ipv6cp_option_wire(vs[0]) + ipv6cp_options_wire(vs.skip(1))
    }
}

/// Whether every option of a list fits its length octet.
pub open spec fn ipv6cp_options_ok(vs: Seq<Ipv6cpOptV>) -> bool {
    forall|i: int| 0 <= i < vs.len() ==> ipv6cp_opt_ok(#[trigger] vs[i])
}

/// Whether every option of a list is canonical.
pub open spec fn ipv6cp_options_canonical(vs: Seq<Ipv6cpOptV>) -> bool {
    forall|i: int| 0 <= i < vs.len() ==> ipv6cp_opt_canonical(#[trigger] vs[i])
}

/// Decode framed options one after another until the window is empty.
/// A truncated final option is an error; a clean end of the window is
/// the end of the list.
pub open spec fn parse_ipv6cp_options(b: Seq<u8>) -> Result<(Seq<Ipv6cpOptV>, int), Error>
    decreases b.len(),
{
    if b.len() == 0 {
        Ok((Seq::empty(), 0))
    } else {
        match parse_ipv6cp_option(b) {
            Ok((v, n)) => {
                if 1 <= n <= b.len() {
                    match parse_ipv6cp_options(b.skip(n)) {
                        Ok((vs, n2)) => Ok((seq![v] + vs, n + n2)),
                        Err(e) => Err(e),
                    }
                } else {
                    Err(Error::UnexpectedEof)
                }
            },
            Err(e) => Err(e),
        }
    }
}

impl Serialize for Vec<Ipv6cpOption> {
    open spec fn spec_wire(vs: Seq<Ipv6cpOptV>) -> Seq<u8> {
        ipv6cp_options_wire(vs)
    }

    open spec fn wire_ok(vs: Seq<Ipv6cpOptV>) -> bool {
        ipv6cp_options_ok(vs)
    }

    fn serialize(&self, w: &mut Vec<u8>) -> (res: Result<(), Error>) {
        let ghost dv = self.deep_view();
        let n = self.len();
        proof {
            assert(dv.skip(0) =~= dv);
        }
        let mut i: usize = 0;
        while i < n
            invariant
                i <= n,
                n == self@.len(),
                dv == self.deep_view(),
                dv.len() == n,
                forall|j: int| 0 <= j < i ==> ipv6cp_opt_ok(#[trigger] dv[j]),
                w@ + ipv6cp_options_wire(dv.skip(i as int)) == old(w)@ + ipv6cp_options_wire(dv),
            decreases n - i,
        {
            let res = self[i].serialize(w);
            proof {
                assert(dv.skip(i as int)[0] == dv[i as int]);
                assert(dv.skip(i as int).skip(1) =~= dv.skip(i as int + 1));
            }
            if res.is_err() {
                return Err(Error::TryFromInt);
            }
            i = i + 1;
        }
        proof {
            assert(dv.skip(n as int) =~= Seq::<Ipv6cpOptV>::empty());
        }
        Ok(())
    }
}

impl Deserialize for Vec<Ipv6cpOption> {
    open spec fn spec_parse(b: Seq<u8>) -> Result<(Seq<Ipv6cpOptV>, int), Error> {
        parse_ipv6cp_options(b)
    }

    fn deserialize(&mut self, r: &mut Reader<'_>) -> (res: Result<(), Error>) {
        let ghost b0 = r.bytes_left();
        let mut acc: Vec<Ipv6cpOption> = Vec::new();
        while r.has_left()
            invariant
                r.wf(),
                r.all_bytes() == old(r).all_bytes(),
                r.stop() == old(r).stop(),
                old(r).start() <= r.start(),
                match parse_ipv6cp_options(r.bytes_left()) {
                    Ok((vs, n)) => parse_ipv6cp_options(b0) == Ok::<(Seq<Ipv6cpOptV>, int), Error>(
                        (acc.deep_view() + vs, (r.start() - old(r).start()) + n),
                    ),
                    Err(e) => parse_ipv6cp_options(b0) == Err::<(Seq<Ipv6cpOptV>, int), Error>(e),
                },
            decreases r.stop() - r.start(),
        {
            let ghost cur = r.bytes_left();
            let ghost start_iter = r.start();
            let ghost acc0 = acc.deep_view();
            let mut tmp = Ipv6cpOption { value: Ipv6cpOpt::InterfaceId(0) };
            let pres = tmp.deserialize(r);
            proof {
                lemma_parse_ipv6cp_option_bounds(cur);
            }
            match pres {
                Err(e) => {
                    proof {
                        assert(parse_ipv6cp_options(cur) == Err::<(Seq<Ipv6cpOptV>, int), Error>(
                            e,
                        ));
                    }
                    return Err(e);
                },
                Ok(_) => {},
            }
            acc.push(tmp);
            proof {
                let n = r.start() - start_iter;
                assert(r.bytes_left() =~= cur.skip(n));
                assert(acc.deep_view() =~= acc0 + seq![tmp.deep_view()]);
                if parse_ipv6cp_options(r.bytes_left()) is Ok {
                    let (vs, n2) = parse_ipv6cp_options(r.bytes_left())->Ok_0;
                    assert(acc0 + (seq![tmp.deep_view()] + vs) =~= acc.deep_view() + vs);
                }
            }
        }
        proof {
            assert(r.bytes_left() =~= Seq::<u8>::empty());
            assert(acc.deep_view() + Seq::<Ipv6cpOptV>::empty() =~= acc.deep_view());
        }
        *self = acc;
        Ok(())
    }
}

/// The summed wire length of a whole option list.
fn ipv6cp_options_len(options: &Vec<Ipv6cpOption>) -> (n: u16)
    requires
        ipv6cp_options_ok(options.deep_view()),
        ipv6cp_options_wire(options.deep_view()).len() <= 0xFFFF,
    ensures
        n as int == ipv6cp_options_wire(options.deep_view()).len(),
{
    let ghost dv = options.deep_view();
    proof {
        assert(dv.skip(0) =~= dv);
    }
    let k = options.len();
    let mut total: usize = 0;
    let mut i: usize = 0;
    while i < k
        invariant
            i <= k,
            total + ipv6cp_options_wire(dv.skip(i as int)).len() == ipv6cp_options_wire(dv).len(),
        decreases k - i,
    {
        proof {
            assert(dv.skip(i as int)[0] == dv[i as int]);
            assert(dv.skip(i as int).skip(1) =~= dv.skip(i as int + 1));
        }
        let step = options[i].value.len();
        total = total + 2 + step as usize;
        i = i + 1;
    }
    proof {
        assert(dv.skip(k as int) =~= Seq::<Ipv6cpOptV>::empty());
    }
    total as u16
}

/// An IPv6CP packet payload: one variant per code. The code space is
/// closed: an unrecognized code is a decode error.
#[derive(Clone, Debug, Eq, PartialEq)]
pub enum Ipv6cpData {
    ConfigureRequest(Ipv6cpConfigureRequest),
    ConfigureAck(Ipv6cpConfigureAck),
    ConfigureNak(Ipv6cpConfigureNak),
    ConfigureReject(Ipv6cpConfigureReject),
    TerminateRequest(Ipv6cpTerminateRequest),
    TerminateAck(Ipv6cpTerminateAck),
    CodeReject(Ipv6cpCodeReject),
}

/// The abstract form of an IPv6CP payload.
pub enum Ipv6cpDataV {
    ConfigureRequest(Seq<Ipv6cpOptV>),
    ConfigureAck(Seq<Ipv6cpOptV>),
    ConfigureNak(Seq<Ipv6cpOptV>),
    ConfigureReject(Seq<Ipv6cpOptV>),
    TerminateRequest(Seq<u8>),
    TerminateAck(Seq<u8>),
    CodeReject(Seq<u8>),
}

impl DeepView for Ipv6cpData {
    type V = Ipv6cpDataV;

    open spec fn deep_view(&self) -> Ipv6cpDataV {
        match self {
            Ipv6cpData::ConfigureRequest(p) => Ipv6cpDataV::ConfigureRequest(
                p.options.deep_view(),
            ),
            Ipv6cpData::ConfigureAck(p) => Ipv6cpDataV::ConfigureAck(p.options.deep_view()),
            Ipv6cpData::ConfigureNak(p) => Ipv6cpDataV::ConfigureNak(p.options.deep_view()),
            Ipv6cpData::ConfigureReject(p) => Ipv6cpDataV::ConfigureReject(p.options.deep_view()),
            Ipv6cpData::TerminateRequest(p) => Ipv6cpDataV::TerminateRequest(p.data.deep_view()),
            Ipv6cpData::TerminateAck(p) => Ipv6cpDataV::TerminateAck(p.data.deep_view()),
            Ipv6cpData::CodeReject(p) => Ipv6cpDataV::CodeReject(p.pkt.deep_view()),
        }
    }
}

/// The wire code of an IPv6CP payload.
pub open spec fn ipv6cp_data_code(v: Ipv6cpDataV) -> u8 {
    match v {
        Ipv6cpDataV::ConfigureRequest(_) => IPV6CP_CONFIGURE_REQUEST,
        Ipv6cpDataV::ConfigureAck(_) => IPV6CP_CONFIGURE_ACK,
        Ipv6cpDataV::ConfigureNak(_) => IPV6CP_CONFIGURE_NAK,
        Ipv6cpDataV::ConfigureReject(_) => IPV6CP_CONFIGURE_REJECT,
        Ipv6cpDataV::TerminateRequest(_) => IPV6CP_TERMINATE_REQUEST,
        Ipv6cpDataV::TerminateAck(_) => IPV6CP_TERMINATE_ACK,
        Ipv6cpDataV::CodeReject(_) => IPV6CP_CODE_REJECT,
    }
}

/// The payload bytes of an IPv6CP payload: an option list for the
/// configure codes, raw data for the others.
pub open spec fn ipv6cp_data_wire(v: Ipv6cpDataV) -> Seq<u8> {
    match v {
        Ipv6cpDataV::ConfigureRequest(vs) => ipv6cp_options_wire(vs),
        Ipv6cpDataV::ConfigureAck(vs) => ipv6cp_options_wire(vs),
        Ipv6cpDataV::ConfigureNak(vs) => ipv6cp_options_wire(vs),
        Ipv6cpDataV::ConfigureReject(vs) => ipv6cp_options_wire(vs),
        Ipv6cpDataV::TerminateRequest(d) => d,
        Ipv6cpDataV::TerminateAck(d) => d,
        Ipv6cpDataV::CodeReject(d) => d,
    }
}

/// Whether every option of the payload fits its length octet.
pub open spec fn ipv6cp_data_ok(v: Ipv6cpDataV) -> bool {
    match v {
        Ipv6cpDataV::ConfigureRequest(vs) => ipv6cp_options_ok(vs),
        Ipv6cpDataV::ConfigureAck(vs) => ipv6cp_options_ok(vs),
        Ipv6cpDataV::ConfigureNak(vs) => ipv6cp_options_ok(vs),
        Ipv6cpDataV::ConfigureReject(vs) => ipv6cp_options_ok(vs),
        _ => true,
    }
}

/// Whether every option of the payload is canonical.
pub open spec fn ipv6cp_data_canonical(v: Ipv6cpDataV) -> bool {
    match v {
        Ipv6cpDataV::ConfigureRequest(vs) => ipv6cp_options_canonical(vs),
        Ipv6cpDataV::ConfigureAck(vs) => ipv6cp_options_canonical(vs),
        Ipv6cpDataV::ConfigureNak(vs) => ipv6cp_options_canonical(vs),
        Ipv6cpDataV::ConfigureReject(vs) => ipv6cp_options_canonical(vs),
        _ => true,
    }
}

/// Decode an IPv6CP payload from a window already bounded to the
/// payload length. The code space is closed: an unrecognized code is
/// an error carrying the offending value.
pub open spec fn parse_ipv6cp_data(code: u8, b: Seq<u8>) -> Result<(Ipv6cpDataV, int), Error> {
    if code == IPV6CP_CONFIGURE_REQUEST {
        match parse_ipv6cp_options(b) {
            Ok((vs, n)) => Ok((Ipv6cpDataV::ConfigureRequest(vs), n)),
            Err(e) => Err(e),
        }
    } else if code == IPV6CP_CONFIGURE_ACK {
        match parse_ipv6cp_options(b) {
            Ok((vs, n)) => Ok((Ipv6cpDataV::ConfigureAck(vs), n)),
            Err(e) => Err(e),
        }
    } else if code == IPV6CP_CONFIGURE_NAK {
        match parse_ipv6cp_options(b) {
            Ok((vs, n)) => Ok((Ipv6cpDataV::ConfigureNak(vs), n)),
            Err(e) => Err(e),
        }
    } else if code == IPV6CP_CONFIGURE_REJECT {
        match parse_ipv6cp_options(b) {
            Ok((vs, n)) => Ok((Ipv6cpDataV::ConfigureReject(vs), n)),
            Err(e) => Err(e),
        }
    } else if code == IPV6CP_TERMINATE_REQUEST {
        Ok((Ipv6cpDataV::TerminateRequest(b), b.len() as int))
    } else if code == IPV6CP_TERMINATE_ACK {
        Ok((Ipv6cpDataV::TerminateAck(b), b.len() as int))
    } else if code == IPV6CP_CODE_REJECT {
        Ok((Ipv6cpDataV::CodeReject(b), b.len() as int))
    } else {
        Err(Error::InvalidIpv6cpCode(code))
    }
}

impl Serialize for Ipv6cpData {
    open spec fn spec_wire(v: Ipv6cpDataV) -> Seq<u8> {
        ipv6cp_data_wire(v)
    }

    open spec fn wire_ok(v: Ipv6cpDataV) -> bool {
        ipv6cp_data_ok(v)
    }

    fn serialize(&self, w: &mut Vec<u8>) -> (res: Result<(), Error>) {
        match self {
            Ipv6cpData::ConfigureRequest(p) => p.options.serialize(w),
            Ipv6cpData::ConfigureAck(p) => p.options.serialize(w),
            Ipv6cpData::ConfigureNak(p) => p.options.serialize(w),
            Ipv6cpData::ConfigureReject(p) => p.options.serialize(w),
            Ipv6cpData::TerminateRequest(p) => p.data.serialize(w),
            Ipv6cpData::TerminateAck(p) => p.data.serialize(w),
            Ipv6cpData::CodeReject(p) => p.pkt.serialize(w),
        }
    }
}

impl Ipv6cpData {
    /// The wire code this payload is written under.
    pub fn discriminant(&self) -> (code: u8)
        ensures
            code == ipv6cp_data_code(self.deep_view()),
    {
        match self {
            Ipv6cpData::ConfigureRequest(_) => IPV6CP_CONFIGURE_REQUEST,
            Ipv6cpData::ConfigureAck(_) => IPV6CP_CONFIGURE_ACK,
            Ipv6cpData::ConfigureNak(_) => IPV6CP_CONFIGURE_NAK,
            Ipv6cpData::ConfigureReject(_) => IPV6CP_CONFIGURE_REJECT,
            Ipv6cpData::TerminateRequest(_) => IPV6CP_TERMINATE_REQUEST,
            Ipv6cpData::TerminateAck(_) => IPV6CP_TERMINATE_ACK,
            Ipv6cpData::CodeReject(_) => IPV6CP_CODE_REJECT,
        }
    }

    /// The payload length in bytes.
    pub fn len(&self) -> (n: u16)
        requires
            ipv6cp_data_ok(self.deep_view()),
            ipv6cp_data_wire(self.deep_view()).len() <= 0xFFFF,
        ensures
            n as int == ipv6cp_data_wire(self.deep_view()).len(),
    {
        match self {
            Ipv6cpData::ConfigureRequest(p) => p.len(),
            Ipv6cpData::ConfigureAck(p) => p.len(),
            Ipv6cpData::ConfigureNak(p) => p.len(),
            Ipv6cpData::ConfigureReject(p) => p.len(),
            Ipv6cpData::TerminateRequest(p) => p.len(),
            Ipv6cpData::TerminateAck(p) => p.len(),
            Ipv6cpData::CodeReject(p) => p.len(),
        }
    }

    /// Decode the payload for a code already read from the wire; an
    /// unrecognized code is an error, since IPv6CP has no catch-all.
    pub fn deserialize_with_discriminant(
        &mut self,
        r: &mut Reader<'_>,
        discriminant: &u8,
    ) -> (res: Result<(), Error>)
        requires
            old(r).wf(),
        ensures
            final(r).wf(),
            final(r).all_bytes() == old(r).all_bytes(),
            final(r).stop() == old(r).stop(),
            old(r).start() <= final(r).start(),
            match parse_ipv6cp_data(*discriminant, old(r).bytes_left()) {
                Ok((v, n)) => res is Ok && final(self).deep_view() == v && final(r).start() == old(
                    r,
                ).start() + n,
                Err(e) => res == Err::<(), Error>(e),
            },
    {
        if *discriminant == IPV6CP_CONFIGURE_REQUEST {
            let mut tmp = Ipv6cpConfigureRequest::default();
            tmp.deserialize(r)?;
            *self = Ipv6cpData::ConfigureRequest(tmp);
        } else if *discriminant == IPV6CP_CONFIGURE_ACK {
            let mut tmp = Ipv6cpConfigureAck::default();
            tmp.deserialize(r)?;
            *self = Ipv6cpData::ConfigureAck(tmp);
        } else if *discriminant == IPV6CP_CONFIGURE_NAK {
            let mut tmp = Ipv6cpConfigureNak::default();
            tmp.deserialize(r)?;
            *self = Ipv6cpData::ConfigureNak(tmp);
        } else if *discriminant == IPV6CP_CONFIGURE_REJECT {
            let mut tmp = Ipv6cpConfigureReject::default();
            tmp.deserialize(r)?;
            *self = Ipv6cpData::ConfigureReject(tmp);
        } else if *discriminant == IPV6CP_TERMINATE_REQUEST {
            let mut tmp = Ipv6cpTerminateRequest::default();
            tmp.deserialize(r)?;
            *self = Ipv6cpData::TerminateRequest(tmp);
        } else if *discriminant == IPV6CP_TERMINATE_ACK {
            let mut tmp = Ipv6cpTerminateAck::default();
            tmp.deserialize(r)?;
            *self = Ipv6cpData::TerminateAck(tmp);
        } else if *discriminant == IPV6CP_CODE_REJECT {
            let mut tmp = Ipv6cpCodeReject::default();
            tmp.deserialize(r)?;
            *self = Ipv6cpData::CodeReject(tmp);
        } else {
            return Err(Error::InvalidIpv6cpCode(*discriminant));
        }
        Ok(())
    }
}

impl Default for Ipv6cpData {
    fn default() -> (d: Self)
        ensures
            d.deep_view() == Ipv6cpDataV::ConfigureRequest(Seq::<Ipv6cpOptV>::empty()),
    {
        let d = Ipv6cpData::ConfigureRequest(Ipv6cpConfigureRequest::default());
        proof {
            assert(d.deep_view()->ConfigureRequest_0 =~= Seq::<Ipv6cpOptV>::empty());
        }
        d
    }
}

/// An IPv6CP packet: a code octet naming the payload variant, an
/// identifier octet, a length field covering the whole packet, and the
/// payload.
#[derive(Clone, Debug, Eq, PartialEq)]
pub struct Ipv6cpPkt {
    pub identifier: u8,
    pub data: Ipv6cpData,
}

impl DeepView for Ipv6cpPkt {
    type V = (u8, Ipv6cpDataV);

    open spec fn deep_view(&self) -> (u8, Ipv6cpDataV) {
        (self.identifier, self.data.deep_view())
    }
}

/// The full wire form of an IPv6CP packet. The length field counts its
/// own four header octets together with the payload.
pub open spec fn ipv6cp_pkt_wire(v: (u8, Ipv6cpDataV)) -> Seq<u8> {
    seq![ipv6cp_data_code(v.1), v.0] + be_bytes_u16((4 + ipv6cp_data_wire(v.1).len()) as u16)
        + ipv6cp_data_wire(v.1)
}

/// Whether an IPv6CP packet can be encoded.
pub open spec fn ipv6cp_pkt_ok(v: (u8, Ipv6cpDataV)) -> bool {
    ipv6cp_data_ok(v.1) && 4 + ipv6cp_data_wire(v.1).len() <= 0xFFFF
}

/// Decode an IPv6CP packet: code, identifier, length, then the payload
/// read from a window bounded to the length field less the header.
pub open spec fn parse_ipv6cp_pkt(b: Seq<u8>) -> Result<((u8, Ipv6cpDataV), int), Error> {
    if b.len() < 4 {
        Err(Error::UnexpectedEof)
    } else {
        let code = b[0];
        let id = b[1];
        let len = b[2] as int * 0x100 + b[3] as int;
        if len < 4 {
            Err(Error::UnexpectedEof)
        } else {
            let m = min_int(len - 4, b.len() - 4);
            match parse_ipv6cp_data(code, b.subrange(4, 4 + m)) {
                Ok((d, n)) => Ok(((id, d), 4 + n)),
                Err(e) => Err(e),
            }
        }
    }
}

impl Serialize for Ipv6cpPkt {
    open spec fn spec_wire(v: (u8, Ipv6cpDataV)) -> Seq<u8> {
        ipv6cp_pkt_wire(v)
    }

    open spec fn wire_ok(v: (u8, Ipv6cpDataV)) -> bool {
        ipv6cp_pkt_ok(v)
    }

    fn serialize(&self, w: &mut Vec<u8>) -> (res: Result<(), Error>) {
        let code = self.data.discriminant();
        w.push(code);
        w.push(self.identifier);
        let mark = w.len();
        w.push(0);
        w.push(0);
        self.data.serialize(w)?;
        let n = w.len() - mark - 2;
        if n > 0xFFFF - 4 {
            return Err(Error::TryFromInt);
        }
        let total = (n + 4) as u16;
        w.set(mark, (total / 0x100) as u8);
        w.set(mark + 1, (total % 0x100) as u8);
        proof {
            assert(w@ =~= old(w)@ + ipv6cp_pkt_wire(self.deep_view()));
        }
        Ok(())
    }
}

impl Deserialize for Ipv6cpPkt {
    open spec fn spec_parse(b: Seq<u8>) -> Result<((u8, Ipv6cpDataV), int), Error> {
        parse_ipv6cp_pkt(b)
    }

    fn deserialize(&mut self, r: &mut Reader<'_>) -> (res: Result<(), Error>) {
        let ghost b = r.bytes_left();
        let code = r.read_u8()?;
        let id = r.read_u8()?;
        proof {
            assert(r.bytes_left() =~= b.skip(2));
        }
        let mut len: u16 = 0;
        len.deserialize(r)?;
        if len < 4 {
            return Err(Error::UnexpectedEof);
        }
        let mut sub = r.begin_bounded((len - 4) as usize);
        proof {
            assert(sub.bytes_left() =~= b.subrange(4, 4 + min_int(len as int - 4, b.len() - 4)));
        }
        let mut data = Ipv6cpData::default();
        let pres = data.deserialize_with_discriminant(&mut sub, &code);
        r.resume_from(&sub);
        pres?;
        *self = Ipv6cpPkt { identifier: id, data };
        Ok(())
    }
}

impl Default for Ipv6cpPkt {
    fn default() -> (d: Self)
        ensures
            d.deep_view() == (0u8, Ipv6cpDataV::ConfigureRequest(Seq::<Ipv6cpOptV>::empty())),
    {
        Ipv6cpPkt { identifier: 0, data: Ipv6cpData::default() }
    }
}

impl Ipv6cpPkt {
    /// A Configure-Request carrying an option list.
    pub fn new_configure_request(identifier: u8, options: Vec<Ipv6cpOption>) -> (p: Self)
        ensures
            p.deep_view() == (identifier, Ipv6cpDataV::ConfigureRequest(options.deep_view())),
    {
        Ipv6cpPkt {
            identifier,
            data: Ipv6cpData::ConfigureRequest(Ipv6cpConfigureRequest { options }),
        }
    }

    /// A Configure-Ack carrying the acknowledged option list.
    pub fn new_configure_ack(identifier: u8, options: Vec<Ipv6cpOption>) -> (p: Self)
        ensures
            p.deep_view() == (identifier, Ipv6cpDataV::ConfigureAck(options.deep_view())),
    {
        Ipv6cpPkt { identifier, data: Ipv6cpData::ConfigureAck(Ipv6cpConfigureAck { options }) }
    }

    /// A Configure-Nak carrying the rejected option values.
    pub fn new_configure_nak(identifier: u8, options: Vec<Ipv6cpOption>) -> (p: Self)
        ensures
            p.deep_view() == (identifier, Ipv6cpDataV::ConfigureNak(options.deep_view())),
    {
        Ipv6cpPkt { identifier, data: Ipv6cpData::ConfigureNak(Ipv6cpConfigureNak { options }) }
    }

    /// A Configure-Reject carrying the unacceptable options.
    pub fn new_configure_reject(identifier: u8, options: Vec<Ipv6cpOption>) -> (p: Self)
        ensures
            p.deep_view() == (identifier, Ipv6cpDataV::ConfigureReject(options.deep_view())),
    {
        Ipv6cpPkt {
            identifier,
            data: Ipv6cpData::ConfigureReject(Ipv6cpConfigureReject { options }),
        }
    }

    /// A Terminate-Request carrying arbitrary data.
    pub fn new_terminate_request(identifier: u8, data: Vec<u8>) -> (p: Self)
        ensures
            p.deep_view() == (identifier, Ipv6cpDataV::TerminateRequest(data@)),
    {
        Ipv6cpPkt { identifier, data: Ipv6cpData::TerminateRequest(Ipv6cpTerminateRequest { data }) }
    }

    /// A Terminate-Ack carrying arbitrary data.
    pub fn new_terminate_ack(identifier: u8, data: Vec<u8>) -> (p: Self)
        ensures
            p.deep_view() == (identifier, Ipv6cpDataV::TerminateAck(data@)),
    {
        Ipv6cpPkt { identifier, data: Ipv6cpData::TerminateAck(Ipv6cpTerminateAck { data }) }
    }

    /// A Code-Reject carrying the rejected packet.
    pub fn new_code_reject(identifier: u8, pkt: Vec<u8>) -> (p: Self)
        ensures
            p.deep_view() == (identifier, Ipv6cpDataV::CodeReject(pkt@)),
    {
        Ipv6cpPkt { identifier, data: Ipv6cpData::CodeReject(Ipv6cpCodeReject { pkt }) }
    }

    /// The packet length in bytes, header octets included.
    pub fn len(&self) -> (n: u16)
        requires
            ipv6cp_pkt_ok(self.deep_view()),
        ensures
            n as int == ipv6cp_pkt_wire(self.deep_view()).len(),
    {
        4 + self.data.len()
    }

    /// Whether the packet carries no payload bytes.
    pub fn is_empty(&self) -> (e: bool)
        requires
            ipv6cp_pkt_ok(self.deep_view()),
        ensures
            e == (ipv6cp_data_wire(self.deep_view().1).len() == 0),
    {
        self.len() == 4
    }
}

/// The Configure-Request payload: an option list.
#[derive(Clone, Debug, Eq, PartialEq)]
pub struct Ipv6cpConfigureRequest {
    pub options: Vec<Ipv6cpOption>,
}

impl DeepView for Ipv6cpConfigureRequest {
    type V = Seq<Ipv6cpOptV>;

    open spec fn deep_view(&self) -> Seq<Ipv6cpOptV> {
        self.options.deep_view()
    }
}

impl Serialize for Ipv6cpConfigureRequest {
    open spec fn spec_wire(vs: Seq<Ipv6cpOptV>) -> Seq<u8> {
        ipv6cp_options_wire(vs)
    }

    open spec fn wire_ok(vs: Seq<Ipv6cpOptV>) -> bool {
        ipv6cp_options_ok(vs)
    }

    fn serialize(&self, w: &mut Vec<u8>) -> (res: Result<(), Error>) {
        self.options.serialize(w)
    }
}

impl Deserialize for Ipv6cpConfigureRequest {
    open spec fn spec_parse(b: Seq<u8>) -> Result<(Seq<Ipv6cpOptV>, int), Error> {
        parse_ipv6cp_options(b)
    }

    fn deserialize(&mut self, r: &mut Reader<'_>) -> (res: Result<(), Error>) {
        self.options.deserialize(r)
    }
}

impl Default for Ipv6cpConfigureRequest {
    fn default() -> (d: Self)
        ensures
            d.deep_view() == Seq::<Ipv6cpOptV>::empty(),
    {
        let d = Ipv6cpConfigureRequest { options: Vec::new() };
        proof {
            assert(d.deep_view() =~= Seq::<Ipv6cpOptV>::empty());
        }
        d
    }
}

impl Ipv6cpConfigureRequest {
    /// The payload length in bytes: the summed length of the options.
    pub fn len(&self) -> (n: u16)
        requires
            ipv6cp_options_ok(self.deep_view()),
            ipv6cp_options_wire(self.deep_view()).len() <= 0xFFFF,
        ensures
            n as int == ipv6cp_options_wire(self.deep_view()).len(),
    {
        ipv6cp_options_len(&self.options)
    }

    /// Whether the option list is empty.
    pub fn is_empty(&self) -> (e: bool)
        ensures
            e == (self.deep_view().len() == 0),
    {
        self.options.is_empty()
    }
}

/// The Configure-Ack payload: an option list.
#[derive(Clone, Debug, Eq, PartialEq)]
pub struct Ipv6cpConfigureAck {
    pub options: Vec<Ipv6cpOption>,
}

impl DeepView for Ipv6cpConfigureAck {
    type V = Seq<Ipv6cpOptV>;

    open spec fn deep_view(&self) -> Seq<Ipv6cpOptV> {
        self.options.deep_view()
    }
}

impl Serialize for Ipv6cpConfigureAck {
    open spec fn spec_wire(vs: Seq<Ipv6cpOptV>) -> Seq<u8> {
        ipv6cp_options_wire(vs)
    }

    open spec fn wire_ok(vs: Seq<Ipv6cpOptV>) -> bool {
        ipv6cp_options_ok(vs)
    }

    fn serialize(&self, w: &mut Vec<u8>) -> (res: Result<(), Error>) {
        self.options.serialize(w)
    }
}

impl Deserialize for Ipv6cpConfigureAck {
    open spec fn spec_parse(b: Seq<u8>) -> Result<(Seq<Ipv6cpOptV>, int), Error> {
        parse_ipv6cp_options(b)
    }

    fn deserialize(&mut self, r: &mut Reader<'_>) -> (res: Result<(), Error>) {
        self.options.deserialize(r)
    }
}

impl Default for Ipv6cpConfigureAck {
    fn default() -> (d: Self)
        ensures
            d.deep_view() == Seq::<Ipv6cpOptV>::empty(),
    {
        let d = Ipv6cpConfigureAck { options: Vec::new() };
        proof {
            assert(d.deep_view() =~= Seq::<Ipv6cpOptV>::empty());
        }
        d
    }
}

impl Ipv6cpConfigureAck {
    /// The payload length in bytes: the summed length of the options.
    pub fn len(&self) -> (n: u16)
        requires
            ipv6cp_options_ok(self.deep_view()),
            ipv6cp_options_wire(self.deep_view()).len() <= 0xFFFF,
        ensures
            n as int == ipv6cp_options_wire(self.deep_view()).len(),
    {
        ipv6cp_options_len(&self.options)
    }

    /// Whether the option list is empty.
    pub fn is_empty(&self) -> (e: bool)
        ensures
            e == (self.deep_view().len() == 0),
    {
        self.options.is_empty()
    }
}

/// The Configure-Nak payload: an option list.
#[derive(Clone, Debug, Eq, PartialEq)]
pub struct Ipv6cpConfigureNak {
    pub options: Vec<Ipv6cpOption>,
}

impl DeepView for Ipv6cpConfigureNak {
    type V = Seq<Ipv6cpOptV>;

    open spec fn deep_view(&self) -> Seq<Ipv6cpOptV> {
        self.options.deep_view()
    }
}

impl Serialize for Ipv6cpConfigureNak {
    open spec fn spec_wire(vs: Seq<Ipv6cpOptV>) -> Seq<u8> {
        ipv6cp_options_wire(vs)
    }

    open spec fn wire_ok(vs: Seq<Ipv6cpOptV>) -> bool {
        ipv6cp_options_ok(vs)
    }

    fn serialize(&self, w: &mut Vec<u8>) -> (res: Result<(), Error>) {
        self.options.serialize(w)
    }
}

impl Deserialize for Ipv6cpConfigureNak {
    open spec fn spec_parse(b: Seq<u8>) -> Result<(Seq<Ipv6cpOptV>, int), Error> {
        parse_ipv6cp_options(b)
    }

    fn deserialize(&mut self, r: &mut Reader<'_>) -> (res: Result<(), Error>) {
        self.options.deserialize(r)
    }
}

impl Default for Ipv6cpConfigureNak {
    fn default() -> (d: Self)
        ensures
            d.deep_view() == Seq::<Ipv6cpOptV>::empty(),
    {
        let d = Ipv6cpConfigureNak { options: Vec::new() };
        proof {
            assert(d.deep_view() =~= Seq::<Ipv6cpOptV>::empty());
        }
        d
    }
}

impl Ipv6cpConfigureNak {
    /// The payload length in bytes: the summed length of the options.
    pub fn len(&self) -> (n: u16)
        requires
            ipv6cp_options_ok(self.deep_view()),
            ipv6cp_options_wire(self.deep_view()).len() <= 0xFFFF,
        ensures
            n as int == ipv6cp_options_wire(self.deep_view()).len(),
    {
        ipv6cp_options_len(&self.options)
    }

    /// Whether the option list is empty.
    pub fn is_empty(&self) -> (e: bool)
        ensures
            e == (self.deep_view().len() == 0),
    {
        self.options.is_empty()
    }
}

/// The Configure-Reject payload: an option list.
#[derive(Clone, Debug, Eq, PartialEq)]
pub struct Ipv6cpConfigureReject {
    pub options: Vec<Ipv6cpOption>,
}

impl DeepView for Ipv6cpConfigureReject {
    type V = Seq<Ipv6cpOptV>;

    open spec fn deep_view(&self) -> Seq<Ipv6cpOptV> {
        self.options.deep_view()
    }
}

impl Serialize for Ipv6cpConfigureReject {
    open spec fn spec_wire(vs: Seq<Ipv6cpOptV>) -> Seq<u8> {
        ipv6cp_options_wire(vs)
    }

    open spec fn wire_ok(vs: Seq<Ipv6cpOptV>) -> bool {
        ipv6cp_options_ok(vs)
    }

    fn serialize(&self, w: &mut Vec<u8>) -> (res: Result<(), Error>) {
        self.options.serialize(w)
    }
}

impl Deserialize for Ipv6cpConfigureReject {
    open spec fn spec_parse(b: Seq<u8>) -> Result<(Seq<Ipv6cpOptV>, int), Error> {
        parse_ipv6cp_options(b)
    }

    fn deserialize(&mut self, r: &mut Reader<'_>) -> (res: Result<(), Error>) {
        self.options.deserialize(r)
    }
}

impl Default for Ipv6cpConfigureReject {
    fn default() -> (d: Self)
        ensures
            d.deep_view() == Seq::<Ipv6cpOptV>::empty(),
    {
        let d = Ipv6cpConfigureReject { options: Vec::new() };
        proof {
            assert(d.deep_view() =~= Seq::<Ipv6cpOptV>::empty());
        }
        d
    }
}

impl Ipv6cpConfigureReject {
    /// The payload length in bytes: the summed length of the options.
    pub fn len(&self) -> (n: u16)
        requires
            ipv6cp_options_ok(self.deep_view()),
            ipv6cp_options_wire(self.deep_view()).len() <= 0xFFFF,
        ensures
            n as int == ipv6cp_options_wire(self.deep_view()).len(),
    {
        ipv6cp_options_len(&self.options)
    }

    /// Whether the option list is empty.
    pub fn is_empty(&self) -> (e: bool)
        ensures
            e == (self.deep_view().len() == 0),
    {
        self.options.is_empty()
    }
}

/// The Terminate-Request payload: raw data.
#[derive(Clone, Debug, Eq, PartialEq)]
pub struct Ipv6cpTerminateRequest {
    pub data: Vec<u8>,
}

impl DeepView for Ipv6cpTerminateRequest {
    type V = Seq<u8>;

    open spec fn deep_view(&self) -> Seq<u8> {
        self.data.deep_view()
    }
}

impl Serialize for Ipv6cpTerminateRequest {
    open spec fn spec_wire(v: Seq<u8>) -> Seq<u8> {
        v
    }

    open spec fn wire_ok(v: Seq<u8>) -> bool {
        true
    }

    fn serialize(&self, w: &mut Vec<u8>) -> (res: Result<(), Error>) {
        self.data.serialize(w)
    }
}

impl Deserialize for Ipv6cpTerminateRequest {
    open spec fn spec_parse(b: Seq<u8>) -> Result<(Seq<u8>, int), Error> {
        Ok((b, b.len() as int))
    }

    fn deserialize(&mut self, r: &mut Reader<'_>) -> (res: Result<(), Error>) {
        self.data.deserialize(r)
    }
}

impl Default for Ipv6cpTerminateRequest {
    fn default() -> (d: Self)
        ensures
            d.deep_view() == Seq::<u8>::empty(),
    {
        Ipv6cpTerminateRequest { data: Vec::new() }
    }
}

impl Ipv6cpTerminateRequest {
    /// The payload length in bytes.
    pub fn len(&self) -> (n: u16)
        requires
            self.deep_view().len() <= 0xFFFF,
        ensures
            n as int == self.deep_view().len(),
    {
        self.data.len() as u16
    }

    /// Whether the data is empty.
    pub fn is_empty(&self) -> (e: bool)
        ensures
            e == (self.deep_view().len() == 0),
    {
        self.data.is_empty()
    }
}

/// The Terminate-Ack payload: raw data.
#[derive(Clone, Debug, Eq, PartialEq)]
pub struct Ipv6cpTerminateAck {
    pub data: Vec<u8>,
}

impl DeepView for Ipv6cpTerminateAck {
    type V = Seq<u8>;

    open spec fn deep_view(&self) -> Seq<u8> {
        self.data.deep_view()
    }
}

impl Serialize for Ipv6cpTerminateAck {
    open spec fn spec_wire(v: Seq<u8>) -> Seq<u8> {
        v
    }

    open spec fn wire_ok(v: Seq<u8>) -> bool {
        true
    }

    fn serialize(&self, w: &mut Vec<u8>) -> (res: Result<(), Error>) {
        self.data.serialize(w)
    }
}

impl Deserialize for Ipv6cpTerminateAck {
    open spec fn spec_parse(b: Seq<u8>) -> Result<(Seq<u8>, int), Error> {
        Ok((b, b.len() as int))
    }

    fn deserialize(&mut self, r: &mut Reader<'_>) -> (res: Result<(), Error>) {
        self.data.deserialize(r)
    }
}

impl Default for Ipv6cpTerminateAck {
    fn default() -> (d: Self)
        ensures
            d.deep_view() == Seq::<u8>::empty(),
    {
        Ipv6cpTerminateAck { data: Vec::new() }
    }
}

impl Ipv6cpTerminateAck {
    /// The payload length in bytes.
    pub fn len(&self) -> (n: u16)
        requires
            self.deep_view().len() <= 0xFFFF,
        ensures
            n as int == self.deep_view().len(),
    {
        self.data.len() as u16
    }

    /// Whether the data is empty.
    pub fn is_empty(&self) -> (e: bool)
        ensures
            e == (self.deep_view().len() == 0),
    {
        self.data.is_empty()
    }
}

/// The Code-Reject payload: the rejected packet's bytes.
#[derive(Clone, Debug, Eq, PartialEq)]
pub struct Ipv6cpCodeReject {
    pub pkt: Vec<u8>,
}

impl DeepView for Ipv6cpCodeReject {
    type V = Seq<u8>;

    open spec fn deep_view(&self) -> Seq<u8> {
        self.pkt.deep_view()
    }
}

impl Serialize for Ipv6cpCodeReject {
    open spec fn spec_wire(v: Seq<u8>) -> Seq<u8> {
        v
    }

    open spec fn wire_ok(v: Seq<u8>) -> bool {
        true
    }

    fn serialize(&self, w: &mut Vec<u8>) -> (res: Result<(), Error>) {
        self.pkt.serialize(w)
    }
}

impl Deserialize for Ipv6cpCodeReject {
    open spec fn spec_parse(b: Seq<u8>) -> Result<(Seq<u8>, int), Error> {
        Ok((b, b.len() as int))
    }

    fn deserialize(&mut self, r: &mut Reader<'_>) -> (res: Result<(), Error>) {
        self.pkt.deserialize(r)
    }
}

impl Default for Ipv6cpCodeReject {
    fn default() -> (d: Self)
        ensures
            d.deep_view() == Seq::<u8>::empty(),
    {
        Ipv6cpCodeReject { pkt: Vec::new() }
    }
}

impl Ipv6cpCodeReject {
    /// The payload length in bytes.
    pub fn len(&self) -> (n: u16)
        requires
            self.deep_view().len() <= 0xFFFF,
        ensures
            n as int == self.deep_view().len(),
    {
        self.pkt.len() as u16
    }

    /// Whether the rejected packet is empty.
    pub fn is_empty(&self) -> (e: bool)
        ensures
            e == (self.deep_view().len() == 0),
    {
        self.pkt.is_empty()
    }
}

/// Parsing inverts encoding for IPv6CP payloads read against a window
/// that holds exactly the payload, under the payload's own code.
pub proof fn lemma_parse_ipv6cp_data(v: Ipv6cpDataV)
    requires
        ipv6cp_data_ok(v),
        ipv6cp_data_canonical(v),
    ensures
        parse_ipv6cp_data(ipv6cp_data_code(v), ipv6cp_data_wire(v)) == Ok::<
            (Ipv6cpDataV, int),
            Error,
        >((v, ipv6cp_data_wire(v).len() as int)),
{
    match v {
        Ipv6cpDataV::ConfigureRequest(vs) => lemma_parse_ipv6cp_options(vs),
        Ipv6cpDataV::ConfigureAck(vs) => lemma_parse_ipv6cp_options(vs),
        Ipv6cpDataV::ConfigureNak(vs) => lemma_parse_ipv6cp_options(vs),
        Ipv6cpDataV::ConfigureReject(vs) => lemma_parse_ipv6cp_options(vs),
        _ => {},
    }
}

/// Parsing inverts encoding for whole IPv6CP packets, with any
/// trailing bytes left untouched.
pub proof fn lemma_parse_ipv6cp_pkt(v: (u8, Ipv6cpDataV), rest: Seq<u8>)
    requires
        ipv6cp_pkt_ok(v),
        ipv6cp_data_canonical(v.1),
    ensures
        parse_ipv6cp_pkt(ipv6cp_pkt_wire(v) + rest) == Ok::<((u8, Ipv6cpDataV), int), Error>(
            (v, ipv6cp_pkt_wire(v).len() as int),
        ),
{
    let pl = ipv6cp_data_wire(v.1);
    let total = (4 + pl.len()) as u16;
    let b = ipv6cp_pkt_wire(v) + rest;
    assert(b[0] == ipv6cp_data_code(v.1));
    assert(b[1] == v.0);
    assert(b.skip(2) =~= be_bytes_u16(total) + (pl + rest));
    crate::de::lemma_parse_be_u16(total, pl + rest);
    assert(b[2] as int * 0x100 + b[3] as int == total as int) by {
        assert(parse_u16(b.skip(2)) == Ok::<(u16, int), Error>((total, 2)));
        assert(b.skip(2)[0] == b[2] && b.skip(2)[1] == b[3]);
    }
    assert(b.subrange(4, 4 + pl.len() as int) =~= pl);
    lemma_parse_ipv6cp_data(v.1);
}

/// Parsing inverts encoding for one framed option, with any trailing
/// bytes left untouched.
pub proof fn lemma_parse_ipv6cp_option(v: Ipv6cpOptV, rest: Seq<u8>)
    requires
        ipv6cp_opt_ok(v),
        ipv6cp_opt_canonical(v),
    ensures
        parse_ipv6cp_option(ipv6cp_option_wire(v) + rest) == Ok::<(Ipv6cpOptV, int), Error>(
            (v, ipv6cp_option_wire(v).len() as int),
        ),
{
    let pl = ipv6cp_opt_wire(v);
    let b = ipv6cp_option_wire(v) + rest;
    assert(b[0] == ipv6cp_opt_type(v));
    assert(b[1] as int == 2 + pl.len());
    assert(b.subrange(2, 2 + pl.len() as int) =~= pl);
    match v {
        Ipv6cpOptV::InterfaceId(x) => {
            crate::de::lemma_parse_be_u64(x, Seq::<u8>::empty());
            assert(be_bytes_u64(x) + Seq::<u8>::empty() =~= be_bytes_u64(x));
        },
        Ipv6cpOptV::Unhandled(_, _) => {},
    }
}

/// Parsing inverts encoding for whole option lists read against a
/// window that holds exactly the list.
pub proof fn lemma_parse_ipv6cp_options(vs: Seq<Ipv6cpOptV>)
    requires
        ipv6cp_options_ok(vs),
        ipv6cp_options_canonical(vs),
    ensures
        parse_ipv6cp_options(ipv6cp_options_wire(vs)) == Ok::<(Seq<Ipv6cpOptV>, int), Error>(
            (vs, ipv6cp_options_wire(vs).len() as int),
        ),
    decreases vs.len(),
{
    if vs.len() == 0 {
        assert(vs =~= Seq::<Ipv6cpOptV>::empty());
    } else {
        let w0 = ipv6cp_option_wire(vs[0]);
        let wr = ipv6cp_options_wire(vs.skip(1));
        let b = ipv6cp_options_wire(vs);
        lemma_parse_ipv6cp_option(vs[0], wr);
        assert(b.skip(w0.len() as int) =~= wr);
        assert(ipv6cp_options_ok(vs.skip(1)) && ipv6cp_options_canonical(vs.skip(1))) by {
            assert(forall|i: int|
                0 <= i < vs.skip(1).len() ==> #[trigger] vs.skip(1)[i] == vs[i + 1]);
        }
        lemma_parse_ipv6cp_options(vs.skip(1));
        assert(w0.len() >= 2);
        assert(seq![vs[0]] + vs.skip(1) =~= vs);
    }
}

} // verus!
