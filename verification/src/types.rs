use vstd::prelude::*;

use crate::de::Deserialize;
use crate::de::Reader;
use crate::de::parse_u8;
use crate::error::Error;
use crate::ser::Serialize;

verus! {

/// Version and type of a PPPoE header combined in a single octet: the
/// version in the high nibble, the type in the low one.
#[derive(Clone, Copy, Debug, Eq, PartialEq, Structural)]
pub struct VerType(pub u8);

impl DeepView for VerType {
    type V = u8;

    open spec fn deep_view(&self) -> u8 {
        self.0
    }
}

impl VerType {
    /// The version nibble.
    pub fn ver(&self) -> (v: u8)
        ensures
            v == self.0 / 16,
    {
        self.0 / 16
    }

    /// The type nibble.
    pub fn ty(&self) -> (t: u8)
        ensures
            t == self.0 % 16,
    {
        self.0 % 16
    }

    /// Replace the version nibble, keeping the type nibble; only the
    /// low four bits of `v` count.
    pub fn set_ver(&mut self, v: u8)
        ensures
            final(self).0 == old(self).0 % 16 + (v % 16) * 16,
    {
        self.0 = self.0 % 16 + (v % 16) * 16;
    }

    /// Replace the type nibble, keeping the version nibble; only the
    /// low four bits of `t` count.
    pub fn set_ty(&mut self, t: u8)
        ensures
            final(self).0 == (old(self).0 / 16) * 16 + t % 16,
    {
        self.0 = (self.0 / 16) * 16 + t % 16;
    }
}

impl Default for VerType {
    /// Version one, type one: the only combination PPPoE defines.
    fn default() -> (d: Self)
        ensures
            d.deep_view() == 0x11u8,
    {
        VerType(0x11)
    }
}

impl Serialize for VerType {
    open spec fn spec_wire(v: u8) -> Seq<u8> {
        seq![v]
    }

    open spec fn wire_ok(v: u8) -> bool {
        true
    }

    fn serialize(&self, w: &mut Vec<u8>) -> (res: Result<(), Error>) {
        self.0.serialize(w)
    }
}

impl Deserialize for VerType {
    open spec fn spec_parse(b: Seq<u8>) -> Result<(u8, int), Error> {
        parse_u8(b)
    }

    fn deserialize(&mut self, r: &mut Reader<'_>) -> (res: Result<(), Error>) {
        self.0.deserialize(r)
    }
}

/// An IPv4 address held as its four wire octets, most significant
/// first.
#[derive(Clone, Copy, Debug, Eq, PartialEq)]
pub struct Ipv4Addr(pub [u8; 4]);

impl DeepView for Ipv4Addr {
    type V = Seq<u8>;

    open spec fn deep_view(&self) -> Seq<u8> {
        self.0@
    }
}

/// Four address octets.
pub open spec fn parse_ipv4(b: Seq<u8>) -> Result<(Seq<u8>, int), Error> {
    if b.len() >= 4 {
        Ok((b.subrange(0, 4), 4))
    } else {
        Err(Error::UnexpectedEof)
    }
}

impl Default for Ipv4Addr {
    /// The unspecified address, all octets zero.
    fn default() -> (d: Self)
        ensures
            d.deep_view() =~= seq![0u8, 0u8, 0u8, 0u8],
    {
        Ipv4Addr([0, 0, 0, 0])
    }
}

impl From<[u8; 4]> for Ipv4Addr {
    fn from(octets: [u8; 4]) -> (a: Self) {
        Ipv4Addr(octets)
    }
}

impl vstd::std_specs::convert::FromSpecImpl<[u8; 4]> for Ipv4Addr {
    open spec fn obeys_from_spec() -> bool {
        true
    }

    open spec fn from_spec(octets: [u8; 4]) -> Self {
        Ipv4Addr(octets)
    }
}

impl Serialize for Ipv4Addr {
    open spec fn spec_wire(v: Seq<u8>) -> Seq<u8> {
        v
    }

    open spec fn wire_ok(v: Seq<u8>) -> bool {
        true
    }

    fn serialize(&self, w: &mut Vec<u8>) -> (res: Result<(), Error>) {
        w.push(self.0[0]);
        w.push(self.0[1]);
        w.push(self.0[2]);
        w.push(self.0[3]);
        proof {
            assert(w@ =~= old(w)@ + self.deep_view());
        }
        Ok(())
    }
}

impl Deserialize for Ipv4Addr {
    open spec fn spec_parse(b: Seq<u8>) -> Result<(Seq<u8>, int), Error> {
        parse_ipv4(b)
    }

    fn deserialize(&mut self, r: &mut Reader<'_>) -> (res: Result<(), Error>) {
        let ghost b = r.bytes_left();
        let b0 = r.read_u8()?;
        proof {
            assert(r.bytes_left() =~= b.skip(1));
        }
        let b1 = r.read_u8()?;
        proof {
            assert(r.bytes_left() =~= b.skip(2));
        }
        let b2 = r.read_u8()?;
        proof {
            assert(r.bytes_left() =~= b.skip(3));
        }
        let b3 = r.read_u8()?;
        let a = Ipv4Addr([b0, b1, b2, b3]);
        proof {
            assert(a.deep_view() =~= b.subrange(0, 4));
        }
        *self = a;
        Ok(())
    }
}

/// Parsing inverts encoding for IPv4 addresses.
pub proof fn lemma_parse_ipv4(v: Seq<u8>, rest: Seq<u8>)
    requires
        v.len() == 4,
    ensures
        parse_ipv4(v + rest) == Ok::<(Seq<u8>, int), Error>((v, 4)),
{
    assert((v + rest).subrange(0, 4) =~= v);
}

} // verus!
