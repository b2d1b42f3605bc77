use vstd::prelude::*;
use vstd::string::StrSliceExecFns;
use vstd::utf8::encode_utf8;

use crate::error::Error;

verus! {

/// Big-endian bytes of a 16-bit value.
pub open spec fn be_bytes_u16(x: u16) -> Seq<u8> {
    seq![(x as int / 0x100) as u8, (x as int % 0x100) as u8]
}

/// Big-endian bytes of a 32-bit value: high half before low half.
pub open spec fn be_bytes_u32(x: u32) -> Seq<u8> {
    be_bytes_u16((x as int / 0x10000) as u16) + be_bytes_u16((x as int % 0x10000) as u16)
}

/// Big-endian bytes of a 64-bit value.
pub open spec fn be_bytes_u64(x: u64) -> Seq<u8> {
    be_bytes_u32((x as int / 0x100000000) as u32) + be_bytes_u32((x as int % 0x100000000) as u32)
}

/// Big-endian bytes of a 128-bit value.
pub open spec fn be_bytes_u128(x: u128) -> Seq<u8> {
    be_bytes_u64((x as int / 0x10000000000000000) as u64) + be_bytes_u64(
        (x as int % 0x10000000000000000) as u64,
    )
}

/// The two's-complement reinterpretation of a signed 8-bit value.
pub open spec fn unsigned_of_i8(x: i8) -> u8 {
    if x >= 0 {
        x as u8
    } else {
        (x + 0x100) as u8
    }
}

/// The two's-complement reinterpretation of a signed 16-bit value.
pub open spec fn unsigned_of_i16(x: i16) -> u16 {
    if x >= 0 {
        x as u16
    } else {
        (x + 0x10000) as u16
    }
}

/// The two's-complement reinterpretation of a signed 32-bit value.
pub open spec fn unsigned_of_i32(x: i32) -> u32 {
    if x >= 0 {
        x as u32
    } else {
        (x + 0x100000000) as u32
    }
}

/// The two's-complement reinterpretation of a signed 64-bit value.
pub open spec fn unsigned_of_i64(x: i64) -> u64 {
    if x >= 0 {
        x as u64
    } else {
        (x + 0x10000000000000000) as u64
    }
}

/// The two's-complement reinterpretation of a signed 128-bit value.
pub open spec fn unsigned_of_i128(x: i128) -> u128 {
    if x >= 0 {
        x as u128
    } else {
        (x + 0x100000000000000000000000000000000) as u128
    }
}

/// The wire form of a length-prefixed string: one length octet, then
/// the UTF-8 bytes of the text.
pub open spec fn str_prefixed_wire(s: Seq<char>) -> Seq<u8> {
    seq![encode_utf8(s).len() as u8] + encode_utf8(s)
}

/// Whether a length-prefixed string can be encoded: its UTF-8 byte
/// length must fit the one-octet length field.
pub open spec fn str_prefixed_ok(s: Seq<char>) -> bool {
    encode_utf8(s).len() <= 255
}

/// The wire form of a length-prefixed byte blob: one length octet, then
/// the bytes themselves.
pub open spec fn bytes_prefixed_wire(v: Seq<u8>) -> Seq<u8> {
    seq![v.len() as u8] + v
}

/// Whether a length-prefixed byte blob can be encoded: its length must
/// fit the one-octet length field.
pub open spec fn bytes_prefixed_ok(v: Seq<u8>) -> bool {
    v.len() <= 255
}

/// The wire form of an unprefixed text field: its UTF-8 bytes; the
/// enclosing record's length field is the only framing it has.
pub open spec fn str_raw_wire(s: Seq<char>) -> Seq<u8> {
    encode_utf8(s)
}

/// Encoding to the wire: a successful `serialize` appends exactly
/// `spec_wire` of the value's abstract form, and it succeeds exactly
/// when every length field of the encoding fits its wire width.
pub trait Serialize: DeepView {
    /// The exact byte sequence the encoding of this value consists of.
    spec fn spec_wire(v: Self::V) -> Seq<u8>;

    /// Whether every length field in the encoding fits the wire field
    /// that must carry it; equivalently, whether `serialize` succeeds.
    spec fn wire_ok(v: Self::V) -> bool;

    /// Append the wire encoding of `self` to `w`.
    fn serialize(&self, w: &mut Vec<u8>) -> (res: Result<(), Error>)
        ensures
            res is Ok <==> Self::wire_ok(self.deep_view()),
            res is Ok ==> final(w)@ == old(w)@ + Self::spec_wire(self.deep_view()),
            res is Err ==> res == Err::<(), Error>(Error::TryFromInt),
    ;
}

/// Append every byte of `b` to `w`.
pub fn write_bytes(w: &mut Vec<u8>, b: &[u8])
    ensures
        final(w)@ == old(w)@ + b@,
{
    let n = b.len();
    let mut i: usize = 0;
    while i < n
        invariant
            i <= n,
            n == b@.len(),
            w@ == old(w)@ + b@.take(i as int),
        decreases n - i,
    {
        let x = b[i];
        w.push(x);
        proof {
            assert(old(w)@ + b@.take(i as int) + seq![b@[i as int]] =~= old(w)@ + b@.take(
                i as int + 1,
            ));
        }
        i = i + 1;
    }
    proof {
        assert(b@.take(n as int) =~= b@);
    }
}

/// Append a one-octet length and then the bytes of `b` to `w`; fail
/// when the length does not fit the octet.
pub fn write_prefixed_bytes(w: &mut Vec<u8>, b: &Vec<u8>) -> (res: Result<(), Error>)
    ensures
        res is Ok <==> bytes_prefixed_ok(b@),
        res is Ok ==> final(w)@ == old(w)@ + bytes_prefixed_wire(b@),
        res is Err ==> res == Err::<(), Error>(Error::TryFromInt),
{
    if b.len() > 255 {
        return Err(Error::TryFromInt);
    }
    w.push(b.len() as u8);
    write_bytes(w, b.as_slice());
    proof {
        assert(w@ =~= old(w)@ + bytes_prefixed_wire(b@));
    }
    Ok(())
}

/// Append the UTF-8 bytes of `s` to `w`, with no length prefix.
pub fn write_raw_str(w: &mut Vec<u8>, s: &String)
    ensures
        final(w)@ == old(w)@ + str_raw_wire(s@),
{
    let bytes = s.as_str().as_bytes_vec();
    write_bytes(w, bytes.as_slice());
}

impl Serialize for u8 {
    open spec fn spec_wire(v: u8) -> Seq<u8> {
        seq![v]
    }

    open spec fn wire_ok(v: u8) -> bool {
        true
    }

    fn serialize(&self, w: &mut Vec<u8>) -> (res: Result<(), Error>) {
        w.push(*self);
        proof {
            assert(w@ =~= old(w)@ + seq![*self]);
        }
        Ok(())
    }
}

impl Serialize for u16 {
    open spec fn spec_wire(v: u16) -> Seq<u8> {
        be_bytes_u16(v)
    }

    open spec fn wire_ok(v: u16) -> bool {
        true
    }

    fn serialize(&self, w: &mut Vec<u8>) -> (res: Result<(), Error>) {
        let x = *self;
        w.push((x / 0x100) as u8);
        w.push((x % 0x100) as u8);
        proof {
            assert(w@ =~= old(w)@ + be_bytes_u16(x));
        }
        Ok(())
    }
}

impl Serialize for u32 {
    open spec fn spec_wire(v: u32) -> Seq<u8> {
        be_bytes_u32(v)
    }

    open spec fn wire_ok(v: u32) -> bool {
        true
    }

    fn serialize(&self, w: &mut Vec<u8>) -> (res: Result<(), Error>) {
        let hi = (*self / 0x10000) as u16;
        let lo = (*self % 0x10000) as u16;
        hi.serialize(w)?;
        lo.serialize(w)?;
        proof {
            assert(w@ =~= old(w)@ + be_bytes_u32(*self));
        }
        Ok(())
    }
}

impl Serialize for u64 {
    open spec fn spec_wire(v: u64) -> Seq<u8> {
        be_bytes_u64(v)
    }

    open spec fn wire_ok(v: u64) -> bool {
        true
    }

    fn serialize(&self, w: &mut Vec<u8>) -> (res: Result<(), Error>) {
        let hi = (*self / 0x100000000) as u32;
        let lo = (*self % 0x100000000) as u32;
        hi.serialize(w)?;
        lo.serialize(w)?;
        proof {
            assert(w@ =~= old(w)@ + be_bytes_u64(*self));
        }
        Ok(())
    }
}

impl Serialize for u128 {
    open spec fn spec_wire(v: u128) -> Seq<u8> {
        be_bytes_u128(v)
    }

    open spec fn wire_ok(v: u128) -> bool {
        true
    }

    fn serialize(&self, w: &mut Vec<u8>) -> (res: Result<(), Error>) {
        let hi = (*self / 0x10000000000000000) as u64;
        let lo = (*self % 0x10000000000000000) as u64;
        hi.serialize(w)?;
        lo.serialize(w)?;
        proof {
            assert(w@ =~= old(w)@ + be_bytes_u128(*self));
        }
        Ok(())
    }
}

impl Serialize for i8 {
    open spec fn spec_wire(v: i8) -> Seq<u8> {
        seq![unsigned_of_i8(v)]
    }

    open spec fn wire_ok(v: i8) -> bool {
        true
    }

    fn serialize(&self, w: &mut Vec<u8>) -> (res: Result<(), Error>) {
        let u: u8 = if *self >= 0 {
            *self as u8
        } else {
            0xFF - ((-(*self + 1)) as u8)
        };
        u.serialize(w)
    }
}

impl Serialize for i16 {
    open spec fn spec_wire(v: i16) -> Seq<u8> {
        be_bytes_u16(unsigned_of_i16(v))
    }

    open spec fn wire_ok(v: i16) -> bool {
        true
    }

    fn serialize(&self, w: &mut Vec<u8>) -> (res: Result<(), Error>) {
        let u: u16 = if *self >= 0 {
            *self as u16
        } else {
            0xFFFF - ((-(*self + 1)) as u16)
        };
        u.serialize(w)
    }
}

impl Serialize for i32 {
    open spec fn spec_wire(v: i32) -> Seq<u8> {
        be_bytes_u32(unsigned_of_i32(v))
    }

    open spec fn wire_ok(v: i32) -> bool {
        true
    }

    fn serialize(&self, w: &mut Vec<u8>) -> (res: Result<(), Error>) {
        let u: u32 = if *self >= 0 {
            *self as u32
        } else {
            0xFFFFFFFF - ((-(*self + 1)) as u32)
        };
        u.serialize(w)
    }
}

impl Serialize for i64 {
    open spec fn spec_wire(v: i64) -> Seq<u8> {
        be_bytes_u64(unsigned_of_i64(v))
    }

    open spec fn wire_ok(v: i64) -> bool {
        true
    }

    fn serialize(&self, w: &mut Vec<u8>) -> (res: Result<(), Error>) {
        let u: u64 = if *self >= 0 {
            *self as u64
        } else {
            0xFFFFFFFFFFFFFFFF - ((-(*self + 1)) as u64)
        };
        u.serialize(w)
    }
}

impl Serialize for i128 {
    open spec fn spec_wire(v: i128) -> Seq<u8> {
        be_bytes_u128(unsigned_of_i128(v))
    }

    open spec fn wire_ok(v: i128) -> bool {
        true
    }

    fn serialize(&self, w: &mut Vec<u8>) -> (res: Result<(), Error>) {
        let u: u128 = if *self >= 0 {
            *self as u128
        } else {
            0xFFFFFFFFFFFFFFFFFFFFFFFFFFFFFFFF - ((-(*self + 1)) as u128)
        };
        u.serialize(w)
    }
}

impl Serialize for Vec<u8> {
    open spec fn spec_wire(v: Seq<u8>) -> Seq<u8> {
        v
    }

    open spec fn wire_ok(v: Seq<u8>) -> bool {
        true
    }

    fn serialize(&self, w: &mut Vec<u8>) -> (res: Result<(), Error>) {
        write_bytes(w, self.as_slice());
        proof {
            assert(self.deep_view() =~= self@);
        }
        Ok(())
    }
}

impl Serialize for String {
    /// A length-prefixed string: one length octet, then the UTF-8 bytes.
    open spec fn spec_wire(v: Seq<char>) -> Seq<u8> {
        str_prefixed_wire(v)
    }

    open spec fn wire_ok(v: Seq<char>) -> bool {
        str_prefixed_ok(v)
    }

    fn serialize(&self, w: &mut Vec<u8>) -> (res: Result<(), Error>) {
        let bytes = self.as_str().as_bytes_vec();
        if bytes.len() > 255 {
            return Err(Error::TryFromInt);
        }
        w.push(bytes.len() as u8);
        write_bytes(w, bytes.as_slice());
        proof {
            assert(w@ =~= old(w)@ + Self::spec_wire(self.deep_view()));
        }
        Ok(())
    }
}

} // verus!
