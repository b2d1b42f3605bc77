use vstd::prelude::*;
use vstd::utf8::decode_utf8;
use vstd::utf8::valid_utf8;

use crate::error::Error;

verus! {

/// A byte source bounded to a window of an in-memory buffer.
///
/// Decoding a length-prefixed payload narrows the window to the claimed
/// byte count, so a malformed length can never make a nested decoder
/// consume bytes that belong to a sibling structure.
pub struct Reader<'a> {
    buf: &'a [u8],
    pos: usize,
    end: usize,
}

impl<'a> Reader<'a> {
    /// The whole underlying buffer.
    pub closed spec fn all_bytes(&self) -> Seq<u8> {
        self.buf@
    }

    /// The read position.
    pub closed spec fn start(&self) -> int {
        self.pos as int
    }

    /// The bound of the window: reads never go past it.
    pub closed spec fn stop(&self) -> int {
        self.end as int
    }

    /// The window lies within the buffer.
    pub open spec fn wf(&self) -> bool {
        0 <= self.start() <= self.stop() <= self.all_bytes().len()
    }

    /// The bytes that remain readable.
    pub open spec fn bytes_left(&self) -> Seq<u8> {
        self.all_bytes().subrange(self.start(), self.stop())
    }

    /// A reader over the whole of `buf`.
    pub fn new(buf: &'a [u8]) -> (r: Reader<'a>)
        ensures
            r.wf(),
            r.all_bytes() == buf@,
            r.start() == 0,
            r.stop() == buf@.len(),
    {
        let end = buf.len();
        Reader { buf, pos: 0, end }
    }

    /// Whether any byte remains readable.
    pub fn has_left(&self) -> (b: bool)
        requires
            self.wf(),
        ensures
            b == (self.bytes_left().len() > 0),
    {
        self.pos < self.end
    }

    /// How many bytes remain readable.
    pub fn left(&self) -> (n: usize)
        requires
            self.wf(),
        ensures
            n == self.bytes_left().len(),
    {
        self.end - self.pos
    }

    /// Read one byte.
    pub fn read_u8(&mut self) -> (res: Result<u8, Error>)
        requires
            old(self).wf(),
        ensures
            final(self).wf(),
            final(self).all_bytes() == old(self).all_bytes(),
            final(self).stop() == old(self).stop(),
            old(self).bytes_left().len() >= 1 ==> res == Ok::<u8, Error>(
                old(self).bytes_left()[0],
            ) && final(self).start() == old(self).start() + 1,
            old(self).bytes_left().len() == 0 ==> res == Err::<u8, Error>(Error::UnexpectedEof)
                && *final(self) == *old(self),
    {
        if self.pos < self.end {
            let b = self.buf[self.pos];
            self.pos = self.pos + 1;
            Ok(b)
        } else {
            Err(Error::UnexpectedEof)
        }
    }

    /// Read at most `n` bytes: fewer when the window holds fewer.
    pub fn read_up_to(&mut self, n: usize) -> (v: Vec<u8>)
        requires
            old(self).wf(),
        ensures
            final(self).wf(),
            final(self).all_bytes() == old(self).all_bytes(),
            final(self).stop() == old(self).stop(),
            v@ == old(self).bytes_left().take(
                if n as int <= old(self).bytes_left().len() {
                    n as int
                } else {
                    old(self).bytes_left().len() as int
                },
            ),
            final(self).start() == old(self).start() + v@.len(),
    {
        let k = if n <= self.end - self.pos {
            n
        } else {
            self.end - self.pos
        };
        let mut v: Vec<u8> = Vec::new();
        let mut i: usize = 0;
        while i < k
            invariant
                i <= k,
                old(self).wf(),
                *self == *old(self),
                k as int <= old(self).bytes_left().len(),
                v@ == old(self).all_bytes().subrange(
                    old(self).start(),
                    old(self).start() + i as int,
                ),
            decreases k - i,
        {
            let b = self.buf[self.pos + i];
            v.push(b);
            proof {
                assert(old(self).all_bytes().subrange(old(self).start(), old(self).start()
                    + i as int).push(old(self).all_bytes()[old(self).start() + i as int])
                    =~= old(self).all_bytes().subrange(
                    old(self).start(),
                    old(self).start() + i as int + 1,
                ));
            }
            i = i + 1;
        }
        self.pos = self.pos + k;
        proof {
            assert(v@ =~= old(self).bytes_left().take(k as int));
        }
        v
    }

    /// Read every byte that remains in the window.
    pub fn read_rest(&mut self) -> (v: Vec<u8>)
        requires
            old(self).wf(),
        ensures
            final(self).wf(),
            final(self).all_bytes() == old(self).all_bytes(),
            final(self).stop() == old(self).stop(),
            v@ == old(self).bytes_left(),
            final(self).start() == old(self).stop(),
    {
        let k = self.end - self.pos;
        let v = self.read_up_to(k);
        proof {
            assert(old(self).bytes_left().take(k as int) =~= old(self).bytes_left());
        }
        v
    }

    /// A sub-reader over the next `n` bytes, or over all that remain
    /// when fewer than `n` do.
    pub fn begin_bounded(&self, n: usize) -> (s: Reader<'a>)
        requires
            self.wf(),
        ensures
            s.wf(),
            s.all_bytes() == self.all_bytes(),
            s.start() == self.start(),
            s.stop() <= self.stop(),
            s.bytes_left() == self.bytes_left().take(
                if n as int <= self.bytes_left().len() {
                    n as int
                } else {
                    self.bytes_left().len() as int
                },
            ),
    {
        let e = if n <= self.end - self.pos {
            self.pos + n
        } else {
            self.end
        };
        let s = Reader { buf: self.buf, pos: self.pos, end: e };
        proof {
            assert(s.bytes_left() =~= self.bytes_left().take(
                if n as int <= self.bytes_left().len() {
                    n as int
                } else {
                    self.bytes_left().len() as int
                },
            ));
        }
        s
    }

    /// Continue this reader from where a sub-reader stopped.
    pub fn resume_from(&mut self, s: &Reader<'a>)
        requires
            old(self).wf(),
            s.wf(),
            s.all_bytes() == old(self).all_bytes(),
            old(self).start() <= s.start(),
            s.start() <= old(self).stop(),
        ensures
            final(self).wf(),
            final(self).all_bytes() == old(self).all_bytes(),
            final(self).stop() == old(self).stop(),
            final(self).start() == s.start(),
    {
        self.pos = s.pos;
    }
}

/// Decoding from the wire: `deserialize` behaves exactly as the pure
/// parser `spec_parse` prescribes, consuming the bytes the parser
/// consumes or failing with the error the parser names.
pub trait Deserialize: DeepView + Sized {
    /// What decoding finds at the head of `b`: the abstract value and
    /// the count of bytes consumed, or the error.
    spec fn spec_parse(b: Seq<u8>) -> Result<(Self::V, int), Error>;

    /// Overwrite `self` with the value decoded from `r`.
    fn deserialize(&mut self, r: &mut Reader<'_>) -> (res: Result<(), Error>)
        requires
            old(r).wf(),
        ensures
            final(r).wf(),
            final(r).all_bytes() == old(r).all_bytes(),
            final(r).stop() == old(r).stop(),
            old(r).start() <= final(r).start(),
            match Self::spec_parse(old(r).bytes_left()) {
                Ok((v, n)) => res is Ok && final(self).deep_view() == v && final(r).start() == old(
                    r,
                ).start() + n,
                Err(e) => res == Err::<(), Error>(e),
            },
    ;
}

/// The deep view of a byte vector is its plain view: element views are
/// the elements themselves.
pub broadcast proof fn lemma_deep_view_u8(v: Vec<u8>)
    ensures
        #[trigger] v.deep_view() == v@,
{
    assert(v.deep_view() =~= v@);
}

/// The smaller of two mathematical integers.
pub open spec fn min_int(a: int, b: int) -> int {
    if a <= b {
        a
    } else {
        b
    }
}

/// One byte.
pub open spec fn parse_u8(b: Seq<u8>) -> Result<(u8, int), Error> {
    if b.len() >= 1 {
        Ok((b[0], 1))
    } else {
        Err(Error::UnexpectedEof)
    }
}

/// Two bytes, big endian.
pub open spec fn parse_u16(b: Seq<u8>) -> Result<(u16, int), Error> {
    if b.len() >= 2 {
        Ok(((b[0] as int * 0x100 + b[1] as int) as u16, 2))
    } else {
        Err(Error::UnexpectedEof)
    }
}

/// Four bytes, big endian: high half before low half.
pub open spec fn parse_u32(b: Seq<u8>) -> Result<(u32, int), Error> {
    match parse_u16(b) {
        Ok((hi, _)) => match parse_u16(b.skip(2)) {
            Ok((lo, _)) => Ok(((hi as int * 0x10000 + lo as int) as u32, 4)),
            Err(e) => Err(e),
        },
        Err(e) => Err(e),
    }
}

/// Eight bytes, big endian.
pub open spec fn parse_u64(b: Seq<u8>) -> Result<(u64, int), Error> {
    match parse_u32(b) {
        Ok((hi, _)) => match parse_u32(b.skip(4)) {
            Ok((lo, _)) => Ok(((hi as int * 0x100000000 + lo as int) as u64, 8)),
            Err(e) => Err(e),
        },
        Err(e) => Err(e),
    }
}

/// Sixteen bytes, big endian.
pub open spec fn parse_u128(b: Seq<u8>) -> Result<(u128, int), Error> {
    match parse_u64(b) {
        Ok((hi, _)) => match parse_u64(b.skip(8)) {
            Ok((lo, _)) => Ok(((hi as int * 0x10000000000000000 + lo as int) as u128, 16)),
            Err(e) => Err(e),
        },
        Err(e) => Err(e),
    }
}

impl Deserialize for u8 {
    open spec fn spec_parse(b: Seq<u8>) -> Result<(u8, int), Error> {
        parse_u8(b)
    }

    fn deserialize(&mut self, r: &mut Reader<'_>) -> (res: Result<(), Error>) {
        let b = r.read_u8()?;
        *self = b;
        Ok(())
    }
}

impl Deserialize for u16 {
    open spec fn spec_parse(b: Seq<u8>) -> Result<(u16, int), Error> {
        parse_u16(b)
    }

    fn deserialize(&mut self, r: &mut Reader<'_>) -> (res: Result<(), Error>) {
        let ghost b = r.bytes_left();
        let b0 = r.read_u8()?;
        proof {
            assert(r.bytes_left() =~= b.skip(1));
        }
        let b1 = r.read_u8()?;
        *self = (b0 as u16) * 0x100 + (b1 as u16);
        Ok(())
    }
}

impl Deserialize for u32 {
    open spec fn spec_parse(b: Seq<u8>) -> Result<(u32, int), Error> {
        parse_u32(b)
    }

    fn deserialize(&mut self, r: &mut Reader<'_>) -> (res: Result<(), Error>) {
        let ghost b = r.bytes_left();
        let mut hi: u16 = 0;
        let mut lo: u16 = 0;
        hi.deserialize(r)?;
        proof {
            assert(r.bytes_left() =~= b.skip(2));
        }
        lo.deserialize(r)?;
        *self = (hi as u32) * 0x10000 + (lo as u32);
        Ok(())
    }
}

impl Deserialize for u64 {
    open spec fn spec_parse(b: Seq<u8>) -> Result<(u64, int), Error> {
        parse_u64(b)
    }

    fn deserialize(&mut self, r: &mut Reader<'_>) -> (res: Result<(), Error>) {
        let ghost b = r.bytes_left();
        let mut hi: u32 = 0;
        let mut lo: u32 = 0;
        hi.deserialize(r)?;
        proof {
            assert(r.bytes_left() =~= b.skip(4));
        }
        lo.deserialize(r)?;
        *self = (hi as u64) * 0x100000000 + (lo as u64);
        Ok(())
    }
}

impl Deserialize for u128 {
    open spec fn spec_parse(b: Seq<u8>) -> Result<(u128, int), Error> {
        parse_u128(b)
    }

    fn deserialize(&mut self, r: &mut Reader<'_>) -> (res: Result<(), Error>) {
        let ghost b = r.bytes_left();
        let mut hi: u64 = 0;
        let mut lo: u64 = 0;
        hi.deserialize(r)?;
        proof {
            assert(r.bytes_left() =~= b.skip(8));
        }
        lo.deserialize(r)?;
        *self = (hi as u128) * 0x10000000000000000 + (lo as u128);
        Ok(())
    }
}

/// The signed value carried by a two's-complement octet.
pub open spec fn signed_of_u8(u: u8) -> i8 {
    if u < 0x80 {
        u as i8
    } else {
        (u - 0x100) as i8
    }
}

/// The signed value carried by two two's-complement octets.
pub open spec fn signed_of_u16(u: u16) -> i16 {
    if u < 0x8000 {
        u as i16
    } else {
        (u - 0x10000) as i16
    }
}

/// The signed value carried by four two's-complement octets.
pub open spec fn signed_of_u32(u: u32) -> i32 {
    if u < 0x80000000 {
        u as i32
    } else {
        (u - 0x100000000) as i32
    }
}

/// The signed value carried by eight two's-complement octets.
pub open spec fn signed_of_u64(u: u64) -> i64 {
    if u < 0x8000000000000000 {
        u as i64
    } else {
        (u - 0x10000000000000000) as i64
    }
}

/// The signed value carried by sixteen two's-complement octets.
pub open spec fn signed_of_u128(u: u128) -> i128 {
    if u < 0x80000000000000000000000000000000 {
        u as i128
    } else {
        (u - 0x100000000000000000000000000000000) as i128
    }
}

impl Deserialize for i8 {
    open spec fn spec_parse(b: Seq<u8>) -> Result<(i8, int), Error> {
        match parse_u8(b) {
            Ok((u, n)) => Ok((signed_of_u8(u), n)),
            Err(e) => Err(e),
        }
    }

    fn deserialize(&mut self, r: &mut Reader<'_>) -> (res: Result<(), Error>) {
        let mut u: u8 = 0;
        u.deserialize(r)?;
        *self = if u < 0x80 {
            u as i8
        } else {
            -((0xFF - u) as i8) - 1
        };
        Ok(())
    }
}

impl Deserialize for i16 {
    open spec fn spec_parse(b: Seq<u8>) -> Result<(i16, int), Error> {
        match parse_u16(b) {
            Ok((u, n)) => Ok((signed_of_u16(u), n)),
            Err(e) => Err(e),
        }
    }

    fn deserialize(&mut self, r: &mut Reader<'_>) -> (res: Result<(), Error>) {
        let mut u: u16 = 0;
        u.deserialize(r)?;
        *self = if u < 0x8000 {
            u as i16
        } else {
            -((0xFFFF - u) as i16) - 1
        };
        Ok(())
    }
}

impl Deserialize for i32 {
    open spec fn spec_parse(b: Seq<u8>) -> Result<(i32, int), Error> {
        match parse_u32(b) {
            Ok((u, n)) => Ok((signed_of_u32(u), n)),
            Err(e) => Err(e),
        }
    }

    fn deserialize(&mut self, r: &mut Reader<'_>) -> (res: Result<(), Error>) {
        let mut u: u32 = 0;
        u.deserialize(r)?;
        *self = if u < 0x80000000 {
            u as i32
        } else {
            -((0xFFFFFFFF - u) as i32) - 1
        };
        Ok(())
    }
}

impl Deserialize for i64 {
    open spec fn spec_parse(b: Seq<u8>) -> Result<(i64, int), Error> {
        match parse_u64(b) {
            Ok((u, n)) => Ok((signed_of_u64(u), n)),
            Err(e) => Err(e),
        }
    }

    fn deserialize(&mut self, r: &mut Reader<'_>) -> (res: Result<(), Error>) {
        let mut u: u64 = 0;
        u.deserialize(r)?;
        *self = if u < 0x8000000000000000 {
            u as i64
        } else {
            -((0xFFFFFFFFFFFFFFFF - u) as i64) - 1
        };
        Ok(())
    }
}

impl Deserialize for i128 {
    open spec fn spec_parse(b: Seq<u8>) -> Result<(i128, int), Error> {
        match parse_u128(b) {
            Ok((u, n)) => Ok((signed_of_u128(u), n)),
            Err(e) => Err(e),
        }
    }

    fn deserialize(&mut self, r: &mut Reader<'_>) -> (res: Result<(), Error>) {
        let mut u: u128 = 0;
        u.deserialize(r)?;
        *self = if u < 0x80000000000000000000000000000000 {
            u as i128
        } else {
            -((0xFFFFFFFFFFFFFFFFFFFFFFFFFFFFFFFF - u) as i128) - 1
        };
        Ok(())
    }
}

impl Deserialize for Vec<u8> {
    /// A raw byte payload: everything that remains in the window.
    open spec fn spec_parse(b: Seq<u8>) -> Result<(Seq<u8>, int), Error> {
        Ok((b, b.len() as int))
    }

    fn deserialize(&mut self, r: &mut Reader<'_>) -> (res: Result<(), Error>) {
        let v = r.read_rest();
        proof {
            assert(v.deep_view() =~= v@);
        }
        *self = v;
        Ok(())
    }
}

/// A length-prefixed byte blob: one length octet, then that many bytes
/// (fewer when the window ends sooner).
pub open spec fn parse_prefixed_bytes(b: Seq<u8>) -> Result<(Seq<u8>, int), Error> {
    match parse_u8(b) {
        Ok((n, _)) => {
            let m = min_int(n as int, b.len() - 1);
            Ok((b.subrange(1, 1 + m), 1 + m))
        },
        Err(e) => Err(e),
    }
}

/// An unprefixed text field: every byte left in the window, as UTF-8.
pub open spec fn parse_raw_str(b: Seq<u8>) -> Result<(Seq<char>, int), Error> {
    if valid_utf8(b) {
        Ok((decode_utf8(b), b.len() as int))
    } else {
        Err(Error::FromUtf8)
    }
}

/// Relies on `String::from_utf8`: it succeeds exactly on valid UTF-8
/// input, and the string it yields decodes those bytes.
#[verifier::external_body]
pub(crate) fn string_from_utf8(v: Vec<u8>) -> (res: Option<String>)
    ensures
        res is Some <==> valid_utf8(v@),
        res matches Some(s) ==> s@ == decode_utf8(v@),
{
    String::from_utf8(v).ok()
}

/// A length-prefixed string: one length octet, then that many bytes of
/// UTF-8 (fewer when the window ends sooner).
pub open spec fn parse_prefixed_str(b: Seq<u8>) -> Result<(Seq<char>, int), Error> {
    match parse_u8(b) {
        Ok((n, _)) => {
            let m = min_int(n as int, b.len() - 1);
            let bytes = b.subrange(1, 1 + m);
            if valid_utf8(bytes) {
                Ok((decode_utf8(bytes), 1 + m))
            } else {
                Err(Error::FromUtf8)
            }
        },
        Err(e) => Err(e),
    }
}

impl Deserialize for String {
    /// A length-prefixed string.
    open spec fn spec_parse(b: Seq<u8>) -> Result<(Seq<char>, int), Error> {
        parse_prefixed_str(b)
    }

    fn deserialize(&mut self, r: &mut Reader<'_>) -> (res: Result<(), Error>) {
        let ghost b = r.bytes_left();
        let n = r.read_u8()?;
        let bytes = r.read_up_to(n as usize);
        proof {
            assert(bytes@ =~= b.subrange(
                1,
                1 + if n as int <= b.len() - 1 {
                    n as int
                } else {
                    b.len() - 1
                },
            ));
        }
        match string_from_utf8(bytes) {
            Some(s) => {
                *self = s;
                Ok(())
            },
            None => Err(Error::FromUtf8),
        }
    }
}

/// Read a one-octet length and then up to that many bytes.
pub fn read_prefixed_bytes(r: &mut Reader<'_>) -> (res: Result<Vec<u8>, Error>)
    requires
        old(r).wf(),
    ensures
        final(r).wf(),
        final(r).all_bytes() == old(r).all_bytes(),
        final(r).stop() == old(r).stop(),
        old(r).start() <= final(r).start(),
        match parse_prefixed_bytes(old(r).bytes_left()) {
            Ok((v, n)) => (res matches Ok(b) && b@ == v && final(r).start() == old(r).start() + n),
            Err(e) => res == Err::<Vec<u8>, Error>(e),
        },
{
    let ghost b = r.bytes_left();
    let n = r.read_u8()?;
    let v = r.read_up_to(n as usize);
    proof {
        assert(v@ =~= b.subrange(1, 1 + min_int(n as int, b.len() - 1)));
    }
    Ok(v)
}

/// Read every byte left in the window as one UTF-8 text field.
pub fn read_raw_str(r: &mut Reader<'_>) -> (res: Result<String, Error>)
    requires
        old(r).wf(),
    ensures
        final(r).wf(),
        final(r).all_bytes() == old(r).all_bytes(),
        final(r).stop() == old(r).stop(),
        old(r).start() <= final(r).start(),
        match parse_raw_str(old(r).bytes_left()) {
            Ok((v, n)) => (res matches Ok(s) && s@ == v && final(r).start() == old(r).start() + n),
            Err(e) => res == Err::<String, Error>(e),
        },
{
    let v = r.read_rest();
    match string_from_utf8(v) {
        Some(s) => Ok(s),
        None => Err(Error::FromUtf8),
    }
}

/// A successful 16-bit parse consumes two bytes, so the source held at
/// least two.
pub proof fn lemma_parse_u16_bounds(b: Seq<u8>)
    ensures
        parse_u16(b) matches Ok(p) ==> p.1 == 2 && b.len() >= 2,
{
}

/// A successful 32-bit parse consumes four bytes.
pub proof fn lemma_parse_u32_bounds(b: Seq<u8>)
    ensures
        parse_u32(b) matches Ok(p) ==> p.1 == 4 && b.len() >= 4,
{
    lemma_parse_u16_bounds(b);
    lemma_parse_u16_bounds(b.skip(2));
}

/// A successful 64-bit parse consumes eight bytes.
pub proof fn lemma_parse_u64_bounds(b: Seq<u8>)
    ensures
        parse_u64(b) matches Ok(p) ==> p.1 == 8 && b.len() >= 8,
{
    lemma_parse_u32_bounds(b);
    lemma_parse_u32_bounds(b.skip(4));
}

/// A successful 128-bit parse consumes sixteen bytes.
pub proof fn lemma_parse_u128_bounds(b: Seq<u8>)
    ensures
        parse_u128(b) matches Ok(p) ==> p.1 == 16 && b.len() >= 16,
{
    lemma_parse_u64_bounds(b);
    lemma_parse_u64_bounds(b.skip(8));
}

/// Parsing inverts encoding for length-prefixed byte blobs that fit
/// their length octet.
pub proof fn lemma_parse_prefixed_bytes(v: Seq<u8>, rest: Seq<u8>)
    requires
        crate::ser::bytes_prefixed_ok(v),
    ensures
        parse_prefixed_bytes(crate::ser::bytes_prefixed_wire(v) + rest) == Ok::<
            (Seq<u8>, int),
            Error,
        >((v, v.len() as int + 1)),
{
    let b = crate::ser::bytes_prefixed_wire(v) + rest;
    assert(b[0] == v.len() as u8);
    assert(b.subrange(1, 1 + v.len() as int) =~= v);
}

/// Parsing inverts encoding for unprefixed text fields read against a
/// window that holds exactly the field.
pub proof fn lemma_parse_raw_str(s: Seq<char>)
    ensures
        parse_raw_str(crate::ser::str_raw_wire(s)) == Ok::<(Seq<char>, int), Error>(
            (s, crate::ser::str_raw_wire(s).len() as int),
        ),
{
    vstd::utf8::encode_utf8_valid_utf8(s);
    vstd::utf8::encode_utf8_decode_utf8(s);
}

/// Parsing inverts encoding for 16-bit values: on a source that starts
/// with the big-endian bytes of `x`, the parser finds `x` and consumes
/// both bytes.
pub proof fn lemma_parse_be_u16(x: u16, rest: Seq<u8>)
    ensures
        parse_u16(crate::ser::be_bytes_u16(x) + rest) == Ok::<(u16, int), Error>((x, 2)),
{
    let b = crate::ser::be_bytes_u16(x) + rest;
    assert(0 <= x as int / 0x100 < 0x100 && 0 <= x as int % 0x100 < 0x100) by (nonlinear_arith)
        requires
            0 <= x < 0x10000,
    ;
    assert(b[0] as int == x as int / 0x100);
    assert(b[1] as int == x as int % 0x100);
    vstd::arithmetic::div_mod::lemma_fundamental_div_mod(x as int, 0x100);
}

/// Parsing inverts encoding for 32-bit values.
pub proof fn lemma_parse_be_u32(x: u32, rest: Seq<u8>)
    ensures
        parse_u32(crate::ser::be_bytes_u32(x) + rest) == Ok::<(u32, int), Error>((x, 4)),
{
    let hi = (x as int / 0x10000) as u16;
    let lo = (x as int % 0x10000) as u16;
    assert(0 <= x as int / 0x10000 < 0x10000 && 0 <= x as int % 0x10000 < 0x10000)
        by (nonlinear_arith)
        requires
            0 <= x < 0x100000000,
    ;
    let b = crate::ser::be_bytes_u32(x) + rest;
    assert(b =~= crate::ser::be_bytes_u16(hi) + (crate::ser::be_bytes_u16(lo) + rest));
    lemma_parse_be_u16(hi, crate::ser::be_bytes_u16(lo) + rest);
    assert(b.skip(2) =~= crate::ser::be_bytes_u16(lo) + rest);
    lemma_parse_be_u16(lo, rest);
    vstd::arithmetic::div_mod::lemma_fundamental_div_mod(x as int, 0x10000);
}

/// Parsing inverts encoding for 64-bit values.
pub proof fn lemma_parse_be_u64(x: u64, rest: Seq<u8>)
    ensures
        parse_u64(crate::ser::be_bytes_u64(x) + rest) == Ok::<(u64, int), Error>((x, 8)),
{
    let hi = (x as int / 0x100000000) as u32;
    let lo = (x as int % 0x100000000) as u32;
    assert(0 <= x as int / 0x100000000 < 0x100000000 && 0 <= x as int % 0x100000000 < 0x100000000)
        by (nonlinear_arith)
        requires
            0 <= x < 0x10000000000000000,
    ;
    let b = crate::ser::be_bytes_u64(x) + rest;
    assert(b =~= crate::ser::be_bytes_u32(hi) + (crate::ser::be_bytes_u32(lo) + rest));
    lemma_parse_be_u32(hi, crate::ser::be_bytes_u32(lo) + rest);
    assert(b.skip(4) =~= crate::ser::be_bytes_u32(lo) + rest);
    lemma_parse_be_u32(lo, rest);
    vstd::arithmetic::div_mod::lemma_fundamental_div_mod(x as int, 0x100000000);
}

/// Parsing inverts encoding for 128-bit values.
pub proof fn lemma_parse_be_u128(x: u128, rest: Seq<u8>)
    ensures
        parse_u128(crate::ser::be_bytes_u128(x) + rest) == Ok::<(u128, int), Error>((x, 16)),
{
    let hi = (x as int / 0x10000000000000000) as u64;
    let lo = (x as int % 0x10000000000000000) as u64;
    assert(0 <= x as int / 0x10000000000000000 < 0x10000000000000000 && 0 <= x as int
        % 0x10000000000000000 < 0x10000000000000000) by (nonlinear_arith)
        requires
            0 <= x < 0x100000000000000000000000000000000,
    ;
    let b = crate::ser::be_bytes_u128(x) + rest;
    assert(b =~= crate::ser::be_bytes_u64(hi) + (crate::ser::be_bytes_u64(lo) + rest));
    lemma_parse_be_u64(hi, crate::ser::be_bytes_u64(lo) + rest);
    assert(b.skip(8) =~= crate::ser::be_bytes_u64(lo) + rest);
    lemma_parse_be_u64(lo, rest);
    vstd::arithmetic::div_mod::lemma_fundamental_div_mod(x as int, 0x10000000000000000);
}

/// Parsing inverts encoding for signed 8-bit values: the
/// two's-complement reinterpretations cancel.
pub proof fn lemma_parse_be_i8(x: i8, rest: Seq<u8>)
    ensures
        <i8 as Deserialize>::spec_parse(<i8 as crate::ser::Serialize>::spec_wire(x) + rest) == Ok::<
            (i8, int),
            Error,
        >((x, 1)),
{
    let b = <i8 as crate::ser::Serialize>::spec_wire(x) + rest;
    assert(b[0] == crate::ser::unsigned_of_i8(x));
}

/// Parsing inverts encoding for signed 16-bit values.
pub proof fn lemma_parse_be_i16(x: i16, rest: Seq<u8>)
    ensures
        <i16 as Deserialize>::spec_parse(<i16 as crate::ser::Serialize>::spec_wire(x) + rest)
            == Ok::<(i16, int), Error>((x, 2)),
{
    lemma_parse_be_u16(crate::ser::unsigned_of_i16(x), rest);
}

/// Parsing inverts encoding for signed 32-bit values.
pub proof fn lemma_parse_be_i32(x: i32, rest: Seq<u8>)
    ensures
        <i32 as Deserialize>::spec_parse(<i32 as crate::ser::Serialize>::spec_wire(x) + rest)
            == Ok::<(i32, int), Error>((x, 4)),
{
    lemma_parse_be_u32(crate::ser::unsigned_of_i32(x), rest);
}

/// Parsing inverts encoding for signed 64-bit values.
pub proof fn lemma_parse_be_i64(x: i64, rest: Seq<u8>)
    ensures
        <i64 as Deserialize>::spec_parse(<i64 as crate::ser::Serialize>::spec_wire(x) + rest)
            == Ok::<(i64, int), Error>((x, 8)),
{
    lemma_parse_be_u64(crate::ser::unsigned_of_i64(x), rest);
}

/// Parsing inverts encoding for signed 128-bit values.
pub proof fn lemma_parse_be_i128(x: i128, rest: Seq<u8>)
    ensures
        <i128 as Deserialize>::spec_parse(<i128 as crate::ser::Serialize>::spec_wire(x) + rest)
            == Ok::<(i128, int), Error>((x, 16)),
{
    lemma_parse_be_u128(crate::ser::unsigned_of_i128(x), rest);
}

/// Parsing inverts encoding for length-prefixed strings whose UTF-8
/// byte length fits the length octet.
pub proof fn lemma_parse_prefixed_str(s: Seq<char>, rest: Seq<u8>)
    requires
        crate::ser::str_prefixed_ok(s),
    ensures
        parse_prefixed_str(crate::ser::str_prefixed_wire(s) + rest) == Ok::<(Seq<char>, int), Error>(
            (s, crate::ser::str_prefixed_wire(s).len() as int),
        ),
{
    let e = vstd::utf8::encode_utf8(s);
    let b = crate::ser::str_prefixed_wire(s) + rest;
    assert(b[0] == e.len() as u8);
    assert(b.subrange(1, 1 + e.len() as int) =~= e);
    vstd::utf8::encode_utf8_valid_utf8(s);
    vstd::utf8::encode_utf8_decode_utf8(s);
}

} // verus!
