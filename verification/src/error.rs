use vstd::prelude::*;

verus! {

/// Any error the codec can report.
///
/// Decoding reports `UnexpectedEof` when a fixed-width or length-bounded
/// read finds the source exhausted, `FromUtf8` when a text field holds
/// malformed UTF-8, and one of the `Invalid*` variants when a closed
/// discriminant space meets a wire value outside its catalog. Encoding
/// reports `TryFromInt` when a computed length does not fit the wire
/// field that must carry it.
#[derive(Clone, Copy, Debug, PartialEq, Eq, Structural)]
pub enum Error {
    /// An Ethernet EtherType other than PPPoE discovery or session.
    InvalidEtherType(u16),
    /// A PPPoE code octet outside the discovery and session set.
    InvalidPppoeCode(u8),
    /// A PPPoE tag type outside the catalog; PPPoE tags have no
    /// catch-all variant.
    InvalidPppoeTag(u16),
    /// A CHAP algorithm number other than MD5.
    InvalidChapAlgorithm(u8),
    /// A quality-protocol number other than Link-Quality-Report.
    InvalidQualityProtocol(u16),
    /// An IPv6CP code outside its closed catalog.
    InvalidIpv6cpCode(u8),
    /// A text field whose bytes are not valid UTF-8.
    FromUtf8,
    /// Not enough bytes to finish a read.
    UnexpectedEof,
    /// A length that does not fit the wire field meant to carry it.
    TryFromInt,
}

} // verus!
