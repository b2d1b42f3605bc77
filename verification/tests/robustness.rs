use ppproperly::AuthProto;
use ppproperly::ChapAlgorithm;
use ppproperly::Deserialize;
use ppproperly::Error;
use ppproperly::IpCompressionProto;
use ppproperly::IpcpOpt;
use ppproperly::IpcpPkt;
use ppproperly::Ipv4Addr;
use ppproperly::Ipv6cpOpt;
use ppproperly::Ipv6cpPkt;
use ppproperly::LcpOpt;
use ppproperly::LcpOption;
use ppproperly::LcpPkt;
use ppproperly::PapPkt;
use ppproperly::PppPkt;
use ppproperly::PppoePkt;
use ppproperly::PppoeTag;
use ppproperly::PppoeVal;
use ppproperly::Reader;
use ppproperly::Serialize;

#[test]
fn test_unknown_lcp_option_becomes_unhandled() -> Result<(), Error> {
    let buf = [0xaa, 0x04, 0x01, 0x02];
    let mut options: Vec<LcpOption> = Vec::new();
    options.deserialize(&mut Reader::new(&buf))?;

    assert_eq!(options, vec![LcpOpt::Unhandled(0xaa, vec![0x01, 0x02]).into()]);

    let mut out = Vec::new();
    options.serialize(&mut out)?;
    assert_eq!(&out, &buf);
    Ok(())
}

#[test]
fn test_unknown_ppp_protocol_becomes_unhandled() -> Result<(), Error> {
    let buf = [0x13, 0x37, 0x01, 0x02, 0x03];
    let mut pkt = PppPkt::default();
    pkt.deserialize(&mut Reader::new(&buf))?;

    assert_eq!(pkt, PppPkt { data: ppproperly::PppData::Unhandled(0x1337, vec![0x01, 0x02, 0x03]) });

    let mut out = Vec::new();
    pkt.serialize(&mut out)?;
    assert_eq!(&out, &buf);
    Ok(())
}

#[test]
fn test_truncated_length_keeps_sibling_aligned() -> Result<(), Error> {
    // The first record claims only two value bytes although more
    // follow; the decoder must consume exactly the claimed count and
    // pick up the second record at the right offset.
    let buf = [0xaa, 0x04, 0x01, 0x02, 0x05, 0x06, 0x00, 0x00, 0x13, 0x37];
    let mut options: Vec<LcpOption> = Vec::new();
    options.deserialize(&mut Reader::new(&buf))?;

    assert_eq!(
        options,
        vec![
            LcpOpt::Unhandled(0xaa, vec![0x01, 0x02]).into(),
            LcpOpt::MagicNumber(0x1337).into(),
        ]
    );
    Ok(())
}

#[test]
fn test_empty_option_list_roundtrip() -> Result<(), Error> {
    let options: Vec<LcpOption> = Vec::new();
    let mut buf = Vec::new();
    options.serialize(&mut buf)?;
    assert_eq!(buf.len(), 0);

    let mut decoded: Vec<LcpOption> = Vec::new();
    decoded.deserialize(&mut Reader::new(&buf))?;
    assert_eq!(decoded, options);
    Ok(())
}

#[test]
fn test_empty_tag_list_roundtrip() -> Result<(), Error> {
    let tags: Vec<PppoeTag> = Vec::new();
    let mut buf = Vec::new();
    tags.serialize(&mut buf)?;
    assert_eq!(buf.len(), 0);

    let mut decoded: Vec<PppoeTag> = Vec::new();
    decoded.deserialize(&mut Reader::new(&buf))?;
    assert_eq!(decoded, tags);
    Ok(())
}

#[test]
fn test_overlong_string_is_rejected() {
    let long = "x".repeat(256);
    let pkt = PapPkt::new_authenticate_request(0x41, long, "pw".into());

    let mut buf = Vec::new();
    assert_eq!(pkt.serialize(&mut buf), Err(Error::TryFromInt));
}

#[test]
fn test_string_of_255_bytes_is_accepted() -> Result<(), Error> {
    let edge = "y".repeat(255);
    let pkt = PapPkt::new_authenticate_ack(0x41, edge.clone());

    let mut buf = Vec::new();
    pkt.serialize(&mut buf)?;
    assert_eq!(buf.len(), 4 + 1 + 255);

    let mut decoded = PapPkt::default();
    decoded.deserialize(&mut Reader::new(&buf))?;
    assert_eq!(decoded, PapPkt::new_authenticate_ack(0x41, edge));
    Ok(())
}

#[test]
fn test_invalid_ether_type() {
    let buf = [
        0x00, 0x00, 0x5e, 0x00, 0x53, 0x01, 0x00, 0x00, 0x5e, 0x00, 0x53, 0x02, 0x08, 0x00, 0x11,
        0x09, 0x00, 0x00, 0x00, 0x00,
    ];
    let mut pkt = PppoePkt::default();
    assert_eq!(
        pkt.deserialize(&mut Reader::new(&buf)),
        Err(Error::InvalidEtherType(0x0800))
    );
}

#[test]
fn test_invalid_pppoe_code() {
    let buf = [
        0x00, 0x00, 0x5e, 0x00, 0x53, 0x01, 0x00, 0x00, 0x5e, 0x00, 0x53, 0x02, 0x88, 0x63, 0x11,
        0x42, 0x00, 0x00, 0x00, 0x00,
    ];
    let mut pkt = PppoePkt::default();
    assert_eq!(
        pkt.deserialize(&mut Reader::new(&buf)),
        Err(Error::InvalidPppoeCode(0x42))
    );
}

#[test]
fn test_invalid_pppoe_tag() {
    let buf = [0x7f, 0xff, 0x00, 0x00];
    let mut tags: Vec<PppoeTag> = Vec::new();
    assert_eq!(
        tags.deserialize(&mut Reader::new(&buf)),
        Err(Error::InvalidPppoeTag(0x7fff))
    );
}

#[test]
fn test_invalid_chap_algorithm() {
    // An LCP Authentication-Protocol option naming CHAP with an
    // algorithm octet outside the catalog.
    let buf = [0x03, 0x05, 0xc2, 0x23, 0x09];
    let mut options: Vec<LcpOption> = Vec::new();
    assert_eq!(
        options.deserialize(&mut Reader::new(&buf)),
        Err(Error::InvalidChapAlgorithm(0x09))
    );
}

#[test]
fn test_invalid_quality_protocol() {
    let buf = [0x04, 0x08, 0xc0, 0x26, 0x00, 0x00, 0x00, 0x01];
    let mut options: Vec<LcpOption> = Vec::new();
    assert_eq!(
        options.deserialize(&mut Reader::new(&buf)),
        Err(Error::InvalidQualityProtocol(0xc026))
    );
}

#[test]
fn test_invalid_ipv6cp_code() {
    let buf = [0x08, 0x41, 0x00, 0x04];
    let mut pkt = Ipv6cpPkt::default();
    assert_eq!(
        pkt.deserialize(&mut Reader::new(&buf)),
        Err(Error::InvalidIpv6cpCode(0x08))
    );
}

#[test]
fn test_invalid_utf8_text() {
    // A PAP Authenticate-Ack whose message bytes are not UTF-8.
    let buf = [0x02, 0x41, 0x00, 0x07, 0x02, 0xff, 0xfe];
    let mut pkt = PapPkt::default();
    assert_eq!(pkt.deserialize(&mut Reader::new(&buf)), Err(Error::FromUtf8));
}

#[test]
fn test_truncated_packet() {
    let buf = [0x01, 0x41, 0x00];
    let mut pkt = LcpPkt::default();
    assert_eq!(
        pkt.deserialize(&mut Reader::new(&buf)),
        Err(Error::UnexpectedEof)
    );
}

#[test]
fn test_full_session_frame_roundtrip() -> Result<(), Error> {
    let frame = PppoePkt::new_ppp(
        [0x00, 0x00, 0x5e, 0x00, 0x53, 0x02].into(),
        [0x00, 0x00, 0x5e, 0x00, 0x53, 0x01].into(),
        7,
        PppPkt::new_lcp(LcpPkt::new_configure_request(
            0x17,
            vec![
                LcpOpt::Mru(1492).into(),
                LcpOpt::AuthenticationProtocol(AuthProto::Chap(ChapAlgorithm::Md5).into()).into(),
                LcpOpt::QualityProtocol(ppproperly::QualityProto::LinkQualityReport(90).into())
                    .into(),
                LcpOpt::ProtocolFieldCompression.into(),
                LcpOpt::Unhandled(0x60, vec![0xde, 0xad]).into(),
            ],
        )),
    );

    let mut buf = Vec::new();
    frame.serialize(&mut buf)?;

    let mut decoded = PppoePkt::default();
    decoded.deserialize(&mut Reader::new(&buf))?;
    assert_eq!(decoded, frame);
    Ok(())
}

#[test]
fn test_ipcp_frame_roundtrip() -> Result<(), Error> {
    let pkt = IpcpPkt::new_configure_request(
        0x2a,
        vec![
            IpcpOpt::IpAddr(Ipv4Addr([192, 0, 2, 1])).into(),
            IpcpOpt::PrimaryDns(Ipv4Addr([192, 0, 2, 53])).into(),
            IpcpOpt::IpCompressionProtocol(
                IpCompressionProto::VanJacobsonTcpIp(ppproperly::VanJacobsonConfig {
                    max_slot_id: 15,
                    comp_slot_id: 1,
                })
                .into(),
            )
            .into(),
        ],
    );

    let mut buf = Vec::new();
    pkt.serialize(&mut buf)?;
    assert_eq!(
        &buf,
        &[
            0x01, 0x2a, 0x00, 0x16, 0x03, 0x06, 0xc0, 0x00, 0x02, 0x01, 0x81, 0x06, 0xc0, 0x00,
            0x02, 0x35, 0x02, 0x06, 0x00, 0x2d, 0x0f, 0x01
        ]
    );

    let mut decoded = IpcpPkt::default();
    decoded.deserialize(&mut Reader::new(&buf))?;
    assert_eq!(decoded, pkt);
    Ok(())
}

#[test]
fn test_ipv6cp_frame_roundtrip() -> Result<(), Error> {
    let pkt = Ipv6cpPkt::new_configure_request(
        0x05,
        vec![Ipv6cpOpt::InterfaceId(0x0123456789abcdef).into()],
    );

    let mut buf = Vec::new();
    pkt.serialize(&mut buf)?;
    assert_eq!(
        &buf,
        &[
            0x01, 0x05, 0x00, 0x0e, 0x01, 0x0a, 0x01, 0x23, 0x45, 0x67, 0x89, 0xab, 0xcd, 0xef
        ]
    );

    let mut decoded = Ipv6cpPkt::default();
    decoded.deserialize(&mut Reader::new(&buf))?;
    assert_eq!(decoded, pkt);
    Ok(())
}

#[test]
fn test_unknown_tag_payload_preserved_in_pad_frame() -> Result<(), Error> {
    // A PPPoE discovery frame whose payload holds a known tag; the
    // frame's own length field must bound the tag list exactly.
    let frame = PppoePkt::new_padt(
        [0x00, 0x00, 0x5e, 0x00, 0x53, 0x02].into(),
        [0x00, 0x00, 0x5e, 0x00, 0x53, 0x01].into(),
        3,
        vec![PppoeVal::AcCookie(vec![0x10, 0x20, 0x30]).into()],
    );

    let mut buf = Vec::new();
    frame.serialize(&mut buf)?;

    let mut decoded = PppoePkt::default();
    decoded.deserialize(&mut Reader::new(&buf))?;
    assert_eq!(decoded, frame);
    Ok(())
}
