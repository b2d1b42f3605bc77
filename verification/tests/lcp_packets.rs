use ppproperly::Deserialize;
use ppproperly::Error;
use ppproperly::Reader;
use ppproperly::Serialize;
use ppproperly::AuthProto;
use ppproperly::ChapAlgorithm;
use ppproperly::LcpOpt;
use ppproperly::LcpPkt;
use ppproperly::PppPkt;
use ppproperly::PppoePkt;

#[test]
fn test_serialize_lcp_configure_request() -> Result<(), Error> {
    let configure_request = PppoePkt::new_ppp(
        [0x00, 0x00, 0x5e, 0x00, 0x53, 0x02].into(),
        [0x00, 0x00, 0x5e, 0x00, 0x53, 0x01].into(),
        1,
        PppPkt::new_lcp(LcpPkt::new_configure_request(
            0x41,
            vec![
                LcpOpt::Mru(1492).into(),
                LcpOpt::AuthenticationProtocol(AuthProto::Chap(ChapAlgorithm::Md5).into())
                    .into(),
                LcpOpt::MagicNumber(1337).into(),
            ],
        )),
    );

    let mut buf = Vec::new();
    configure_request.serialize(&mut buf)?;

    assert_eq!(
        &buf,
        &[
            0x00, 0x00, 0x5e, 0x00, 0x53, 0x02, 0x00, 0x00, 0x5e, 0x00, 0x53, 0x01, 0x88, 0x64,
            0x11, 0x00, 0x00, 0x01, 0x00, 0x15, 0xc0, 0x21, 0x01, 0x41, 0x00, 0x13, 0x01, 0x04,
            0x05, 0xd4, 0x03, 0x05, 0xc2, 0x23, 0x05, 0x05, 0x06, 0x00, 0x00, 0x05, 0x39
        ]
    );
    Ok(())
}

#[test]
fn test_deserialize_lcp_configure_request() -> Result<(), Error> {
    let mut configure_request = PppoePkt::default();

    let buf = [
        0x00, 0x00, 0x5e, 0x00, 0x53, 0x02, 0x00, 0x00, 0x5e, 0x00, 0x53, 0x01, 0x88, 0x64,
        0x11, 0x00, 0x00, 0x01, 0x00, 0x15, 0xc0, 0x21, 0x01, 0x41, 0x00, 0x13, 0x01, 0x04,
        0x05, 0xd4, 0x03, 0x05, 0xc2, 0x23, 0x05, 0x05, 0x06, 0x00, 0x00, 0x05, 0x39,
    ];
    configure_request.deserialize(&mut Reader::new(&buf))?;

    assert_eq!(
        configure_request,
        PppoePkt::new_ppp(
            [0x00, 0x00, 0x5e, 0x00, 0x53, 0x02].into(),
            [0x00, 0x00, 0x5e, 0x00, 0x53, 0x01].into(),
            1,
            PppPkt::new_lcp(LcpPkt::new_configure_request(
                0x41,
                vec![
                    LcpOpt::Mru(1492).into(),
                    LcpOpt::AuthenticationProtocol(AuthProto::Chap(ChapAlgorithm::Md5).into())
                        .into(),
                    LcpOpt::MagicNumber(1337).into()
                ]
            ))
        )
    );
    Ok(())
}

#[test]
fn test_serialize_lcp_configure_ack() -> Result<(), Error> {
    let configure_ack = PppoePkt::new_ppp(
        [0x00, 0x00, 0x5e, 0x00, 0x53, 0x01].into(),
        [0x00, 0x00, 0x5e, 0x00, 0x53, 0x02].into(),
        1,
        PppPkt::new_lcp(LcpPkt::new_configure_ack(
            0x41,
            vec![
                LcpOpt::Mru(1492).into(),
                LcpOpt::AuthenticationProtocol(AuthProto::Chap(ChapAlgorithm::Md5).into())
                    .into(),
                LcpOpt::MagicNumber(1337).into(),
            ],
        )),
    );

    let mut buf = Vec::new();
    configure_ack.serialize(&mut buf)?;

    assert_eq!(
        &buf,
        &[
            0x00, 0x00, 0x5e, 0x00, 0x53, 0x01, 0x00, 0x00, 0x5e, 0x00, 0x53, 0x02, 0x88, 0x64,
            0x11, 0x00, 0x00, 0x01, 0x00, 0x15, 0xc0, 0x21, 0x02, 0x41, 0x00, 0x13, 0x01, 0x04,
            0x05, 0xd4, 0x03, 0x05, 0xc2, 0x23, 0x05, 0x05, 0x06, 0x00, 0x00, 0x05, 0x39
        ]
    );
    Ok(())
}

#[test]
fn test_deserialize_lcp_configure_ack() -> Result<(), Error> {
    let mut configure_ack = PppoePkt::default();

    let buf = [
        0x00, 0x00, 0x5e, 0x00, 0x53, 0x01, 0x00, 0x00, 0x5e, 0x00, 0x53, 0x02, 0x88, 0x64,
        0x11, 0x00, 0x00, 0x01, 0x00, 0x15, 0xc0, 0x21, 0x02, 0x41, 0x00, 0x13, 0x01, 0x04,
        0x05, 0xd4, 0x03, 0x05, 0xc2, 0x23, 0x05, 0x05, 0x06, 0x00, 0x00, 0x05, 0x39,
    ];
    configure_ack.deserialize(&mut Reader::new(&buf))?;

    assert_eq!(
        configure_ack,
        PppoePkt::new_ppp(
            [0x00, 0x00, 0x5e, 0x00, 0x53, 0x01].into(),
            [0x00, 0x00, 0x5e, 0x00, 0x53, 0x02].into(),
            1,
            PppPkt::new_lcp(LcpPkt::new_configure_ack(
                0x41,
                vec![
                    LcpOpt::Mru(1492).into(),
                    LcpOpt::AuthenticationProtocol(AuthProto::Chap(ChapAlgorithm::Md5).into())
                        .into(),
                    LcpOpt::MagicNumber(1337).into()
                ]
            ))
        )
    );
    Ok(())
}

#[test]
fn test_serialize_lcp_configure_nak() -> Result<(), Error> {
    let configure_nak = PppoePkt::new_ppp(
        [0x00, 0x00, 0x5e, 0x00, 0x53, 0x01].into(),
        [0x00, 0x00, 0x5e, 0x00, 0x53, 0x02].into(),
        1,
        PppPkt::new_lcp(LcpPkt::new_configure_nak(
            0x41,
            vec![
                LcpOpt::Mru(1492).into(),
                LcpOpt::AuthenticationProtocol(AuthProto::Chap(ChapAlgorithm::Md5).into())
                    .into(),
                LcpOpt::MagicNumber(1337).into(),
            ],
        )),
    );

    let mut buf = Vec::new();
    configure_nak.serialize(&mut buf)?;

    assert_eq!(
        &buf,
        &[
            0x00, 0x00, 0x5e, 0x00, 0x53, 0x01, 0x00, 0x00, 0x5e, 0x00, 0x53, 0x02, 0x88, 0x64,
            0x11, 0x00, 0x00, 0x01, 0x00, 0x15, 0xc0, 0x21, 0x03, 0x41, 0x00, 0x13, 0x01, 0x04,
            0x05, 0xd4, 0x03, 0x05, 0xc2, 0x23, 0x05, 0x05, 0x06, 0x00, 0x00, 0x05, 0x39
        ]
    );
    Ok(())
}

#[test]
fn test_deserialize_lcp_configure_nak() -> Result<(), Error> {
    let mut configure_nak = PppoePkt::default();

    let buf = [
        0x00, 0x00, 0x5e, 0x00, 0x53, 0x01, 0x00, 0x00, 0x5e, 0x00, 0x53, 0x02, 0x88, 0x64,
        0x11, 0x00, 0x00, 0x01, 0x00, 0x15, 0xc0, 0x21, 0x03, 0x41, 0x00, 0x13, 0x01, 0x04,
        0x05, 0xd4, 0x03, 0x05, 0xc2, 0x23, 0x05, 0x05, 0x06, 0x00, 0x00, 0x05, 0x39,
    ];
    configure_nak.deserialize(&mut Reader::new(&buf))?;

    assert_eq!(
        configure_nak,
        PppoePkt::new_ppp(
            [0x00, 0x00, 0x5e, 0x00, 0x53, 0x01].into(),
            [0x00, 0x00, 0x5e, 0x00, 0x53, 0x02].into(),
            1,
            PppPkt::new_lcp(LcpPkt::new_configure_nak(
                0x41,
                vec![
                    LcpOpt::Mru(1492).into(),
                    LcpOpt::AuthenticationProtocol(AuthProto::Chap(ChapAlgorithm::Md5).into())
                        .into(),
                    LcpOpt::MagicNumber(1337).into()
                ]
            ))
        )
    );
    Ok(())
}

#[test]
fn test_serialize_lcp_configure_reject() -> Result<(), Error> {
    let configure_reject = PppoePkt::new_ppp(
        [0x00, 0x00, 0x5e, 0x00, 0x53, 0x01].into(),
        [0x00, 0x00, 0x5e, 0x00, 0x53, 0x02].into(),
        1,
        PppPkt::new_lcp(LcpPkt::new_configure_reject(
            0x41,
            vec![
                LcpOpt::Mru(1492).into(),
                LcpOpt::AuthenticationProtocol(AuthProto::Chap(ChapAlgorithm::Md5).into())
                    .into(),
                LcpOpt::MagicNumber(1337).into(),
            ],
        )),
    );

    let mut buf = Vec::new();
    configure_reject.serialize(&mut buf)?;

    assert_eq!(
        &buf,
        &[
            0x00, 0x00, 0x5e, 0x00, 0x53, 0x01, 0x00, 0x00, 0x5e, 0x00, 0x53, 0x02, 0x88, 0x64,
            0x11, 0x00, 0x00, 0x01, 0x00, 0x15, 0xc0, 0x21, 0x04, 0x41, 0x00, 0x13, 0x01, 0x04,
            0x05, 0xd4, 0x03, 0x05, 0xc2, 0x23, 0x05, 0x05, 0x06, 0x00, 0x00, 0x05, 0x39,
        ]
    );
    Ok(())
}

#[test]
fn test_deserialize_lcp_configure_reject() -> Result<(), Error> {
    let mut configure_reject = PppoePkt::default();

    let buf = [
        0x00, 0x00, 0x5e, 0x00, 0x53, 0x01, 0x00, 0x00, 0x5e, 0x00, 0x53, 0x02, 0x88, 0x64,
        0x11, 0x00, 0x00, 0x01, 0x00, 0x15, 0xc0, 0x21, 0x04, 0x41, 0x00, 0x13, 0x01, 0x04,
        0x05, 0xd4, 0x03, 0x05, 0xc2, 0x23, 0x05, 0x05, 0x06, 0x00, 0x00, 0x05, 0x39,
    ];
    configure_reject.deserialize(&mut Reader::new(&buf))?;

    assert_eq!(
        configure_reject,
        PppoePkt::new_ppp(
            [0x00, 0x00, 0x5e, 0x00, 0x53, 0x01].into(),
            [0x00, 0x00, 0x5e, 0x00, 0x53, 0x02].into(),
            1,
            PppPkt::new_lcp(LcpPkt::new_configure_reject(
                0x41,
                vec![
                    LcpOpt::Mru(1492).into(),
                    LcpOpt::AuthenticationProtocol(AuthProto::Chap(ChapAlgorithm::Md5).into())
                        .into(),
                    LcpOpt::MagicNumber(1337).into()
                ]
            ))
        )
    );
    Ok(())
}

#[test]
fn test_serialize_lcp_terminate_request() -> Result<(), Error> {
    let terminate_request = PppoePkt::new_ppp(
        [0x00, 0x00, 0x5e, 0x00, 0x53, 0x02].into(),
        [0x00, 0x00, 0x5e, 0x00, 0x53, 0x01].into(),
        1,
        PppPkt::new_lcp(LcpPkt::new_terminate_request(0x41, vec![0x41, 0x41])),
    );

    let mut buf = Vec::new();
    terminate_request.serialize(&mut buf)?;

    assert_eq!(
        &buf,
        &[
            0x00, 0x00, 0x5e, 0x00, 0x53, 0x02, 0x00, 0x00, 0x5e, 0x00, 0x53, 0x01, 0x88, 0x64,
            0x11, 0x00, 0x00, 0x01, 0x00, 0x08, 0xc0, 0x21, 0x05, 0x41, 0x00, 0x06, 0x41, 0x41
        ]
    );
    Ok(())
}

#[test]
fn test_deserialize_lcp_terminate_request() -> Result<(), Error> {
    let mut terminate_request = PppoePkt::default();

    let buf = [
        0x00, 0x00, 0x5e, 0x00, 0x53, 0x02, 0x00, 0x00, 0x5e, 0x00, 0x53, 0x01, 0x88, 0x64,
        0x11, 0x00, 0x00, 0x01, 0x00, 0x08, 0xc0, 0x21, 0x05, 0x41, 0x00, 0x06, 0x41, 0x41,
    ];
    terminate_request.deserialize(&mut Reader::new(&buf))?;

    assert_eq!(
        terminate_request,
        PppoePkt::new_ppp(
            [0x00, 0x00, 0x5e, 0x00, 0x53, 0x02].into(),
            [0x00, 0x00, 0x5e, 0x00, 0x53, 0x01].into(),
            1,
            PppPkt::new_lcp(LcpPkt::new_terminate_request(0x41, vec![0x41, 0x41]))
        )
    );
    Ok(())
}

#[test]
fn test_serialize_lcp_terminate_ack() -> Result<(), Error> {
    let terminate_ack = PppoePkt::new_ppp(
        [0x00, 0x00, 0x5e, 0x00, 0x53, 0x01].into(),
        [0x00, 0x00, 0x5e, 0x00, 0x53, 0x02].into(),
        1,
        PppPkt::new_lcp(LcpPkt::new_terminate_ack(0x41, vec![0x41, 0x41])),
    );

    let mut buf = Vec::new();
    terminate_ack.serialize(&mut buf)?;

    assert_eq!(
        &buf,
        &[
            0x00, 0x00, 0x5e, 0x00, 0x53, 0x01, 0x00, 0x00, 0x5e, 0x00, 0x53, 0x02, 0x88, 0x64,
            0x11, 0x00, 0x00, 0x01, 0x00, 0x08, 0xc0, 0x21, 0x06, 0x41, 0x00, 0x06, 0x41, 0x41
        ]
    );
    Ok(())
}

#[test]
fn test_deserialize_lcp_terminate_ack() -> Result<(), Error> {
    let mut terminate_ack = PppoePkt::default();

    let buf = [
        0x00, 0x00, 0x5e, 0x00, 0x53, 0x01, 0x00, 0x00, 0x5e, 0x00, 0x53, 0x02, 0x88, 0x64,
        0x11, 0x00, 0x00, 0x01, 0x00, 0x08, 0xc0, 0x21, 0x06, 0x41, 0x00, 0x06, 0x41, 0x41,
    ];
    terminate_ack.deserialize(&mut Reader::new(&buf))?;

    assert_eq!(
        terminate_ack,
        PppoePkt::new_ppp(
            [0x00, 0x00, 0x5e, 0x00, 0x53, 0x01].into(),
            [0x00, 0x00, 0x5e, 0x00, 0x53, 0x02].into(),
            1,
            PppPkt::new_lcp(LcpPkt::new_terminate_ack(0x41, vec![0x41, 0x41]))
        )
    );
    Ok(())
}

#[test]
fn test_serialize_lcp_code_reject() -> Result<(), Error> {
    let code_reject = PppoePkt::new_ppp(
        [0x00, 0x00, 0x5e, 0x00, 0x53, 0x02].into(),
        [0x00, 0x00, 0x5e, 0x00, 0x53, 0x01].into(),
        1,
        PppPkt::new_lcp(LcpPkt::new_code_reject(0x41, vec![0x41, 0x41])),
    );

    let mut buf = Vec::new();
    code_reject.serialize(&mut buf)?;

    assert_eq!(
        &buf,
        &[
            0x00, 0x00, 0x5e, 0x00, 0x53, 0x02, 0x00, 0x00, 0x5e, 0x00, 0x53, 0x01, 0x88, 0x64,
            0x11, 0x00, 0x00, 0x01, 0x00, 0x08, 0xc0, 0x21, 0x07, 0x41, 0x00, 0x06, 0x41, 0x41
        ]
    );
    Ok(())
}

#[test]
fn test_deserialize_lcp_code_reject() -> Result<(), Error> {
    let mut code_reject = PppoePkt::default();

    let buf = [
        0x00, 0x00, 0x5e, 0x00, 0x53, 0x02, 0x00, 0x00, 0x5e, 0x00, 0x53, 0x01, 0x88, 0x64,
        0x11, 0x00, 0x00, 0x01, 0x00, 0x08, 0xc0, 0x21, 0x07, 0x41, 0x00, 0x06, 0x41, 0x41,
    ];
    code_reject.deserialize(&mut Reader::new(&buf))?;

    assert_eq!(
        code_reject,
        PppoePkt::new_ppp(
            [0x00, 0x00, 0x5e, 0x00, 0x53, 0x02].into(),
            [0x00, 0x00, 0x5e, 0x00, 0x53, 0x01].into(),
            1,
            PppPkt::new_lcp(LcpPkt::new_code_reject(0x41, vec![0x41, 0x41]))
        )
    );
    Ok(())
}

#[test]
fn test_serialize_lcp_protocol_reject() -> Result<(), Error> {
    let protocol_reject = PppoePkt::new_ppp(
        [0x00, 0x00, 0x5e, 0x00, 0x53, 0x02].into(),
        [0x00, 0x00, 0x5e, 0x00, 0x53, 0x01].into(),
        1,
        PppPkt::new_lcp(LcpPkt::new_protocol_reject(0x41, 0x1337, vec![0x41, 0x41])),
    );

    let mut buf = Vec::new();
    protocol_reject.serialize(&mut buf)?;

    assert_eq!(
        &buf,
        &[
            0x00, 0x00, 0x5e, 0x00, 0x53, 0x02, 0x00, 0x00, 0x5e, 0x00, 0x53, 0x01, 0x88, 0x64,
            0x11, 0x00, 0x00, 0x01, 0x00, 0x0a, 0xc0, 0x21, 0x08, 0x41, 0x00, 0x08, 0x13, 0x37,
            0x41, 0x41
        ]
    );
    Ok(())
}

#[test]
fn test_deserialize_lcp_protocol_reject() -> Result<(), Error> {
    let mut protocol_reject = PppoePkt::default();

    let buf = [
        0x00, 0x00, 0x5e, 0x00, 0x53, 0x02, 0x00, 0x00, 0x5e, 0x00, 0x53, 0x01, 0x88, 0x64,
        0x11, 0x00, 0x00, 0x01, 0x00, 0x0a, 0xc0, 0x21, 0x08, 0x41, 0x00, 0x08, 0x13, 0x37,
        0x41, 0x41,
    ];
    protocol_reject.deserialize(&mut Reader::new(&buf))?;

    assert_eq!(
        protocol_reject,
        PppoePkt::new_ppp(
            [0x00, 0x00, 0x5e, 0x00, 0x53, 0x02].into(),
            [0x00, 0x00, 0x5e, 0x00, 0x53, 0x01].into(),
            1,
            PppPkt::new_lcp(LcpPkt::new_protocol_reject(0x41, 0x1337, vec![0x41, 0x41]))
        )
    );
    Ok(())
}

#[test]
fn test_serialize_lcp_echo_request() -> Result<(), Error> {
    let echo_request = PppoePkt::new_ppp(
        [0x00, 0x00, 0x5e, 0x00, 0x53, 0x02].into(),
        [0x00, 0x00, 0x5e, 0x00, 0x53, 0x01].into(),
        1,
        PppPkt::new_lcp(LcpPkt::new_echo_request(0x41, 0x1337, vec![0x41, 0x41])),
    );

    let mut buf = Vec::new();
    echo_request.serialize(&mut buf)?;

    assert_eq!(
        &buf,
        &[
            0x00, 0x00, 0x5e, 0x00, 0x53, 0x02, 0x00, 0x00, 0x5e, 0x00, 0x53, 0x01, 0x88, 0x64,
            0x11, 0x00, 0x00, 0x01, 0x00, 0x0c, 0xc0, 0x21, 0x09, 0x41, 0x00, 0x0a, 0x00, 0x00,
            0x13, 0x37, 0x41, 0x41
        ]
    );
    Ok(())
}

#[test]
fn test_deserialize_lcp_echo_request() -> Result<(), Error> {
    let mut echo_request = PppoePkt::default();

    let buf = [
        0x00, 0x00, 0x5e, 0x00, 0x53, 0x02, 0x00, 0x00, 0x5e, 0x00, 0x53, 0x01, 0x88, 0x64,
        0x11, 0x00, 0x00, 0x01, 0x00, 0x0c, 0xc0, 0x21, 0x09, 0x41, 0x00, 0x0a, 0x00, 0x00,
        0x13, 0x37, 0x41, 0x41,
    ];
    echo_request.deserialize(&mut Reader::new(&buf))?;

    assert_eq!(
        echo_request,
        PppoePkt::new_ppp(
            [0x00, 0x00, 0x5e, 0x00, 0x53, 0x02].into(),
            [0x00, 0x00, 0x5e, 0x00, 0x53, 0x01].into(),
            1,
            PppPkt::new_lcp(LcpPkt::new_echo_request(0x41, 0x1337, vec![0x41, 0x41]))
        )
    );
    Ok(())
}

#[test]
fn test_serialize_lcp_echo_reply() -> Result<(), Error> {
    let echo_reply = PppoePkt::new_ppp(
        [0x00, 0x00, 0x5e, 0x00, 0x53, 0x01].into(),
        [0x00, 0x00, 0x5e, 0x00, 0x53, 0x02].into(),
        1,
        PppPkt::new_lcp(LcpPkt::new_echo_reply(0x41, 0x1337, vec![0x41, 0x41])),
    );

    let mut buf = Vec::new();
    echo_reply.serialize(&mut buf)?;

    assert_eq!(
        &buf,
        &[
            0x00, 0x00, 0x5e, 0x00, 0x53, 0x01, 0x00, 0x00, 0x5e, 0x00, 0x53, 0x02, 0x88, 0x64,
            0x11, 0x00, 0x00, 0x01, 0x00, 0x0c, 0xc0, 0x21, 0x0a, 0x41, 0x00, 0x0a, 0x00, 0x00,
            0x13, 0x37, 0x41, 0x41
        ]
    );
    Ok(())
}

#[test]
fn test_deserialize_lcp_echo_reply() -> Result<(), Error> {
    let mut echo_reply = PppoePkt::default();

    let buf = [
        0x00, 0x00, 0x5e, 0x00, 0x53, 0x01, 0x00, 0x00, 0x5e, 0x00, 0x53, 0x02, 0x88, 0x64,
        0x11, 0x00, 0x00, 0x01, 0x00, 0x0c, 0xc0, 0x21, 0x0a, 0x41, 0x00, 0x0a, 0x00, 0x00,
        0x13, 0x37, 0x41, 0x41,
    ];
    echo_reply.deserialize(&mut Reader::new(&buf))?;

    assert_eq!(
        echo_reply,
        PppoePkt::new_ppp(
            [0x00, 0x00, 0x5e, 0x00, 0x53, 0x01].into(),
            [0x00, 0x00, 0x5e, 0x00, 0x53, 0x02].into(),
            1,
            PppPkt::new_lcp(LcpPkt::new_echo_reply(0x41, 0x1337, vec![0x41, 0x41]))
        )
    );
    Ok(())
}

#[test]
fn test_serialize_lcp_discard_request() -> Result<(), Error> {
    let discard_request = PppoePkt::new_ppp(
        [0x00, 0x00, 0x5e, 0x00, 0x53, 0x02].into(),
        [0x00, 0x00, 0x5e, 0x00, 0x53, 0x01].into(),
        1,
        PppPkt::new_lcp(LcpPkt::new_discard_request(0x41, 0x1337, vec![0x41, 0x41])),
    );

    let mut buf = Vec::new();
    discard_request.serialize(&mut buf)?;

    assert_eq!(
        &buf,
        &[
            0x00, 0x00, 0x5e, 0x00, 0x53, 0x02, 0x00, 0x00, 0x5e, 0x00, 0x53, 0x01, 0x88, 0x64,
            0x11, 0x00, 0x00, 0x01, 0x00, 0x0c, 0xc0, 0x21, 0x0b, 0x41, 0x00, 0x0a, 0x00, 0x00,
            0x13, 0x37, 0x41, 0x41
        ]
    );
    Ok(())
}

#[test]
fn test_deserialize_lcp_discard_request() -> Result<(), Error> {
    let mut discard_request = PppoePkt::default();

    let buf = [
        0x00, 0x00, 0x5e, 0x00, 0x53, 0x02, 0x00, 0x00, 0x5e, 0x00, 0x53, 0x01, 0x88, 0x64,
        0x11, 0x00, 0x00, 0x01, 0x00, 0x0c, 0xc0, 0x21, 0x0b, 0x41, 0x00, 0x0a, 0x00, 0x00,
        0x13, 0x37, 0x41, 0x41,
    ];
    discard_request.deserialize(&mut Reader::new(&buf))?;

    assert_eq!(
        discard_request,
        PppoePkt::new_ppp(
            [0x00, 0x00, 0x5e, 0x00, 0x53, 0x02].into(),
            [0x00, 0x00, 0x5e, 0x00, 0x53, 0x01].into(),
            1,
            PppPkt::new_lcp(LcpPkt::new_discard_request(0x41, 0x1337, vec![0x41, 0x41]))
        )
    );
    Ok(())
}
