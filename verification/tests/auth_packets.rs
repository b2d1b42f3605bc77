use ppproperly::Deserialize;
use ppproperly::Error;
use ppproperly::Reader;
use ppproperly::Serialize;
use ppproperly::ChapPkt;
use ppproperly::PapPkt;
use ppproperly::PppPkt;
use ppproperly::PppoePkt;

#[test]
fn test_serialize_pap_authenticate_request() -> Result<(), Error> {
    let authenticate_request = PppoePkt::new_ppp(
        [0x00, 0x00, 0x5e, 0x00, 0x53, 0x01].into(),
        [0x00, 0x00, 0x5e, 0x00, 0x53, 0x02].into(),
        1,
        PppPkt::new_pap(PapPkt::new_authenticate_request(
            0x41,
            "foo".into(),
            "bar".into(),
        )),
    );

    let mut buf = Vec::new();
    authenticate_request.serialize(&mut buf)?;

    assert_eq!(
        &buf,
        &[
            0x00, 0x00, 0x5e, 0x00, 0x53, 0x01, 0x00, 0x00, 0x5e, 0x00, 0x53, 0x02, 0x88, 0x64,
            0x11, 0x00, 0x00, 0x01, 0x00, 0x0e, 0xc0, 0x23, 0x01, 0x41, 0x00, 0x0c, 0x03, 0x66,
            0x6f, 0x6f, 0x03, 0x62, 0x61, 0x72
        ]
    );
    Ok(())
}

#[test]
fn test_deserialize_pap_authenticate_request() -> Result<(), Error> {
    let mut authenticate_request = PppoePkt::default();

    let buf = [
        0x00, 0x00, 0x5e, 0x00, 0x53, 0x01, 0x00, 0x00, 0x5e, 0x00, 0x53, 0x02, 0x88, 0x64,
        0x11, 0x00, 0x00, 0x01, 0x00, 0x0e, 0xc0, 0x23, 0x01, 0x41, 0x00, 0x0c, 0x03, 0x66,
        0x6f, 0x6f, 0x03, 0x62, 0x61, 0x72,
    ];
    authenticate_request.deserialize(&mut Reader::new(&buf))?;

    assert_eq!(
        authenticate_request,
        PppoePkt::new_ppp(
            [0x00, 0x00, 0x5e, 0x00, 0x53, 0x01].into(),
            [0x00, 0x00, 0x5e, 0x00, 0x53, 0x02].into(),
            1,
            PppPkt::new_pap(PapPkt::new_authenticate_request(
                0x41,
                "foo".into(),
                "bar".into()
            ))
        )
    );
    Ok(())
}

#[test]
fn test_serialize_pap_authenticate_ack() -> Result<(), Error> {
    let authenticate_ack = PppoePkt::new_ppp(
        [0x00, 0x00, 0x5e, 0x00, 0x53, 0x02].into(),
        [0x00, 0x00, 0x5e, 0x00, 0x53, 0x01].into(),
        1,
        PppPkt::new_pap(PapPkt::new_authenticate_ack(0x41, "ok".into())),
    );

    let mut buf = Vec::new();
    authenticate_ack.serialize(&mut buf)?;

    assert_eq!(
        &buf,
        &[
            0x00, 0x00, 0x5e, 0x00, 0x53, 0x02, 0x00, 0x00, 0x5e, 0x00, 0x53, 0x01, 0x88, 0x64,
            0x11, 0x00, 0x00, 0x01, 0x00, 0x09, 0xc0, 0x23, 0x02, 0x41, 0x00, 0x07, 0x02, 0x6f,
            0x6b
        ]
    );
    Ok(())
}

#[test]
fn test_deserialize_pap_authenticate_ack() -> Result<(), Error> {
    let mut authenticate_ack = PppoePkt::default();

    let buf = [
        0x00, 0x00, 0x5e, 0x00, 0x53, 0x02, 0x00, 0x00, 0x5e, 0x00, 0x53, 0x01, 0x88, 0x64,
        0x11, 0x00, 0x00, 0x01, 0x00, 0x09, 0xc0, 0x23, 0x02, 0x41, 0x00, 0x07, 0x02, 0x6f,
        0x6b,
    ];
    authenticate_ack.deserialize(&mut Reader::new(&buf))?;

    assert_eq!(
        authenticate_ack,
        PppoePkt::new_ppp(
            [0x00, 0x00, 0x5e, 0x00, 0x53, 0x02].into(),
            [0x00, 0x00, 0x5e, 0x00, 0x53, 0x01].into(),
            1,
            PppPkt::new_pap(PapPkt::new_authenticate_ack(0x41, "ok".into()))
        )
    );
    Ok(())
}

#[test]
fn test_serialize_pap_authenticate_nak() -> Result<(), Error> {
    let authenticate_nak = PppoePkt::new_ppp(
        [0x00, 0x00, 0x5e, 0x00, 0x53, 0x02].into(),
        [0x00, 0x00, 0x5e, 0x00, 0x53, 0x01].into(),
        1,
        PppPkt::new_pap(PapPkt::new_authenticate_nak(0x41, "no".into())),
    );

    let mut buf = Vec::new();
    authenticate_nak.serialize(&mut buf)?;

    assert_eq!(
        &buf,
        &[
            0x00, 0x00, 0x5e, 0x00, 0x53, 0x02, 0x00, 0x00, 0x5e, 0x00, 0x53, 0x01, 0x88, 0x64,
            0x11, 0x00, 0x00, 0x01, 0x00, 0x09, 0xc0, 0x23, 0x03, 0x41, 0x00, 0x07, 0x02, 0x6e,
            0x6f
        ]
    );
    Ok(())
}

#[test]
fn test_deserialize_pap_authenticate_nak() -> Result<(), Error> {
    let mut authenticate_nak = PppoePkt::default();

    let buf = [
        0x00, 0x00, 0x5e, 0x00, 0x53, 0x02, 0x00, 0x00, 0x5e, 0x00, 0x53, 0x01, 0x88, 0x64,
        0x11, 0x00, 0x00, 0x01, 0x00, 0x09, 0xc0, 0x23, 0x03, 0x41, 0x00, 0x07, 0x02, 0x6e,
        0x6f,
    ];
    authenticate_nak.deserialize(&mut Reader::new(&buf))?;

    assert_eq!(
        authenticate_nak,
        PppoePkt::new_ppp(
            [0x00, 0x00, 0x5e, 0x00, 0x53, 0x02].into(),
            [0x00, 0x00, 0x5e, 0x00, 0x53, 0x01].into(),
            1,
            PppPkt::new_pap(PapPkt::new_authenticate_nak(0x41, "no".into()))
        )
    );
    Ok(())
}

#[test]
fn test_serialize_chap_challenge() -> Result<(), Error> {
    let challenge = PppoePkt::new_ppp(
        [0x00, 0x00, 0x5e, 0x00, 0x53, 0x02].into(),
        [0x00, 0x00, 0x5e, 0x00, 0x53, 0x01].into(),
        1,
        PppPkt::new_chap(ChapPkt::new_challenge(0x41, vec![0x13, 0x37], "foo".into())),
    );

    let mut buf = Vec::new();
    challenge.serialize(&mut buf)?;

    assert_eq!(
        &buf,
        &[
            0x00, 0x00, 0x5e, 0x00, 0x53, 0x02, 0x00, 0x00, 0x5e, 0x00, 0x53, 0x01, 0x88, 0x64,
            0x11, 0x00, 0x00, 0x01, 0x00, 0x0c, 0xc2, 0x23, 0x01, 0x41, 0x00, 0x0a, 0x02, 0x13,
            0x37, 0x66, 0x6f, 0x6f
        ]
    );
    Ok(())
}

#[test]
fn test_deserialize_chap_challenge() -> Result<(), Error> {
    let mut challenge = PppoePkt::default();

    let buf = [
        0x00, 0x00, 0x5e, 0x00, 0x53, 0x02, 0x00, 0x00, 0x5e, 0x00, 0x53, 0x01, 0x88, 0x64,
        0x11, 0x00, 0x00, 0x01, 0x00, 0x0c, 0xc2, 0x23, 0x01, 0x41, 0x00, 0x0a, 0x02, 0x13,
        0x37, 0x66, 0x6f, 0x6f,
    ];
    challenge.deserialize(&mut Reader::new(&buf))?;

    assert_eq!(
        challenge,
        PppoePkt::new_ppp(
            [0x00, 0x00, 0x5e, 0x00, 0x53, 0x02].into(),
            [0x00, 0x00, 0x5e, 0x00, 0x53, 0x01].into(),
            1,
            PppPkt::new_chap(ChapPkt::new_challenge(0x41, vec![0x13, 0x37], "foo".into()))
        )
    );
    Ok(())
}

#[test]
fn test_serialize_chap_response() -> Result<(), Error> {
    let response = PppoePkt::new_ppp(
        [0x00, 0x00, 0x5e, 0x00, 0x53, 0x01].into(),
        [0x00, 0x00, 0x5e, 0x00, 0x53, 0x02].into(),
        1,
        PppPkt::new_chap(ChapPkt::new_response(0x41, vec![0x13, 0x37], "foo".into())),
    );

    let mut buf = Vec::new();
    response.serialize(&mut buf)?;

    assert_eq!(
        &buf,
        &[
            0x00, 0x00, 0x5e, 0x00, 0x53, 0x01, 0x00, 0x00, 0x5e, 0x00, 0x53, 0x02, 0x88, 0x64,
            0x11, 0x00, 0x00, 0x01, 0x00, 0x0c, 0xc2, 0x23, 0x02, 0x41, 0x00, 0x0a, 0x02, 0x13,
            0x37, 0x66, 0x6f, 0x6f
        ]
    );
    Ok(())
}

#[test]
fn test_deserialize_chap_response() -> Result<(), Error> {
    let mut response = PppoePkt::default();

    let buf = [
        0x00, 0x00, 0x5e, 0x00, 0x53, 0x01, 0x00, 0x00, 0x5e, 0x00, 0x53, 0x02, 0x88, 0x64,
        0x11, 0x00, 0x00, 0x01, 0x00, 0x0c, 0xc2, 0x23, 0x02, 0x41, 0x00, 0x0a, 0x02, 0x13,
        0x37, 0x66, 0x6f, 0x6f,
    ];
    response.deserialize(&mut Reader::new(&buf))?;

    assert_eq!(
        response,
        PppoePkt::new_ppp(
            [0x00, 0x00, 0x5e, 0x00, 0x53, 0x01].into(),
            [0x00, 0x00, 0x5e, 0x00, 0x53, 0x02].into(),
            1,
            PppPkt::new_chap(ChapPkt::new_response(0x41, vec![0x13, 0x37], "foo".into()))
        )
    );
    Ok(())
}
