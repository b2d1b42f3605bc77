use ppproperly::Deserialize;
use ppproperly::Error;
use ppproperly::Reader;
use ppproperly::Serialize;
use ppproperly::MacAddr;
use ppproperly::PppoePkt;
use ppproperly::PppoeTag;
use ppproperly::PppoeVal;

#[test]
fn test_serialize_pppoe_tags() -> Result<(), Error> {
    let tags: Vec<PppoeTag> = vec![
        PppoeVal::HostUniq(vec![13, 37]).into(),
        PppoeVal::GenericError(String::from("err")).into(),
        PppoeVal::Metrics.into(),
    ];

    let mut buf = Vec::new();
    tags.serialize(&mut buf)?;

    assert_eq!(
        &buf,
        &[
            0x01, 0x03, 0x00, 0x02, 0x0d, 0x25, 0x02, 0x03, 0x00, 0x03, 0x65, 0x72, 0x72, 0x01,
            0x07, 0x00, 0x00,
        ]
    );
    Ok(())
}

#[test]
fn test_deserialize_pppoe_tags() -> Result<(), Error> {
    let mut tags: Vec<PppoeTag> = Vec::new();

    let buf = [
        0x01, 0x03, 0x00, 0x02, 0x0d, 0x25, 0x02, 0x03, 0x00, 0x03, 0x65, 0x72, 0x72, 0x01,
        0x07, 0x00, 0x00,
    ];
    tags.deserialize(&mut Reader::new(&buf))?;

    assert_eq!(
        tags,
        vec![
            PppoeVal::HostUniq(vec![13, 37]).into(),
            PppoeVal::GenericError(String::from("err")).into(),
            PppoeVal::Metrics.into(),
        ]
    );
    Ok(())
}

#[test]
fn test_serialize_pppoe_padi() -> Result<(), Error> {
    let padi = PppoePkt::new_padi(
        MacAddr::unspecified(),
        vec![PppoeVal::HostUniq(vec![13, 37]).into()],
    );

    let mut buf = Vec::new();
    padi.serialize(&mut buf)?;

    assert_eq!(
        &buf,
        &[
            0xff, 0xff, 0xff, 0xff, 0xff, 0xff, 0x00, 0x00, 0x00, 0x00, 0x00, 0x00, 0x88, 0x63,
            0x11, 0x09, 0x00, 0x00, 0x00, 0x06, 0x01, 0x03, 0x00, 0x02, 0x0d, 0x25
        ]
    );
    Ok(())
}

#[test]
fn test_deserialize_pppoe_padi() -> Result<(), Error> {
    let mut padi = PppoePkt::default();

    let buf = [
        0xff, 0xff, 0xff, 0xff, 0xff, 0xff, 0x00, 0x00, 0x00, 0x00, 0x00, 0x00, 0x88, 0x63,
        0x11, 0x09, 0x00, 0x00, 0x00, 0x06, 0x01, 0x03, 0x00, 0x02, 0x0d, 0x25,
    ];
    padi.deserialize(&mut Reader::new(&buf))?;

    assert_eq!(
        padi,
        PppoePkt::new_padi(
            MacAddr::unspecified(),
            vec![PppoeVal::HostUniq(vec![13, 37]).into()]
        )
    );
    Ok(())
}

#[test]
fn test_serialize_pppoe_pado() -> Result<(), Error> {
    let pado = PppoePkt::new_pado(
        [0x00, 0x00, 0x5e, 0x00, 0x53, 0x02].into(),
        [0x00, 0x00, 0x5e, 0x00, 0x53, 0x01].into(),
        vec![
            PppoeVal::AcName("isp_ac".into()).into(),
            PppoeVal::ServiceName("isp_svc".into()).into(),
        ],
    );

    let mut buf = Vec::new();
    pado.serialize(&mut buf)?;

    assert_eq!(
        &buf,
        &[
            0x00, 0x00, 0x5e, 0x00, 0x53, 0x02, 0x00, 0x00, 0x5e, 0x00, 0x53, 0x01, 0x88, 0x63,
            0x11, 0x07, 0x00, 0x00, 0x00, 0x15, 0x01, 0x02, 0x00, 0x06, 0x69, 0x73, 0x70, 0x5f,
            0x61, 0x63, 0x01, 0x01, 0x00, 0x07, 0x69, 0x73, 0x70, 0x5f, 0x73, 0x76, 0x63
        ]
    );
    Ok(())
}

#[test]
fn test_deserialize_pppoe_pado() -> Result<(), Error> {
    let mut pado = PppoePkt::default();

    let buf = [
        0x00, 0x00, 0x5e, 0x00, 0x53, 0x02, 0x00, 0x00, 0x5e, 0x00, 0x53, 0x01, 0x88, 0x63,
        0x11, 0x07, 0x00, 0x00, 0x00, 0x15, 0x01, 0x02, 0x00, 0x06, 0x69, 0x73, 0x70, 0x5f,
        0x61, 0x63, 0x01, 0x01, 0x00, 0x07, 0x69, 0x73, 0x70, 0x5f, 0x73, 0x76, 0x63,
    ];
    pado.deserialize(&mut Reader::new(&buf))?;

    assert_eq!(
        pado,
        PppoePkt::new_pado(
            [0x00, 0x00, 0x5e, 0x00, 0x53, 0x02].into(),
            [0x00, 0x00, 0x5e, 0x00, 0x53, 0x01].into(),
            vec![
                PppoeVal::AcName("isp_ac".into()).into(),
                PppoeVal::ServiceName("isp_svc".into()).into()
            ]
        )
    );
    Ok(())
}

#[test]
fn test_serialize_pppoe_padr() -> Result<(), Error> {
    let padr = PppoePkt::new_padr(
        [0x00, 0x00, 0x5e, 0x00, 0x53, 0x01].into(),
        [0x00, 0x00, 0x5e, 0x00, 0x53, 0x02].into(),
        vec![PppoeVal::ServiceName("isp_svc".into()).into()],
    );

    let mut buf = Vec::new();
    padr.serialize(&mut buf)?;

    assert_eq!(
        &buf,
        &[
            0x00, 0x00, 0x5e, 0x00, 0x53, 0x01, 0x00, 0x00, 0x5e, 0x00, 0x53, 0x02, 0x88, 0x63,
            0x11, 0x19, 0x00, 0x00, 0x00, 0x0b, 0x01, 0x01, 0x00, 0x07, 0x69, 0x73, 0x70, 0x5f,
            0x73, 0x76, 0x63
        ]
    );
    Ok(())
}

#[test]
fn test_deserialize_pppoe_padr() -> Result<(), Error> {
    let mut padr = PppoePkt::default();

    let buf = [
        0x00, 0x00, 0x5e, 0x00, 0x53, 0x01, 0x00, 0x00, 0x5e, 0x00, 0x53, 0x02, 0x88, 0x63,
        0x11, 0x19, 0x00, 0x00, 0x00, 0x0b, 0x01, 0x01, 0x00, 0x07, 0x69, 0x73, 0x70, 0x5f,
        0x73, 0x76, 0x63,
    ];
    padr.deserialize(&mut Reader::new(&buf))?;

    assert_eq!(
        padr,
        PppoePkt::new_padr(
            [0x00, 0x00, 0x5e, 0x00, 0x53, 0x01].into(),
            [0x00, 0x00, 0x5e, 0x00, 0x53, 0x02].into(),
            vec![PppoeVal::ServiceName("isp_svc".into()).into()]
        )
    );
    Ok(())
}

#[test]
fn test_serialize_pppoe_pads() -> Result<(), Error> {
    let pads = PppoePkt::new_pads(
        [0x00, 0x00, 0x5e, 0x00, 0x53, 0x02].into(),
        [0x00, 0x00, 0x5e, 0x00, 0x53, 0x01].into(),
        1,
        vec![PppoeVal::ServiceName("isp_svc".into()).into()],
    );

    let mut buf = Vec::new();
    pads.serialize(&mut buf)?;

    assert_eq!(
        &buf,
        &[
            0x00, 0x00, 0x5e, 0x00, 0x53, 0x02, 0x00, 0x00, 0x5e, 0x00, 0x53, 0x01, 0x88, 0x63,
            0x11, 0x65, 0x00, 0x01, 0x00, 0x0b, 0x01, 0x01, 0x00, 0x07, 0x69, 0x73, 0x70, 0x5f,
            0x73, 0x76, 0x63
        ]
    );
    Ok(())
}

#[test]
fn test_deserialize_pppoe_pads() -> Result<(), Error> {
    let mut pads = PppoePkt::default();

    let buf = [
        0x00, 0x00, 0x5e, 0x00, 0x53, 0x02, 0x00, 0x00, 0x5e, 0x00, 0x53, 0x01, 0x88, 0x63,
        0x11, 0x65, 0x00, 0x01, 0x00, 0x0b, 0x01, 0x01, 0x00, 0x07, 0x69, 0x73, 0x70, 0x5f,
        0x73, 0x76, 0x63,
    ];
    pads.deserialize(&mut Reader::new(&buf))?;

    assert_eq!(
        pads,
        PppoePkt::new_pads(
            [0x00, 0x00, 0x5e, 0x00, 0x53, 0x02].into(),
            [0x00, 0x00, 0x5e, 0x00, 0x53, 0x01].into(),
            1,
            vec![PppoeVal::ServiceName("isp_svc".into()).into()]
        )
    );
    Ok(())
}

#[test]
fn test_serialize_pppoe_padt() -> Result<(), Error> {
    let padt = PppoePkt::new_padt(
        [0x00, 0x00, 0x5e, 0x00, 0x53, 0x02].into(),
        [0x00, 0x00, 0x5e, 0x00, 0x53, 0x01].into(),
        1,
        vec![PppoeVal::GenericError("err".into()).into()],
    );

    let mut buf = Vec::new();
    padt.serialize(&mut buf)?;

    assert_eq!(
        &buf,
        &[
            0x00, 0x00, 0x5e, 0x00, 0x53, 0x02, 0x00, 0x00, 0x5e, 0x00, 0x53, 0x01, 0x88, 0x63,
            0x11, 0xa7, 0x00, 0x01, 0x00, 0x07, 0x02, 0x03, 0x00, 0x03, 0x65, 0x72, 0x72
        ]
    );
    Ok(())
}

#[test]
fn test_deserialize_pppoe_padt() -> Result<(), Error> {
    let mut padt = PppoePkt::default();

    let buf = [
        0x00, 0x00, 0x5e, 0x00, 0x53, 0x02, 0x00, 0x00, 0x5e, 0x00, 0x53, 0x01, 0x88, 0x63,
        0x11, 0xa7, 0x00, 0x01, 0x00, 0x07, 0x02, 0x03, 0x00, 0x03, 0x65, 0x72, 0x72,
    ];
    padt.deserialize(&mut Reader::new(&buf))?;

    assert_eq!(
        padt,
        PppoePkt::new_padt(
            [0x00, 0x00, 0x5e, 0x00, 0x53, 0x02].into(),
            [0x00, 0x00, 0x5e, 0x00, 0x53, 0x01].into(),
            1,
            vec![PppoeVal::GenericError("err".into()).into()]
        )
    );
    Ok(())
}
