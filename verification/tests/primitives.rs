use ppproperly::Deserialize;
use ppproperly::Error;
use ppproperly::Reader;
use ppproperly::Serialize;
use ppproperly::VerType;

#[test]
fn test_serialize_vertype() -> Result<(), Error> {
    let ver_type = VerType::default();

    let mut buf = Vec::new();
    ver_type.serialize(&mut buf)?;

    assert_eq!(&buf, &0x11_u8.to_be_bytes());
    Ok(())
}

#[test]
fn test_deserialize_vertype() -> Result<(), Error> {
    let mut ver_type = VerType(0);

    let buf = 0x11_u8.to_be_bytes();
    ver_type.deserialize(&mut Reader::new(&buf))?;

    assert_eq!(ver_type, VerType::default());
    Ok(())
}

#[test]
fn test_serialize_bytes() -> Result<(), Error> {
    let bytes: Vec<u8> = vec![0, 1, 2, 3];

    let mut buf = Vec::new();
    bytes.serialize(&mut buf)?;

    assert_eq!(&buf, &[0, 1, 2, 3]);
    Ok(())
}

#[test]
fn test_deserialize_bytes() -> Result<(), Error> {
    let mut bytes: Vec<u8> = Vec::new();

    let buf = [0, 1, 2, 3];
    bytes.deserialize(&mut Reader::new(&buf))?;

    assert_eq!(&bytes, &[0, 1, 2, 3]);
    Ok(())
}
