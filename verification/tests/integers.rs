use ppproperly::Deserialize;
use ppproperly::Error;
use ppproperly::Reader;
use ppproperly::Serialize;

#[test]
fn test_u16_big_endian() -> Result<(), Error> {
    let mut buf = Vec::new();
    0x1337_u16.serialize(&mut buf)?;
    assert_eq!(&buf, &[0x13, 0x37]);

    let mut x: u16 = 0;
    x.deserialize(&mut Reader::new(&buf))?;
    assert_eq!(x, 0x1337);
    Ok(())
}

#[test]
fn test_u32_big_endian() -> Result<(), Error> {
    let mut buf = Vec::new();
    0xdeadbeef_u32.serialize(&mut buf)?;
    assert_eq!(&buf, &[0xde, 0xad, 0xbe, 0xef]);

    let mut x: u32 = 0;
    x.deserialize(&mut Reader::new(&buf))?;
    assert_eq!(x, 0xdeadbeef);
    Ok(())
}

#[test]
fn test_u64_big_endian() -> Result<(), Error> {
    let mut buf = Vec::new();
    0x0102030405060708_u64.serialize(&mut buf)?;
    assert_eq!(&buf, &0x0102030405060708_u64.to_be_bytes());

    let mut x: u64 = 0;
    x.deserialize(&mut Reader::new(&buf))?;
    assert_eq!(x, 0x0102030405060708);
    Ok(())
}

#[test]
fn test_u128_big_endian() -> Result<(), Error> {
    let v = 0x0102030405060708090a0b0c0d0e0f10_u128;
    let mut buf = Vec::new();
    v.serialize(&mut buf)?;
    assert_eq!(&buf, &v.to_be_bytes());

    let mut x: u128 = 0;
    x.deserialize(&mut Reader::new(&buf))?;
    assert_eq!(x, v);
    Ok(())
}

#[test]
fn test_i8_two_complement() -> Result<(), Error> {
    let mut buf = Vec::new();
    (-2_i8).serialize(&mut buf)?;
    assert_eq!(&buf, &[0xfe]);

    let mut x: i8 = 0;
    x.deserialize(&mut Reader::new(&buf))?;
    assert_eq!(x, -2);
    Ok(())
}

#[test]
fn test_i16_two_complement() -> Result<(), Error> {
    let mut buf = Vec::new();
    (-1337_i16).serialize(&mut buf)?;
    assert_eq!(&buf, &(-1337_i16).to_be_bytes());

    let mut x: i16 = 0;
    x.deserialize(&mut Reader::new(&buf))?;
    assert_eq!(x, -1337);
    Ok(())
}

#[test]
fn test_i32_round_trip() -> Result<(), Error> {
    let mut buf = Vec::new();
    1337_i32.serialize(&mut buf)?;
    assert_eq!(&buf, &1337_i32.to_be_bytes());

    let mut x: i32 = 0;
    x.deserialize(&mut Reader::new(&buf))?;
    assert_eq!(x, 1337);
    Ok(())
}

#[test]
fn test_i64_extremes_round_trip() -> Result<(), Error> {
    for v in [i64::MIN, -1, 0, 1, i64::MAX] {
        let mut buf = Vec::new();
        v.serialize(&mut buf)?;
        assert_eq!(&buf, &v.to_be_bytes());

        let mut x: i64 = 0;
        x.deserialize(&mut Reader::new(&buf))?;
        assert_eq!(x, v);
    }
    Ok(())
}

#[test]
fn test_i128_extremes_round_trip() -> Result<(), Error> {
    for v in [i128::MIN, -1, 0, 1, i128::MAX] {
        let mut buf = Vec::new();
        v.serialize(&mut buf)?;
        assert_eq!(&buf, &v.to_be_bytes());

        let mut x: i128 = 0;
        x.deserialize(&mut Reader::new(&buf))?;
        assert_eq!(x, v);
    }
    Ok(())
}

#[test]
fn test_prefixed_string_codec() -> Result<(), Error> {
    let s = String::from("hi");
    let mut buf = Vec::new();
    s.serialize(&mut buf)?;
    assert_eq!(&buf, &[0x02, 0x68, 0x69]);

    let mut t = String::new();
    t.deserialize(&mut Reader::new(&buf))?;
    assert_eq!(t, s);
    Ok(())
}

#[test]
fn test_truncated_integer_read() {
    let buf = [0x01];
    let mut x: u16 = 0;
    assert_eq!(
        x.deserialize(&mut Reader::new(&buf)),
        Err(Error::UnexpectedEof)
    );
}

#[test]
fn test_ver_type_nibbles() {
    let mut vt = ppproperly::VerType::default();
    assert_eq!(vt.ver(), 1);
    assert_eq!(vt.ty(), 1);

    vt.set_ver(2);
    vt.set_ty(3);
    assert_eq!(vt.ver(), 2);
    assert_eq!(vt.ty(), 3);
}
