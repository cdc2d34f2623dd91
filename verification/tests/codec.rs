use rsutil::codec::{decode, encode};

#[derive(Debug, PartialEq)]
pub enum Error {
    InvalidValue(u8),
}

#[derive(Debug, PartialEq)]
enum A {
    T1,
    T2,
}

const A_CODES: [u8; 2] = [0x01, 0x02];

impl From<A> for u8 {
    fn from(a: A) -> u8 {
        match a {
            A::T1 => encode(&A_CODES, 0),
            A::T2 => encode(&A_CODES, 1),
        }
    }
}

impl TryFrom<u8> for A {
    type Error = Error;

    fn try_from(val: u8) -> Result<Self, Self::Error> {
        match decode(&A_CODES, val) {
            Ok(0) => Ok(A::T1),
            Ok(_) => Ok(A::T2),
            Err(v) => Err(Error::InvalidValue(v)),
        }
    }
}

#[test]
fn test_enum_extend() {
    assert_eq!(<A as TryFrom<u8>>::try_from(3), Err(Error::InvalidValue(3)));
    assert_eq!(<A as TryFrom<u8>>::try_from(1), Ok(A::T1));
}

#[test]
fn enum_codes_round_trip() {
    assert_eq!(u8::from(A::T1), 0x01);
    assert_eq!(u8::from(A::T2), 0x02);
    assert_eq!(A::try_from(u8::from(A::T2)), Ok(A::T2));
}

#[test]
fn decode_finds_the_first_position() {
    assert_eq!(decode(&[7, 9, 7, 3], 7), Ok(0));
    assert_eq!(decode(&[7, 9, 7, 3], 3), Ok(3));
    assert_eq!(decode(&[7, 9, 7, 3], 9), Ok(1));
}

#[test]
fn decode_rejects_unknown_values() {
    assert_eq!(decode(&[7, 9, 7, 3], 0), Err(0));
    assert_eq!(decode(&[], 5), Err(5));
    assert_eq!(decode(&[1, 2], 255), Err(255));
}

#[test]
fn encode_reads_the_table() {
    assert_eq!(encode(&[10, 20, 30], 0), 10);
    assert_eq!(encode(&[10, 20, 30], 2), 30);
}
