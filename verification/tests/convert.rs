use outcome::convert::{AttemptFrom, AttemptInto};
use outcome::Outcome;
use outcome::Outcome::{Failure, Mistake, Success};

#[derive(Debug, PartialOrd, PartialEq, Ord, Eq, Hash)]
enum Version {
    V1,
    V2,
}

#[derive(Debug, PartialOrd, PartialEq, Ord, Eq, Hash)]
struct EmptyInput;

#[derive(Debug, PartialOrd, PartialEq, Ord, Eq, Hash)]
enum ParseError {
    InvalidVersion(u8),
}

impl<const N: usize> AttemptFrom<&[u8; N]> for Version {
    type Mistake = EmptyInput;
    type Failure = ParseError;

    fn attempt_from(value: &[u8; N]) -> Outcome<Self, Self::Mistake, Self::Failure> {
        match value.first() {
            None => Mistake(EmptyInput),
            Some(&1) => Success(Version::V1),
            Some(&2) => Success(Version::V2),
            Some(&value) => Failure(ParseError::InvalidVersion(value)),
        }
    }
}

type ParseOutcome = Outcome<Version, EmptyInput, ParseError>;

#[test]
fn attempt_from_parses_a_version_header() {
    let empty = Version::attempt_from(&[]);
    let v1 = Version::attempt_from(&[1u8]);
    let v2 = Version::attempt_from(&[2u8]);
    let v3 = Version::attempt_from(&[3u8]);
    assert_eq!(empty, Mistake(EmptyInput));
    assert_eq!(v1, Success(Version::V1));
    assert_eq!(v2, Success(Version::V2));
    assert_eq!(v3, Failure(ParseError::InvalidVersion(3)));
}

#[test]
fn attempt_into_mirrors_attempt_from() {
    let empty: ParseOutcome = (&[]).attempt_into();
    let v1: ParseOutcome = (&[1u8]).attempt_into();
    let v2: ParseOutcome = (&[2u8]).attempt_into();
    let v3: ParseOutcome = (&[3u8]).attempt_into();
    assert_eq!(empty, Version::attempt_from(&[]));
    assert_eq!(v1, Version::attempt_from(&[1u8]));
    assert_eq!(v2, Version::attempt_from(&[2u8]));
    assert_eq!(v3, Version::attempt_from(&[3u8]));
    assert_eq!(empty, Mistake(EmptyInput));
    assert_eq!(v1, Success(Version::V1));
    assert_eq!(v2, Success(Version::V2));
    assert_eq!(v3, Failure(ParseError::InvalidVersion(3)));
}

#[test]
fn total_conversions_convert_for_free() {
    let x: Outcome<u16, core::convert::Infallible, core::convert::Infallible> =
        1u8.attempt_into();
    assert_eq!(x, Success(1u16));
    assert!(x.is_success());
}
