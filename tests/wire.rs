use mklink::link_error::{DuringLinkError, LinkError, OSError};
use mklink::request::{raw_output, AnyLinkError};
use mklink::wire::{decode, encode};

fn sample(error: DuringLinkError, program: Option<&str>) -> LinkError<DuringLinkError> {
    LinkError { error, target: true, link: false, program: program.map(|p| p.to_string()) }
}

#[test]
fn round_trip_already_exists() {
    let e = LinkError { error: DuringLinkError::LinkAlreadyExists, target: false, link: true, program: None };
    assert_eq!(decode(&encode(&e)), Some(e));
}

#[test]
fn round_trip_os_error() {
    for code in [0, 5, 183, -1, i32::MIN, i32::MAX].iter() {
        let e = sample(DuringLinkError::OS(OSError(*code)), Some("mklink.exe"));
        assert_eq!(decode(&encode(&e)), Some(e));
    }
}

#[test]
fn round_trip_non_ascii_program() {
    let e = sample(DuringLinkError::OS(OSError(2)), Some("wsl-pfad-ü"));
    assert_eq!(decode(&encode(&e)), Some(e));
}

#[test]
fn encoding_exact_bytes() {
    let e = LinkError { error: DuringLinkError::OS(OSError(5)), target: true, link: true, program: None };
    assert_eq!(encode(&e), vec![1, 0, 0, 0, 5, 0, 0, 0, 1, 1, 0]);
    let e = LinkError { error: DuringLinkError::LinkAlreadyExists, target: false, link: true, program: Some("ab".to_string()) };
    assert_eq!(encode(&e), vec![0, 0, 0, 0, 0, 1, 1, 2, 0, 0, 0, 0, 0, 0, 0, 97, 98]);
}

#[test]
fn encoding_matches_bincode_layout() {
    let e = sample(DuringLinkError::OS(OSError(-3)), Some("wslpath"));
    let expected = bincode::serialize(&(1u32, -3i32, true, false, Some("wslpath".to_string()))).unwrap();
    assert_eq!(encode(&e), expected);
    let e = LinkError { error: DuringLinkError::LinkAlreadyExists, target: false, link: true, program: None };
    let expected = bincode::serialize(&(0u32, false, true, None::<String>)).unwrap();
    assert_eq!(encode(&e), expected);
}

#[test]
fn decode_ignores_trailing_bytes() {
    let e = sample(DuringLinkError::LinkAlreadyExists, None);
    let mut bytes = encode(&e);
    bytes.push(42);
    assert_eq!(decode(&bytes), Some(e));
}

#[test]
fn decode_rejects_malformed() {
    assert_eq!(decode(&[]), None);
    assert_eq!(decode(&[1, 0, 0, 0, 5, 0]), None);
    assert_eq!(decode(&[2, 0, 0, 0, 0, 0, 0]), None);
    assert_eq!(decode(&[0, 0, 0, 0, 2, 0, 0]), None);
    assert_eq!(decode(&[0, 0, 0, 0, 0, 0, 3]), None);
    assert_eq!(decode(&[0, 0, 0, 0, 0, 0, 1, 9, 0, 0, 0, 0, 0, 0, 0, 97]), None);
    assert_eq!(decode(&[0, 0, 0, 0, 0, 0, 1, 1, 0, 0, 0, 0, 0, 0, 0, 0xff]), None);
}

#[test]
fn raw_output_only_for_link_errors() {
    let during = LinkError { error: AnyLinkError::During(DuringLinkError::OS(OSError(5))), target: true, link: true, program: None };
    assert_eq!(raw_output(&during), Some(vec![1, 0, 0, 0, 5, 0, 0, 0, 1, 1, 0]));
    let invalid = LinkError { error: AnyLinkError::InvalidArgs, target: false, link: false, program: None };
    assert_eq!(raw_output(&invalid), None);
}
