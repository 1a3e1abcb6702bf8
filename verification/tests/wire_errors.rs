use timestamp::error::InherentError;
use timestamp::INHERENT_IDENTIFIER;

#[test]
fn deferral_is_not_fatal_and_rejection_is() {
    assert!(!InherentError::ValidAtTimestamp(47).is_fatal_error());
    assert!(InherentError::Other("anything".to_owned()).is_fatal_error());
}

#[test]
fn deferral_encodes_as_tag_zero_and_little_endian_time() {
    let e = InherentError::ValidAtTimestamp(47);
    let mut expected: Vec<u8> = vec![0];
    expected.extend_from_slice(&47u64.to_le_bytes());
    assert_eq!(e.encode(), expected);
}

#[test]
fn fatal_error_encodes_as_tag_one_and_the_reason() {
    let e = InherentError::Other("abc".to_owned());
    assert_eq!(e.encode(), vec![1, b'a', b'b', b'c']);
}

#[test]
fn fatality_is_read_off_the_first_byte_alone() {
    let deferral = InherentError::ValidAtTimestamp(123456789);
    let fatal = InherentError::Other("reason".to_owned());
    assert_eq!(deferral.encode()[0], 0);
    assert_eq!(fatal.encode()[0], 1);
}

#[test]
fn deferral_round_trips_through_the_wire_form() {
    let e = InherentError::ValidAtTimestamp(123456789);
    let decoded = InherentError::decode(&e.encode());
    assert_eq!(decoded, Some(e));
}

#[test]
fn fatal_error_round_trips_with_a_non_ascii_reason() {
    let e = InherentError::Other("zu wéit an der Zukunft ☃".to_owned());
    let decoded = InherentError::decode(&e.encode());
    assert_eq!(decoded, Some(e));
}

#[test]
fn malformed_wire_bytes_decode_to_none() {
    // Empty input, an unknown tag, a truncated deferral, an overlong
    // deferral, and a reason that is not valid UTF-8.
    assert_eq!(InherentError::decode(&[]), None);
    assert_eq!(InherentError::decode(&[2, 1, 2, 3]), None);
    assert_eq!(InherentError::decode(&[0, 1, 2, 3]), None);
    assert_eq!(InherentError::decode(&[0, 1, 2, 3, 4, 5, 6, 7, 8, 9]), None);
    assert_eq!(InherentError::decode(&[1, 0xff, 0xfe]), None);
}

#[test]
fn try_from_reads_only_the_timestamp_identifier() {
    let e = InherentError::ValidAtTimestamp(47);
    let wire = e.encode();
    assert_eq!(InherentError::try_from(&INHERENT_IDENTIFIER, &wire), Some(e));
    assert_eq!(InherentError::try_from(b"timstap1", &wire), None);
}
