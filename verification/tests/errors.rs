use myip::db_error::{self, DbError};
use myip::dns_error::{self, MandatedLength, TransportError, WireError};

#[test]
fn database_error_categories() {
    let msg = || "m".to_string();
    assert_eq!(db_error::error_type(&DbError::AddressNotFoundError(msg())), "maxminddb");
    assert_eq!(db_error::error_type(&DbError::InvalidDatabaseError(msg())), "maxminddb");
    assert_eq!(db_error::error_type(&DbError::IoError(msg())), "maxminddb/io");
    assert_eq!(db_error::error_type(&DbError::MapError(msg())), "maxminddb/map");
    assert_eq!(db_error::error_type(&DbError::DecodingError(msg())), "maxminddb/decoding");
}

#[test]
fn database_error_messages() {
    assert_eq!(db_error::error_message(DbError::AddressNotFoundError("a".to_string())), "a");
    assert_eq!(db_error::error_message(DbError::InvalidDatabaseError("b".to_string())), "b");
    assert_eq!(db_error::error_message(DbError::IoError("c".to_string())), "c");
    assert_eq!(db_error::error_message(DbError::MapError("d".to_string())), "d");
    assert_eq!(db_error::error_message(DbError::DecodingError("e".to_string())), "e");
}

#[test]
fn dns_error_categories() {
    assert_eq!(dns_error::error_type(&TransportError::WireError(WireError::IO)), "dns/protocol");
    assert_eq!(dns_error::error_type(&TransportError::TruncatedResponse), "dns/network");
    assert_eq!(
        dns_error::error_type(&TransportError::NetworkError("timed out".to_string())),
        "dns/network"
    );
}

#[test]
fn dns_error_messages() {
    assert_eq!(dns_error::error_message(TransportError::TruncatedResponse), "Truncated response");
    assert_eq!(
        dns_error::error_message(TransportError::NetworkError("connection reset".to_string())),
        "connection reset"
    );
    assert_eq!(
        dns_error::error_message(TransportError::WireError(WireError::OutOfBounds(513))),
        "Malformed packet: out of bounds (513)"
    );
}

#[test]
fn wire_error_of_insufficient_data() {
    assert_eq!(
        dns_error::wire_error_message(WireError::IO),
        "Malformed packet: insufficient data"
    );
}

#[test]
fn wire_error_of_an_exact_record_length() {
    let error = WireError::WrongRecordLength {
        stated_length: 5,
        mandated_length: MandatedLength::Exactly(4),
    };
    assert_eq!(
        dns_error::wire_error_message(error),
        "Malformed packet: record length should be 4, got 5"
    );
}

#[test]
fn wire_error_of_a_least_record_length() {
    let error = WireError::WrongRecordLength {
        stated_length: 0,
        mandated_length: MandatedLength::AtLeast(65535),
    };
    assert_eq!(
        dns_error::wire_error_message(error),
        "Malformed packet: record length should be at least 65535, got 0"
    );
}

#[test]
fn wire_error_of_a_label_length() {
    let error = WireError::WrongLabelLength { stated_length: 20, length_after_labels: 17 };
    assert_eq!(
        dns_error::wire_error_message(error),
        "Malformed packet: length 20 was specified, but read 17 bytes"
    );
}

#[test]
fn wire_error_of_too_much_recursion() {
    assert_eq!(
        dns_error::wire_error_message(WireError::TooMuchRecursion(vec![12, 40, 12])),
        "Malformed packet: too much recursion: [12, 40, 12]"
    );
    assert_eq!(
        dns_error::wire_error_message(WireError::TooMuchRecursion(vec![])),
        "Malformed packet: too much recursion: []"
    );
}

#[test]
fn wire_error_of_a_version() {
    let error = WireError::WrongVersion { stated_version: 255, maximum_supported_version: 0 };
    assert_eq!(
        dns_error::wire_error_message(error),
        "Malformed packet: record specifies version 255, expected up to 0"
    );
}
