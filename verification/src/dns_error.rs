//! Failures of the DNS exchange, their category and their message.

use crate::text::{decimal, number_list, push_decimal, push_number_list};
use vstd::prelude::*;
use vstd::string::*;

verus! {

/// The length that a record's type prescribes.
#[derive(Clone, Debug, PartialEq, Eq)]
pub enum MandatedLength {
    Exactly(u16),
    AtLeast(u16),
}

/// A violation of the wire format, as the codec reports it.
#[derive(Clone, Debug, PartialEq, Eq)]
pub enum WireError {
    /// The packet ended before the data did.
    IO,
    /// A record states a length that its type does not allow.
    WrongRecordLength { stated_length: u16, mandated_length: MandatedLength },
    /// The labels of a record fill another number of bytes than stated.
    WrongLabelLength { stated_length: u16, length_after_labels: u16 },
    /// Compressed labels pointed at each other too many times.
    TooMuchRecursion(Vec<u16>),
    /// A compressed label points outside the packet.
    OutOfBounds(u16),
    /// A record has a version above the one that is supported.
    WrongVersion { stated_version: u8, maximum_supported_version: u8 },
}

/// A failure of the exchange with the resolver.
#[derive(Clone, Debug, PartialEq, Eq)]
pub enum TransportError {
    /// The response violates the wire format.
    WireError(WireError),
    /// The response was cut short by the transport.
    TruncatedResponse,
    /// The network failed; the field holds the system's message.
    NetworkError(String),
}

/// The category of a failure: protocol for a wire-format violation,
/// network for everything else.
pub open spec fn error_type_text(error: &TransportError) -> Seq<char> {
    if error is WireError {
        "dns/protocol"@
    } else {
        "dns/network"@
    }
}

/// The message of a wire-format violation.
pub open spec fn wire_error_text(error: WireError) -> Seq<char> {
    match error {
        WireError::IO => "Malformed packet: insufficient data"@,
        WireError::WrongRecordLength {
            stated_length,
            mandated_length: MandatedLength::Exactly(len),
        } => "Malformed packet: record length should be "@ + decimal(len as nat) + ", got "@
            + decimal(stated_length as nat),
        WireError::WrongRecordLength {
            stated_length,
            mandated_length: MandatedLength::AtLeast(len),
        } => "Malformed packet: record length should be at least "@ + decimal(len as nat)
            + ", got "@ + decimal(stated_length as nat),
        WireError::WrongLabelLength { stated_length, length_after_labels } =>
            "Malformed packet: length "@ + decimal(stated_length as nat)
            + " was specified, but read "@ + decimal(length_after_labels as nat) + " bytes"@,
        WireError::TooMuchRecursion(indices) => "Malformed packet: too much recursion: "@
            + number_list(indices@),
        WireError::OutOfBounds(index) => "Malformed packet: out of bounds ("@ + decimal(
            index as nat,
        ) + ")"@,
        WireError::WrongVersion { stated_version, maximum_supported_version } =>
            "Malformed packet: record specifies version "@ + decimal(stated_version as nat)
            + ", expected up to "@ + decimal(maximum_supported_version as nat),
    }
}

/// The message of a failure of the exchange.
pub open spec fn error_message_text(error: TransportError) -> Seq<char> {
    match error {
        TransportError::WireError(e) => wire_error_text(e),
        TransportError::TruncatedResponse => "Truncated response"@,
        TransportError::NetworkError(message) => message@,
    }
}

/// Names the category of `error`.
pub fn error_type(error: &TransportError) -> (category: String)
    ensures
        category@ == error_type_text(error),
{
    if let TransportError::WireError(_) = error {
        String::from_str("dns/protocol")
    } else {
        String::from_str("dns/network")
    }
}

/// Writes the message of `error`.
pub fn error_message(error: TransportError) -> (message: String)
    ensures
        message@ == error_message_text(error),
{
    match error {
        TransportError::WireError(e) => wire_error_message(e),
        TransportError::TruncatedResponse => String::from_str("Truncated response"),
        TransportError::NetworkError(message) => message,
    }
}

/// Writes the message of a wire-format violation.
pub fn wire_error_message(error: WireError) -> (message: String)
    ensures
        message@ == wire_error_text(error),
{
    match error {
        WireError::IO => String::from_str("Malformed packet: insufficient data"),
        WireError::WrongRecordLength {
            stated_length,
            mandated_length: MandatedLength::Exactly(len),
        } => {
            let mut message = String::from_str("Malformed packet: record length should be ");
            push_decimal(&mut message, len as u64);
            message.append(", got ");
            push_decimal(&mut message, stated_length as u64);
            message
        },
        WireError::WrongRecordLength {
            stated_length,
            mandated_length: MandatedLength::AtLeast(len),
        } => {
            let mut message = String::from_str(
                "Malformed packet: record length should be at least ",
            );
            push_decimal(&mut message, len as u64);
            message.append(", got ");
            push_decimal(&mut message, stated_length as u64);
            message
        },
        WireError::WrongLabelLength { stated_length, length_after_labels } => {
            let mut message = String::from_str("Malformed packet: length ");
            push_decimal(&mut message, stated_length as u64);
            message.append(" was specified, but read ");
            push_decimal(&mut message, length_after_labels as u64);
            message.append(" bytes");
            message
        },
        WireError::TooMuchRecursion(indices) => {
            let mut message = String::from_str("Malformed packet: too much recursion: ");
            push_number_list(&mut message, &indices);
            message
        },
        WireError::OutOfBounds(index) => {
            let mut message = String::from_str("Malformed packet: out of bounds (");
            push_decimal(&mut message, index as u64);
            message.append(")");
            message
        },
        WireError::WrongVersion { stated_version, maximum_supported_version } => {
            let mut message = String::from_str("Malformed packet: record specifies version ");
            push_decimal(&mut message, stated_version as u64);
            message.append(", expected up to ");
            push_decimal(&mut message, maximum_supported_version as u64);
            message
        },
    }
}

} // verus!
