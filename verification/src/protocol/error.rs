//! What can go wrong between bytes and messages.
use crate::protocol::kind::{kind_name, MessageKind};
use crate::text::{decimal, decimal_of};
use vstd::prelude::*;
use vstd::string::*;

verus! {

/// Why bytes are no message, or a message cannot become bytes.
#[derive(Debug, PartialEq, Eq)]
pub enum WireError {
    /// The kind of a frame is none of the protocol's.
    UnknownKind(u16),
    /// The frame was written by another version of the protocol.
    UnsupportedVersion(u16),
    /// The frame was not written by the daemon management protocol.
    UnsupportedManagementVersion(u16),
    /// The payload is longer than a frame header can say.
    PayloadTooLarge(usize),
    /// The input ends within a frame header.
    TruncatedHeader,
    /// The frame does not start with the protocol's mark.
    InvalidMagic,
    /// The input ends within the payload of a frame.
    UnexpectedEof,
    /// A response where a request was due.
    ResponseKind(MessageKind),
    /// A request where a response was due.
    RequestKind(MessageKind),
    /// Bytes are left after the last field.
    TrailingBytes,
    /// The payload ends within a field.
    TruncatedPayload,
    /// The end of a field lies beyond what an index can say.
    LengthOverflow,
    /// A length is larger than its field can say.
    LengthExceedsU32,
    /// A truth value is neither of the two.
    InvalidBool(u8),
    /// A session status is none of the protocol's.
    InvalidStatus(u8),
    /// Seconds and nanoseconds name no point in time.
    InvalidTimestamp,
    /// A text is not UTF-8, and what the decoder says of it.
    InvalidUtf8(String),
    /// A text is not JSON, and what the parser says of it.
    InvalidJson(String),
    /// A status request with a payload.
    UnexpectedStatusPayload,
    /// The kind of a frame is none of the management requests.
    UnknownManagementRequest(u16),
    /// The kind of a frame is none of the management responses.
    UnknownManagementResponse(u16),
}

/// The model of an error: its texts are sequences of characters.
pub enum WireFault {
    UnknownKind(u16),
    UnsupportedVersion(u16),
    UnsupportedManagementVersion(u16),
    PayloadTooLarge(usize),
    TruncatedHeader,
    InvalidMagic,
    UnexpectedEof,
    ResponseKind(MessageKind),
    RequestKind(MessageKind),
    TrailingBytes,
    TruncatedPayload,
    LengthOverflow,
    LengthExceedsU32,
    InvalidBool(u8),
    InvalidStatus(u8),
    InvalidTimestamp,
    InvalidUtf8(Seq<char>),
    InvalidJson(Seq<char>),
    UnexpectedStatusPayload,
    UnknownManagementRequest(u16),
    UnknownManagementResponse(u16),
}

impl View for WireError {
    type V = WireFault;

    open spec fn view(&self) -> WireFault {
        match *self {
            WireError::UnknownKind(kind) => WireFault::UnknownKind(kind),
            WireError::UnsupportedVersion(version) => WireFault::UnsupportedVersion(version),
            WireError::UnsupportedManagementVersion(version) =>
                WireFault::UnsupportedManagementVersion(version),
            WireError::PayloadTooLarge(length) => WireFault::PayloadTooLarge(length),
            WireError::TruncatedHeader => WireFault::TruncatedHeader,
            WireError::InvalidMagic => WireFault::InvalidMagic,
            WireError::UnexpectedEof => WireFault::UnexpectedEof,
            WireError::ResponseKind(kind) => WireFault::ResponseKind(kind),
            WireError::RequestKind(kind) => WireFault::RequestKind(kind),
            WireError::TrailingBytes => WireFault::TrailingBytes,
            WireError::TruncatedPayload => WireFault::TruncatedPayload,
            WireError::LengthOverflow => WireFault::LengthOverflow,
            WireError::LengthExceedsU32 => WireFault::LengthExceedsU32,
            WireError::InvalidBool(byte) => WireFault::InvalidBool(byte),
            WireError::InvalidStatus(byte) => WireFault::InvalidStatus(byte),
            WireError::InvalidTimestamp => WireFault::InvalidTimestamp,
            WireError::InvalidUtf8(text) => WireFault::InvalidUtf8(text@),
            WireError::InvalidJson(text) => WireFault::InvalidJson(text@),
            WireError::UnexpectedStatusPayload => WireFault::UnexpectedStatusPayload,
            WireError::UnknownManagementRequest(kind) => WireFault::UnknownManagementRequest(kind),
            WireError::UnknownManagementResponse(kind) => WireFault::UnknownManagementResponse(
                kind,
            ),
        }
    }
}

/// What an error says to its reader.
pub open spec fn fault_message(fault: WireFault) -> Seq<char> {
    match fault {
        WireFault::UnknownKind(kind) => "unknown message kind `"@ + decimal(kind as nat) + "`"@,
        WireFault::UnsupportedVersion(version) => "unsupported protocol version `"@ + decimal(
            version as nat,
        ) + "`"@,
        WireFault::UnsupportedManagementVersion(version) =>
            "unsupported daemon management protocol version `"@ + decimal(version as nat) + "`"@,
        WireFault::PayloadTooLarge(length) => "payload too large: "@ + decimal(length as nat)
            + " bytes"@,
        WireFault::TruncatedHeader => "truncated frame header"@,
        WireFault::InvalidMagic => "invalid frame magic"@,
        WireFault::UnexpectedEof => "early eof"@,
        WireFault::ResponseKind(kind) => "unexpected response message kind `"@ + kind_name(kind)
            + "` while decoding request"@,
        WireFault::RequestKind(kind) => "unexpected request message kind `"@ + kind_name(kind)
            + "` while decoding response"@,
        WireFault::TrailingBytes => "unexpected trailing payload bytes"@,
        WireFault::TruncatedPayload => "truncated payload"@,
        WireFault::LengthOverflow => "payload length overflow"@,
        WireFault::LengthExceedsU32 => "length exceeds u32"@,
        WireFault::InvalidBool(byte) => "invalid bool value `"@ + decimal(byte as nat) + "`"@,
        WireFault::InvalidStatus(byte) => "invalid session status `"@ + decimal(byte as nat)
            + "`"@,
        WireFault::InvalidTimestamp => "invalid UTC timestamp"@,
        WireFault::InvalidUtf8(text) => text,
        WireFault::InvalidJson(text) => text,
        WireFault::UnexpectedStatusPayload => "unexpected status request payload"@,
        WireFault::UnknownManagementRequest(kind) => "unknown daemon management request kind `"@
            + decimal(kind as nat) + "`"@,
        WireFault::UnknownManagementResponse(kind) => "unknown daemon management response kind `"@
            + decimal(kind as nat) + "`"@,
    }
}

fn around_number(before: &str, number: u64, after: &str) -> (r: String)
    ensures
        r@ == before@ + decimal(number as nat) + after@,
{
    let mut r = before.to_string();
    r.append(decimal_of(number).as_str());
    r.append(after);
    r
}

fn around(before: &str, middle: &str, after: &str) -> (r: String)
    ensures
        r@ == before@ + middle@ + after@,
{
    let mut r = before.to_string();
    r.append(middle);
    r.append(after);
    r
}

impl WireError {
    /// What the error says to its reader.
    pub fn message(&self) -> (r: String)
        ensures
            r@ == fault_message(self@),
    {
        match self {
            WireError::UnknownKind(kind) => around_number(
                "unknown message kind `",
                *kind as u64,
                "`",
            ),
            WireError::UnsupportedVersion(version) => around_number(
                "unsupported protocol version `",
                *version as u64,
                "`",
            ),
            WireError::UnsupportedManagementVersion(version) => around_number(
                "unsupported daemon management protocol version `",
                *version as u64,
                "`",
            ),
            WireError::PayloadTooLarge(length) => around_number(
                "payload too large: ",
                *length as u64,
                " bytes",
            ),
            WireError::TruncatedHeader => "truncated frame header".to_string(),
            WireError::InvalidMagic => "invalid frame magic".to_string(),
            WireError::UnexpectedEof => "early eof".to_string(),
            WireError::ResponseKind(kind) => around(
                "unexpected response message kind `",
                kind.name(),
                "` while decoding request",
            ),
            WireError::RequestKind(kind) => around(
                "unexpected request message kind `",
                kind.name(),
                "` while decoding response",
            ),
            WireError::TrailingBytes => "unexpected trailing payload bytes".to_string(),
            WireError::TruncatedPayload => "truncated payload".to_string(),
            WireError::LengthOverflow => "payload length overflow".to_string(),
            WireError::LengthExceedsU32 => "length exceeds u32".to_string(),
            WireError::InvalidBool(byte) => around_number(
                "invalid bool value `",
                *byte as u64,
                "`",
            ),
            WireError::InvalidStatus(byte) => around_number(
                "invalid session status `",
                *byte as u64,
                "`",
            ),
            WireError::InvalidTimestamp => "invalid UTC timestamp".to_string(),
            WireError::InvalidUtf8(text) => text.clone(),
            WireError::InvalidJson(text) => text.clone(),
            WireError::UnexpectedStatusPayload => "unexpected status request payload".to_string(),
            WireError::UnknownManagementRequest(kind) => around_number(
                "unknown daemon management request kind `",
                *kind as u64,
                "`",
            ),
            WireError::UnknownManagementResponse(kind) => around_number(
                "unknown daemon management response kind `",
                *kind as u64,
                "`",
            ),
        }
    }
}

} // verus!
