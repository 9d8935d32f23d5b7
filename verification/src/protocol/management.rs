//! The protocol that manages the daemon. Its payloads are JSON, so that clients and daemons of
//! different versions understand each other.
use crate::protocol::error::{WireError, WireFault};
use crate::protocol::frame::{
    find_request, frame_bytes, frame_kind, frame_round_trip, parse_frame, read_raw_frame,
    write_frame, FrameHeader, DAEMON_MANAGEMENT_VERSION,
};
use crate::protocol::request::{decode_request, request_body, request_kind, Request};
use crate::text::{decimal, decimal_of, digit};
use vstd::prelude::*;
use vstd::string::*;
use vstd::utf8::*;

verus! {

pub const DAEMON_STATUS_REQUEST_KIND: u16 = 20_001;

pub const DAEMON_SHUTDOWN_REQUEST_KIND: u16 = 20_002;

pub const DAEMON_STATUS_RESPONSE_KIND: u16 = 21_001;

pub const DAEMON_SHUTDOWN_RESPONSE_KIND: u16 = 21_002;

pub const DAEMON_ERROR_RESPONSE_KIND: u16 = 21_099;

/// Which daemon runs, and where.
#[derive(Debug, PartialEq, Eq)]
pub struct DaemonManagementStatus {
    pub daemon_version: String,
    pub protocol_version: u16,
    pub pid: u32,
    pub root: String,
    pub socket: String,
    pub running_sessions: bool,
}

/// What can be asked of any daemon.
#[derive(Debug, PartialEq, Eq)]
pub enum DaemonManagementRequest {
    Status,
    Shutdown { force: bool },
}

/// What any daemon answers.
#[derive(Debug, PartialEq, Eq)]
pub enum DaemonManagementResponse {
    Status { status: DaemonManagementStatus },
    Shutdown { stopped: bool, running_sessions: bool, message: String },
    Error { message: String },
}

/// A request of either protocol.
#[derive(Debug, PartialEq)]
pub enum IncomingRequest {
    Standard(Request),
    DaemonManagement(DaemonManagementRequest),
}

/// A request of either protocol, whose JSON is still to be read.
#[derive(Debug, PartialEq)]
pub enum IncomingFrame {
    Standard(Request),
    DaemonManagement { kind: u16, payload: Vec<u8> },
}

// ---------------------------------------------------------------------------
// JSON texts
// ---------------------------------------------------------------------------
/// A hexadecimal digit.
pub open spec fn hex_digit(n: int) -> char {
    if n < 10 {
        digit(n as nat)
    } else if n == 10 {
        'a'
    } else if n == 11 {
        'b'
    } else if n == 12 {
        'c'
    } else if n == 13 {
        'd'
    } else if n == 14 {
        'e'
    } else {
        'f'
    }
}

/// What stands for a character within a JSON string.
pub open spec fn json_escaped(c: char) -> Seq<char> {
    if c == '"' {
        seq!['\\', '"']
    } else if c == '\\' {
        seq!['\\', '\\']
    } else if c == '\u{8}' {
        seq!['\\', 'b']
    } else if c == '\u{c}' {
        seq!['\\', 'f']
    } else if c == '\n' {
        seq!['\\', 'n']
    } else if c == '\r' {
        seq!['\\', 'r']
    } else if c == '\t' {
        seq!['\\', 't']
    } else if (c as u32) < 32 {
        seq!['\\', 'u', '0', '0', hex_digit(c as int / 16), hex_digit(c as int % 16)]
    } else {
        seq![c]
    }
}

/// What stands for a text within a JSON string.
pub open spec fn json_contents(text: Seq<char>) -> Seq<char>
    decreases text.len(),
{
    if text.len() == 0 {
        Seq::empty()
    } else {
        json_contents(text.drop_last()) + json_escaped(text.last())
    }
}

/// A text as a JSON string: in quotes, with escapes for quotes, backslashes and control characters.
pub open spec fn json_string_text(text: Seq<char>) -> Seq<char> {
    seq!['"'] + json_contents(text) + seq!['"']
}

/// `serde_json::to_string` of a string.
///
/// Claimed: quotes around the text, and an escape for each quote, backslash and control character
/// below the blank: a letter for those that have one, four hexadecimal digits for the others. To
/// write a string cannot fail, since no writer is involved and no map with other keys.
#[verifier::external_body]
fn json_string(text: &str) -> (r: String)
    ensures
        r@ == json_string_text(text@),
{
    serde_json::to_string(text).unwrap()
}

/// A truth value in JSON.
pub open spec fn json_bool_text(value: bool) -> Seq<char> {
    if value {
        "true"@
    } else {
        "false"@
    }
}

fn json_bool(value: bool) -> (r: &'static str)
    ensures
        r@ == json_bool_text(value),
{
    if value {
        "true"
    } else {
        "false"
    }
}

/// The payload of a management request.
pub open spec fn management_request_text(request: DaemonManagementRequest) -> Seq<char> {
    match request {
        DaemonManagementRequest::Status => Seq::empty(),
        DaemonManagementRequest::Shutdown { force } => "{\"force\":"@ + json_bool_text(force)
            + "}"@,
    }
}

/// The number of a management request.
pub open spec fn management_request_kind(request: DaemonManagementRequest) -> u16 {
    match request {
        DaemonManagementRequest::Status => DAEMON_STATUS_REQUEST_KIND,
        DaemonManagementRequest::Shutdown { .. } => DAEMON_SHUTDOWN_REQUEST_KIND,
    }
}

/// The payload of a management response.
pub open spec fn management_response_text(response: DaemonManagementResponse) -> Seq<char> {
    match response {
        DaemonManagementResponse::Status { status } => "{\"daemon_version\":"@ + json_string_text(
            status.daemon_version@,
        ) + ",\"protocol_version\":"@ + decimal(status.protocol_version as nat) + ",\"pid\":"@
            + decimal(status.pid as nat) + ",\"root\":"@ + json_string_text(status.root@)
            + ",\"socket\":"@ + json_string_text(status.socket@) + ",\"running_sessions\":"@
            + json_bool_text(status.running_sessions) + "}"@,
        DaemonManagementResponse::Shutdown { stopped, running_sessions, message } =>
            "{\"message\":"@ + json_string_text(message@) + ",\"running_sessions\":"@
            + json_bool_text(running_sessions) + ",\"stopped\":"@ + json_bool_text(stopped)
            + "}"@,
        DaemonManagementResponse::Error { message } => "{\"message\":"@ + json_string_text(
            message@,
        ) + "}"@,
    }
}

/// The number of a management response.
pub open spec fn management_response_kind(response: DaemonManagementResponse) -> u16 {
    match response {
        DaemonManagementResponse::Status { .. } => DAEMON_STATUS_RESPONSE_KIND,
        DaemonManagementResponse::Shutdown { .. } => DAEMON_SHUTDOWN_RESPONSE_KIND,
        DaemonManagementResponse::Error { .. } => DAEMON_ERROR_RESPONSE_KIND,
    }
}

/// The frame of a message of the management protocol.
pub open spec fn management_frame(kind: u16, text: Seq<char>) -> Seq<u8> {
    frame_bytes(FrameHeader { version: DAEMON_MANAGEMENT_VERSION, kind }, encode_utf8(text))
}

// ---------------------------------------------------------------------------
// Writing
// ---------------------------------------------------------------------------
/// The number and the payload of a management request.
pub fn encode_daemon_management_request(request: &DaemonManagementRequest) -> (r: (u16, String))
    ensures
        r.0 == management_request_kind(*request),
        r.1@ == management_request_text(*request),
{
    match request {
        DaemonManagementRequest::Status => (DAEMON_STATUS_REQUEST_KIND, String::new()),
        DaemonManagementRequest::Shutdown { force } => {
            let mut text = "{\"force\":".to_string();
            text.append(json_bool(*force));
            text.append("}");
            (DAEMON_SHUTDOWN_REQUEST_KIND, text)
        },
    }
}

/// The number and the payload of a management response.
pub fn encode_daemon_management_response(response: &DaemonManagementResponse) -> (r: (u16, String))
    ensures
        r.0 == management_response_kind(*response),
        r.1@ == management_response_text(*response),
{
    match response {
        DaemonManagementResponse::Status { status } => {
            let mut text = "{\"daemon_version\":".to_string();
            text.append(json_string(status.daemon_version.as_str()).as_str());
            text.append(",\"protocol_version\":");
            text.append(decimal_of(status.protocol_version as u64).as_str());
            text.append(",\"pid\":");
            text.append(decimal_of(status.pid as u64).as_str());
            text.append(",\"root\":");
            text.append(json_string(status.root.as_str()).as_str());
            text.append(",\"socket\":");
            text.append(json_string(status.socket.as_str()).as_str());
            text.append(",\"running_sessions\":");
            text.append(json_bool(status.running_sessions));
            text.append("}");
            (DAEMON_STATUS_RESPONSE_KIND, text)
        },
        DaemonManagementResponse::Shutdown { stopped, running_sessions, message } => {
            let mut text = "{\"message\":".to_string();
            text.append(json_string(message.as_str()).as_str());
            text.append(",\"running_sessions\":");
            text.append(json_bool(*running_sessions));
            text.append(",\"stopped\":");
            text.append(json_bool(*stopped));
            text.append("}");
            (DAEMON_SHUTDOWN_RESPONSE_KIND, text)
        },
        DaemonManagementResponse::Error { message } => {
            let mut text = "{\"message\":".to_string();
            text.append(json_string(message.as_str()).as_str());
            text.append("}");
            (DAEMON_ERROR_RESPONSE_KIND, text)
        },
    }
}

/// Writes the frame of a management request.
pub fn write_daemon_management_request(
    writer: &mut Vec<u8>,
    request: &DaemonManagementRequest,
) -> (r: Result<(), WireError>)
    ensures
        ({
            let text = management_request_text(*request);
            if encode_utf8(text).len() <= u32::MAX {
                &&& r is Ok
                &&& final(writer)@ == old(writer)@ + management_frame(
                    management_request_kind(*request),
                    text,
                )
            } else {
                &&& r is Err
                &&& r->Err_0@ == WireFault::PayloadTooLarge(encode_utf8(text).len() as usize)
                &&& final(writer)@ == old(writer)@
            }
        }),
{
    let (kind, payload) = encode_daemon_management_request(request);
    write_frame(
        writer,
        FrameHeader { version: DAEMON_MANAGEMENT_VERSION, kind },
        payload.as_str().as_bytes(),
    )
}

/// Writes the frame of a management response.
pub fn write_daemon_management_response(
    writer: &mut Vec<u8>,
    response: &DaemonManagementResponse,
) -> (r: Result<(), WireError>)
    ensures
        ({
            let text = management_response_text(*response);
            if encode_utf8(text).len() <= u32::MAX {
                &&& r is Ok
                &&& final(writer)@ == old(writer)@ + management_frame(
                    management_response_kind(*response),
                    text,
                )
            } else {
                &&& r is Err
                &&& r->Err_0@ == WireFault::PayloadTooLarge(encode_utf8(text).len() as usize)
                &&& final(writer)@ == old(writer)@
            }
        }),
{
    let (kind, payload) = encode_daemon_management_response(response);
    write_frame(
        writer,
        FrameHeader { version: DAEMON_MANAGEMENT_VERSION, kind },
        payload.as_str().as_bytes(),
    )
}

// ---------------------------------------------------------------------------
// Reading
// ---------------------------------------------------------------------------
/// The management request of the given number. What the JSON of a shutdown request says of
/// `force` is handed in, or why it could not be read.
pub fn decode_daemon_management_request(kind: u16, payload: &[u8], force: Result<bool, String>) -> (r:
    Result<DaemonManagementRequest, WireError>)
    ensures
        if kind == DAEMON_STATUS_REQUEST_KIND {
            if payload@.len() == 0 {
                r == Ok::<DaemonManagementRequest, WireError>(DaemonManagementRequest::Status)
            } else {
                r is Err && r->Err_0@ == WireFault::UnexpectedStatusPayload
            }
        } else if kind == DAEMON_SHUTDOWN_REQUEST_KIND {
            match force {
                Ok(force) => r == Ok::<DaemonManagementRequest, WireError>(
                    DaemonManagementRequest::Shutdown { force },
                ),
                Err(error) => r is Err && r->Err_0@ == WireFault::InvalidJson(error@),
            }
        } else {
            r is Err && r->Err_0@ == WireFault::UnknownManagementRequest(kind)
        },
{
    if kind == DAEMON_STATUS_REQUEST_KIND {
        if payload.len() != 0 {
            return Err(WireError::UnexpectedStatusPayload);
        }
        Ok(DaemonManagementRequest::Status)
    } else if kind == DAEMON_SHUTDOWN_REQUEST_KIND {
        match force {
            Ok(force) => Ok(DaemonManagementRequest::Shutdown { force }),
            Err(error) => Err(WireError::InvalidJson(error)),
        }
    } else {
        Err(WireError::UnknownManagementRequest(kind))
    }
}

/// What the JSON of a management response can be.
#[derive(Clone, Copy, Debug, PartialEq, Eq, Structural)]
pub enum ManagementResponseShape {
    Status,
    Shutdown,
    Error,
}

/// What the JSON behind a frame header of the management protocol is.
pub fn management_response_shape(header: FrameHeader) -> (r: Result<
    ManagementResponseShape,
    WireError,
>)
    ensures
        match response_shape(header) {
            Ok(shape) => r == Ok::<ManagementResponseShape, WireError>(shape),
            Err(fault) => r is Err && r->Err_0@ == fault,
        },
{
    if header.version != DAEMON_MANAGEMENT_VERSION {
        Err(WireError::UnsupportedManagementVersion(header.version))
    } else if header.kind == DAEMON_STATUS_RESPONSE_KIND {
        Ok(ManagementResponseShape::Status)
    } else if header.kind == DAEMON_SHUTDOWN_RESPONSE_KIND {
        Ok(ManagementResponseShape::Shutdown)
    } else if header.kind == DAEMON_ERROR_RESPONSE_KIND {
        Ok(ManagementResponseShape::Error)
    } else {
        Err(WireError::UnknownManagementResponse(header.kind))
    }
}

/// The shape that a management response has.
pub open spec fn shape_of(response: DaemonManagementResponse) -> ManagementResponseShape {
    match response {
        DaemonManagementResponse::Status { .. } => ManagementResponseShape::Status,
        DaemonManagementResponse::Shutdown { .. } => ManagementResponseShape::Shutdown,
        DaemonManagementResponse::Error { .. } => ManagementResponseShape::Error,
    }
}

/// What the frame at the start of the input is, in either protocol.
pub open spec fn finds_incoming(b: Seq<u8>, got: Result<Option<(IncomingFrame, usize)>, WireError>) -> bool {
    match parse_frame(b) {
        Ok(Some(frame)) => if frame.header.version == DAEMON_MANAGEMENT_VERSION {
            got matches Ok(Some((IncomingFrame::DaemonManagement { kind, payload }, length)))
                && kind == frame.header.kind && payload@ == frame.payload && length
                == frame.length
        } else {
            match find_request(b) {
                Ok(Some((kind, body, length))) => got matches Ok(
                    Some((IncomingFrame::Standard(request), used)),
                ) && request_kind(request) == kind && request_body(request) == body && used
                    == length,
                Ok(None) => false,
                Err(fault) => got is Err && got->Err_0@ == fault,
            }
        },
        Ok(None) => got matches Ok(None),
        Err(fault) => got is Err && got->Err_0@ == fault,
    }
}

/// The request at the start of the input, in either protocol, and how much of the input it is;
/// nothing at the end of the input.
pub fn read_incoming_request(reader: &[u8]) -> (r: Result<
    Option<(IncomingFrame, usize)>,
    WireError,
>)
    ensures
        finds_incoming(reader@, r),
{
    match read_raw_frame(reader) {
        Ok(Some((header, payload, length))) => {
            if header.version == DAEMON_MANAGEMENT_VERSION {
                return Ok(
                    Some((IncomingFrame::DaemonManagement { kind: header.kind, payload }, length)),
                );
            }
            match frame_kind(header) {
                Ok(kind) => match decode_request(kind, payload.as_slice()) {
                    Ok(request) => Ok(Some((IncomingFrame::Standard(request), length))),
                    Err(error) => Err(error),
                },
                Err(error) => Err(error),
            }
        },
        Ok(None) => Ok(None),
        Err(error) => Err(error),
    }
}

/// What the JSON behind a frame header of the management protocol is.
pub open spec fn response_shape(header: FrameHeader) -> Result<ManagementResponseShape, WireFault> {
    if header.version != DAEMON_MANAGEMENT_VERSION {
        Err(WireFault::UnsupportedManagementVersion(header.version))
    } else if header.kind == DAEMON_STATUS_RESPONSE_KIND {
        Ok(ManagementResponseShape::Status)
    } else if header.kind == DAEMON_SHUTDOWN_RESPONSE_KIND {
        Ok(ManagementResponseShape::Shutdown)
    } else if header.kind == DAEMON_ERROR_RESPONSE_KIND {
        Ok(ManagementResponseShape::Error)
    } else {
        Err(WireFault::UnknownManagementResponse(header.kind))
    }
}

/// The management response at the start of the input: the shape of its JSON, the bytes of its
/// JSON, and how much of the input its frame is.
pub open spec fn find_management_response(b: Seq<u8>) -> Result<
    Option<(ManagementResponseShape, Seq<u8>, int)>,
    WireFault,
> {
    match parse_frame(b) {
        Ok(Some(frame)) => match response_shape(frame.header) {
            Ok(shape) => Ok(Some((shape, frame.payload, frame.length))),
            Err(fault) => Err(fault),
        },
        Ok(None) => Ok(None),
        Err(fault) => Err(fault),
    }
}

/// A management response is found at the start of the input with the shape and the text that were
/// written, whatever follows it.
pub proof fn management_response_round_trip(response: DaemonManagementResponse, rest: Seq<u8>)
    requires
        encode_utf8(management_response_text(response)).len() <= u32::MAX,
    ensures
        ({
            let text = management_response_text(response);
            let frame = management_frame(management_response_kind(response), text);
            find_management_response(frame + rest) == Ok::<
                Option<(ManagementResponseShape, Seq<u8>, int)>,
                WireFault,
            >(Some((shape_of(response), encode_utf8(text), frame.len() as int)))
        }),
{
    frame_round_trip(
        FrameHeader {
            version: DAEMON_MANAGEMENT_VERSION,
            kind: management_response_kind(response),
        },
        encode_utf8(management_response_text(response)),
        rest,
    );
}

/// A management request is found at the start of the input with the kind and the text that were
/// written, whatever follows it.
pub proof fn management_request_round_trip(
    request: DaemonManagementRequest,
    rest: Seq<u8>,
    got: Result<Option<(IncomingFrame, usize)>, WireError>,
)
    requires
        encode_utf8(management_request_text(request)).len() <= u32::MAX,
        finds_incoming(
            management_frame(management_request_kind(request), management_request_text(request))
                + rest,
            got,
        ),
    ensures
        got matches Ok(Some((IncomingFrame::DaemonManagement { kind, payload }, _))) && kind
            == management_request_kind(request) && payload@ == encode_utf8(
            management_request_text(request),
        ),
{
    frame_round_trip(
        FrameHeader { version: DAEMON_MANAGEMENT_VERSION, kind: management_request_kind(request) },
        encode_utf8(management_request_text(request)),
        rest,
    );
}

/// The response at the start of the input, as the shape and the text of its JSON, and how much of
/// the input it is; nothing at the end of the input.
pub fn read_daemon_management_response(reader: &[u8]) -> (r: Result<
    Option<(ManagementResponseShape, Vec<u8>, usize)>,
    WireError,
>)
    ensures
        match find_management_response(reader@) {
            Ok(Some((due, bytes, used))) => r matches Ok(Some((shape, payload, length))) && shape
                == due && payload@ == bytes && length == used,
            Ok(None) => r matches Ok(None),
            Err(fault) => r is Err && r->Err_0@ == fault,
        },
{
    match read_raw_frame(reader) {
        Ok(Some((header, payload, length))) => match management_response_shape(header) {
            Ok(shape) => Ok(Some((shape, payload, length))),
            Err(error) => Err(error),
        },
        Ok(None) => Ok(None),
        Err(error) => Err(error),
    }
}

} // verus!
