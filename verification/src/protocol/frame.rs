//! Frames: a header that says version, kind and length, and the payload behind it.
use crate::protocol::body::{body_bytes, body_fits, body_valid, numbers_round_trip, Body};
use crate::protocol::error::{WireError, WireFault};
use crate::protocol::field::{le16, le32, put_u16, put_u32, put_slice, value16, value32};
use crate::protocol::kind::{code_kind, kind_code, kind_codes_are_distinct, MessageKind};
use crate::protocol::request::{
    decode_request, encode_request, parse_request, request_body, request_kind, request_round_trip,
    Request,
};
use crate::protocol::response::{
    decode_response, encode_response, parse_response, response_body, response_kind,
    response_round_trip, Response,
};
use vstd::prelude::*;

verus! {

/// The version of the protocol between the daemon and its clients.
pub const PROTOCOL_VERSION: u16 = 10;

/// The version of the protocol that manages the daemon, which outlives the other.
pub const DAEMON_MANAGEMENT_VERSION: u16 = 1;

/// The mark at the start of every frame.
pub const FRAME_MAGIC: u32 = 0x4147_4450;

/// The length of a frame header.
pub const FRAME_HEADER_LEN: usize = 16;

/// What a frame header says of the payload behind it.
#[derive(Clone, Copy, Debug, PartialEq, Eq, Structural)]
pub struct FrameHeader {
    pub version: u16,
    pub kind: u16,
}

/// The header of a frame: mark, version, kind, two unused numbers, length of the payload.
pub open spec fn header_bytes(header: FrameHeader, length: int) -> Seq<u8> {
    le32(FRAME_MAGIC as int) + le16(header.version as int) + le16(header.kind as int) + le16(0)
        + le16(0) + le32(length)
}

/// A frame.
pub open spec fn frame_bytes(header: FrameHeader, payload: Seq<u8>) -> Seq<u8> {
    header_bytes(header, payload.len() as int) + payload
}

/// A frame as a reader finds it: its header, its payload, and how much of the input it is.
pub struct FoundFrame {
    pub header: FrameHeader,
    pub payload: Seq<u8>,
    pub length: int,
}

/// The frame at the start of the input, if the input is not at its end.
pub open spec fn parse_frame(b: Seq<u8>) -> Result<Option<FoundFrame>, WireFault> {
    if b.len() == 0 {
        Ok(None)
    } else if b.len() < FRAME_HEADER_LEN {
        Err(WireFault::TruncatedHeader)
    } else if value32(b.subrange(0, 4)) != FRAME_MAGIC {
        Err(WireFault::InvalidMagic)
    } else {
        let length = value32(b.subrange(12, 16));
        if FRAME_HEADER_LEN + length > b.len() {
            Err(WireFault::UnexpectedEof)
        } else {
            Ok(
                Some(
                    FoundFrame {
                        header: FrameHeader {
                            version: value16(b.subrange(4, 6)) as u16,
                            kind: value16(b.subrange(6, 8)) as u16,
                        },
                        payload: b.subrange(
                            FRAME_HEADER_LEN as int,
                            FRAME_HEADER_LEN + length,
                        ),
                        length: FRAME_HEADER_LEN + length,
                    },
                ),
            )
        }
    }
}

/// The kind of message in a frame of the protocol between the daemon and its clients.
pub open spec fn standard_kind(header: FrameHeader) -> Result<MessageKind, WireFault> {
    if header.version != PROTOCOL_VERSION {
        Err(WireFault::UnsupportedVersion(header.version))
    } else {
        match code_kind(header.kind) {
            Some(kind) => Ok(kind),
            None => Err(WireFault::UnknownKind(header.kind)),
        }
    }
}

/// The request at the start of the input, as its kind and its body, and how much of the input its
/// frame is.
pub open spec fn find_request(b: Seq<u8>) -> Result<Option<(MessageKind, Body, int)>, WireFault> {
    match parse_frame(b) {
        Ok(Some(frame)) => match standard_kind(frame.header) {
            Ok(kind) => match parse_request(kind, frame.payload) {
                Ok(body) => Ok(Some((kind, body, frame.length))),
                Err(fault) => Err(fault),
            },
            Err(fault) => Err(fault),
        },
        Ok(None) => Ok(None),
        Err(fault) => Err(fault),
    }
}

/// The response at the start of the input, as its kind and its body, and how much of the input
/// its frame is.
pub open spec fn find_response(b: Seq<u8>) -> Result<Option<(MessageKind, Body, int)>, WireFault> {
    match parse_frame(b) {
        Ok(Some(frame)) => match standard_kind(frame.header) {
            Ok(kind) => match parse_response(kind, frame.payload) {
                Ok(body) => Ok(Some((kind, body, frame.length))),
                Err(fault) => Err(fault),
            },
            Err(fault) => Err(fault),
        },
        Ok(None) => Ok(None),
        Err(fault) => Err(fault),
    }
}

/// The frame of a request.
pub open spec fn request_frame(request: Request) -> Seq<u8> {
    frame_bytes(
        FrameHeader { version: PROTOCOL_VERSION, kind: kind_code(request_kind(request)) },
        body_bytes(request_body(request)),
    )
}

/// The frame of a response.
pub open spec fn response_frame(response: Response) -> Seq<u8> {
    frame_bytes(
        FrameHeader { version: PROTOCOL_VERSION, kind: kind_code(response_kind(response)) },
        body_bytes(response_body(response)),
    )
}

// ---------------------------------------------------------------------------
// Reading gives back what was written
// ---------------------------------------------------------------------------
/// A frame is found at the start of the input as it was written, whatever follows it.
pub proof fn frame_round_trip(header: FrameHeader, payload: Seq<u8>, rest: Seq<u8>)
    requires
        payload.len() <= u32::MAX,
    ensures
        parse_frame(frame_bytes(header, payload) + rest) == Ok::<Option<FoundFrame>, WireFault>(
            Some(FoundFrame { header, payload, length: frame_bytes(header, payload).len() as int }),
        ),
{
    numbers_round_trip(FRAME_MAGIC as int);
    numbers_round_trip(header.version as int);
    numbers_round_trip(header.kind as int);
    numbers_round_trip(0);
    numbers_round_trip(payload.len() as int);
    let b = frame_bytes(header, payload) + rest;
    assert(b.subrange(0, 4) =~= le32(FRAME_MAGIC as int));
    assert(b.subrange(4, 6) =~= le16(header.version as int));
    assert(b.subrange(6, 8) =~= le16(header.kind as int));
    assert(b.subrange(12, 16) =~= le32(payload.len() as int));
    assert(b.subrange(16, 16 + payload.len() as int) =~= payload);
}

/// A request is found at the start of the input as it was written, whatever follows it.
pub proof fn request_frame_round_trip(request: Request, rest: Seq<u8>)
    requires
        body_fits(request_body(request)),
        body_valid(request_body(request)),
        body_bytes(request_body(request)).len() <= u32::MAX,
    ensures
        find_request(request_frame(request) + rest) == Ok::<
            Option<(MessageKind, Body, int)>,
            WireFault,
        >(
            Some(
                (
                    request_kind(request),
                    request_body(request),
                    request_frame(request).len() as int,
                ),
            ),
        ),
{
    let header = FrameHeader { version: PROTOCOL_VERSION, kind: kind_code(request_kind(request)) };
    frame_round_trip(header, body_bytes(request_body(request)), rest);
    kind_codes_are_distinct(request_kind(request), request_kind(request));
    request_round_trip(request);
}

/// A response is found at the start of the input as it was written, whatever follows it.
pub proof fn response_frame_round_trip(response: Response, rest: Seq<u8>)
    requires
        body_fits(response_body(response)),
        body_valid(response_body(response)),
        body_bytes(response_body(response)).len() <= u32::MAX,
    ensures
        find_response(response_frame(response) + rest) == Ok::<
            Option<(MessageKind, Body, int)>,
            WireFault,
        >(
            Some(
                (
                    response_kind(response),
                    response_body(response),
                    response_frame(response).len() as int,
                ),
            ),
        ),
{
    let header = FrameHeader {
        version: PROTOCOL_VERSION,
        kind: kind_code(response_kind(response)),
    };
    frame_round_trip(header, body_bytes(response_body(response)), rest);
    kind_codes_are_distinct(response_kind(response), response_kind(response));
    response_round_trip(response);
}

// ---------------------------------------------------------------------------
// Writing
// ---------------------------------------------------------------------------
/// Writes a frame.
pub fn write_frame(writer: &mut Vec<u8>, header: FrameHeader, payload: &[u8]) -> (r: Result<
    (),
    WireError,
>)
    ensures
        payload@.len() <= u32::MAX ==> r is Ok && final(writer)@ == old(writer)@ + frame_bytes(
            header,
            payload@,
        ),
        payload@.len() > u32::MAX ==> r is Err && r->Err_0@ == WireFault::PayloadTooLarge(
            payload@.len() as usize,
        ) && final(writer)@ == old(writer)@,
{
    if payload.len() > u32::MAX as usize {
        return Err(WireError::PayloadTooLarge(payload.len()));
    }
    put_u32(writer, FRAME_MAGIC);
    put_u16(writer, header.version);
    put_u16(writer, header.kind);
    put_u16(writer, 0);
    put_u16(writer, 0);
    put_u32(writer, payload.len() as u32);
    put_slice(writer, payload);
    assert(writer@ =~= old(writer)@ + frame_bytes(header, payload@));
    Ok(())
}

/// Writes the frame of a request.
pub fn write_request(writer: &mut Vec<u8>, request: &Request) -> (r: Result<(), WireError>)
    ensures
        ({
            let body = request_body(*request);
            if !body_fits(body) {
                &&& r == Err::<(), WireError>(WireError::LengthExceedsU32)
                &&& final(writer)@ == old(writer)@
            } else if body_bytes(body).len() > u32::MAX {
                &&& r is Err
                &&& r->Err_0@ == WireFault::PayloadTooLarge(body_bytes(body).len() as usize)
                &&& final(writer)@ == old(writer)@
            } else {
                &&& r is Ok
                &&& final(writer)@ == old(writer)@ + request_frame(*request)
            }
        }),
{
    match encode_request(request) {
        Ok((kind, payload)) => write_frame(
            writer,
            FrameHeader { version: PROTOCOL_VERSION, kind: kind.to_u16() },
            payload.as_slice(),
        ),
        Err(error) => Err(error),
    }
}

/// Writes the frame of a response.
pub fn write_response(writer: &mut Vec<u8>, response: &Response) -> (r: Result<(), WireError>)
    ensures
        ({
            let body = response_body(*response);
            if !body_fits(body) {
                &&& r == Err::<(), WireError>(WireError::LengthExceedsU32)
                &&& final(writer)@ == old(writer)@
            } else if body_bytes(body).len() > u32::MAX {
                &&& r is Err
                &&& r->Err_0@ == WireFault::PayloadTooLarge(body_bytes(body).len() as usize)
                &&& final(writer)@ == old(writer)@
            } else {
                &&& r is Ok
                &&& final(writer)@ == old(writer)@ + response_frame(*response)
            }
        }),
{
    match encode_response(response) {
        Ok((kind, payload)) => write_frame(
            writer,
            FrameHeader { version: PROTOCOL_VERSION, kind: kind.to_u16() },
            payload.as_slice(),
        ),
        Err(error) => Err(error),
    }
}

// ---------------------------------------------------------------------------
// Reading
// ---------------------------------------------------------------------------
/// The bytes of a part of the input.
fn part(b: &[u8], start: usize, end: usize) -> (r: Vec<u8>)
    requires
        start <= end <= b@.len(),
    ensures
        r@ == b@.subrange(start as int, end as int),
{
    let mut r: Vec<u8> = Vec::new();
    let mut i: usize = start;
    while i < end
        invariant
            start <= i <= end <= b@.len(),
            r@ == b@.subrange(start as int, i as int),
        decreases end - i,
    {
        r.push(b[i]);
        i += 1;
        assert(r@ =~= b@.subrange(start as int, i as int));
    }
    r
}

fn number16(b: &[u8], at: usize) -> (r: u16)
    requires
        at + 2 <= b@.len(),
    ensures
        r == value16(b@.subrange(at as int, at + 2)),
{
    reveal(value16);
    b[at] as u16 + b[at + 1] as u16 * 256
}

fn number32(b: &[u8], at: usize) -> (r: u32)
    requires
        at + 4 <= b@.len(),
    ensures
        r == value32(b@.subrange(at as int, at + 4)),
{
    reveal(value32);
    b[at] as u32 + b[at + 1] as u32 * 256 + b[at + 2] as u32 * 65_536 + b[at + 3] as u32
        * 16_777_216
}

/// The length of the payload behind a frame header.
pub fn payload_length(header: &[u8]) -> (r: Result<u32, WireError>)
    ensures
        if header@.len() < FRAME_HEADER_LEN {
            r is Err && r->Err_0@ == WireFault::TruncatedHeader
        } else if value32(header@.subrange(0, 4)) != FRAME_MAGIC {
            r is Err && r->Err_0@ == WireFault::InvalidMagic
        } else {
            r is Ok && r->Ok_0 == value32(header@.subrange(12, 16))
        },
{
    if header.len() < FRAME_HEADER_LEN {
        return Err(WireError::TruncatedHeader);
    }
    if number32(header, 0) != FRAME_MAGIC {
        return Err(WireError::InvalidMagic);
    }
    Ok(number32(header, 12))
}

/// The frame at the start of the input, and how much of the input it is; nothing at the end of
/// the input.
pub fn read_raw_frame(reader: &[u8]) -> (r: Result<Option<(FrameHeader, Vec<u8>, usize)>, WireError>)
    ensures
        match parse_frame(reader@) {
            Ok(Some(frame)) => r matches Ok(Some((header, payload, length))) && header
                == frame.header && payload@ == frame.payload && length == frame.length,
            Ok(None) => r is Ok && r->Ok_0 is None,
            Err(fault) => r is Err && r->Err_0@ == fault,
        },
{
    if reader.len() == 0 {
        return Ok(None);
    }
    let length: u32 = match payload_length(reader) {
        Ok(length) => length,
        Err(error) => {
            return Err(error);
        },
    };
    if length as usize > reader.len() - FRAME_HEADER_LEN {
        return Err(WireError::UnexpectedEof);
    }
    let end: usize = FRAME_HEADER_LEN + length as usize;
    let header = FrameHeader { version: number16(reader, 4), kind: number16(reader, 6) };
    Ok(Some((header, part(reader, FRAME_HEADER_LEN, end), end)))
}

/// The kind of message in a frame of the protocol between the daemon and its clients.
pub fn frame_kind(header: FrameHeader) -> (r: Result<MessageKind, WireError>)
    ensures
        match standard_kind(header) {
            Ok(kind) => r == Ok::<MessageKind, WireError>(kind),
            Err(fault) => r is Err && r->Err_0@ == fault,
        },
{
    if header.version != PROTOCOL_VERSION {
        return Err(WireError::UnsupportedVersion(header.version));
    }
    MessageKind::from_u16(header.kind)
}

/// The request at the start of the input, and how much of the input it is; nothing at the end of
/// the input.
pub fn read_request(reader: &[u8]) -> (r: Result<Option<(Request, usize)>, WireError>)
    ensures
        match find_request(reader@) {
            Ok(Some((kind, body, length))) => r matches Ok(Some((request, used))) && request_kind(
                request,
            ) == kind && request_body(request) == body && used == length,
            Ok(None) => r is Ok && r->Ok_0 is None,
            Err(fault) => r is Err && r->Err_0@ == fault,
        },
{
    match read_raw_frame(reader) {
        Ok(Some((header, payload, length))) => match frame_kind(header) {
            Ok(kind) => match decode_request(kind, payload.as_slice()) {
                Ok(request) => Ok(Some((request, length))),
                Err(error) => Err(error),
            },
            Err(error) => Err(error),
        },
        Ok(None) => Ok(None),
        Err(error) => Err(error),
    }
}

/// The response at the start of the input, and how much of the input it is; nothing at the end of
/// the input.
pub fn read_response(reader: &[u8]) -> (r: Result<Option<(Response, usize)>, WireError>)
    ensures
        match find_response(reader@) {
            Ok(Some((kind, body, length))) => r matches Ok(Some((response, used))) && response_kind(
                response,
            ) == kind && response_body(response) == body && used == length,
            Ok(None) => r is Ok && r->Ok_0 is None,
            Err(fault) => r is Err && r->Err_0@ == fault,
        },
{
    match read_raw_frame(reader) {
        Ok(Some((header, payload, length))) => match frame_kind(header) {
            Ok(kind) => match decode_response(kind, payload.as_slice()) {
                Ok(response) => Ok(Some((response, length))),
                Err(error) => Err(error),
            },
            Err(error) => Err(error),
        },
        Ok(None) => Ok(None),
        Err(error) => Err(error),
    }
}

} // verus!
