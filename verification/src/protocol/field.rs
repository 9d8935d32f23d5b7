//! The fields that a payload is made of, and the bytes that stand for them.
use crate::protocol::error::WireError;
use crate::time::Timestamp;
use vstd::prelude::*;
use vstd::string::*;
use vstd::utf8::*;

verus! {

/// The state of a session, as far as the protocol tells it.
#[derive(Clone, Copy, Debug, PartialEq, Eq, Structural)]
pub enum WireStatus {
    Creating,
    Running,
    Paused,
    Exited,
    Failed,
    UnknownRecovered,
}

/// The types of field.
#[derive(Clone, Copy, Debug, PartialEq, Eq, Structural)]
pub enum FieldType {
    Bool,
    Status,
    U16,
    I64,
    Length,
    Bytes,
    Text,
    Json,
    Time,
    OptionalU32,
    OptionalI32,
    OptionalText,
    OptionalTime,
}

/// What a field holds.
pub enum FieldValue {
    Bool(bool),
    Status(WireStatus),
    U16(u16),
    I64(i64),
    Length(nat),
    Bytes(Seq<u8>),
    Text(Seq<char>),
    Json(Seq<char>),
    Time(Timestamp),
    OptionalU32(Option<u32>),
    OptionalI32(Option<i32>),
    OptionalText(Option<Seq<char>>),
    OptionalTime(Option<Timestamp>),
}

/// A field to be written.
pub enum Item<'a> {
    Bool(bool),
    Status(WireStatus),
    U16(u16),
    I64(i64),
    Length(usize),
    Bytes(&'a [u8]),
    Text(&'a str),
    Json(&'a str),
    Time(Timestamp),
    OptionalU32(Option<u32>),
    OptionalI32(Option<i32>),
    OptionalText(Option<&'a str>),
    OptionalTime(Option<Timestamp>),
}

/// A field that was read.
pub enum Field {
    Bool(bool),
    Status(WireStatus),
    U16(u16),
    I64(i64),
    Length(usize),
    Bytes(Vec<u8>),
    Text(String),
    Json(String),
    Time(Timestamp),
    OptionalU32(Option<u32>),
    OptionalI32(Option<i32>),
    OptionalText(Option<String>),
    OptionalTime(Option<Timestamp>),
}

impl<'a> View for Item<'a> {
    type V = FieldValue;

    open spec fn view(&self) -> FieldValue {
        match *self {
            Item::Bool(value) => FieldValue::Bool(value),
            Item::Status(value) => FieldValue::Status(value),
            Item::U16(value) => FieldValue::U16(value),
            Item::I64(value) => FieldValue::I64(value),
            Item::Length(value) => FieldValue::Length(value as nat),
            Item::Bytes(value) => FieldValue::Bytes(value@),
            Item::Text(value) => FieldValue::Text(value@),
            Item::Json(value) => FieldValue::Json(value@),
            Item::Time(value) => FieldValue::Time(value),
            Item::OptionalU32(value) => FieldValue::OptionalU32(value),
            Item::OptionalI32(value) => FieldValue::OptionalI32(value),
            Item::OptionalText(value) => FieldValue::OptionalText(
                match value {
                    Some(text) => Some(text@),
                    None => None,
                },
            ),
            Item::OptionalTime(value) => FieldValue::OptionalTime(value),
        }
    }
}

impl View for Field {
    type V = FieldValue;

    open spec fn view(&self) -> FieldValue {
        match *self {
            Field::Bool(value) => FieldValue::Bool(value),
            Field::Status(value) => FieldValue::Status(value),
            Field::U16(value) => FieldValue::U16(value),
            Field::I64(value) => FieldValue::I64(value),
            Field::Length(value) => FieldValue::Length(value as nat),
            Field::Bytes(value) => FieldValue::Bytes(value@),
            Field::Text(value) => FieldValue::Text(value@),
            Field::Json(value) => FieldValue::Json(value@),
            Field::Time(value) => FieldValue::Time(value),
            Field::OptionalU32(value) => FieldValue::OptionalU32(value),
            Field::OptionalI32(value) => FieldValue::OptionalI32(value),
            Field::OptionalText(value) => FieldValue::OptionalText(
                match value {
                    Some(text) => Some(text@),
                    None => None,
                },
            ),
            Field::OptionalTime(value) => FieldValue::OptionalTime(value),
        }
    }
}

/// The type of what a field holds.
pub open spec fn type_of(value: FieldValue) -> FieldType {
    match value {
        FieldValue::Bool(_) => FieldType::Bool,
        FieldValue::Status(_) => FieldType::Status,
        FieldValue::U16(_) => FieldType::U16,
        FieldValue::I64(_) => FieldType::I64,
        FieldValue::Length(_) => FieldType::Length,
        FieldValue::Bytes(_) => FieldType::Bytes,
        FieldValue::Text(_) => FieldType::Text,
        FieldValue::Json(_) => FieldType::Json,
        FieldValue::Time(_) => FieldType::Time,
        FieldValue::OptionalU32(_) => FieldType::OptionalU32,
        FieldValue::OptionalI32(_) => FieldType::OptionalI32,
        FieldValue::OptionalText(_) => FieldType::OptionalText,
        FieldValue::OptionalTime(_) => FieldType::OptionalTime,
    }
}

// ---------------------------------------------------------------------------
// The bytes of a field
// ---------------------------------------------------------------------------
/// A number below 2^16 in two bytes, the lowest first.
#[verifier::opaque]
pub open spec fn le16(x: int) -> Seq<u8> {
    seq![(x % 256) as u8, (x / 256 % 256) as u8]
}

/// A number below 2^32 in four bytes, the lowest first.
#[verifier::opaque]
pub open spec fn le32(x: int) -> Seq<u8> {
    seq![
        (x % 256) as u8,
        (x / 256 % 256) as u8,
        (x / 65_536 % 256) as u8,
        (x / 16_777_216 % 256) as u8,
    ]
}

/// A number below 2^64 in eight bytes, the lowest first.
#[verifier::opaque]
pub open spec fn le64(x: int) -> Seq<u8> {
    le32(x % 4_294_967_296) + le32(x / 4_294_967_296)
}

/// The number whose thirty-two bits are those of two's complement.
pub open spec fn unsigned32(x: int) -> int {
    if x < 0 {
        x + 4_294_967_296
    } else {
        x
    }
}

/// The number whose sixty-four bits are those of two's complement.
pub open spec fn unsigned64(x: int) -> int {
    if x < 0 {
        x + 18_446_744_073_709_551_616
    } else {
        x
    }
}

/// The number in two bytes.
#[verifier::opaque]
pub open spec fn value16(b: Seq<u8>) -> int {
    b[0] + 256 * b[1]
}

/// The number in four bytes.
#[verifier::opaque]
pub open spec fn value32(b: Seq<u8>) -> int {
    b[0] + 256 * b[1] + 65_536 * b[2] + 16_777_216 * b[3]
}

/// The number in eight bytes.
#[verifier::opaque]
pub open spec fn value64(b: Seq<u8>) -> int {
    value32(b.subrange(0, 4)) + 4_294_967_296 * value32(b.subrange(4, 8))
}

/// The byte of a status.
pub open spec fn status_code(status: WireStatus) -> u8 {
    match status {
        WireStatus::Creating => 1,
        WireStatus::Running => 2,
        WireStatus::Paused => 3,
        WireStatus::Exited => 4,
        WireStatus::Failed => 5,
        WireStatus::UnknownRecovered => 6,
    }
}

/// Bytes behind their length.
pub open spec fn sized(b: Seq<u8>) -> Seq<u8> {
    le32(b.len() as int) + b
}

/// A point in time: its seconds, and its nanoseconds.
pub open spec fn time_bytes(at: Timestamp) -> Seq<u8> {
    le64(unsigned64(at.seconds as int)) + le32(at.nanos as int)
}

/// The bytes of a field.
pub open spec fn field_bytes(value: FieldValue) -> Seq<u8> {
    match value {
        FieldValue::Bool(value) => seq![if value { 1u8 } else { 0u8 }],
        FieldValue::Status(status) => seq![status_code(status)],
        FieldValue::U16(value) => le16(value as int),
        FieldValue::I64(value) => le64(unsigned64(value as int)),
        FieldValue::Length(value) => le32(value as int),
        FieldValue::Bytes(value) => sized(value),
        FieldValue::Text(value) => sized(encode_utf8(value)),
        FieldValue::Json(value) => sized(encode_utf8(value)),
        FieldValue::Time(value) => time_bytes(value),
        FieldValue::OptionalU32(value) => match value {
            Some(value) => seq![1u8] + le32(value as int),
            None => seq![0u8],
        },
        FieldValue::OptionalI32(value) => match value {
            Some(value) => seq![1u8] + le32(unsigned32(value as int)),
            None => seq![0u8],
        },
        FieldValue::OptionalText(value) => match value {
            Some(value) => seq![1u8] + sized(encode_utf8(value)),
            None => seq![0u8],
        },
        FieldValue::OptionalTime(value) => match value {
            Some(value) => seq![1u8] + time_bytes(value),
            None => seq![0u8],
        },
    }
}

/// Whether every length in a field can be written: it is below 2^32.
pub open spec fn field_fits(value: FieldValue) -> bool {
    match value {
        FieldValue::Length(value) => value <= u32::MAX,
        FieldValue::Bytes(value) => value.len() <= u32::MAX,
        FieldValue::Text(value) => encode_utf8(value).len() <= u32::MAX,
        FieldValue::Json(value) => encode_utf8(value).len() <= u32::MAX,
        FieldValue::OptionalText(Some(value)) => encode_utf8(value).len() <= u32::MAX,
        _ => true,
    }
}

/// Whether a field holds what a reader accepts: points in time that exist, and JSON that parses.
pub open spec fn field_valid(value: FieldValue) -> bool {
    match value {
        FieldValue::Json(value) => json_error_text(value) is None,
        FieldValue::Time(value) => value.valid(),
        FieldValue::OptionalTime(Some(value)) => value.valid(),
        _ => true,
    }
}

// ---------------------------------------------------------------------------
// JSON texts
// ---------------------------------------------------------------------------
/// What `serde_json` reports of a text that is not JSON; nothing of one that is.
pub uninterp spec fn json_error_text(text: Seq<char>) -> Option<Seq<char>>;

/// `serde_json::from_str` into a `serde_json::Value`, with the text of its error.
///
/// Claimed: whether the text parses, and what the error says, depends on the text alone.
#[verifier::external_body]
pub(crate) fn json_error(text: &str) -> (r: Option<String>)
    ensures
        crate::text::opt_view(r) == json_error_text(text@),
{
    serde_json::from_str::<serde_json::Value>(text).err().map(|error| error.to_string())
}

// ---------------------------------------------------------------------------
// Writing
// ---------------------------------------------------------------------------
pub fn put_u16(buf: &mut Vec<u8>, value: u16)
    ensures
        final(buf)@ == old(buf)@ + le16(value as int),
{
    reveal(le16);
    buf.push((value % 256) as u8);
    buf.push((value / 256) as u8);
    assert(buf@ =~= old(buf)@ + le16(value as int));
}

pub fn put_u32(buf: &mut Vec<u8>, value: u32)
    ensures
        final(buf)@ == old(buf)@ + le32(value as int),
{
    reveal(le32);
    buf.push((value % 256) as u8);
    buf.push((value / 256 % 256) as u8);
    buf.push((value / 65_536 % 256) as u8);
    buf.push((value / 16_777_216) as u8);
    assert(buf@ =~= old(buf)@ + le32(value as int));
}

fn put_u64(buf: &mut Vec<u8>, value: u64)
    ensures
        final(buf)@ == old(buf)@ + le64(value as int),
{
    reveal(le64);
    put_u32(buf, (value % 4_294_967_296) as u32);
    put_u32(buf, (value / 4_294_967_296) as u32);
    assert(buf@ =~= old(buf)@ + le64(value as int));
}

fn put_i32(buf: &mut Vec<u8>, value: i32)
    ensures
        final(buf)@ == old(buf)@ + le32(unsigned32(value as int)),
{
    if value < 0 {
        put_u32(buf, (value as i64 + 4_294_967_296) as u32);
    } else {
        put_u32(buf, value as u32);
    }
}

fn put_i64(buf: &mut Vec<u8>, value: i64)
    ensures
        final(buf)@ == old(buf)@ + le64(unsigned64(value as int)),
{
    if value < 0 {
        put_u64(buf, (value as i128 + 18_446_744_073_709_551_616) as u64);
    } else {
        put_u64(buf, value as u64);
    }
}

pub fn put_slice(buf: &mut Vec<u8>, value: &[u8])
    ensures
        final(buf)@ == old(buf)@ + value@,
{
    let mut i: usize = 0;
    while i < value.len()
        invariant
            i <= value@.len(),
            buf@ == old(buf)@ + value@.take(i as int),
        decreases value@.len() - i,
    {
        buf.push(value[i]);
        assert(buf@ =~= old(buf)@ + value@.take(i as int + 1));
        i += 1;
    }
    assert(value@.take(value@.len() as int) =~= value@);
}

/// Writes a length.
pub fn put_len(buf: &mut Vec<u8>, len: usize) -> (r: Result<(), WireError>)
    ensures
        len <= u32::MAX ==> r is Ok && final(buf)@ == old(buf)@ + le32(len as int),
        len > u32::MAX ==> r == Err::<(), WireError>(WireError::LengthExceedsU32) && final(buf)@
            == old(buf)@,
{
    if len > u32::MAX as usize {
        return Err(WireError::LengthExceedsU32);
    }
    put_u32(buf, len as u32);
    Ok(())
}

/// Writes bytes behind their length.
pub fn put_bytes(buf: &mut Vec<u8>, value: &[u8]) -> (r: Result<(), WireError>)
    ensures
        value@.len() <= u32::MAX ==> r is Ok && final(buf)@ == old(buf)@ + sized(value@),
        value@.len() > u32::MAX ==> r == Err::<(), WireError>(WireError::LengthExceedsU32)
            && final(buf)@ == old(buf)@,
{
    match put_len(buf, value.len()) {
        Ok(()) => {},
        Err(error) => {
            return Err(error);
        },
    }
    put_slice(buf, value);
    assert(buf@ =~= old(buf)@ + sized(value@));
    Ok(())
}

/// Writes a text as its UTF-8 bytes behind their number.
pub fn put_string(buf: &mut Vec<u8>, value: &str) -> (r: Result<(), WireError>)
    ensures
        encode_utf8(value@).len() <= u32::MAX ==> r is Ok && final(buf)@ == old(buf)@ + sized(
            encode_utf8(value@),
        ),
        encode_utf8(value@).len() > u32::MAX ==> r == Err::<(), WireError>(
            WireError::LengthExceedsU32,
        ) && final(buf)@ == old(buf)@,
{
    put_bytes(buf, value.as_bytes())
}

/// Writes a truth value.
pub fn put_bool(buf: &mut Vec<u8>, value: bool)
    ensures
        final(buf)@ == old(buf)@ + field_bytes(FieldValue::Bool(value)),
{
    buf.push(if value { 1 } else { 0 });
    assert(buf@ =~= old(buf)@ + field_bytes(FieldValue::Bool(value)));
}

/// Writes the status of a session.
pub fn put_session_status(buf: &mut Vec<u8>, status: WireStatus)
    ensures
        final(buf)@ == old(buf)@ + field_bytes(FieldValue::Status(status)),
{
    buf.push(
        match status {
            WireStatus::Creating => 1,
            WireStatus::Running => 2,
            WireStatus::Paused => 3,
            WireStatus::Exited => 4,
            WireStatus::Failed => 5,
            WireStatus::UnknownRecovered => 6,
        },
    );
    assert(buf@ =~= old(buf)@ + field_bytes(FieldValue::Status(status)));
}

/// Writes a point in time.
pub fn put_datetime(buf: &mut Vec<u8>, value: &Timestamp)
    ensures
        final(buf)@ == old(buf)@ + time_bytes(*value),
{
    put_i64(buf, value.seconds);
    put_u32(buf, value.nanos);
    assert(buf@ =~= old(buf)@ + time_bytes(*value));
}

/// Writes a point in time, if there is one.
pub fn put_optional_datetime(buf: &mut Vec<u8>, value: Option<Timestamp>)
    ensures
        final(buf)@ == old(buf)@ + field_bytes(FieldValue::OptionalTime(value)),
{
    match value {
        Some(value) => {
            buf.push(1);
            put_datetime(buf, &value);
        },
        None => buf.push(0),
    }
    assert(buf@ =~= old(buf)@ + field_bytes(FieldValue::OptionalTime(value)));
}

/// Writes a number, if there is one.
pub fn put_optional_u32(buf: &mut Vec<u8>, value: Option<u32>)
    ensures
        final(buf)@ == old(buf)@ + field_bytes(FieldValue::OptionalU32(value)),
{
    match value {
        Some(value) => {
            buf.push(1);
            put_u32(buf, value);
        },
        None => buf.push(0),
    }
    assert(buf@ =~= old(buf)@ + field_bytes(FieldValue::OptionalU32(value)));
}

/// Writes an integer, if there is one.
pub fn put_optional_i32(buf: &mut Vec<u8>, value: Option<i32>)
    ensures
        final(buf)@ == old(buf)@ + field_bytes(FieldValue::OptionalI32(value)),
{
    match value {
        Some(value) => {
            buf.push(1);
            put_i32(buf, value);
        },
        None => buf.push(0),
    }
    assert(buf@ =~= old(buf)@ + field_bytes(FieldValue::OptionalI32(value)));
}

/// Writes a text, if there is one.
pub fn put_optional_string(buf: &mut Vec<u8>, value: Option<&str>) -> (r: Result<(), WireError>)
    ensures
        field_fits(Item::OptionalText(value)@) ==> r is Ok && final(buf)@ == old(buf)@
            + field_bytes(Item::OptionalText(value)@),
        !field_fits(Item::OptionalText(value)@) ==> r == Err::<(), WireError>(
            WireError::LengthExceedsU32,
        ),
{
    match value {
        Some(value) => {
            buf.push(1);
            match put_string(buf, value) {
                Ok(()) => {},
                Err(error) => {
                    return Err(error);
                },
            }
        },
        None => buf.push(0),
    }
    assert(buf@ =~= old(buf)@ + field_bytes(Item::OptionalText(value)@));
    Ok(())
}

/// Writes a JSON text.
pub fn put_json_value(buf: &mut Vec<u8>, value: &str) -> (r: Result<(), WireError>)
    ensures
        encode_utf8(value@).len() <= u32::MAX ==> r is Ok && final(buf)@ == old(buf)@ + sized(
            encode_utf8(value@),
        ),
        encode_utf8(value@).len() > u32::MAX ==> r == Err::<(), WireError>(
            WireError::LengthExceedsU32,
        ),
{
    put_string(buf, value)
}

/// Writes a field.
pub fn put_item(buf: &mut Vec<u8>, item: &Item) -> (r: Result<(), WireError>)
    ensures
        field_fits(item@) ==> r is Ok && final(buf)@ == old(buf)@ + field_bytes(item@),
        !field_fits(item@) ==> r == Err::<(), WireError>(WireError::LengthExceedsU32),
{
    match item {
        Item::Bool(value) => put_bool(buf, *value),
        Item::Status(value) => put_session_status(buf, *value),
        Item::U16(value) => put_u16(buf, *value),
        Item::I64(value) => put_i64(buf, *value),
        Item::Length(value) => {
            return put_len(buf, *value);
        },
        Item::Bytes(value) => {
            return put_bytes(buf, value);
        },
        Item::Text(value) => {
            return put_string(buf, value);
        },
        Item::Json(value) => {
            return put_json_value(buf, value);
        },
        Item::Time(value) => put_datetime(buf, value),
        Item::OptionalU32(value) => put_optional_u32(buf, *value),
        Item::OptionalI32(value) => put_optional_i32(buf, *value),
        Item::OptionalText(value) => {
            return put_optional_string(buf, *value);
        },
        Item::OptionalTime(value) => put_optional_datetime(buf, *value),
    }
    Ok(())
}

} // verus!
