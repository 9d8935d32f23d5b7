//! Reading a payload field by field.
use crate::protocol::error::{WireError, WireFault};
use crate::protocol::field::{
    json_error, json_error_text, value16, value32, value64, Field, FieldType, FieldValue, WireStatus,
};
use crate::text::{text_from_utf8, utf8_error_text};
use crate::time::{is_timestamp, Timestamp};
use vstd::prelude::*;
use vstd::utf8::*;

verus! {

// ---------------------------------------------------------------------------
// What a reader finds at a position: a value and the position behind it, or a fault
// ---------------------------------------------------------------------------
/// The next `len` bytes.
pub open spec fn parse_exact(b: Seq<u8>, at: int, len: int) -> Result<(Seq<u8>, int), WireFault> {
    if at + len > usize::MAX {
        Err(WireFault::LengthOverflow)
    } else if at + len > b.len() {
        Err(WireFault::TruncatedPayload)
    } else {
        Ok((b.subrange(at, at + len), at + len))
    }
}

/// A number below 2^32.
pub open spec fn parse_u32(b: Seq<u8>, at: int) -> Result<(int, int), WireFault> {
    match parse_exact(b, at, 4) {
        Ok((bytes, next)) => Ok((value32(bytes), next)),
        Err(fault) => Err(fault),
    }
}

/// A truth value.
pub open spec fn parse_bool(b: Seq<u8>, at: int) -> Result<(bool, int), WireFault> {
    match parse_exact(b, at, 1) {
        Ok((bytes, next)) => if bytes[0] == 0 {
            Ok((false, next))
        } else if bytes[0] == 1 {
            Ok((true, next))
        } else {
            Err(WireFault::InvalidBool(bytes[0]))
        },
        Err(fault) => Err(fault),
    }
}

/// Bytes behind their number.
pub open spec fn parse_bytes(b: Seq<u8>, at: int) -> Result<(Seq<u8>, int), WireFault> {
    match parse_u32(b, at) {
        Ok((len, next)) => parse_exact(b, next, len),
        Err(fault) => Err(fault),
    }
}

/// A text.
pub open spec fn parse_text(b: Seq<u8>, at: int) -> Result<(Seq<char>, int), WireFault> {
    match parse_bytes(b, at) {
        Ok((bytes, next)) => if valid_utf8(bytes) {
            Ok((decode_utf8(bytes), next))
        } else {
            Err(WireFault::InvalidUtf8(utf8_error_text(bytes)))
        },
        Err(fault) => Err(fault),
    }
}

/// A text that is JSON.
pub open spec fn parse_json(b: Seq<u8>, at: int) -> Result<(Seq<char>, int), WireFault> {
    match parse_text(b, at) {
        Ok((text, next)) => match json_error_text(text) {
            None => Ok((text, next)),
            Some(error) => Err(WireFault::InvalidJson(error)),
        },
        Err(fault) => Err(fault),
    }
}

/// An integer of sixty-four bits.
pub open spec fn parse_i64(b: Seq<u8>, at: int) -> Result<(i64, int), WireFault> {
    match parse_exact(b, at, 8) {
        Ok((bytes, next)) => Ok((signed64(value64(bytes)), next)),
        Err(fault) => Err(fault),
    }
}

/// A point in time.
pub open spec fn parse_time(b: Seq<u8>, at: int) -> Result<(Timestamp, int), WireFault> {
    match parse_i64(b, at) {
        Ok((seconds, next)) => match parse_u32(b, next) {
            Ok((nanos, end)) => if is_timestamp(seconds as int, nanos) {
                Ok((Timestamp { seconds, nanos: nanos as u32 }, end))
            } else {
                Err(WireFault::InvalidTimestamp)
            },
            Err(fault) => Err(fault),
        },
        Err(fault) => Err(fault),
    }
}

/// The status that a byte stands for.
pub open spec fn status_of(byte: u8) -> Option<WireStatus> {
    if byte == 1 {
        Some(WireStatus::Creating)
    } else if byte == 2 {
        Some(WireStatus::Running)
    } else if byte == 3 {
        Some(WireStatus::Paused)
    } else if byte == 4 {
        Some(WireStatus::Exited)
    } else if byte == 5 {
        Some(WireStatus::Failed)
    } else if byte == 6 {
        Some(WireStatus::UnknownRecovered)
    } else {
        None
    }
}

/// The integer that thirty-two bits stand for in two's complement.
pub open spec fn signed32(x: int) -> i32 {
    if x >= 2_147_483_648 {
        (x - 4_294_967_296) as i32
    } else {
        x as i32
    }
}

/// The integer that sixty-four bits stand for in two's complement.
pub open spec fn signed64(x: int) -> i64 {
    if x >= 9_223_372_036_854_775_808 {
        (x - 18_446_744_073_709_551_616) as i64
    } else {
        x as i64
    }
}

/// A field of the given type.
pub open spec fn parse_field(ty: FieldType, b: Seq<u8>, at: int) -> Result<
    (FieldValue, int),
    WireFault,
> {
    match ty {
        FieldType::Bool => match parse_bool(b, at) {
            Ok((value, next)) => Ok((FieldValue::Bool(value), next)),
            Err(fault) => Err(fault),
        },
        FieldType::Status => match parse_exact(b, at, 1) {
            Ok((bytes, next)) => match status_of(bytes[0]) {
                Some(status) => Ok((FieldValue::Status(status), next)),
                None => Err(WireFault::InvalidStatus(bytes[0])),
            },
            Err(fault) => Err(fault),
        },
        FieldType::U16 => match parse_exact(b, at, 2) {
            Ok((bytes, next)) => Ok((FieldValue::U16(value16(bytes) as u16), next)),
            Err(fault) => Err(fault),
        },
        FieldType::I64 => match parse_i64(b, at) {
            Ok((value, next)) => Ok((FieldValue::I64(value), next)),
            Err(fault) => Err(fault),
        },
        FieldType::Length => match parse_u32(b, at) {
            Ok((value, next)) => Ok((FieldValue::Length(value as nat), next)),
            Err(fault) => Err(fault),
        },
        FieldType::Bytes => match parse_bytes(b, at) {
            Ok((value, next)) => Ok((FieldValue::Bytes(value), next)),
            Err(fault) => Err(fault),
        },
        FieldType::Text => match parse_text(b, at) {
            Ok((value, next)) => Ok((FieldValue::Text(value), next)),
            Err(fault) => Err(fault),
        },
        FieldType::Json => match parse_json(b, at) {
            Ok((value, next)) => Ok((FieldValue::Json(value), next)),
            Err(fault) => Err(fault),
        },
        FieldType::Time => match parse_time(b, at) {
            Ok((value, next)) => Ok((FieldValue::Time(value), next)),
            Err(fault) => Err(fault),
        },
        FieldType::OptionalU32 => match parse_bool(b, at) {
            Ok((true, next)) => match parse_u32(b, next) {
                Ok((value, end)) => Ok((FieldValue::OptionalU32(Some(value as u32)), end)),
                Err(fault) => Err(fault),
            },
            Ok((false, next)) => Ok((FieldValue::OptionalU32(None), next)),
            Err(fault) => Err(fault),
        },
        FieldType::OptionalI32 => match parse_bool(b, at) {
            Ok((true, next)) => match parse_u32(b, next) {
                Ok((value, end)) => Ok((FieldValue::OptionalI32(Some(signed32(value))), end)),
                Err(fault) => Err(fault),
            },
            Ok((false, next)) => Ok((FieldValue::OptionalI32(None), next)),
            Err(fault) => Err(fault),
        },
        FieldType::OptionalText => match parse_bool(b, at) {
            Ok((true, next)) => match parse_text(b, next) {
                Ok((value, end)) => Ok((FieldValue::OptionalText(Some(value)), end)),
                Err(fault) => Err(fault),
            },
            Ok((false, next)) => Ok((FieldValue::OptionalText(None), next)),
            Err(fault) => Err(fault),
        },
        FieldType::OptionalTime => match parse_bool(b, at) {
            Ok((true, next)) => match parse_time(b, next) {
                Ok((value, end)) => Ok((FieldValue::OptionalTime(Some(value)), end)),
                Err(fault) => Err(fault),
            },
            Ok((false, next)) => Ok((FieldValue::OptionalTime(None), next)),
            Err(fault) => Err(fault),
        },
    }
}

/// Fields of the given types, one behind the other.
pub open spec fn parse_fields(layout: Seq<FieldType>, b: Seq<u8>, at: int) -> Result<
    (Seq<FieldValue>, int),
    WireFault,
>
    decreases layout.len(),
{
    if layout.len() == 0 {
        Ok((Seq::empty(), at))
    } else {
        match parse_fields(layout.drop_last(), b, at) {
            Ok((values, next)) => match parse_field(layout.last(), b, next) {
                Ok((value, end)) => Ok((values.push(value), end)),
                Err(fault) => Err(fault),
            },
            Err(fault) => Err(fault),
        }
    }
}

// ---------------------------------------------------------------------------
// Where a reader stands afterwards, whether it found a value or a fault
// ---------------------------------------------------------------------------
/// Behind the bytes; where they are not all there, it has not moved.
pub open spec fn exact_end(b: Seq<u8>, at: int, len: int) -> int {
    match parse_exact(b, at, len) {
        Ok((_, next)) => next,
        Err(_) => at,
    }
}

/// Behind the bytes and their number, as far as they are there.
pub open spec fn bytes_end(b: Seq<u8>, at: int) -> int {
    match parse_u32(b, at) {
        Ok((len, next)) => exact_end(b, next, len),
        Err(_) => at,
    }
}

/// Behind the seconds and the nanoseconds, as far as they are there.
pub open spec fn time_end(b: Seq<u8>, at: int) -> int {
    match parse_i64(b, at) {
        Ok((_, next)) => exact_end(b, next, 4),
        Err(_) => at,
    }
}

/// Behind a field of the given type, as far as it is there.
pub open spec fn field_end(ty: FieldType, b: Seq<u8>, at: int) -> int {
    let behind_flag = exact_end(b, at, 1);
    match ty {
        FieldType::Bool | FieldType::Status => behind_flag,
        FieldType::U16 => exact_end(b, at, 2),
        FieldType::I64 => exact_end(b, at, 8),
        FieldType::Length => exact_end(b, at, 4),
        FieldType::Bytes | FieldType::Text | FieldType::Json => bytes_end(b, at),
        FieldType::Time => time_end(b, at),
        FieldType::OptionalU32 | FieldType::OptionalI32 => match parse_bool(b, at) {
            Ok((true, next)) => exact_end(b, next, 4),
            _ => behind_flag,
        },
        FieldType::OptionalText => match parse_bool(b, at) {
            Ok((true, next)) => bytes_end(b, next),
            _ => behind_flag,
        },
        FieldType::OptionalTime => match parse_bool(b, at) {
            Ok((true, next)) => time_end(b, next),
            _ => behind_flag,
        },
    }
}

/// A payload, read up to a position.
pub struct Cursor<'a> {
    payload: &'a [u8],
    position: usize,
}

impl<'a> Cursor<'a> {
    /// The bytes of the payload.
    pub closed spec fn bytes(self) -> Seq<u8> {
        self.payload@
    }

    /// How much of the payload was read.
    pub closed spec fn at(self) -> int {
        self.position as int
    }

    /// Whether the position lies within the payload.
    pub open spec fn wf(self) -> bool {
        0 <= self.at() <= self.bytes().len() <= usize::MAX
    }

    /// The payload with nothing read.
    pub fn new(payload: &'a [u8]) -> (r: Cursor<'a>)
        ensures
            r.bytes() == payload@,
            r.at() == 0,
            r.wf(),
    {
        let r = Cursor { payload, position: 0 };
        assert(payload.len() <= usize::MAX);
        r
    }

    /// Asks that the whole payload was read.
    pub fn finish(&self) -> (r: Result<(), WireError>)
        ensures
            r is Ok <==> self.at() == self.bytes().len(),
            r matches Err(error) ==> error@ == WireFault::TrailingBytes,
    {
        if self.position != self.payload.len() {
            return Err(WireError::TrailingBytes);
        }
        Ok(())
    }

    /// The next `len` bytes.
    pub fn take_exact(&mut self, len: usize) -> (r: Result<Vec<u8>, WireError>)
        requires
            old(self).wf(),
        ensures
            final(self).wf(),
            final(self).bytes() == old(self).bytes(),
            final(self).at() == exact_end(old(self).bytes(), old(self).at(), len as int),
            match parse_exact(old(self).bytes(), old(self).at(), len as int) {
                Ok((value, next)) => r is Ok && r->Ok_0@ == value && final(self).at() == next,
                Err(fault) => r is Err && r->Err_0@ == fault,
            },
    {
        let end: usize = match self.position.checked_add(len) {
            Some(end) => end,
            None => {
                return Err(WireError::LengthOverflow);
            },
        };
        if end > self.payload.len() {
            return Err(WireError::TruncatedPayload);
        }
        let mut bytes: Vec<u8> = Vec::new();
        let mut i: usize = self.position;
        while i < end
            invariant
                self.position <= i <= end <= self.payload@.len(),
                bytes@ == self.payload@.subrange(self.position as int, i as int),
            decreases end - i,
        {
            bytes.push(self.payload[i]);
            i += 1;
            assert(bytes@ =~= self.payload@.subrange(self.position as int, i as int));
        }
        self.position = end;
        Ok(bytes)
    }

    /// A byte.
    pub fn take_u8(&mut self) -> (r: Result<u8, WireError>)
        requires
            old(self).wf(),
        ensures
            final(self).wf(),
            final(self).bytes() == old(self).bytes(),
            final(self).at() == exact_end(old(self).bytes(), old(self).at(), 1),
            match parse_exact(old(self).bytes(), old(self).at(), 1) {
                Ok((value, next)) => r is Ok && r->Ok_0 == value[0] && final(self).at() == next,
                Err(fault) => r is Err && r->Err_0@ == fault,
            },
    {
        match self.take_exact(1) {
            Ok(bytes) => Ok(bytes[0]),
            Err(error) => Err(error),
        }
    }

    /// A number below 2^16.
    pub fn take_u16(&mut self) -> (r: Result<u16, WireError>)
        requires
            old(self).wf(),
        ensures
            final(self).wf(),
            final(self).bytes() == old(self).bytes(),
            final(self).at() == exact_end(old(self).bytes(), old(self).at(), 2),
            match parse_field(FieldType::U16, old(self).bytes(), old(self).at()) {
                Ok((value, next)) => r is Ok && FieldValue::U16(r->Ok_0) == value
                    && final(self).at() == next,
                Err(fault) => r is Err && r->Err_0@ == fault,
            },
    {
        reveal(value16);
        match self.take_exact(2) {
            Ok(bytes) => Ok(bytes[0] as u16 + bytes[1] as u16 * 256),
            Err(error) => Err(error),
        }
    }

    /// A number below 2^32.
    pub fn take_u32(&mut self) -> (r: Result<u32, WireError>)
        requires
            old(self).wf(),
        ensures
            final(self).wf(),
            final(self).bytes() == old(self).bytes(),
            final(self).at() == exact_end(old(self).bytes(), old(self).at(), 4),
            match parse_u32(old(self).bytes(), old(self).at()) {
                Ok((value, next)) => r is Ok && r->Ok_0 == value && final(self).at() == next,
                Err(fault) => r is Err && r->Err_0@ == fault,
            },
    {
        reveal(value32);
        match self.take_exact(4) {
            Ok(bytes) => Ok(
                bytes[0] as u32 + bytes[1] as u32 * 256 + bytes[2] as u32 * 65_536 + bytes[3] as u32
                    * 16_777_216,
            ),
            Err(error) => Err(error),
        }
    }

    /// An integer of thirty-two bits.
    pub fn take_i32(&mut self) -> (r: Result<i32, WireError>)
        requires
            old(self).wf(),
        ensures
            final(self).wf(),
            final(self).bytes() == old(self).bytes(),
            final(self).at() == exact_end(old(self).bytes(), old(self).at(), 4),
            match parse_u32(old(self).bytes(), old(self).at()) {
                Ok((value, next)) => r is Ok && r->Ok_0 == signed32(value) && final(self).at()
                    == next,
                Err(fault) => r is Err && r->Err_0@ == fault,
            },
    {
        match self.take_u32() {
            Ok(value) => if value >= 2_147_483_648 {
                Ok((value as i64 - 4_294_967_296) as i32)
            } else {
                Ok(value as i32)
            },
            Err(error) => Err(error),
        }
    }

    /// An integer of sixty-four bits.
    pub fn take_i64(&mut self) -> (r: Result<i64, WireError>)
        requires
            old(self).wf(),
        ensures
            final(self).wf(),
            final(self).bytes() == old(self).bytes(),
            final(self).at() == exact_end(old(self).bytes(), old(self).at(), 8),
            match parse_i64(old(self).bytes(), old(self).at()) {
                Ok((value, next)) => r is Ok && r->Ok_0 == value && final(self).at() == next,
                Err(fault) => r is Err && r->Err_0@ == fault,
            },
    {
        reveal(value32);
        reveal(value64);
        match self.take_exact(8) {
            Ok(bytes) => {
                let low: u64 = bytes[0] as u64 + bytes[1] as u64 * 256 + bytes[2] as u64 * 65_536
                    + bytes[3] as u64 * 16_777_216;
                let high: u64 = bytes[4] as u64 + bytes[5] as u64 * 256 + bytes[6] as u64 * 65_536
                    + bytes[7] as u64 * 16_777_216;
                assert(low == value32(bytes@.subrange(0, 4)));
                assert(high == value32(bytes@.subrange(4, 8)));
                assert(high <= 4_294_967_295);
                let value: u64 = low + high * 4_294_967_296;
                if value >= 9_223_372_036_854_775_808 {
                    Ok((value as i128 - 18_446_744_073_709_551_616) as i64)
                } else {
                    Ok(value as i64)
                }
            },
            Err(error) => Err(error),
        }
    }

    /// A length.
    pub fn take_len(&mut self) -> (r: Result<usize, WireError>)
        requires
            old(self).wf(),
        ensures
            final(self).wf(),
            final(self).bytes() == old(self).bytes(),
            final(self).at() == exact_end(old(self).bytes(), old(self).at(), 4),
            match parse_u32(old(self).bytes(), old(self).at()) {
                Ok((value, next)) => r is Ok && r->Ok_0 == value && final(self).at() == next,
                Err(fault) => r is Err && r->Err_0@ == fault,
            },
    {
        match self.take_u32() {
            Ok(value) => Ok(value as usize),
            Err(error) => Err(error),
        }
    }

    /// Bytes behind their number.
    pub fn take_bytes(&mut self) -> (r: Result<Vec<u8>, WireError>)
        requires
            old(self).wf(),
        ensures
            final(self).wf(),
            final(self).bytes() == old(self).bytes(),
            final(self).at() == bytes_end(old(self).bytes(), old(self).at()),
            match parse_bytes(old(self).bytes(), old(self).at()) {
                Ok((value, next)) => r is Ok && r->Ok_0@ == value && final(self).at() == next,
                Err(fault) => r is Err && r->Err_0@ == fault,
            },
    {
        match self.take_u32() {
            Ok(len) => self.take_exact(len as usize),
            Err(error) => Err(error),
        }
    }

    /// A text.
    pub fn take_string(&mut self) -> (r: Result<String, WireError>)
        requires
            old(self).wf(),
        ensures
            final(self).wf(),
            final(self).bytes() == old(self).bytes(),
            final(self).at() == bytes_end(old(self).bytes(), old(self).at()),
            match parse_text(old(self).bytes(), old(self).at()) {
                Ok((value, next)) => r is Ok && r->Ok_0@ == value && final(self).at() == next,
                Err(fault) => r is Err && r->Err_0@ == fault,
            },
    {
        match self.take_bytes() {
            Ok(bytes) => match text_from_utf8(bytes) {
                Ok(text) => Ok(text),
                Err(error) => Err(WireError::InvalidUtf8(error)),
            },
            Err(error) => Err(error),
        }
    }

    /// A truth value.
    pub fn take_bool(&mut self) -> (r: Result<bool, WireError>)
        requires
            old(self).wf(),
        ensures
            final(self).wf(),
            final(self).bytes() == old(self).bytes(),
            final(self).at() == exact_end(old(self).bytes(), old(self).at(), 1),
            match parse_bool(old(self).bytes(), old(self).at()) {
                Ok((value, next)) => r is Ok && r->Ok_0 == value && final(self).at() == next,
                Err(fault) => r is Err && r->Err_0@ == fault,
            },
    {
        match self.take_u8() {
            Ok(0) => Ok(false),
            Ok(1) => Ok(true),
            Ok(other) => Err(WireError::InvalidBool(other)),
            Err(error) => Err(error),
        }
    }

    /// The status of a session.
    pub fn take_session_status(&mut self) -> (r: Result<WireStatus, WireError>)
        requires
            old(self).wf(),
        ensures
            final(self).wf(),
            final(self).bytes() == old(self).bytes(),
            final(self).at() == exact_end(old(self).bytes(), old(self).at(), 1),
            match parse_field(FieldType::Status, old(self).bytes(), old(self).at()) {
                Ok((value, next)) => r is Ok && FieldValue::Status(r->Ok_0) == value
                    && final(self).at() == next,
                Err(fault) => r is Err && r->Err_0@ == fault,
            },
    {
        match self.take_u8() {
            Ok(1) => Ok(WireStatus::Creating),
            Ok(2) => Ok(WireStatus::Running),
            Ok(3) => Ok(WireStatus::Paused),
            Ok(4) => Ok(WireStatus::Exited),
            Ok(5) => Ok(WireStatus::Failed),
            Ok(6) => Ok(WireStatus::UnknownRecovered),
            Ok(other) => Err(WireError::InvalidStatus(other)),
            Err(error) => Err(error),
        }
    }

    /// A point in time.
    pub fn take_datetime(&mut self) -> (r: Result<Timestamp, WireError>)
        requires
            old(self).wf(),
        ensures
            final(self).wf(),
            final(self).bytes() == old(self).bytes(),
            final(self).at() == time_end(old(self).bytes(), old(self).at()),
            match parse_time(old(self).bytes(), old(self).at()) {
                Ok((value, next)) => r is Ok && r->Ok_0 == value && final(self).at() == next,
                Err(fault) => r is Err && r->Err_0@ == fault,
            },
    {
        let seconds: i64 = match self.take_i64() {
            Ok(seconds) => seconds,
            Err(error) => {
                return Err(error);
            },
        };
        let nanos: u32 = match self.take_u32() {
            Ok(nanos) => nanos,
            Err(error) => {
                return Err(error);
            },
        };
        match Timestamp::new(seconds, nanos) {
            Some(at) => Ok(at),
            None => Err(WireError::InvalidTimestamp),
        }
    }

    /// A text that is JSON.
    pub fn take_json_value(&mut self) -> (r: Result<String, WireError>)
        requires
            old(self).wf(),
        ensures
            final(self).wf(),
            final(self).bytes() == old(self).bytes(),
            final(self).at() == bytes_end(old(self).bytes(), old(self).at()),
            match parse_json(old(self).bytes(), old(self).at()) {
                Ok((value, next)) => r is Ok && r->Ok_0@ == value && final(self).at() == next,
                Err(fault) => r is Err && r->Err_0@ == fault,
            },
    {
        match self.take_string() {
            Ok(text) => match json_error(text.as_str()) {
                None => Ok(text),
                Some(error) => Err(WireError::InvalidJson(error)),
            },
            Err(error) => Err(error),
        }
    }

    /// A text, if there is one.
    pub fn take_optional_string(&mut self) -> (r: Result<Option<String>, WireError>)
        requires
            old(self).wf(),
        ensures
            final(self).wf(),
            final(self).bytes() == old(self).bytes(),
            final(self).at() == field_end(FieldType::OptionalText, old(self).bytes(), old(self).at()),
            match parse_field(FieldType::OptionalText, old(self).bytes(), old(self).at()) {
                Ok((value, next)) => r is Ok && Field::OptionalText(r->Ok_0)@ == value
                    && final(self).at() == next,
                Err(fault) => r is Err && r->Err_0@ == fault,
            },
    {
        match self.take_bool() {
            Ok(true) => match self.take_string() {
                Ok(text) => Ok(Some(text)),
                Err(error) => Err(error),
            },
            Ok(false) => Ok(None),
            Err(error) => Err(error),
        }
    }

    /// A number, if there is one.
    pub fn take_optional_u32(&mut self) -> (r: Result<Option<u32>, WireError>)
        requires
            old(self).wf(),
        ensures
            final(self).wf(),
            final(self).bytes() == old(self).bytes(),
            final(self).at() == field_end(FieldType::OptionalU32, old(self).bytes(), old(self).at()),
            match parse_field(FieldType::OptionalU32, old(self).bytes(), old(self).at()) {
                Ok((value, next)) => r is Ok && FieldValue::OptionalU32(r->Ok_0) == value
                    && final(self).at() == next,
                Err(fault) => r is Err && r->Err_0@ == fault,
            },
    {
        match self.take_bool() {
            Ok(true) => match self.take_u32() {
                Ok(value) => Ok(Some(value)),
                Err(error) => Err(error),
            },
            Ok(false) => Ok(None),
            Err(error) => Err(error),
        }
    }

    /// An integer, if there is one.
    pub fn take_optional_i32(&mut self) -> (r: Result<Option<i32>, WireError>)
        requires
            old(self).wf(),
        ensures
            final(self).wf(),
            final(self).bytes() == old(self).bytes(),
            final(self).at() == field_end(FieldType::OptionalI32, old(self).bytes(), old(self).at()),
            match parse_field(FieldType::OptionalI32, old(self).bytes(), old(self).at()) {
                Ok((value, next)) => r is Ok && FieldValue::OptionalI32(r->Ok_0) == value
                    && final(self).at() == next,
                Err(fault) => r is Err && r->Err_0@ == fault,
            },
    {
        match self.take_bool() {
            Ok(true) => match self.take_i32() {
                Ok(value) => Ok(Some(value)),
                Err(error) => Err(error),
            },
            Ok(false) => Ok(None),
            Err(error) => Err(error),
        }
    }

    /// A point in time, if there is one.
    pub fn take_optional_datetime(&mut self) -> (r: Result<Option<Timestamp>, WireError>)
        requires
            old(self).wf(),
        ensures
            final(self).wf(),
            final(self).bytes() == old(self).bytes(),
            final(self).at() == field_end(FieldType::OptionalTime, old(self).bytes(), old(self).at()),
            match parse_field(FieldType::OptionalTime, old(self).bytes(), old(self).at()) {
                Ok((value, next)) => r is Ok && FieldValue::OptionalTime(r->Ok_0) == value
                    && final(self).at() == next,
                Err(fault) => r is Err && r->Err_0@ == fault,
            },
    {
        match self.take_bool() {
            Ok(true) => match self.take_datetime() {
                Ok(value) => Ok(Some(value)),
                Err(error) => Err(error),
            },
            Ok(false) => Ok(None),
            Err(error) => Err(error),
        }
    }

    /// A field of the given type.
    pub fn take_field(&mut self, ty: FieldType) -> (r: Result<Field, WireError>)
        requires
            old(self).wf(),
        ensures
            final(self).wf(),
            final(self).bytes() == old(self).bytes(),
            final(self).at() == field_end(ty, old(self).bytes(), old(self).at()),
            match parse_field(ty, old(self).bytes(), old(self).at()) {
                Ok((value, next)) => r is Ok && r->Ok_0@ == value && final(self).at() == next,
                Err(fault) => r is Err && r->Err_0@ == fault,
            },
    {
        match ty {
            FieldType::Bool => match self.take_bool() {
                Ok(value) => Ok(Field::Bool(value)),
                Err(error) => Err(error),
            },
            FieldType::Status => match self.take_session_status() {
                Ok(value) => Ok(Field::Status(value)),
                Err(error) => Err(error),
            },
            FieldType::U16 => match self.take_u16() {
                Ok(value) => Ok(Field::U16(value)),
                Err(error) => Err(error),
            },
            FieldType::I64 => match self.take_i64() {
                Ok(value) => Ok(Field::I64(value)),
                Err(error) => Err(error),
            },
            FieldType::Length => match self.take_len() {
                Ok(value) => Ok(Field::Length(value)),
                Err(error) => Err(error),
            },
            FieldType::Bytes => match self.take_bytes() {
                Ok(value) => Ok(Field::Bytes(value)),
                Err(error) => Err(error),
            },
            FieldType::Text => match self.take_string() {
                Ok(value) => Ok(Field::Text(value)),
                Err(error) => Err(error),
            },
            FieldType::Json => match self.take_json_value() {
                Ok(value) => Ok(Field::Json(value)),
                Err(error) => Err(error),
            },
            FieldType::Time => match self.take_datetime() {
                Ok(value) => Ok(Field::Time(value)),
                Err(error) => Err(error),
            },
            FieldType::OptionalU32 => match self.take_optional_u32() {
                Ok(value) => Ok(Field::OptionalU32(value)),
                Err(error) => Err(error),
            },
            FieldType::OptionalI32 => match self.take_optional_i32() {
                Ok(value) => Ok(Field::OptionalI32(value)),
                Err(error) => Err(error),
            },
            FieldType::OptionalText => match self.take_optional_string() {
                Ok(value) => Ok(Field::OptionalText(value)),
                Err(error) => Err(error),
            },
            FieldType::OptionalTime => match self.take_optional_datetime() {
                Ok(value) => Ok(Field::OptionalTime(value)),
                Err(error) => Err(error),
            },
        }
    }
}

} // verus!
