//! Payloads as lists of fields, and the laws that tie reading to writing.
use crate::protocol::cursor::{
    parse_bytes, parse_field, parse_fields, parse_text, parse_time, signed32, signed64, Cursor,
};
use crate::protocol::error::{WireError, WireFault};
use crate::protocol::field::{
    field_bytes, field_fits, field_valid, le16, le32, le64, put_item, sized, time_bytes, type_of,
    unsigned32, unsigned64, value16, value32, value64, Field, FieldType, FieldValue, Item,
};
use crate::time::Timestamp;
use vstd::prelude::*;
use vstd::utf8::*;

verus! {

// ---------------------------------------------------------------------------
// Lists of fields
// ---------------------------------------------------------------------------
/// The bytes of fields, one behind the other.
pub open spec fn fields_bytes(values: Seq<FieldValue>) -> Seq<u8>
    decreases values.len(),
{
    if values.len() == 0 {
        Seq::empty()
    } else {
        fields_bytes(values.drop_last()) + field_bytes(values.last())
    }
}

/// Whether every length in the fields can be written.
pub open spec fn fields_fit(values: Seq<FieldValue>) -> bool {
    forall|i: int| 0 <= i < values.len() ==> field_fits(#[trigger] values[i])
}

/// Whether every field holds what a reader accepts.
pub open spec fn fields_valid(values: Seq<FieldValue>) -> bool {
    forall|i: int| 0 <= i < values.len() ==> field_valid(#[trigger] values[i])
}

/// The types of fields.
pub open spec fn types_of(values: Seq<FieldValue>) -> Seq<FieldType> {
    Seq::new(values.len(), |i: int| type_of(values[i]))
}

/// What fields that were read hold.
pub open spec fn values_of(fields: Seq<Field>) -> Seq<FieldValue> {
    Seq::new(fields.len(), |i: int| fields[i]@)
}

/// What fields to be written hold.
pub open spec fn items_values(items: Seq<Item>) -> Seq<FieldValue> {
    Seq::new(items.len(), |i: int| items[i]@)
}

/// What a payload holds: its fields, and the fields of each entry of the list behind them.
pub struct Body {
    pub head: Seq<FieldValue>,
    pub entries: Seq<Seq<FieldValue>>,
}

/// A payload without a list.
pub open spec fn plain(head: Seq<FieldValue>) -> Body {
    Body { head, entries: Seq::empty() }
}

/// The layout of a payload: the types of its fields. Where `entry` is not empty, the last of
/// these is a length, and so many entries with fields of the types of `entry` follow.
pub struct Layout {
    pub fields: Seq<FieldType>,
    pub entry: Seq<FieldType>,
}

/// The bytes of entries, one behind the other.
pub open spec fn entries_bytes(entries: Seq<Seq<FieldValue>>) -> Seq<u8>
    decreases entries.len(),
{
    if entries.len() == 0 {
        Seq::empty()
    } else {
        entries_bytes(entries.drop_last()) + fields_bytes(entries.last())
    }
}

/// The bytes of a payload.
pub open spec fn body_bytes(body: Body) -> Seq<u8> {
    fields_bytes(body.head) + entries_bytes(body.entries)
}

/// Whether every length in a payload can be written.
pub open spec fn body_fits(body: Body) -> bool {
    &&& fields_fit(body.head)
    &&& forall|i: int| 0 <= i < body.entries.len() ==> fields_fit(#[trigger] body.entries[i])
}

/// Whether every field of a payload holds what a reader accepts.
pub open spec fn body_valid(body: Body) -> bool {
    &&& fields_valid(body.head)
    &&& forall|i: int| 0 <= i < body.entries.len() ==> fields_valid(#[trigger] body.entries[i])
}

/// Whether a payload follows a layout.
pub open spec fn follows(body: Body, layout: Layout) -> bool {
    &&& types_of(body.head) == layout.fields
    &&& forall|i: int|
        0 <= i < body.entries.len() ==> types_of(#[trigger] body.entries[i]) == layout.entry
    &&& if layout.entry.len() == 0 {
        body.entries.len() == 0
    } else {
        body.head.len() > 0 && body.head.last() == FieldValue::Length(body.entries.len())
    }
}

/// A number of entries, one behind the other, each with fields of the given types.
pub open spec fn parse_entries(entry: Seq<FieldType>, count: nat, b: Seq<u8>, at: int) -> Result<
    (Seq<Seq<FieldValue>>, int),
    WireFault,
>
    decreases count,
{
    if count == 0 {
        Ok((Seq::empty(), at))
    } else {
        match parse_entries(entry, (count - 1) as nat, b, at) {
            Ok((entries, next)) => match parse_fields(entry, b, next) {
                Ok((values, end)) => Ok((entries.push(values), end)),
                Err(fault) => Err(fault),
            },
            Err(fault) => Err(fault),
        }
    }
}

/// How many entries a layout asks for behind the given fields.
pub open spec fn entry_count(layout: Layout, head: Seq<FieldValue>) -> nat {
    if layout.entry.len() == 0 {
        0
    } else {
        head.last()->Length_0
    }
}

/// A whole payload: all of its fields and nothing behind them.
pub open spec fn parse_body(layout: Layout, b: Seq<u8>) -> Result<Body, WireFault> {
    match parse_fields(layout.fields, b, 0) {
        Ok((head, at)) => match parse_entries(layout.entry, entry_count(layout, head), b, at) {
            Ok((entries, end)) => if end == b.len() {
                Ok(Body { head, entries })
            } else {
                Err(WireFault::TrailingBytes)
            },
            Err(fault) => Err(fault),
        },
        Err(fault) => Err(fault),
    }
}

// ---------------------------------------------------------------------------
// Reading gives back what was written
// ---------------------------------------------------------------------------
proof fn four_byte_number(x: int)
    ensures
        0 <= x < 4_294_967_296 ==> value32(le32(x)) == x,
        le32(x).len() == 4,
{
    reveal(le32);
    reveal(value32);
    if 0 <= x < 4_294_967_296 {
        assert(x / 256 == x / 256 % 256 + 256 * (x / 65_536));
        assert(x / 65_536 == x / 65_536 % 256 + 256 * (x / 16_777_216));
        assert(x / 16_777_216 % 256 == x / 16_777_216);
    }
}

proof fn eight_byte_number(x: int)
    ensures
        0 <= x < 18_446_744_073_709_551_616 ==> value64(le64(x)) == x,
        le64(x).len() == 8,
{
    reveal(le64);
    reveal(value64);
    let low = x % 4_294_967_296;
    let high = x / 4_294_967_296;
    four_byte_number(low);
    four_byte_number(high);
    assert(le64(x).subrange(0, 4) =~= le32(low));
    assert(le64(x).subrange(4, 8) =~= le32(high));
}

/// Numbers come back from their bytes.
pub proof fn numbers_round_trip(x: int)
    ensures
        0 <= x < 65_536 ==> value16(le16(x)) == x,
        0 <= x < 4_294_967_296 ==> value32(le32(x)) == x,
        0 <= x < 18_446_744_073_709_551_616 ==> value64(le64(x)) == x,
        i32::MIN <= x <= i32::MAX ==> signed32(unsigned32(x)) == x,
        i64::MIN <= x <= i64::MAX ==> signed64(unsigned64(x)) == x,
        le16(x).len() == 2,
        le32(x).len() == 4,
        le64(x).len() == 8,
{
    reveal(le16);
    reveal(value16);
    four_byte_number(x);
    eight_byte_number(x);
}

proof fn four_bytes(b: Seq<u8>)
    requires
        b.len() == 4,
    ensures
        le32(value32(b)) == b,
        0 <= value32(b) < 4_294_967_296,
{
    reveal(le32);
    reveal(value32);
    let x = value32(b);
    assert(x / 256 == b[1] + 256 * b[2] + 65_536 * b[3]);
    assert(x / 65_536 == b[2] + 256 * b[3]);
    assert(x / 16_777_216 == b[3]);
    assert(le32(x) =~= b);
}

/// Bytes come back from their number.
pub proof fn bytes_round_trip(b: Seq<u8>)
    ensures
        b.len() == 2 ==> le16(value16(b)) == b && 0 <= value16(b) < 65_536,
        b.len() == 4 ==> le32(value32(b)) == b && 0 <= value32(b) < 4_294_967_296,
        b.len() == 4 ==> unsigned32(signed32(value32(b)) as int) == value32(b),
        b.len() == 8 ==> le64(value64(b)) == b && 0 <= value64(b) < 18_446_744_073_709_551_616,
        b.len() == 8 ==> unsigned64(signed64(value64(b)) as int) == value64(b),
{
    reveal(le16);
    reveal(le32);
    reveal(le64);
    reveal(value16);
    reveal(value32);
    reveal(value64);
    if b.len() == 2 {
        assert(le16(value16(b)) =~= b);
    }
    if b.len() == 4 {
        four_bytes(b);
    }
    if b.len() == 8 {
        let low = b.subrange(0, 4);
        let high = b.subrange(4, 8);
        four_bytes(low);
        four_bytes(high);
        assert(value64(b) % 4_294_967_296 == value32(low));
        assert(value64(b) / 4_294_967_296 == value32(high));
        assert(le64(value64(b)) =~= b);
    }
}

proof fn sized_round_trip(content: Seq<u8>, b: Seq<u8>, at: int)
    requires
        content.len() <= u32::MAX,
        0 <= at,
        at + sized(content).len() <= b.len() <= usize::MAX,
        b.subrange(at, at + sized(content).len()) == sized(content),
    ensures
        parse_bytes(b, at) == Ok::<(Seq<u8>, int), WireFault>(
            (content, at + sized(content).len()),
        ),
{
    let whole = sized(content);
    numbers_round_trip(content.len() as int);
    part_of(b, at, whole, 0, 4);
    part_of(b, at, whole, 4, whole.len() as int);
    assert(whole.subrange(0, 4) =~= le32(content.len() as int));
    assert(whole.subrange(4, whole.len() as int) =~= content);
}

proof fn time_round_trip(value: Timestamp, b: Seq<u8>, at: int)
    requires
        value.valid(),
        0 <= at,
        at + 12 <= b.len() <= usize::MAX,
        b.subrange(at, at + 12) == time_bytes(value),
    ensures
        parse_time(b, at) == Ok::<(Timestamp, int), WireFault>((value, at + 12)),
{
    let whole = time_bytes(value);
    numbers_round_trip(unsigned64(value.seconds as int));
    numbers_round_trip(value.seconds as int);
    numbers_round_trip(value.nanos as int);
    assert(whole.len() == 12);
    part_of(b, at, whole, 0, 8);
    part_of(b, at, whole, 8, 12);
    assert(whole.subrange(0, 8) =~= le64(unsigned64(value.seconds as int)));
    assert(whole.subrange(8, 12) =~= le32(value.nanos as int));
}

/// A field is read back as it was written.
pub proof fn field_round_trip(value: FieldValue, b: Seq<u8>, at: int)
    requires
        field_fits(value),
        field_valid(value),
        0 <= at,
        at + field_bytes(value).len() <= b.len() <= usize::MAX,
        b.subrange(at, at + field_bytes(value).len()) == field_bytes(value),
    ensures
        parse_field(type_of(value), b, at) == Ok::<(FieldValue, int), WireFault>(
            (value, at + field_bytes(value).len()),
        ),
{
    broadcast use {encode_utf8_valid_utf8, encode_utf8_decode_utf8};

    let whole = field_bytes(value);
    match value {
        FieldValue::Bool(x) => {
            assert(b.subrange(at, at + 1)[0] == whole[0]);
        },
        FieldValue::Status(x) => {
            assert(b.subrange(at, at + 1)[0] == whole[0]);
        },
        FieldValue::U16(x) => {
            numbers_round_trip(x as int);
        },
        FieldValue::I64(x) => {
            numbers_round_trip(x as int);
            numbers_round_trip(unsigned64(x as int));
        },
        FieldValue::Length(x) => {
            numbers_round_trip(x as int);
        },
        FieldValue::Bytes(x) => {
            sized_round_trip(x, b, at);
        },
        FieldValue::Text(x) => {
            sized_round_trip(encode_utf8(x), b, at);
        },
        FieldValue::Json(x) => {
            sized_round_trip(encode_utf8(x), b, at);
        },
        FieldValue::Time(x) => {
            numbers_round_trip(x.nanos as int);
            numbers_round_trip(unsigned64(x.seconds as int));
            time_round_trip(x, b, at);
        },
        FieldValue::OptionalU32(x) => {
            assert(b.subrange(at, at + whole.len())[0] == whole[0]);
            assert(b.subrange(at, at + 1)[0] == whole[0]);
            if x is Some {
                numbers_round_trip(x->0 as int);
                part_of(b, at, whole, 1, whole.len() as int);
                assert(whole.subrange(1, whole.len() as int) =~= le32(x->0 as int));
            }
        },
        FieldValue::OptionalI32(x) => {
            assert(b.subrange(at, at + whole.len())[0] == whole[0]);
            assert(b.subrange(at, at + 1)[0] == whole[0]);
            if x is Some {
                numbers_round_trip(x->0 as int);
                numbers_round_trip(unsigned32(x->0 as int));
                part_of(b, at, whole, 1, whole.len() as int);
                assert(whole.subrange(1, whole.len() as int) =~= le32(unsigned32(x->0 as int)));
            }
        },
        FieldValue::OptionalText(x) => {
            assert(b.subrange(at, at + whole.len())[0] == whole[0]);
            assert(b.subrange(at, at + 1)[0] == whole[0]);
            if x is Some {
                part_of(b, at, whole, 1, whole.len() as int);
                assert(whole.subrange(1, whole.len() as int) =~= sized(encode_utf8(x->0)));
                sized_round_trip(encode_utf8(x->0), b, at + 1);
            }
        },
        FieldValue::OptionalTime(x) => {
            assert(b.subrange(at, at + whole.len())[0] == whole[0]);
            assert(b.subrange(at, at + 1)[0] == whole[0]);
            if x is Some {
                numbers_round_trip(x->0.nanos as int);
                numbers_round_trip(unsigned64(x->0.seconds as int));
                part_of(b, at, whole, 1, whole.len() as int);
                assert(whole.subrange(1, whole.len() as int) =~= time_bytes(x->0));
                time_round_trip(x->0, b, at + 1);
            }
        },
    }
}

proof fn part_of(b: Seq<u8>, at: int, whole: Seq<u8>, i: int, j: int)
    requires
        0 <= at,
        0 <= i <= j <= whole.len(),
        at + whole.len() <= b.len(),
        b.subrange(at, at + whole.len()) == whole,
    ensures
        b.subrange(at + i, at + j) == whole.subrange(i, j),
{
    assert(b.subrange(at, at + whole.len()).subrange(i, j) =~= b.subrange(at + i, at + j));
}

/// Whatever is read as a field are the bytes of that field, and the field is valid.
pub proof fn field_is_canonical(ty: FieldType, b: Seq<u8>, at: int)
    requires
        0 <= at <= b.len(),
        parse_field(ty, b, at) is Ok,
    ensures
        ({
            let (value, next) = parse_field(ty, b, at)->Ok_0;
            &&& type_of(value) == ty
            &&& at < next <= b.len()
            &&& b.subrange(at, next) == field_bytes(value)
            &&& field_fits(value)
            &&& field_valid(value)
        }),
{
    let (value, next) = parse_field(ty, b, at)->Ok_0;
    let whole = b.subrange(at, next);
    match ty {
        FieldType::Bool => {
            assert(whole =~= field_bytes(value));
        },
        FieldType::Status => {
            assert(whole =~= field_bytes(value));
        },
        FieldType::U16 => {
            bytes_round_trip(whole);
        },
        FieldType::I64 => {
            bytes_round_trip(whole);
        },
        FieldType::Length => {
            bytes_round_trip(whole);
        },
        FieldType::Bytes => {
            sized_is_canonical(b, at);
        },
        FieldType::Text => {
            text_is_canonical(b, at);
        },
        FieldType::Json => {
            text_is_canonical(b, at);
        },
        FieldType::Time => {
            time_is_canonical(b, at);
        },
        FieldType::OptionalU32 => {
            if value->OptionalU32_0 is Some {
                bytes_round_trip(b.subrange(at + 1, next));
            }
            assert(whole =~= field_bytes(value));
        },
        FieldType::OptionalI32 => {
            if value->OptionalI32_0 is Some {
                bytes_round_trip(b.subrange(at + 1, next));
            }
            assert(whole =~= field_bytes(value));
        },
        FieldType::OptionalText => {
            if value->OptionalText_0 is Some {
                text_is_canonical(b, at + 1);
                assert(whole =~= seq![1u8] + b.subrange(at + 1, next));
            }
            assert(whole =~= field_bytes(value));
        },
        FieldType::OptionalTime => {
            if value->OptionalTime_0 is Some {
                time_is_canonical(b, at + 1);
                assert(whole =~= seq![1u8] + b.subrange(at + 1, next));
            }
            assert(whole =~= field_bytes(value));
        },
    }
}

proof fn sized_is_canonical(b: Seq<u8>, at: int)
    requires
        0 <= at <= b.len(),
        parse_bytes(b, at) is Ok,
    ensures
        ({
            let (content, next) = parse_bytes(b, at)->Ok_0;
            &&& content.len() <= u32::MAX
            &&& at < next <= b.len()
            &&& b.subrange(at, next) == sized(content)
        }),
{
    let (content, next) = parse_bytes(b, at)->Ok_0;
    bytes_round_trip(b.subrange(at, at + 4));
    assert(b.subrange(at, next) =~= b.subrange(at, at + 4) + content);
}

proof fn text_is_canonical(b: Seq<u8>, at: int)
    requires
        0 <= at <= b.len(),
        parse_text(b, at) is Ok,
    ensures
        ({
            let (text, next) = parse_text(b, at)->Ok_0;
            &&& encode_utf8(text).len() <= u32::MAX
            &&& at < next <= b.len()
            &&& b.subrange(at, next) == sized(encode_utf8(text))
        }),
{
    sized_is_canonical(b, at);
    let (content, next) = parse_bytes(b, at)->Ok_0;
    decode_utf8_encode_utf8(content);
}

proof fn time_is_canonical(b: Seq<u8>, at: int)
    requires
        0 <= at <= b.len(),
        parse_time(b, at) is Ok,
    ensures
        ({
            let (value, next) = parse_time(b, at)->Ok_0;
            &&& value.valid()
            &&& at < next <= b.len()
            &&& b.subrange(at, next) == time_bytes(value)
        }),
{
    let (value, next) = parse_time(b, at)->Ok_0;
    bytes_round_trip(b.subrange(at, at + 8));
    bytes_round_trip(b.subrange(at + 8, at + 12));
    assert(b.subrange(at, next) =~= b.subrange(at, at + 8) + b.subrange(at + 8, at + 12));
}

/// Fields are read back as they were written.
pub proof fn fields_round_trip(values: Seq<FieldValue>, b: Seq<u8>, at: int)
    requires
        fields_fit(values),
        fields_valid(values),
        0 <= at,
        at + fields_bytes(values).len() <= b.len() <= usize::MAX,
        b.subrange(at, at + fields_bytes(values).len()) == fields_bytes(values),
    ensures
        parse_fields(types_of(values), b, at) == Ok::<(Seq<FieldValue>, int), WireFault>(
            (values, at + fields_bytes(values).len()),
        ),
    decreases values.len(),
{
    if values.len() == 0 {
        assert(values =~= Seq::empty());
    } else {
        let front = values.drop_last();
        let whole = fields_bytes(values);
        let cut = fields_bytes(front).len() as int;
        part_of(b, at, whole, 0, cut);
        part_of(b, at, whole, cut, whole.len() as int);
        assert(whole.subrange(0, cut) =~= fields_bytes(front));
        assert(whole.subrange(cut, whole.len() as int) =~= field_bytes(values.last()));
        assert(types_of(values).drop_last() =~= types_of(front));
        assert forall|i: int| 0 <= i < front.len() implies field_fits(#[trigger] front[i])
            && field_valid(front[i]) by {
            assert(front[i] == values[i]);
        }
        fields_round_trip(front, b, at);
        field_round_trip(values.last(), b, at + cut);
        assert(front.push(values.last()) =~= values);
    }
}

/// Whatever is read as fields are the bytes of those fields, and the fields are valid.
pub proof fn fields_are_canonical(layout: Seq<FieldType>, b: Seq<u8>, at: int)
    requires
        0 <= at <= b.len(),
        parse_fields(layout, b, at) is Ok,
    ensures
        ({
            let (values, next) = parse_fields(layout, b, at)->Ok_0;
            &&& types_of(values) == layout
            &&& at <= next <= b.len()
            &&& layout.len() > 0 ==> at < next
            &&& b.subrange(at, next) == fields_bytes(values)
            &&& fields_fit(values)
            &&& fields_valid(values)
        }),
    decreases layout.len(),
{
    let (values, next) = parse_fields(layout, b, at)->Ok_0;
    if layout.len() == 0 {
        assert(types_of(values) =~= layout);
        assert(b.subrange(at, next) =~= fields_bytes(values));
    } else {
        fields_are_canonical(layout.drop_last(), b, at);
        let (front, cut) = parse_fields(layout.drop_last(), b, at)->Ok_0;
        field_is_canonical(layout.last(), b, cut);
        assert(values.drop_last() =~= front);
        assert(types_of(values) =~= layout.drop_last().push(layout.last())) by {
            assert forall|i: int| 0 <= i < front.len() implies type_of(#[trigger] values[i])
                == layout[i] by {
                assert(types_of(front)[i] == layout.drop_last()[i]);
                assert(values[i] == front[i]);
            }
        }
        assert(layout.drop_last().push(layout.last()) =~= layout);
        assert(b.subrange(at, next) =~= b.subrange(at, cut) + b.subrange(cut, next));
        assert forall|i: int| 0 <= i < values.len() implies field_fits(#[trigger] values[i])
            && field_valid(values[i]) by {
            if i < front.len() {
                assert(values[i] == front[i]);
            }
        }
    }
}

/// Entries are read back as they were written.
pub proof fn entries_round_trip(
    entry: Seq<FieldType>,
    entries: Seq<Seq<FieldValue>>,
    b: Seq<u8>,
    at: int,
)
    requires
        forall|i: int|
            0 <= i < entries.len() ==> fields_fit(#[trigger] entries[i]) && fields_valid(entries[i])
                && types_of(entries[i]) == entry,
        0 <= at,
        at + entries_bytes(entries).len() <= b.len() <= usize::MAX,
        b.subrange(at, at + entries_bytes(entries).len()) == entries_bytes(entries),
    ensures
        parse_entries(entry, entries.len(), b, at) == Ok::<
            (Seq<Seq<FieldValue>>, int),
            WireFault,
        >((entries, at + entries_bytes(entries).len())),
    decreases entries.len(),
{
    if entries.len() == 0 {
        assert(entries =~= Seq::empty());
    } else {
        let front = entries.drop_last();
        let whole = entries_bytes(entries);
        let cut = entries_bytes(front).len() as int;
        part_of(b, at, whole, 0, cut);
        part_of(b, at, whole, cut, whole.len() as int);
        assert(whole.subrange(0, cut) =~= entries_bytes(front));
        assert(whole.subrange(cut, whole.len() as int) =~= fields_bytes(entries.last()));
        assert forall|i: int| 0 <= i < front.len() implies fields_fit(#[trigger] front[i])
            && fields_valid(front[i]) && types_of(front[i]) == entry by {
            assert(front[i] == entries[i]);
        }
        entries_round_trip(entry, front, b, at);
        fields_round_trip(entries.last(), b, at + cut);
        assert(front.push(entries.last()) =~= entries);
    }
}

/// Whatever is read as entries are the bytes of those entries, and the entries are valid.
pub proof fn entries_are_canonical(entry: Seq<FieldType>, count: nat, b: Seq<u8>, at: int)
    requires
        0 <= at <= b.len(),
        parse_entries(entry, count, b, at) is Ok,
    ensures
        ({
            let (entries, next) = parse_entries(entry, count, b, at)->Ok_0;
            &&& entries.len() == count
            &&& at <= next <= b.len()
            &&& b.subrange(at, next) == entries_bytes(entries)
            &&& forall|i: int|
                0 <= i < entries.len() ==> fields_fit(#[trigger] entries[i]) && fields_valid(
                    entries[i],
                ) && types_of(entries[i]) == entry
        }),
    decreases count,
{
    let (entries, next) = parse_entries(entry, count, b, at)->Ok_0;
    if count == 0 {
        assert(b.subrange(at, next) =~= entries_bytes(entries));
    } else {
        entries_are_canonical(entry, (count - 1) as nat, b, at);
        let (front, cut) = parse_entries(entry, (count - 1) as nat, b, at)->Ok_0;
        fields_are_canonical(entry, b, cut);
        assert(entries.drop_last() =~= front);
        assert(b.subrange(at, next) =~= b.subrange(at, cut) + b.subrange(cut, next));
        assert forall|i: int| 0 <= i < entries.len() implies fields_fit(#[trigger] entries[i])
            && fields_valid(entries[i]) && types_of(entries[i]) == entry by {
            if i < front.len() {
                assert(entries[i] == front[i]);
            }
        }
    }
}

/// A payload is read back as it was written.
pub proof fn body_round_trip(layout: Layout, body: Body)
    requires
        follows(body, layout),
        body_fits(body),
        body_valid(body),
        body_bytes(body).len() <= usize::MAX,
    ensures
        parse_body(layout, body_bytes(body)) == Ok::<Body, WireFault>(body),
{
    let b = body_bytes(body);
    let cut = fields_bytes(body.head).len() as int;
    assert(b.subrange(0, cut) =~= fields_bytes(body.head));
    assert(b.subrange(cut, b.len() as int) =~= entries_bytes(body.entries));
    fields_round_trip(body.head, b, 0);
    entries_round_trip(layout.entry, body.entries, b, cut);
}

/// Whatever is read as a payload are the bytes of what was read, and that follows the layout: no
/// two byte strings are read alike, and nothing but what a writer writes is read.
pub proof fn body_is_canonical(layout: Layout, b: Seq<u8>)
    requires
        layout.entry.len() > 0 ==> layout.fields.len() > 0 && layout.fields.last()
            == FieldType::Length,
        parse_body(layout, b) is Ok,
    ensures
        ({
            let body = parse_body(layout, b)->Ok_0;
            &&& body_bytes(body) == b
            &&& follows(body, layout)
            &&& body_fits(body)
            &&& body_valid(body)
        }),
{
    fields_are_canonical(layout.fields, b, 0);
    let (head, at) = parse_fields(layout.fields, b, 0)->Ok_0;
    entries_are_canonical(layout.entry, entry_count(layout, head), b, at);
    let body = parse_body(layout, b)->Ok_0;
    assert(b.subrange(0, at) + b.subrange(at, b.len() as int) =~= b);
    if layout.entry.len() > 0 {
        assert(types_of(head)[head.len() - 1] == FieldType::Length);
    }
}

// ---------------------------------------------------------------------------
// Writing and reading lists of fields
// ---------------------------------------------------------------------------
/// Writes fields, one behind the other.
pub fn put_items(buf: &mut Vec<u8>, items: &Vec<Item>) -> (r: Result<(), WireError>)
    ensures
        fields_fit(items_values(items@)) ==> r is Ok && final(buf)@ == old(buf)@ + fields_bytes(
            items_values(items@),
        ),
        !fields_fit(items_values(items@)) ==> r == Err::<(), WireError>(
            WireError::LengthExceedsU32,
        ),
{
    let ghost values = items_values(items@);
    let mut i: usize = 0;
    assert(values.take(0) =~= Seq::empty());
    while i < items.len()
        invariant
            i <= items.len(),
            values == items_values(items@),
            forall|j: int| 0 <= j < i ==> field_fits(#[trigger] values[j]),
            buf@ == old(buf)@ + fields_bytes(values.take(i as int)),
        decreases items.len() - i,
    {
        match put_item(buf, &items[i]) {
            Ok(()) => {},
            Err(error) => {
                assert(!field_fits(values[i as int]));
                return Err(error);
            },
        }
        proof {
            let more = values.take(i as int + 1);
            assert(more.drop_last() =~= values.take(i as int));
            assert(more.last() == values[i as int]);
            assert(buf@ =~= old(buf)@ + fields_bytes(more));
        }
        i += 1;
    }
    assert(values.take(values.len() as int) =~= values);
    Ok(())
}

impl<'a> Cursor<'a> {
    /// Fields of the given types, one behind the other.
    pub fn take_fields(&mut self, layout: &Vec<FieldType>) -> (r: Result<Vec<Field>, WireError>)
        requires
            old(self).wf(),
        ensures
            final(self).wf(),
            final(self).bytes() == old(self).bytes(),
            match parse_fields(layout@, old(self).bytes(), old(self).at()) {
                Ok((values, next)) => r is Ok && values_of(r->Ok_0@) == values && final(self).at()
                    == next,
                Err(fault) => r is Err && r->Err_0@ == fault,
            },
            r matches Ok(fields) ==> fields@.len() == layout@.len() && forall|i: int|
                0 <= i < fields@.len() ==> type_of(#[trigger] fields@[i]@) == layout@[i],
    {
        let ghost b = self.bytes();
        let ghost start = self.at();
        let mut fields: Vec<Field> = Vec::new();
        let mut i: usize = 0;
        assert(layout@.take(0) =~= Seq::empty());
        assert(values_of(fields@) =~= Seq::empty());
        while i < layout.len()
            invariant
                i <= layout.len(),
                self.wf(),
                self.bytes() == b,
                parse_fields(layout@.take(i as int), b, start) == Ok::<
                    (Seq<FieldValue>, int),
                    WireFault,
                >((values_of(fields@), self.at())),
                old(self).bytes() == b,
                old(self).at() == start,
            decreases layout.len() - i,
        {
            let ghost done = layout@.take(i as int);
            let ghost more = layout@.take(i as int + 1);
            let ghost before = fields@;
            assert(more.drop_last() =~= done);
            assert(more.last() == layout@[i as int]);
            match self.take_field(layout[i]) {
                Ok(field) => {
                    fields.push(field);
                    assert(values_of(fields@) =~= values_of(before).push(field@));
                },
                Err(error) => {
                    proof {
                        stops_early(layout@, i as int + 1, b, start);
                    }
                    return Err(error);
                },
            }
            i += 1;
        }
        assert(layout@.take(layout@.len() as int) =~= layout@);
        proof {
            fields_are_canonical(layout@, b, start);
            assert forall|j: int| 0 <= j < fields@.len() implies type_of(#[trigger] fields@[j]@)
                == layout@[j] by {
                assert(types_of(values_of(fields@))[j] == layout@[j]);
            }
        }
        Ok(fields)
    }
}

/// Where the first of some entries cannot be read, the entries cannot be read.
pub proof fn entries_stop_early(entry: Seq<FieldType>, n: nat, count: nat, b: Seq<u8>, at: int)
    requires
        n <= count,
        parse_entries(entry, n, b, at) is Err,
    ensures
        parse_entries(entry, count, b, at) == parse_entries(entry, n, b, at),
    decreases count,
{
    if n < count {
        entries_stop_early(entry, n, (count - 1) as nat, b, at);
    }
}

/// Where the first fields of a layout cannot be read, the layout cannot be read.
proof fn stops_early(layout: Seq<FieldType>, n: int, b: Seq<u8>, at: int)
    requires
        0 <= n <= layout.len(),
        parse_fields(layout.take(n), b, at) is Err,
    ensures
        parse_fields(layout, b, at) == parse_fields(layout.take(n), b, at),
    decreases layout.len() - n,
{
    if n == layout.len() {
        assert(layout.take(n) =~= layout);
    } else {
        assert(layout.take(n + 1).drop_last() =~= layout.take(n));
        stops_early(layout, n + 1, b, at);
    }
}

} // verus!
