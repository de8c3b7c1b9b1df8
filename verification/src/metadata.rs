//! The fields of an image's metadata container, as far as a creation date
//! is read from them.
//!
//! The container itself is parsed by the `exif` crate. What this library
//! reads of a parsed container is copied out into plain values, field by
//! field, and the date is then found in those.

use crate::datestamp::{is_calendar_date, Day, Month, Year};
use crate::errors::Error;
use exif::Error as ExifError;
use vstd::prelude::*;

verus! {

/// `exif::Reader`, a parsed container. Nothing inside it is seen here: what
/// it holds is read through `reader_fields`.
#[verifier::external_type_specification]
#[verifier::external_body]
pub struct ExReader(exif::Reader);

/// The directory of the container in which a tag number is to be read.
#[derive(Debug, Clone, Copy, PartialEq, Eq, Structural)]
pub enum Context {
    Tiff,
    Exif,
    Gps,
    Interop,
    /// A directory that the parser may come to know and this library has
    /// no name for.
    Unknown,
}

/// What a field is a field of: a directory and a number in it.
#[derive(Debug, Clone, Copy, PartialEq, Eq, Structural)]
pub struct Tag {
    pub context: Context,
    pub number: u16,
}

/// The number, in the TIFF directory, of the tag that holds the date and
/// time of the image.
pub const DATE_TIME: u16 = 0x132;

/// What a field holds. Only text is read here; a value of any other type is
/// `Other`.
#[derive(Debug)]
pub enum Value {
    /// The strings of a text field, without the zero bytes that end them.
    Ascii(Vec<Vec<u8>>),
    Other,
}

/// One field of a parsed container.
#[derive(Debug)]
pub struct MetadataField {
    pub tag: Tag,
    pub value: Value,
}

/// A value as a mathematical one.
pub enum ValueView {
    Ascii(Seq<Seq<u8>>),
    Other,
}

/// A field as a mathematical value.
pub struct FieldView {
    pub tag: Tag,
    pub value: ValueView,
}

impl View for Value {
    type V = ValueView;

    open spec fn view(&self) -> ValueView {
        match self {
            Value::Ascii(strings) => ValueView::Ascii(strings@.map_values(|s: Vec<u8>| s@)),
            Value::Other => ValueView::Other,
        }
    }
}

impl View for MetadataField {
    type V = FieldView;

    open spec fn view(&self) -> FieldView {
        FieldView { tag: self.tag, value: self.value@ }
    }
}

/// The fields as mathematical values, in their order.
pub open spec fn views(fields: Seq<MetadataField>) -> Seq<FieldView> {
    fields.map_values(|f: MetadataField| f@)
}

/// The fields that `exif::Reader::new` finds in the bytes of an image, in
/// the order in which it lists them, or `None` where it reports an error.
pub uninterp spec fn container_fields(data: Seq<u8>) -> Option<Seq<FieldView>>;

/// The fields that a reader holds, in the order of `exif::Reader::fields`.
pub uninterp spec fn reader_fields(reader: exif::Reader) -> Seq<FieldView>;

/// `exif::Reader::new` on bytes in memory. It parses a JPEG or TIFF image
/// and keeps the fields it finds. The contract gives the outcome a name:
/// the same bytes are parsed to the same fields, or refused, every time.
#[verifier::external_body]
fn open_container(data: &[u8]) -> (r: Result<exif::Reader, ExifError>)
    ensures
        r is Ok <==> container_fields(data@) is Some,
        r matches Ok(reader) ==> container_fields(data@) == Some(reader_fields(reader)),
{
    let mut input = data;
    exif::Reader::new(&mut input)
}

/// The number of items that `exif::Reader::fields` yields.
#[verifier::external_body]
fn field_count(reader: &exif::Reader) -> (count: usize)
    ensures
        count == reader_fields(*reader).len(),
{
    reader.fields().len()
}

/// The item that `exif::Reader::fields` yields at `index`, copied into
/// plain values: the tag's directory and number, and the strings of a text
/// value.
#[verifier::external_body]
fn field_at(reader: &exif::Reader, index: usize) -> (field: MetadataField)
    requires
        index < reader_fields(*reader).len(),
    ensures
        field@ == reader_fields(*reader)[index as int],
{
    let f = reader.fields().nth(index).unwrap();
    let context = match f.tag.0 {
        exif::Context::Tiff => Context::Tiff,
        exif::Context::Exif => Context::Exif,
        exif::Context::Gps => Context::Gps,
        exif::Context::Interop => Context::Interop,
        _ => Context::Unknown,
    };
    let value = match f.value {
        exif::Value::Ascii(ref v) => Value::Ascii(v.clone()),
        _ => Value::Other,
    };
    MetadataField { tag: Tag { context, number: f.tag.1 }, value }
}

/// Whether the byte writes a decimal digit.
pub open spec fn is_digit(b: u8) -> bool {
    0x30 <= b <= 0x39
}

/// The number that the two digits at `at` write.
pub open spec fn two_at(data: Seq<u8>, at: int) -> int {
    (data[at] - 0x30) * 10 + (data[at + 1] - 0x30)
}

/// Whether the two bytes at `at` are digits.
pub open spec fn digits_at(data: Seq<u8>, at: int) -> bool {
    is_digit(data[at]) && is_digit(data[at + 1])
}

/// Whether the bytes start with a date and time written as
/// `YYYY:MM:DD HH:MM:SS`, in digits. What follows the nineteenth byte is
/// not looked at.
pub open spec fn spells_date_time(data: Seq<u8>) -> bool {
    &&& data.len() >= 19
    &&& data[4] == 0x3a && data[7] == 0x3a
    &&& data[10] == 0x20
    &&& data[13] == 0x3a && data[16] == 0x3a
    &&& digits_at(data, 0) && digits_at(data, 2)
    &&& digits_at(data, 5) && digits_at(data, 8)
    &&& digits_at(data, 11) && digits_at(data, 14) && digits_at(data, 17)
}

/// The year, month and day that the bytes spell, where they spell a date
/// and time. No number is held to a range: a month of 13 is read as 13.
pub open spec fn spelled_date(data: Seq<u8>) -> Option<(Year, Month, Day)> {
    if spells_date_time(data) {
        Some(
            (
                (two_at(data, 0) * 100 + two_at(data, 2)) as u16,
                two_at(data, 5) as u8,
                two_at(data, 8) as u8,
            ),
        )
    } else {
        None
    }
}

/// `exif::DateTime::from_ascii`, of whose result the year, month and day
/// are kept. It accepts the bytes where they are nineteen at least and
/// spell `YYYY:MM:DD HH:MM:SS` in digits, and reads each number in
/// decimal; anything else, a blank date too, is an error, here `None`.
#[verifier::external_body]
fn date_from_ascii(data: &[u8]) -> (date: Option<(Year, Month, Day)>)
    ensures
        date == spelled_date(data@),
{
    exif::DateTime::from_ascii(data).ok().map(|ts| (ts.year, ts.month, ts.day))
}

/// Whether the tag is that of the image's date and time.
pub open spec fn is_date_time(tag: Tag) -> bool {
    tag.context == Context::Tiff && tag.number == DATE_TIME
}

/// The last field among `fields` that holds the image's date and time.
pub open spec fn last_date_time(fields: Seq<FieldView>) -> Option<FieldView>
    decreases fields.len(),
{
    if fields.len() == 0 {
        None
    } else if is_date_time(fields.last().tag) {
        Some(fields.last())
    } else {
        last_date_time(fields.drop_last())
    }
}

/// The calendar date that a field holds: what the first string of a text
/// value spells, where that is a date and time with a month from 1 to 12
/// and a day from 1 to 31.
pub open spec fn date_in(field: FieldView) -> Option<(Year, Month, Day)> {
    match field.value {
        ValueView::Ascii(strings) => {
            if strings.len() > 0 && spelled_date(strings[0]) is Some && is_calendar_date(
                spelled_date(strings[0])->0,
            ) {
                spelled_date(strings[0])
            } else {
                None
            }
        },
        ValueView::Other => None,
    }
}

/// The creation date that the fields give: the date in the last field that
/// holds the image's date and time.
pub open spec fn creation_date_of(fields: Seq<FieldView>) -> Option<(Year, Month, Day)> {
    match last_date_time(fields) {
        Some(field) => date_in(field),
        None => None,
    }
}

/// Fields of which none holds the image's date and time give no date.
pub proof fn lemma_no_date_time_no_date(fields: Seq<FieldView>)
    requires
        forall|i: int| 0 <= i < fields.len() ==> !is_date_time(#[trigger] fields[i].tag),
    ensures
        last_date_time(fields) is None,
        creation_date_of(fields) is None,
    decreases fields.len(),
{
    if fields.len() > 0 {
        lemma_no_date_time_no_date(fields.drop_last());
    }
}

/// Where the image's date and time is held more than once, the last field
/// that holds it decides: whatever stands before it, and whatever other
/// fields follow it, the date is the one in that field, and there is no
/// date where that field holds none.
pub proof fn lemma_last_occurrence_decides(
    before: Seq<FieldView>,
    field: FieldView,
    after: Seq<FieldView>,
)
    requires
        is_date_time(field.tag),
        forall|i: int| 0 <= i < after.len() ==> !is_date_time(#[trigger] after[i].tag),
    ensures
        last_date_time(before + seq![field] + after) == Some(field),
        creation_date_of(before + seq![field] + after) == date_in(field),
    decreases after.len(),
{
    let all = before + seq![field] + after;
    if after.len() > 0 {
        assert(all.drop_last() =~= before + seq![field] + after.drop_last());
        lemma_last_occurrence_decides(before, field, after.drop_last());
    }
}

/// Parses the bytes of an image and hands back its metadata container.
/// It succeeds exactly where the parser accepts the bytes; a refusal is
/// wrapped with the parser's error as its cause.
pub fn read_container(data: &[u8]) -> (r: Result<exif::Reader, Error>)
    ensures
        r is Ok <==> container_fields(data@) is Some,
        r matches Ok(reader) ==> container_fields(data@) == Some(reader_fields(reader)),
        r matches Err(e) ==> e matches Error::ModError(crate::errors::Cause::Metadata(_)),
{
    match open_container(data) {
        Ok(reader) => Ok(reader),
        Err(err) => Err(Error::from(err)),
    }
}

/// The fields of a parsed container as plain values, in the parser's order.
pub fn read_fields(reader: &exif::Reader) -> (fields: Vec<MetadataField>)
    ensures
        views(fields@) == reader_fields(*reader),
{
    let count = field_count(reader);
    let mut fields: Vec<MetadataField> = Vec::new();
    let mut i: usize = 0;
    while i < count
        invariant
            i <= count,
            count == reader_fields(*reader).len(),
            views(fields@) == reader_fields(*reader).subrange(0, i as int),
        decreases count - i,
    {
        let field = field_at(reader, i);
        fields.push(field);
        assert(reader_fields(*reader).subrange(0, i + 1) =~= reader_fields(*reader).subrange(
            0,
            i as int,
        ).push(field@));
        i = i + 1;
    }
    fields
}

/// Whether the tag is that of the image's date and time.
pub fn tag_is_date_time(tag: &Tag) -> (b: bool)
    ensures
        b == is_date_time(*tag),
{
    tag.context == Context::Tiff && tag.number == DATE_TIME
}

/// The calendar date that a field holds, read from the first string of a
/// text value. `None` where the value is no text, has no string, does not
/// spell `YYYY:MM:DD HH:MM:SS`, or names a month outside 1 to 12 or a day
/// outside 1 to 31.
pub fn field_date(field: &MetadataField) -> (date: Option<(Year, Month, Day)>)
    ensures
        date == date_in(field@),
        date matches Some(d) ==> is_calendar_date(d),
{
    match &field.value {
        Value::Ascii(strings) => {
            if strings.len() == 0 {
                return None;
            }
            match date_from_ascii(strings[0].as_slice()) {
                Some((year, month, day)) => {
                    if 1 <= month && month <= 12 && 1 <= day && day <= 31 {
                        Some((year, month, day))
                    } else {
                        None
                    }
                },
                None => None,
            }
        },
        Value::Other => None,
    }
}

/// The creation date that the fields give. Of the fields that hold the
/// image's date and time the last one decides, also where it holds no date
/// and an earlier one does.
pub fn creation_date(fields: &Vec<MetadataField>) -> (date: Option<(Year, Month, Day)>)
    ensures
        date == creation_date_of(views(fields@)),
        date matches Some(d) ==> is_calendar_date(d),
{
    let mut found: Option<usize> = None;
    let mut i: usize = 0;
    while i < fields.len()
        invariant
            i <= fields.len(),
            found matches Some(k) ==> k < i,
            last_date_time(views(fields@).subrange(0, i as int)) == (match found {
                Some(k) => Some(fields@[k as int]@),
                None => None,
            }),
        decreases fields.len() - i,
    {
        assert(views(fields@).subrange(0, i + 1).drop_last() == views(fields@).subrange(
            0,
            i as int,
        ));
        if tag_is_date_time(&fields[i].tag) {
            found = Some(i);
        }
        i = i + 1;
    }
    assert(views(fields@).subrange(0, i as int) == views(fields@));
    match found {
        Some(k) => field_date(&fields[k]),
        None => None,
    }
}

} // verus!
