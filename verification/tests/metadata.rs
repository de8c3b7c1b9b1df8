use orambi::errors::{Cause, Error};
use orambi::metadata::{
    creation_date, field_date, read_container, read_fields, tag_is_date_time, Context, MetadataField,
    Tag, Value, DATE_TIME,
};

fn date_time_tag() -> Tag {
    Tag { context: Context::Tiff, number: DATE_TIME }
}

fn text_field(tag: Tag, text: &[u8]) -> MetadataField {
    MetadataField { tag, value: Value::Ascii(vec![text.to_vec()]) }
}

fn dated(text: &[u8]) -> MetadataField {
    text_field(date_time_tag(), text)
}

/// A TIFF block, big-endian, whose only directory holds one text field per
/// entry of `entries`, each under the given tag number.
fn tiff_with_text_fields(entries: &[(u16, &[u8])]) -> Vec<u8> {
    let mut tiff = vec![0x4d, 0x4d, 0x00, 0x2a, 0x00, 0x00, 0x00, 0x08];
    let count = entries.len() as u16;
    tiff.extend_from_slice(&count.to_be_bytes());
    let mut offset = 8 + 2 + 12 * entries.len() as u32 + 4;
    for (number, text) in entries {
        tiff.extend_from_slice(&number.to_be_bytes());
        tiff.extend_from_slice(&[0x00, 0x02]);
        tiff.extend_from_slice(&(text.len() as u32 + 1).to_be_bytes());
        tiff.extend_from_slice(&offset.to_be_bytes());
        offset += text.len() as u32 + 1;
    }
    tiff.extend_from_slice(&[0, 0, 0, 0]);
    for (_, text) in entries {
        tiff.extend_from_slice(text);
        tiff.push(0);
    }
    tiff
}

fn jpeg_with_exif(tiff: &[u8]) -> Vec<u8> {
    let mut jpeg = vec![0xff, 0xd8, 0xff, 0xe1];
    jpeg.extend_from_slice(&(tiff.len() as u16 + 8).to_be_bytes());
    jpeg.extend_from_slice(b"Exif\0\0");
    jpeg.extend_from_slice(tiff);
    jpeg.extend_from_slice(&[0xff, 0xd9]);
    jpeg
}

#[test]
fn date_time_tag_is_the_parsers() {
    assert_eq!(exif::Tag::DateTime.number(), DATE_TIME);
    assert_eq!(exif::Tag::DateTime.context(), exif::Context::Tiff);
}

#[test]
fn date_time_tag_is_recognised() {
    assert!(tag_is_date_time(&Tag { context: Context::Tiff, number: 0x132 }));
    assert!(!tag_is_date_time(&Tag { context: Context::Exif, number: 0x132 }));
    assert!(!tag_is_date_time(&Tag { context: Context::Gps, number: 0x132 }));
    assert!(!tag_is_date_time(&Tag { context: Context::Interop, number: 0x132 }));
    assert!(!tag_is_date_time(&Tag { context: Context::Tiff, number: 0x131 }));
    assert!(!tag_is_date_time(&Tag { context: Context::Exif, number: 0x9003 }));
}

#[test]
fn field_date_reads_year_month_day() {
    assert_eq!(field_date(&dated(b"2012:06:13 10:20:30")), Some((2012, 6, 13)));
    assert_eq!(field_date(&dated(b"1999:12:31 23:59:59")), Some((1999, 12, 31)));
    assert_eq!(field_date(&dated(b"0007:01:01 00:00:00")), Some((7, 1, 1)));
}

#[test]
fn field_date_repeats_the_digits_of_the_field() {
    for text in ["2012:06:13 10:20:30", "1000:01:01 00:00:00", "9999:12:31 23:59:59"] {
        let date = field_date(&dated(text.as_bytes())).unwrap();
        let written = format!("{}_{:02}_{:02}_", date.0, date.1, date.2);
        assert_eq!(written, format!("{}_{}_{}_", &text[0..4], &text[5..7], &text[8..10]));
        assert_eq!(orambi::datestamp::prefix(date), written);
    }
}

#[test]
fn field_date_ignores_what_follows_the_time() {
    assert_eq!(field_date(&dated(b"2012:06:13 10:20:30+02:00")), Some((2012, 6, 13)));
}

#[test]
fn field_date_reads_the_first_string_only() {
    let field = MetadataField {
        tag: date_time_tag(),
        value: Value::Ascii(vec![b"2012:06:13 10:20:30".to_vec(), b"2013:07:14 11:21:31".to_vec()]),
    };
    assert_eq!(field_date(&field), Some((2012, 6, 13)));
    let field = MetadataField {
        tag: date_time_tag(),
        value: Value::Ascii(vec![b"no date".to_vec(), b"2013:07:14 11:21:31".to_vec()]),
    };
    assert_eq!(field_date(&field), None);
}

#[test]
fn field_date_of_malformed_text_is_none() {
    assert_eq!(field_date(&dated(b"")), None);
    assert_eq!(field_date(&dated(b"2012:06:13 10:20:3")), None);
    assert_eq!(field_date(&dated(b"2012-06-13 10:20:30")), None);
    assert_eq!(field_date(&dated(b"2012:06:13T10:20:30")), None);
    assert_eq!(field_date(&dated(b"2012:06:13 10.20.30")), None);
    assert_eq!(field_date(&dated(b"2O12:06:13 10:20:30")), None);
    assert_eq!(field_date(&dated(b"2012:06:13 10:20:3x")), None);
    assert_eq!(field_date(&dated(b"2012: 6:13 10:20:30")), None);
}

#[test]
fn field_date_of_a_blank_date_is_none() {
    assert_eq!(field_date(&dated(b"    :  :     :  :  ")), None);
    assert_eq!(field_date(&dated(b"                   ")), None);
}

#[test]
fn field_date_holds_month_and_day_to_the_calendar() {
    assert_eq!(field_date(&dated(b"2012:00:13 10:20:30")), None);
    assert_eq!(field_date(&dated(b"2012:13:13 10:20:30")), None);
    assert_eq!(field_date(&dated(b"2012:06:00 10:20:30")), None);
    assert_eq!(field_date(&dated(b"2012:06:32 10:20:30")), None);
    assert_eq!(field_date(&dated(b"0000:00:00 00:00:00")), None);
    assert_eq!(field_date(&dated(b"2012:01:01 10:20:30")), Some((2012, 1, 1)));
    assert_eq!(field_date(&dated(b"2012:12:31 10:20:30")), Some((2012, 12, 31)));
    assert_eq!(field_date(&dated(b"2012:02:31 99:99:99")), Some((2012, 2, 31)));
}

#[test]
fn field_date_of_a_value_without_text_is_none() {
    assert_eq!(field_date(&MetadataField { tag: date_time_tag(), value: Value::Other }), None);
    assert_eq!(
        field_date(&MetadataField { tag: date_time_tag(), value: Value::Ascii(vec![]) }),
        None
    );
}

#[test]
fn creation_date_of_no_fields_is_none() {
    assert_eq!(creation_date(&vec![]), None);
}

#[test]
fn creation_date_needs_the_date_time_tag() {
    let other = Tag { context: Context::Exif, number: 0x9003 };
    let fields = vec![text_field(other, b"2012:06:13 10:20:30")];
    assert_eq!(creation_date(&fields), None);
}

#[test]
fn creation_date_takes_the_last_occurrence() {
    let other = Tag { context: Context::Tiff, number: 0x10f };
    let fields = vec![
        dated(b"2012:06:13 10:20:30"),
        text_field(other, b"maker"),
        dated(b"2014:08:15 10:20:30"),
        text_field(other, b"1999:01:01 00:00:00"),
    ];
    assert_eq!(creation_date(&fields), Some((2014, 8, 15)));
}

#[test]
fn creation_date_does_not_fall_back_to_an_earlier_occurrence() {
    let fields = vec![dated(b"2012:06:13 10:20:30"), dated(b"not a date")];
    assert_eq!(creation_date(&fields), None);
    let fields = vec![
        dated(b"2012:06:13 10:20:30"),
        MetadataField { tag: date_time_tag(), value: Value::Other },
    ];
    assert_eq!(creation_date(&fields), None);
}

#[test]
fn read_fields_copies_tags_and_text() {
    let tiff = tiff_with_text_fields(&[(0x10f, b"maker"), (0x132, b"2012:06:13 10:20:30")]);
    let reader = read_container(&jpeg_with_exif(&tiff)).unwrap();
    let fields = read_fields(&reader);
    assert_eq!(fields.len(), 2);
    assert_eq!(fields[0].tag, Tag { context: Context::Tiff, number: 0x10f });
    assert_eq!(fields[1].tag, Tag { context: Context::Tiff, number: 0x132 });
    assert!(matches!(&fields[0].value, Value::Ascii(s) if *s == vec![b"maker".to_vec()]));
    assert!(
        matches!(&fields[1].value, Value::Ascii(s) if *s == vec![b"2012:06:13 10:20:30".to_vec()])
    );
    assert_eq!(creation_date(&fields), Some((2012, 6, 13)));
}

#[test]
fn read_fields_keeps_the_parser_order() {
    let tiff = tiff_with_text_fields(&[
        (0x132, b"2012:06:13 10:20:30"),
        (0x132, b"2014:08:15 10:20:30"),
    ]);
    let reader = read_container(&tiff).unwrap();
    let fields = read_fields(&reader);
    assert_eq!(fields.len(), 2);
    assert_eq!(field_date(&fields[0]), Some((2012, 6, 13)));
    assert_eq!(field_date(&fields[1]), Some((2014, 8, 15)));
}

#[test]
fn read_fields_marks_other_values() {
    // One SHORT field (orientation) in a little-endian block.
    let tiff = [
        0x49, 0x49, 0x2a, 0x00, 0x08, 0x00, 0x00, 0x00, 0x01, 0x00, 0x12, 0x01, 0x03, 0x00, 0x01,
        0x00, 0x00, 0x00, 0x06, 0x00, 0x00, 0x00, 0x00, 0x00, 0x00, 0x00,
    ];
    let reader = read_container(&tiff).unwrap();
    let fields = read_fields(&reader);
    assert_eq!(fields.len(), 1);
    assert_eq!(fields[0].tag, Tag { context: Context::Tiff, number: 0x112 });
    assert!(matches!(fields[0].value, Value::Other));
}

#[test]
fn read_container_refuses_what_is_no_image() {
    let refused = read_container(b"neither JPEG nor TIFF");
    assert!(matches!(
        refused,
        Err(Error::ModError(Cause::Metadata(exif::Error::InvalidFormat("Unknown image format"))))
    ));
    let refused = read_container(b"");
    assert!(matches!(refused, Err(Error::ModError(Cause::Metadata(_)))));
}

#[test]
fn read_container_refuses_a_broken_image() {
    let refused = read_container(&[0xff, 0xd8, 0xff, 0xe1, 0x00, 0x08, 0x03, 0x04]);
    assert!(matches!(
        refused,
        Err(Error::ModError(Cause::Metadata(exif::Error::InvalidFormat("Broken JPEG file"))))
    ));
}

#[test]
fn read_container_reports_missing_metadata() {
    let refused = read_container(&[0xff, 0xd8, 0xff, 0xd9]);
    assert!(matches!(
        refused,
        Err(Error::ModError(Cause::Metadata(exif::Error::NotFound("No Exif data found"))))
    ));
}
