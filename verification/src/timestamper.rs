//! Stamping a file: the rules by which an image is given a copy whose name
//! starts with the date the image was made, and `TimeStamper`, which
//! applies them to one file.

use crate::datestamp::{
    decimal, digit, lemma_stamp_is_digits_and_underscores, prefix, stamp, two_digits, Day, Month,
    Year,
};
use crate::errors::{Cause, Error};
use crate::metadata::{
    container_fields, creation_date, creation_date_of, digits_at, is_digit, read_container,
    read_fields, reader_fields, spelled_date, spells_date_time, two_at, views, MetadataField,
};
use crate::path::{
    extension, extension_of, file_name, file_name_of, is_name, is_plain, join, joined,
    lemma_file_name_is_a_segment, lemma_joined_comes_apart, lemma_last_dot_is_the_last,
    lemma_last_dot_moves_along, lemma_trimmed_is_a_front, parent, parent_of, segment_start,
    trimmed,
};
use crate::stage::{dated, extracted, placed, step, validated, Event, Stage};
use vstd::prelude::*;
use vstd::string::StringExecFns;

verus! {

/// Whether files with this extension are stamped. The match is exact:
/// `Jpg` is none of the four.
pub open spec fn is_supported_extension(ext: Seq<char>) -> bool {
    ||| ext == seq!['j', 'p', 'g']
    ||| ext == seq!['j', 'p', 'e', 'g']
    ||| ext == seq!['J', 'P', 'G']
    ||| ext == seq!['J', 'P', 'E', 'G']
}

/// Whether the path has an extension that is stamped.
pub open spec fn is_supported(path: Seq<char>) -> bool {
    match extension_of(path) {
        Some(ext) => is_supported_extension(ext),
        None => false,
    }
}

/// Where the stamped copy of `path` goes: into the same directory, under
/// the file's name with the date in front of it. There is no such place
/// where the path has no file name.
pub open spec fn new_file_path_of(path: Seq<char>, date: (Year, Month, Day)) -> Option<
    Seq<char>,
> {
    match (parent_of(path), file_name_of(path)) {
        (Some(dir), Some(name)) => Some(joined(dir, stamp(date) + name)),
        _ => None,
    }
}

/// The copy stands beside the file: its path has the file's parent for
/// its parent, and the file's name with the date in front for its file
/// name.
pub proof fn lemma_copy_stands_beside_the_file(path: Seq<char>, date: (Year, Month, Day))
    requires
        file_name_of(path) is Some,
    ensures
        new_file_path_of(path, date) is Some,
        parent_of(new_file_path_of(path, date)->0) == parent_of(path),
        file_name_of(new_file_path_of(path, date)->0) == Some(
            stamp(date) + file_name_of(path)->0,
        ),
{
    let name = file_name_of(path)->0;
    let dir = parent_of(path)->0;
    let new_name = stamp(date) + name;
    lemma_file_name_is_a_segment(path);
    lemma_stamp_is_digits_and_underscores(date);
    let rest = trimmed(path);
    lemma_trimmed_is_a_front(rest.subrange(0, segment_start(rest)));
    assert(is_plain(new_name));
    assert(is_name(new_name));
    lemma_joined_comes_apart(dir, new_name);
}

/// The copy of a file with an extension has the same extension, so that
/// the copy of a supported file is a supported file.
pub proof fn lemma_copy_keeps_the_extension(path: Seq<char>, date: (Year, Month, Day))
    requires
        extension_of(path) is Some,
    ensures
        new_file_path_of(path, date) is Some,
        extension_of(new_file_path_of(path, date)->0) == extension_of(path),
        is_supported(new_file_path_of(path, date)->0) == is_supported(path),
{
    let name = file_name_of(path)->0;
    lemma_copy_stands_beside_the_file(path, date);
    lemma_last_dot_moves_along(stamp(date), name);
    lemma_last_dot_is_the_last(name);
}

/// The date in front of the copy's name repeats the field: where the field
/// spells `YYYY:MM:DD HH:MM:SS` and the year does not start with a zero,
/// the copy's name starts with `YYYY_MM_DD_`, digit for digit. (A year
/// that starts with zeros is written without them.)
pub proof fn lemma_stamp_repeats_the_field(text: Seq<u8>)
    requires
        spells_date_time(text),
        text[0] != 0x30,
    ensures
        spelled_date(text) is Some,
        stamp(spelled_date(text)->0) == seq![
            text[0] as char,
            text[1] as char,
            text[2] as char,
            text[3] as char,
            '_',
            text[5] as char,
            text[6] as char,
            '_',
            text[8] as char,
            text[9] as char,
            '_',
        ],
{
    lemma_four_digits_are_the_bytes(text);
    lemma_two_digits_are_the_bytes(text, 5);
    lemma_two_digits_are_the_bytes(text, 8);
}

/// A number with a last digit is written as what stands before that
/// digit, and the digit.
proof fn lemma_decimal_adds_a_digit(front: nat, last: nat)
    requires
        front >= 1,
        last < 10,
    ensures
        decimal(front * 10 + last) == decimal(front).push(digit(last)),
{
}

/// A year of four digits is written with the characters of its bytes.
proof fn lemma_four_digits_are_the_bytes(text: Seq<u8>)
    requires
        text.len() >= 4,
        digits_at(text, 0),
        digits_at(text, 2),
        text[0] != 0x30,
    ensures
        decimal((two_at(text, 0) * 100 + two_at(text, 2)) as nat) == seq![
            text[0] as char,
            text[1] as char,
            text[2] as char,
            text[3] as char,
        ],
{
    lemma_digit_is_the_byte(text[0]);
    lemma_digit_is_the_byte(text[1]);
    lemma_digit_is_the_byte(text[2]);
    lemma_digit_is_the_byte(text[3]);
    let a = (text[0] - 0x30) as nat;
    let b = (text[1] - 0x30) as nat;
    let c = (text[2] - 0x30) as nat;
    let d = (text[3] - 0x30) as nat;
    lemma_decimal_adds_a_digit(a, b);
    lemma_decimal_adds_a_digit(a * 10 + b, c);
    lemma_decimal_adds_a_digit((a * 10 + b) * 10 + c, d);
}

/// A digit is written with the character of its byte.
proof fn lemma_digit_is_the_byte(b: u8)
    requires
        is_digit(b),
    ensures
        digit((b - 0x30) as nat) == b as char,
{
}

/// A number of two digits is written with the characters of its bytes.
proof fn lemma_two_digits_are_the_bytes(text: Seq<u8>, at: int)
    requires
        0 <= at,
        at + 1 < text.len(),
        digits_at(text, at),
    ensures
        two_digits(two_at(text, at) as nat) == seq![text[at] as char, text[at + 1] as char],
{
    lemma_digit_is_the_byte(text[at]);
    lemma_digit_is_the_byte(text[at + 1]);
    reveal_with_fuel(decimal, 2);
}

/// Whether two pieces of text are the same.
fn same_text(a: &str, b: &str) -> (same: bool)
    ensures
        same == (a@ == b@),
{
    String::from_str(a) == String::from_str(b)
}

/// The file that one run is about.
#[derive(Debug)]
pub struct TimeStamper<'a> {
    pub file_path: &'a str,
}

impl<'a> TimeStamper<'a> {
    pub fn new(file_path: &'a str) -> (stamper: Self)
        ensures
            stamper.file_path@ == file_path@,
    {
        TimeStamper { file_path }
    }

    /// Whether the file's extension is one of `jpg`, `jpeg`, `JPG`, `JPEG`,
    /// letter for letter.
    pub fn supported(&self) -> (yes: bool)
        ensures
            yes == is_supported(self.file_path@),
    {
        proof {
            reveal_strlit("jpg");
            reveal_strlit("jpeg");
            reveal_strlit("JPG");
            reveal_strlit("JPEG");
            assert("jpg"@ =~= seq!['j', 'p', 'g']);
            assert("jpeg"@ =~= seq!['j', 'p', 'e', 'g']);
            assert("JPG"@ =~= seq!['J', 'P', 'G']);
            assert("JPEG"@ =~= seq!['J', 'P', 'E', 'G']);
        }
        match extension(self.file_path) {
            None => false,
            Some(ext) => same_text(ext, "jpg") || same_text(ext, "jpeg") || same_text(ext, "JPG")
                || same_text(ext, "JPEG"),
        }
    }

    /// The path of the stamped copy: the file's directory, and in it the
    /// date, as `{year}_{month}_{day}_` with two digits at least for month
    /// and day, followed by the file's name. `None` where the path has no
    /// file name.
    pub fn get_new_file_path(&self, datestamp: (Year, Month, Day)) -> (to: Option<String>)
        ensures
            to is Some <==> new_file_path_of(self.file_path@, datestamp) is Some,
            to matches Some(p) ==> new_file_path_of(self.file_path@, datestamp) == Some(p@),
    {
        match (parent(self.file_path), file_name(self.file_path)) {
            (Some(dir), Some(name)) => {
                let mut new_file_name = prefix(datestamp);
                new_file_name.append(name);
                Some(join(dir, new_file_name.as_str()))
            },
            _ => None,
        }
    }

    /// The creation date in a parsed container: the date in the last of its
    /// fields that hold the image's date and time.
    pub fn get_datestamp(&self, exif_reader: &exif::Reader) -> (date: Option<(Year, Month, Day)>)
        ensures
            date == creation_date_of(reader_fields(*exif_reader)),
    {
        let fields = read_fields(exif_reader);
        creation_date(&fields)
    }

    /// The stage after the existence check.
    pub fn validate(&self, exists: bool) -> (next: Stage)
        ensures
            next@ == validated(self.file_path@, exists),
    {
        if !exists {
            Stage::Failed(Error::FileNotFound)
        } else if !self.supported() {
            Stage::Failed(Error::FileNotSupported)
        } else {
            Stage::Validated
        }
    }

    /// The stage to which the fields of the file's metadata lead.
    pub fn date(&self, fields: &Vec<MetadataField>) -> (next: Stage)
        ensures
            next@ == dated(views(fields@)),
    {
        match creation_date(fields) {
            None => Stage::Failed(Error::CreationDateUnavailable),
            Some(date) => Stage::MetadataExtracted(date),
        }
    }

    /// The stage to which the file's bytes lead. Whatever the parser
    /// reports, a refusal is a wrapped failure that holds its error.
    pub fn extract(&self, data: &[u8]) -> (next: Stage)
        ensures
            next@ == extracted(data@),
            container_fields(data@) is None ==> next matches Stage::Failed(
                Error::ModError(Cause::Metadata(_)),
            ),
    {
        match read_container(data) {
            Err(error) => Stage::Failed(error),
            Ok(reader) => {
                let fields = read_fields(&reader);
                self.date(&fields)
            },
        }
    }

    /// The stage to which the creation date leads.
    pub fn place(&self, date: (Year, Month, Day)) -> (next: Stage)
        ensures
            next@ == placed(self.file_path@, date),
    {
        match self.get_new_file_path(date) {
            None => Stage::Failed(Error::InvalidPath),
            Some(to) => Stage::PathComputed(to),
        }
    }

    /// The stage that follows `stage` on `event`. A read or a copy that
    /// failed ends the run with the caller's error as the cause.
    pub fn advance(&self, stage: Stage, event: Event) -> (next: Stage)
        ensures
            next@ == step(self.file_path@, stage@, event@),
            stage is Validated ==> (event matches Event::Contents(Err(e)) ==> next
                == Stage::Failed(Error::ModError(Cause::Io(e)))),
            stage is PathComputed ==> (event matches Event::Copied(Err(e)) ==> next
                == Stage::Failed(Error::ModError(Cause::Io(e)))),
            step(self.file_path@, stage@, event@) == stage@ ==> next == stage,
    {
        match stage {
            Stage::Start => match event {
                Event::Existence(exists) => self.validate(exists),
                _ => Stage::Start,
            },
            Stage::Validated => match event {
                Event::Contents(Ok(data)) => self.extract(data.as_slice()),
                Event::Contents(Err(error)) => Stage::Failed(Error::from(error)),
                _ => Stage::Validated,
            },
            Stage::MetadataExtracted(date) => match event {
                Event::Continued => self.place(date),
                _ => Stage::MetadataExtracted(date),
            },
            Stage::PathComputed(to) => match event {
                Event::Copied(Ok(_)) => Stage::Copied,
                Event::Copied(Err(error)) => Stage::Failed(Error::from(error)),
                _ => Stage::PathComputed(to),
            },
            Stage::Copied => Stage::Copied,
            Stage::Failed(error) => Stage::Failed(error),
        }
    }
}

} // verus!
