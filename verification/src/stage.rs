//! One run, stage by stage.
//!
//! The library touches no file. It decides; the caller looks at the file
//! system, reads and copies, and reports back what came of it. `Stage`
//! says where a run stands and by that what is asked of the caller next,
//! `Event` is the caller's report, and `step` says to which stage a report
//! leads:
//!
//! `Start` → `Validated` → `MetadataExtracted` → `PathComputed` → `Copied`,
//!
//! or from any of the first four to `Failed`.

use crate::datestamp::{stamp, Day, Month, Year};
use crate::errors::{Error, Kind};
use crate::metadata::{
    container_fields, creation_date_of, is_date_time, lemma_no_date_time_no_date, FieldView,
};
use crate::path::{file_name_of, joined, parent_of};
use crate::timestamper::{is_supported, new_file_path_of};
use vstd::prelude::*;

verus! {

/// Where a run stands.
#[derive(Debug)]
pub enum Stage {
    /// Nothing is known yet. Asked: does the file exist?
    Start,
    /// The file exists and its extension is supported. Asked: its bytes.
    Validated,
    /// The creation date was read from the metadata. Asked: nothing, but
    /// to go on.
    MetadataExtracted((Year, Month, Day)),
    /// The copy's path is computed. Asked: the copy.
    PathComputed(String),
    /// The copy was made. The run is over.
    Copied,
    /// The run is over, and this is why it failed.
    Failed(Error),
}

/// What the caller reports.
#[derive(Debug)]
pub enum Event {
    /// Whether the file exists.
    Existence(bool),
    /// The bytes of the file, or why they could not be read.
    Contents(Result<Vec<u8>, std::io::Error>),
    /// Nothing was asked, and the run may go on.
    Continued,
    /// How many bytes were copied, or why the copy failed.
    Copied(Result<u64, std::io::Error>),
}

/// What a stage asks of the caller.
#[derive(Debug)]
pub enum Action<'a> {
    /// Find out whether the file exists.
    CheckExists,
    /// Read the file.
    ReadFile,
    /// Nothing to do: go on.
    Continue,
    /// Copy the file to this path.
    CopyTo(&'a str),
    /// Nothing more: the run is over.
    Stop,
}

/// A stage as a mathematical value. Of a failure only the kind counts.
pub enum StageView {
    Start,
    Validated,
    MetadataExtracted((Year, Month, Day)),
    PathComputed(Seq<char>),
    Copied,
    Failed(Kind),
}

/// An event as a mathematical value. Of a failed read or copy only the
/// failure counts.
pub enum EventView {
    Existence(bool),
    Contents(Option<Seq<u8>>),
    Continued,
    Copied(bool),
}

/// An action as a mathematical value.
pub enum ActionView {
    CheckExists,
    ReadFile,
    Continue,
    CopyTo(Seq<char>),
    Stop,
}

impl View for Stage {
    type V = StageView;

    open spec fn view(&self) -> StageView {
        match self {
            Stage::Start => StageView::Start,
            Stage::Validated => StageView::Validated,
            Stage::MetadataExtracted(date) => StageView::MetadataExtracted(*date),
            Stage::PathComputed(to) => StageView::PathComputed(to@),
            Stage::Copied => StageView::Copied,
            Stage::Failed(error) => StageView::Failed(error@),
        }
    }
}

impl View for Event {
    type V = EventView;

    open spec fn view(&self) -> EventView {
        match self {
            Event::Existence(exists) => EventView::Existence(*exists),
            Event::Contents(Ok(data)) => EventView::Contents(Some(data@)),
            Event::Contents(Err(_)) => EventView::Contents(None),
            Event::Continued => EventView::Continued,
            Event::Copied(outcome) => EventView::Copied(outcome is Ok),
        }
    }
}

impl<'a> View for Action<'a> {
    type V = ActionView;

    open spec fn view(&self) -> ActionView {
        match self {
            Action::CheckExists => ActionView::CheckExists,
            Action::ReadFile => ActionView::ReadFile,
            Action::Continue => ActionView::Continue,
            Action::CopyTo(to) => ActionView::CopyTo(to@),
            Action::Stop => ActionView::Stop,
        }
    }
}

impl StageView {
    /// Whether the run is over.
    pub open spec fn is_final(self) -> bool {
        self is Copied || self is Failed
    }

    /// What the stage asks of the caller.
    pub open spec fn action(self) -> ActionView {
        match self {
            StageView::Start => ActionView::CheckExists,
            StageView::Validated => ActionView::ReadFile,
            StageView::MetadataExtracted(_) => ActionView::Continue,
            StageView::PathComputed(to) => ActionView::CopyTo(to),
            StageView::Copied => ActionView::Stop,
            StageView::Failed(_) => ActionView::Stop,
        }
    }
}

/// The stage after the existence check: the file must exist, and then its
/// extension must be supported.
pub open spec fn validated(path: Seq<char>, exists: bool) -> StageView {
    if !exists {
        StageView::Failed(Kind::FileNotFound)
    } else if !is_supported(path) {
        StageView::Failed(Kind::FileNotSupported)
    } else {
        StageView::Validated
    }
}

/// The stage after the metadata was parsed into `fields`: they must give a
/// creation date.
pub open spec fn dated(fields: Seq<FieldView>) -> StageView {
    match creation_date_of(fields) {
        None => StageView::Failed(Kind::CreationDateUnavailable),
        Some(date) => StageView::MetadataExtracted(date),
    }
}

/// The stage after the file's bytes were read: they must parse as a
/// metadata container, and its fields must give a creation date.
pub open spec fn extracted(data: Seq<u8>) -> StageView {
    match container_fields(data) {
        None => StageView::Failed(Kind::ModError),
        Some(fields) => dated(fields),
    }
}

/// The stage after the creation date was read: the path must have a place
/// for the copy.
pub open spec fn placed(path: Seq<char>, date: (Year, Month, Day)) -> StageView {
    match new_file_path_of(path, date) {
        None => StageView::Failed(Kind::InvalidPath),
        Some(to) => StageView::PathComputed(to),
    }
}

/// The stage that follows `stage` on `event`, for the file at `path`. An
/// event that the stage did not ask for changes nothing, and nothing
/// changes a stage at which the run is over.
pub open spec fn step(path: Seq<char>, stage: StageView, event: EventView) -> StageView {
    match (stage, event) {
        (StageView::Start, EventView::Existence(exists)) => validated(path, exists),
        (StageView::Validated, EventView::Contents(Some(data))) => extracted(data),
        (StageView::Validated, EventView::Contents(None)) => StageView::Failed(Kind::ModError),
        (StageView::MetadataExtracted(date), EventView::Continued) => placed(path, date),
        (StageView::PathComputed(_), EventView::Copied(true)) => StageView::Copied,
        (StageView::PathComputed(_), EventView::Copied(false)) => StageView::Failed(
            Kind::ModError,
        ),
        _ => stage,
    }
}

/// Where a whole run ends, given what the caller will report: whether the
/// file exists, its bytes if they can be read, and whether the copy
/// succeeds.
pub open spec fn run(path: Seq<char>, exists: bool, contents: Option<Seq<u8>>, copied: bool)
    -> StageView {
    let validated = step(path, StageView::Start, EventView::Existence(exists));
    let extracted = step(path, validated, EventView::Contents(contents));
    let placed = step(path, extracted, EventView::Continued);
    step(path, placed, EventView::Copied(copied))
}

/// A file that does not exist fails as not found at the first report,
/// whatever its name. Up to then the caller was asked for nothing but the
/// existence check, and the run is over: no file is opened.
pub proof fn lemma_missing_file_is_not_found(
    path: Seq<char>,
    contents: Option<Seq<u8>>,
    copied: bool,
)
    ensures
        StageView::Start.action() == ActionView::CheckExists,
        step(path, StageView::Start, EventView::Existence(false)) == StageView::Failed(
            Kind::FileNotFound,
        ),
        run(path, false, contents, copied) == StageView::Failed(Kind::FileNotFound),
{
}

/// A file that exists and whose extension is none of the four fails as
/// not supported, whatever it holds. The run is over before the caller is
/// asked to read or to copy: the file system stays as it is.
pub proof fn lemma_unsupported_file_is_refused(
    path: Seq<char>,
    contents: Option<Seq<u8>>,
    copied: bool,
)
    requires
        !is_supported(path),
    ensures
        step(path, StageView::Start, EventView::Existence(true)) == StageView::Failed(
            Kind::FileNotSupported,
        ),
        StageView::Failed(Kind::FileNotSupported).action() == ActionView::Stop,
        run(path, true, contents, copied) == StageView::Failed(Kind::FileNotSupported),
{
}

/// A supported file that exists, whose metadata parses and whose last
/// date-and-time field spells a calendar date, is copied: the caller is
/// asked to copy it into its own directory, under its name with the date
/// in front, and the run ends well once that copy is made.
pub proof fn lemma_dated_image_is_copied(
    path: Seq<char>,
    data: Seq<u8>,
    fields: Seq<FieldView>,
    date: (Year, Month, Day),
)
    requires
        is_supported(path),
        container_fields(data) == Some(fields),
        creation_date_of(fields) == Some(date),
    ensures
        file_name_of(path) is Some,
        parent_of(path) is Some,
        step(path, StageView::Validated, EventView::Contents(Some(data)))
            == StageView::MetadataExtracted(date),
        step(path, StageView::MetadataExtracted(date), EventView::Continued)
            == StageView::PathComputed(
            joined(parent_of(path)->0, stamp(date) + file_name_of(path)->0),
        ),
        run(path, true, Some(data), true) == StageView::Copied,
{
}

/// A supported path has a file name, and so a place for the copy: no run
/// that got past the first report fails on the path.
pub proof fn lemma_supported_path_has_a_place(
    path: Seq<char>,
    date: (Year, Month, Day),
    exists: bool,
    contents: Option<Seq<u8>>,
    copied: bool,
)
    ensures
        is_supported(path) ==> new_file_path_of(path, date) is Some,
        run(path, exists, contents, copied) != StageView::Failed(Kind::InvalidPath),
{
}

/// A supported file that exists and whose metadata parses, but holds the
/// image's date and time in no field, fails for want of a creation date.
/// The run is over before the caller is asked to copy: no file is made.
pub proof fn lemma_undated_image_is_refused(
    path: Seq<char>,
    data: Seq<u8>,
    fields: Seq<FieldView>,
    copied: bool,
)
    requires
        is_supported(path),
        container_fields(data) == Some(fields),
        forall|i: int| 0 <= i < fields.len() ==> !is_date_time(#[trigger] fields[i].tag),
    ensures
        step(path, StageView::Validated, EventView::Contents(Some(data))) == StageView::Failed(
            Kind::CreationDateUnavailable,
        ),
        StageView::Failed(Kind::CreationDateUnavailable).action() == ActionView::Stop,
        run(path, true, Some(data), copied) == StageView::Failed(Kind::CreationDateUnavailable),
{
    lemma_no_date_time_no_date(fields);
}

/// Two runs on one path whose files hold the same metadata end alike, and
/// where they come to copy, they copy to the same path. Nothing else
/// decides: not the other bytes of the file, and not whether a copy is
/// there already.
pub proof fn lemma_same_metadata_same_destination(
    path: Seq<char>,
    exists: bool,
    first: Seq<u8>,
    second: Seq<u8>,
    copied: bool,
)
    requires
        container_fields(first) == container_fields(second),
    ensures
        step(path, StageView::Validated, EventView::Contents(Some(first))) == step(
            path,
            StageView::Validated,
            EventView::Contents(Some(second)),
        ),
        run(path, exists, Some(first), copied) == run(path, exists, Some(second), copied),
{
}

/// Once a run is over, no report changes where it stands.
pub proof fn lemma_final_stage_stays(path: Seq<char>, stage: StageView, event: EventView)
    requires
        stage.is_final(),
    ensures
        step(path, stage, event) == stage,
        stage.action() == ActionView::Stop,
{
}

impl Stage {
    /// What the stage asks of the caller.
    pub fn action(&self) -> (action: Action<'_>)
        ensures
            action@ == self@.action(),
    {
        match self {
            Stage::Start => Action::CheckExists,
            Stage::Validated => Action::ReadFile,
            Stage::MetadataExtracted(_) => Action::Continue,
            Stage::PathComputed(to) => Action::CopyTo(to.as_str()),
            Stage::Copied => Action::Stop,
            Stage::Failed(_) => Action::Stop,
        }
    }

    /// How the run ended: `Ok` after the copy, the error after a failure,
    /// and `None` while the run is not over.
    pub fn outcome(self) -> (result: Option<Result<(), Error>>)
        ensures
            match self {
                Stage::Copied => result == Some(Ok::<(), Error>(())),
                Stage::Failed(error) => result == Some(Err::<(), Error>(error)),
                _ => result is None,
            },
    {
        match self {
            Stage::Copied => Some(Ok(())),
            Stage::Failed(error) => Some(Err(error)),
            _ => None,
        }
    }
}

} // verus!
