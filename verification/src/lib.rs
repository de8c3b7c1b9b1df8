//! Naming an image after the day it was made.
//!
//! An image file is given a copy, in the same directory, whose name is the
//! file's name with the date from the image's metadata in front of it:
//! `has_creation_date.jpg`, taken on 13 June 2012, gets the copy
//! `2012_06_13_has_creation_date.jpg`.
//!
//! The library holds the rules and touches no file:
//!
//! - `path` reads a path as text: file name, parent, extension, joining;
//! - `datestamp` writes a date as the text that goes in front of a name;
//! - `metadata` finds the creation date among the fields of a parsed
//!   metadata container;
//! - `timestamper` says which files are stamped and where the copy goes;
//! - `stage` leads one run from stage to stage, telling the caller what to
//!   look up, read or copy next;
//! - `errors` names the ways a run can fail.

pub mod datestamp;
pub mod errors;
pub mod metadata;
pub mod path;
pub mod stage;
pub mod timestamper;
