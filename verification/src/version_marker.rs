//! The record of which version of the managed product is installed: a small
//! text file in the install directory.
use vstd::prelude::*;
use vstd::string::*;
use crate::text::{
    is_whitespace, lemma_trimmed_of_tight, opt_str_view, opt_string_view, trim, trimmed,
};

verus! {

/// The name of the file, in the install directory, that records the installed
/// version.
pub const VERSION_MARKER_FILE: &'static str = ".version-marker";

/// What stands for the version of an installation that has no record.
pub const UNKNOWN_VERSION: &'static str = "已安装 (版本未知)";

/// What is written to record the version `tag`: the name of the file in the
/// install directory, and its contents, which are the tag and nothing else.
pub fn write_open_uo_version(tag: &str) -> (record: (String, String))
    ensures
        record.0@ == VERSION_MARKER_FILE@,
        record.1@ == tag@,
{
    (VERSION_MARKER_FILE.to_string(), tag.to_string())
}

/// The version that a record holds: its contents without the white space
/// around them. `contents` is `None` where the file could not be read.
pub open spec fn recorded_version(contents: Option<Seq<char>>) -> Option<Seq<char>> {
    match contents {
        Some(text) => Some(trimmed(text)),
        None => None,
    }
}

/// The version that the record holds, where `contents` is what was read from
/// the file, or `None` if it could not be read.
pub fn read_open_uo_version_file(contents: Option<&str>) -> (version: Option<String>)
    ensures
        opt_string_view(version) == recorded_version(opt_str_view(contents)),
{
    match contents {
        Some(text) => Some(trim(text)),
        None => None,
    }
}

/// The installed version: none where the product's executable is missing;
/// otherwise the recorded version, or the text that stands for "installed,
/// version unknown" where there is no record.
pub open spec fn installed_version(binary_exists: bool, marker: Option<Seq<char>>) -> Option<
    Seq<char>,
> {
    if !binary_exists {
        None
    } else {
        match marker {
            Some(text) => Some(trimmed(text)),
            None => Some(UNKNOWN_VERSION@),
        }
    }
}

/// Which version of the managed product is installed. `binary_exists` says
/// whether its executable is in place, `marker` is what was read from the
/// record, or `None` if that could not be read.
pub fn detect_open_uo_version(binary_exists: bool, marker: Option<&str>) -> (version: Option<
    String,
>)
    ensures
        opt_string_view(version) == installed_version(binary_exists, opt_str_view(marker)),
        version is None <==> !binary_exists,
{
    if !binary_exists {
        return None;
    }
    match read_open_uo_version_file(marker) {
        Some(version) => Some(version),
        None => Some(UNKNOWN_VERSION.to_string()),
    }
}

/// Reading back what was written for a version gives that version without
/// the white space around it.
pub proof fn lemma_record_round_trip(tag: Seq<char>)
    ensures
        recorded_version(Some(tag)) == Some(trimmed(tag)),
        installed_version(true, Some(tag)) == Some(trimmed(tag)),
{
}

/// Reading back what was written for a version gives exactly that version,
/// provided that it neither starts nor ends with white space.
pub proof fn lemma_record_round_trip_exact(tag: Seq<char>)
    requires
        tag.len() > 0 ==> !is_whitespace(tag[0]) && !is_whitespace(tag[tag.len() - 1]),
    ensures
        recorded_version(Some(tag)) == Some(tag),
        installed_version(true, Some(tag)) == Some(tag),
{
    lemma_trimmed_of_tight(tag);
}

} // verus!
