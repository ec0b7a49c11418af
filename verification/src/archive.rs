//! Unpacking an archive: what is to be made on disk for each entry, in order.
use vstd::prelude::*;
use vstd::string::*;
use crate::text::{chars_of, clone_strings, str_eq, strings_view};
use crate::update::UpdateError;

verus! {

/// What an archive says of one entry.
#[derive(Debug)]
pub struct ArchiveEntry {
    /// The entry's name as the archive stores it. A name that ends in `/`
    /// stands for a directory.
    pub name: String,
    /// The entry's place below the target directory: the names that lead to
    /// it. An entry is unpacked only where its path stays inside the target,
    /// see `stays_inside`.
    pub path: Vec<String>,
    /// The Unix permission bits stored for the entry, if any.
    pub unix_mode: Option<u32>,
}

/// A place that unpacking touches.
#[derive(Debug)]
pub enum Location {
    /// Below the target directory, by the names that lead there; the target
    /// itself where there are none.
    Inside(Vec<String>),
    /// The directory that holds the target directory, if it has one.
    AboveTarget,
}

/// One thing to do while unpacking.
#[derive(Debug)]
pub enum ExtractStep {
    /// Make this directory, and those above it that are missing.
    CreateDirAll(Location),
    /// Create or overwrite the file at `path` below the target with the
    /// contents of the entry of index `entry`.
    WriteFile { entry: usize, path: Vec<String> },
    /// Give the file at `path` below the target the mode `mode`. A failure
    /// ends the unpacking only where `required` holds.
    SetPermissions { path: Vec<String>, mode: u32, required: bool },
}

/// The mathematical content of an `ArchiveEntry`.
pub struct EntryView {
    pub name: Seq<char>,
    pub path: Seq<Seq<char>>,
    pub unix_mode: Option<u32>,
}

/// The mathematical content of a `Location`.
pub enum LocationView {
    Inside(Seq<Seq<char>>),
    AboveTarget,
}

/// The mathematical content of an `ExtractStep`.
pub enum StepView {
    CreateDirAll(LocationView),
    WriteFile { entry: nat, path: Seq<Seq<char>> },
    SetPermissions { path: Seq<Seq<char>>, mode: u32, required: bool },
}

impl View for ArchiveEntry {
    type V = EntryView;

    open spec fn view(&self) -> EntryView {
        EntryView { name: self.name@, path: strings_view(self.path), unix_mode: self.unix_mode }
    }
}

impl View for Location {
    type V = LocationView;

    open spec fn view(&self) -> LocationView {
        match self {
            Location::Inside(path) => LocationView::Inside(strings_view(*path)),
            Location::AboveTarget => LocationView::AboveTarget,
        }
    }
}

impl View for ExtractStep {
    type V = StepView;

    open spec fn view(&self) -> StepView {
        match self {
            ExtractStep::CreateDirAll(location) => StepView::CreateDirAll(location@),
            ExtractStep::WriteFile { entry, path } => StepView::WriteFile {
                entry: *entry as nat,
                path: strings_view(*path),
            },
            ExtractStep::SetPermissions { path, mode, required } => StepView::SetPermissions {
                path: strings_view(*path),
                mode: *mode,
                required: *required,
            },
        }
    }
}

/// The views of a sequence of steps.
pub open spec fn steps_view(steps: Seq<ExtractStep>) -> Seq<StepView> {
    steps.map_values(|s: ExtractStep| s@)
}

/// The views of a sequence of entries.
pub open spec fn entries_view(entries: Seq<ArchiveEntry>) -> Seq<EntryView> {
    entries.map_values(|e: ArchiveEntry| e@)
}

/// An entry whose name ends in `/` is a directory.
pub open spec fn is_directory(name: Seq<char>) -> bool {
    name.len() > 0 && name.last() == '/'
}

/// Whether a mode lets anybody execute the file.
pub open spec fn has_execute_bit(mode: u32) -> bool {
    mode & 0o111 != 0
}

/// The directory that holds the file at `path` below the target.
pub open spec fn parent_of(path: Seq<Seq<char>>) -> LocationView {
    if path.len() > 0 {
        LocationView::Inside(path.drop_last())
    } else {
        LocationView::AboveTarget
    }
}

/// What is to be done for the entry of index `index`.
///
/// A directory entry is made, with the directories above it. For a file
/// entry the directory that holds it is made first, then the file is written;
/// on a Unix system the stored permission bits, if there are any, are then
/// restored, and this has to succeed where they let the file be executed.
pub open spec fn entry_steps(entry: EntryView, index: nat, unix: bool) -> Seq<StepView> {
    if is_directory(entry.name) {
        seq![StepView::CreateDirAll(LocationView::Inside(entry.path))]
    } else {
        let write = seq![
            StepView::CreateDirAll(parent_of(entry.path)),
            StepView::WriteFile { entry: index, path: entry.path },
        ];
        match entry.unix_mode {
            Some(mode) if unix => write.push(
                StepView::SetPermissions {
                    path: entry.path,
                    mode,
                    required: has_execute_bit(mode),
                },
            ),
            _ => write,
        }
    }
}

/// What is to be done for the first `count` entries, entry by entry in the
/// archive's order.
pub open spec fn plan_of(entries: Seq<EntryView>, count: nat, unix: bool) -> Seq<StepView>
    decreases count,
{
    if count == 0 || count > entries.len() {
        Seq::empty()
    } else {
        plan_of(entries, (count - 1) as nat, unix) + entry_steps(
            entries[count - 1],
            (count - 1) as nat,
            unix,
        )
    }
}

/// The directory that holds the file at `path` below the target.
pub fn parent_location(path: &Vec<String>) -> (parent: Location)
    ensures
        parent@ == parent_of(strings_view(*path)),
{
    if path.len() > 0 {
        let mut copy = clone_strings(path);
        copy.pop();
        assert(strings_view(copy) =~= strings_view(*path).drop_last());
        Location::Inside(copy)
    } else {
        Location::AboveTarget
    }
}

/// Whether the entry called `name` is a directory.
pub fn name_is_directory(name: &str) -> (r: bool)
    ensures
        r == is_directory(name@),
{
    let v = chars_of(name);
    v.len() > 0 && v[v.len() - 1] == '/'
}

/// Appends to `steps` what is to be done for `entry`, the entry of index
/// `index`.
pub fn plan_entry(steps: &mut Vec<ExtractStep>, entry: &ArchiveEntry, index: usize, unix: bool)
    ensures
        steps_view(final(steps)@) == steps_view(old(steps)@) + entry_steps(
            entry@,
            index as nat,
            unix,
        ),
{
    let ghost before = steps_view(steps@);
    if name_is_directory(entry.name.as_str()) {
        steps.push(ExtractStep::CreateDirAll(Location::Inside(clone_strings(&entry.path))));
    } else {
        steps.push(ExtractStep::CreateDirAll(parent_location(&entry.path)));
        steps.push(ExtractStep::WriteFile { entry: index, path: clone_strings(&entry.path) });
        if unix {
            match entry.unix_mode {
                Some(mode) => {
                    steps.push(
                        ExtractStep::SetPermissions {
                            path: clone_strings(&entry.path),
                            mode,
                            required: mode & 0o111 != 0,
                        },
                    );
                },
                None => {},
            }
        }
    }
    assert(steps_view(steps@) =~= before + entry_steps(entry@, index as nat, unix));
}

/// What is said of an archive with an entry whose path leads out of the
/// target directory.
pub const UNSAFE_PATH_MESSAGE: &'static str = "entry leads out of the target directory";

/// A character that separates the names of a path on some system.
pub open spec fn is_separator(c: char) -> bool {
    c == '/' || c == '\\'
}

/// A name that stands for one file or directory and nothing else: it is not
/// empty, it is neither `.` nor `..`, and it holds no separator.
pub open spec fn is_plain_name(name: Seq<char>) -> bool {
    &&& name.len() > 0
    &&& name != "."@
    &&& name != ".."@
    &&& forall|i: int| 0 <= i < name.len() ==> !is_separator(#[trigger] name[i])
}

/// A path that stays inside the target directory: each of its names is
/// plain, so that none leads up or elsewhere.
pub open spec fn stays_inside(path: Seq<Seq<char>>) -> bool {
    forall|i: int| 0 <= i < path.len() ==> is_plain_name(#[trigger] path[i])
}

/// Every entry has a path that stays inside the target directory.
pub open spec fn all_inside(entries: Seq<EntryView>) -> bool {
    forall|i: int| 0 <= i < entries.len() ==> stays_inside((#[trigger] entries[i]).path)
}

/// Whether `name` is a plain name.
pub fn name_is_plain(name: &str) -> (r: bool)
    ensures
        r == is_plain_name(name@),
{
    let v = chars_of(name);
    if v.len() == 0 || str_eq(name, ".") || str_eq(name, "..") {
        return false;
    }
    let mut i: usize = 0;
    while i < v.len()
        invariant
            i <= v.len(),
            v@ == name@,
            forall|j: int| 0 <= j < i ==> !is_separator(#[trigger] v@[j]),
        decreases v.len() - i,
    {
        if v[i] == '/' || v[i] == '\\' {
            return false;
        }
        i += 1;
    }
    true
}

/// Whether `path` stays inside the target directory.
pub fn path_stays_inside(path: &Vec<String>) -> (r: bool)
    ensures
        r == stays_inside(strings_view(*path)),
{
    let mut i: usize = 0;
    while i < path.len()
        invariant
            i <= path.len(),
            forall|j: int| 0 <= j < i ==> is_plain_name(#[trigger] strings_view(*path)[j]),
        decreases path.len() - i,
    {
        if !name_is_plain(path[i].as_str()) {
            assert(!is_plain_name(strings_view(*path)[i as int]));
            return false;
        }
        i += 1;
    }
    true
}

/// Whether every entry has a path that stays inside the target directory.
pub fn entries_stay_inside(entries: &Vec<ArchiveEntry>) -> (r: bool)
    ensures
        r == all_inside(entries_view(entries@)),
{
    let mut i: usize = 0;
    while i < entries.len()
        invariant
            i <= entries.len(),
            forall|j: int| 0 <= j < i ==> stays_inside((#[trigger] entries_view(entries@)[j]).path),
        decreases entries.len() - i,
    {
        if !path_stays_inside(&entries[i].path) {
            assert(!stays_inside(entries_view(entries@)[i as int].path));
            return false;
        }
        i += 1;
    }
    true
}

/// What unpacking an archive with these entries does, in order, or the
/// refusal to unpack it. `unix` says whether the system keeps Unix
/// permission bits.
///
/// An archive is unpacked only where the path of every entry stays inside
/// the target directory; otherwise nothing is done. Entries are taken in
/// the archive's order, so that of two entries for one file the later one
/// overwrites the earlier.
pub fn extract_zip(entries: &Vec<ArchiveEntry>, unix: bool) -> (r: Result<
    Vec<ExtractStep>,
    UpdateError,
>)
    ensures
        all_inside(entries_view(entries@)) ==> (r matches Ok(steps) && steps_view(steps@)
            == plan_of(entries_view(entries@), entries@.len(), unix)),
        !all_inside(entries_view(entries@)) ==> (r matches Err(UpdateError::Archive(m)) && m@
            == UNSAFE_PATH_MESSAGE@),
{
    if !entries_stay_inside(entries) {
        return Err(UpdateError::Archive(UNSAFE_PATH_MESSAGE.to_string()));
    }
    let mut steps: Vec<ExtractStep> = Vec::new();
    let mut i: usize = 0;
    assert(steps_view(steps@) =~= Seq::empty());
    while i < entries.len()
        invariant
            i <= entries.len(),
            steps_view(steps@) == plan_of(entries_view(entries@), i as nat, unix),
        decreases entries.len() - i,
    {
        plan_entry(&mut steps, &entries[i], i, unix);
        i += 1;
    }
    Ok(steps)
}

} // verus!
