//! The two file-transfer commands: save-to-path and read-from-path, each
//! gated by an interactive file picker.
//!
//! The picker and the filesystem belong to the host framework and the
//! operating system; this module holds every decision around them. A command
//! first turns the picker's answer into a plan — write here, read here, or
//! fail with the cancellation error — and then turns the outcome of the one
//! filesystem attempt into the command's result. The filesystem itself is
//! modelled as a map from paths to contents, over which the save and
//! round-trip laws are stated.

use vstd::prelude::*;
use vstd::string::StringExecFns;

verus! {

/// One named filter offered by a file picker: a display name and the file
/// extensions it admits.
pub struct DialogFilter {
    pub name: String,
    pub extensions: Vec<String>,
}

/// `f` is the filter named `name` admitting exactly `extensions`.
pub open spec fn filter_is(f: DialogFilter, name: Seq<char>, extensions: Seq<Seq<char>>) -> bool {
    f.name@ == name && f.extensions.deep_view() == extensions
}

/// A filter with a single admitted extension.
fn single_extension_filter(name: &str, extension: &str) -> (r: DialogFilter)
    ensures
        filter_is(r, name@, seq![extension@]),
{
    let mut extensions: Vec<String> = Vec::new();
    extensions.push(String::from_str(extension));
    let r = DialogFilter { name: String::from_str(name), extensions };
    proof {
        assert(r.extensions.deep_view() =~= seq![extension@]);
    }
    r
}

/// The fixed filter set of the save picker: PDF, Excel, JSON, then all files.
pub fn save_filters() -> (r: Vec<DialogFilter>)
    ensures
        r@.len() == 4,
        filter_is(r@[0], "PDF files"@, seq!["pdf"@]),
        filter_is(r@[1], "Excel files"@, seq!["xlsx"@]),
        filter_is(r@[2], "JSON files"@, seq!["json"@]),
        filter_is(r@[3], "All files"@, seq!["*"@]),
{
    let mut r: Vec<DialogFilter> = Vec::new();
    r.push(single_extension_filter("PDF files", "pdf"));
    r.push(single_extension_filter("Excel files", "xlsx"));
    r.push(single_extension_filter("JSON files", "json"));
    r.push(single_extension_filter("All files", "*"));
    r
}

/// The fixed filter set of the open picker: JSON, Excel, then all files.
pub fn open_filters() -> (r: Vec<DialogFilter>)
    ensures
        r@.len() == 3,
        filter_is(r@[0], "JSON files"@, seq!["json"@]),
        filter_is(r@[1], "Excel files"@, seq!["xlsx"@]),
        filter_is(r@[2], "All files"@, seq!["*"@]),
{
    let mut r: Vec<DialogFilter> = Vec::new();
    r.push(single_extension_filter("JSON files", "json"));
    r.push(single_extension_filter("Excel files", "xlsx"));
    r.push(single_extension_filter("All files", "*"));
    r
}

/// The error reported when the save picker is dismissed without a path.
pub open spec fn save_cancelled_message() -> Seq<char> {
    "No file path selected"@
}

/// The error reported when the open picker is dismissed without a file.
pub open spec fn open_cancelled_message() -> Seq<char> {
    "No file selected"@
}

/// The error reported when the one write attempt fails, carrying the
/// operating system's own error text.
pub open spec fn write_failed_message(err: Seq<char>) -> Seq<char> {
    "Failed to write file: "@ + err
}

/// The error reported when the one read attempt fails, carrying the
/// operating system's own error text.
pub open spec fn read_failed_message(err: Seq<char>) -> Seq<char> {
    "Failed to read file: "@ + err
}

/// What the save command does once the picker has answered: write `data` at
/// `path`, or fail at once with the cancellation error.
pub enum SavePlan {
    Write { path: String, data: String },
    Cancelled { error: String },
}

/// What the open command does once the picker has answered: read the file at
/// `path`, or fail at once with the cancellation error.
pub enum OpenPlan {
    Read { path: String },
    Cancelled { error: String },
}

/// Turns the save picker's answer into the command's plan. A chosen path
/// leads to exactly one write of `content`, verbatim, at that path; no path
/// leads to the cancellation error and no write.
pub fn plan_save(content: String, chosen: Option<String>) -> (r: SavePlan)
    ensures
        chosen matches Some(p) ==> (r matches SavePlan::Write { path, data } && path@ == p@
            && data@ == content@),
        chosen is None ==> (r matches SavePlan::Cancelled { error } && error@
            == save_cancelled_message()),
{
    match chosen {
        Some(path) => SavePlan::Write { path, data: content },
        None => SavePlan::Cancelled { error: String::from_str("No file path selected") },
    }
}

/// Turns the outcome of the write attempt into the save command's result:
/// the resolved path as confirmation, or the write failure carrying the
/// operating system's error text.
pub fn finish_save(path: String, write_error: Option<String>) -> (r: Result<String, String>)
    ensures
        write_error is None ==> (r matches Ok(p) && p@ == path@),
        write_error matches Some(e) ==> (r matches Err(m) && m@ == write_failed_message(e@)),
{
    match write_error {
        None => Ok(path),
        Some(err) => {
            let mut message = String::from_str("Failed to write file: ");
            message.append(err.as_str());
            Err(message)
        },
    }
}

/// Turns the open picker's answer into the command's plan. A chosen file is
/// read whole; no file leads to the cancellation error and no read.
pub fn plan_open(chosen: Option<String>) -> (r: OpenPlan)
    ensures
        chosen matches Some(p) ==> (r matches OpenPlan::Read { path } && path@ == p@),
        chosen is None ==> (r matches OpenPlan::Cancelled { error } && error@
            == open_cancelled_message()),
{
    match chosen {
        Some(path) => OpenPlan::Read { path },
        None => OpenPlan::Cancelled { error: String::from_str("No file selected") },
    }
}

/// Turns the outcome of the read attempt into the open command's result: the
/// file's contents exactly as read, or the read failure carrying the
/// operating system's error text.
pub fn finish_open(read: Result<String, String>) -> (r: Result<String, String>)
    ensures
        read matches Ok(c) ==> (r matches Ok(c2) && c2@ == c@),
        read matches Err(e) ==> (r matches Err(m) && m@ == read_failed_message(e@)),
{
    match read {
        Ok(content) => Ok(content),
        Err(err) => {
            let mut message = String::from_str("Failed to read file: ");
            message.append(err.as_str());
            Err(message)
        },
    }
}

/// A filesystem, as the file-transfer commands see it: the contents stored
/// under each existing path.
pub open spec fn fs_after_write(
    fs: Map<Seq<char>, Seq<char>>,
    path: Seq<char>,
    data: Seq<char>,
) -> Map<Seq<char>, Seq<char>> {
    fs.insert(path, data)
}

/// What reading `path` whole returns: the stored contents, or nothing where
/// no file exists.
pub open spec fn fs_read(fs: Map<Seq<char>, Seq<char>>, path: Seq<char>) -> Option<Seq<char>> {
    if fs.contains_key(path) {
        Some(fs[path])
    } else {
        None
    }
}

/// The filesystem after a save plan is carried out: a write stores its data
/// at its path, overwriting any existing file; a cancelled save touches
/// nothing.
pub open spec fn fs_after_save_plan(
    fs: Map<Seq<char>, Seq<char>>,
    plan: SavePlan,
) -> Map<Seq<char>, Seq<char>> {
    match plan {
        SavePlan::Write { path, data } => fs_after_write(fs, path@, data@),
        SavePlan::Cancelled { .. } => fs,
    }
}

/// After a save wrote `content` at `path`, the file at `path` exists and
/// holds exactly `content`, whatever the filesystem held before.
pub proof fn lemma_save_stores_content(
    fs: Map<Seq<char>, Seq<char>>,
    path: Seq<char>,
    content: Seq<char>,
)
    ensures
        fs_after_write(fs, path, content).contains_key(path),
        fs_after_write(fs, path, content)[path] == content,
{
}

/// A cancelled save leaves the filesystem exactly as it was: no file is
/// written.
pub proof fn lemma_cancelled_save_writes_nothing(fs: Map<Seq<char>, Seq<char>>, plan: SavePlan)
    requires
        plan is Cancelled,
    ensures
        fs_after_save_plan(fs, plan) == fs,
{
}

/// Round trip: saving `content` to `path` and then reading `path` whole
/// yields `content` unchanged.
pub proof fn lemma_save_open_round_trip(
    fs: Map<Seq<char>, Seq<char>>,
    path: Seq<char>,
    content: Seq<char>,
)
    ensures
        fs_read(fs_after_write(fs, path, content), path) == Some(content),
{
}

} // verus!
