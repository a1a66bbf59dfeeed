//! Calls into the host: the file system, the user's environment, the process
//! table and a random source. What they return depends on the machine, so
//! their contracts state only what holds of every outcome; the logic that
//! uses the results takes them as arguments and is verified for every value.

use vstd::prelude::*;
use crate::text::opt_text;

verus! {

/// Relies on `std::path::MAIN_SEPARATOR`: the platform's primary path
/// separator, `\` on Windows and `/` elsewhere.
#[verifier::external_body]
pub(crate) fn path_separator() -> (r: char)
    ensures
        r == '/' || r == '\\',
{
    std::path::MAIN_SEPARATOR
}

/// Relies on `dirs::home_dir`: the current user's home directory, if one is
/// known. A path that is not valid Unicode is reported as unknown.
#[verifier::external_body]
pub(crate) fn home_dir() -> (r: Option<String>) {
    dirs::home_dir().as_deref().and_then(std::path::Path::to_str).map(str::to_string)
}

/// Relies on `std::path::Path::canonicalize`: the absolute form of an existing
/// path with every link resolved, or `None` when it cannot be resolved (or is
/// not valid Unicode).
#[verifier::external_body]
pub(crate) fn canonical_form(path: &str) -> (r: Option<String>) {
    std::path::Path::new(path).canonicalize().ok().as_deref().and_then(std::path::Path::to_str).map(str::to_string)
}

/// The path without its final component, as `std::path::Path::parent` reads
/// components under the path syntax of the platform built for; `None` for a
/// root or an empty path.
pub uninterp spec fn parent_of(path: Seq<char>) -> Option<Seq<char>>;

/// Relies on `std::path::Path::parent`: for a given build target the result
/// depends on the path's text alone, and is a prefix of that text, so it
/// stays valid Unicode.
#[verifier::external_body]
pub(crate) fn parent_dir(path: &str) -> (r: Option<String>)
    ensures
        opt_text(r) == parent_of(path@),
{
    std::path::Path::new(path).parent().and_then(std::path::Path::to_str).map(str::to_string)
}

/// Relies on `uuid::Uuid::new_v4` and its `Display`: a random version-4
/// identifier in hyphenated form, 36 characters long.
#[verifier::external_body]
pub(crate) fn new_command_id() -> (r: String)
    ensures
        r@.len() == 36,
{
    uuid::Uuid::new_v4().to_string()
}

/// Relies on `sysinfo::System::refresh_processes` and `sysinfo::Process::name`:
/// the name of the live process with this id, or `None` when there is none.
#[verifier::external_body]
pub(crate) fn process_name(pid: u32) -> (r: Option<String>) {
    let mut sys = sysinfo::System::new();
    let target = sysinfo::Pid::from_u32(pid);
    sys.refresh_processes(sysinfo::ProcessesToUpdate::Some(&[target]), true);
    match sys.process(target) {
        Some(p) => Some(p.name().to_string_lossy().into_owned()),
        None => None,
    }
}

/// The lower-case form of a text, as Unicode defines it.
pub uninterp spec fn lower_of(s: Seq<char>) -> Seq<char>;

/// Relies on `str::to_lowercase`: the result depends on the characters alone.
#[verifier::external_body]
pub(crate) fn lowercase(s: &str) -> (r: String)
    ensures
        r@ == lower_of(s@),
{
    s.to_lowercase()
}

} // verus!
