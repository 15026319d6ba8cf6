//! Where the store's backing file lies.

use vstd::prelude::*;
use crate::text::same_text;

verus! {

/// `std::path::PathBuf`: a path as the platform writes it. The proofs see
/// nothing inside it.
#[verifier::external_type_specification]
#[verifier::external_body]
pub struct ExPathBuf(std::path::PathBuf);

/// The directory that holds the store's backing file.
#[derive(Debug, Clone, PartialEq, Eq)]
pub struct StoreLocation {
    pub directory: String,
}

/// `std::path::Path::join`: the path of `file` inside `directory`. How the
/// two are put together is the platform's business; nothing is claimed of
/// the result.
#[verifier::external_body]
fn join(directory: &str, file: &str) -> (path: std::path::PathBuf) {
    std::path::Path::new(directory).join(file)
}

/// `==` of `std::path::PathBuf`: whether the platform takes two paths for
/// the same. Nothing is claimed of the result.
#[verifier::external_body]
fn path_eq(a: &std::path::PathBuf, b: &std::path::PathBuf) -> (same: bool) {
    a == b
}

/// Whether a relocation between two directories leaves everything where it
/// is: the directories are written the same, or the platform takes the
/// backing files in them for one file.
pub open spec fn is_unchanged(current: Seq<char>, target: Seq<char>, same_file: bool) -> bool {
    current == target || same_file
}

/// Decides whether a relocation between two directories leaves everything
/// where it is, given the platform's word on the two backing files.
pub fn unchanged(current: &str, target: &str, same_file: bool) -> (same: bool)
    ensures
        same == is_unchanged(current@, target@, same_file),
{
    same_file || same_text(current, target)
}

/// The location that is in force: the recorded preference where there is
/// one, else the default directory.
pub open spec fn resolved(preference: Option<Seq<char>>, default_directory: Seq<char>) -> Seq<char> {
    match preference {
        Some(directory) => directory,
        None => default_directory,
    }
}

impl StoreLocation {
    /// The name of the backing file within its directory.
    pub fn file_name() -> (name: &'static str)
        ensures
            name@ == "momentum.db"@,
    {
        "momentum.db"
    }

    /// The key under which the settings record the location preference.
    /// Settings without the key record none.
    pub fn preference_key() -> (key: &'static str)
        ensures
            key@ == "databasePath"@,
    {
        "databasePath"
    }

    /// The location that is in force: the recorded preference where there
    /// is one, else the default directory.
    pub fn resolve(preference: Option<String>, default_directory: String) -> (location:
        StoreLocation)
        ensures
            location.directory@ == resolved(
                match preference {
                    Some(p) => Some(p@),
                    None => None,
                },
                default_directory@,
            ),
    {
        match preference {
            Some(directory) => StoreLocation { directory },
            None => StoreLocation { directory: default_directory },
        }
    }

    /// The path of the backing file at this location.
    pub fn backing_file(&self) -> (path: std::path::PathBuf) {
        join(self.directory.as_str(), StoreLocation::file_name())
    }
}

/// Whether two locations hold the same backing file. Locations whose
/// directories are written the same do; of others the platform decides.
pub fn same_backing_file(current: &StoreLocation, target: &StoreLocation) -> (same: bool)
    ensures
        current.directory@ == target.directory@ ==> same,
{
    let same_file = path_eq(&current.backing_file(), &target.backing_file());
    unchanged(current.directory.as_str(), target.directory.as_str(), same_file)
}

} // verus!
