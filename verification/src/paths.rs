//! Locations of the tool's data directories.
//!
//! Paths and file times are opaque values here: the library only builds
//! and carries them, so `PathBuf` and `SystemTime` are declared as outside
//! types and every operation on them goes through a small trusted wrapper.

use vstd::prelude::*;

use std::path::PathBuf;
use std::time::SystemTime;

verus! {

#[verifier::external_type_specification]
#[verifier::external_body]
pub struct ExPathBuf(PathBuf);

#[verifier::external_type_specification]
#[verifier::external_body]
pub struct ExSystemTime(SystemTime);

/// Relies on `PathBuf::clone`.
pub assume_specification[ <PathBuf as Clone>::clone ](p: &PathBuf) -> PathBuf;

/// Relies on `SystemTime::clone`.
pub assume_specification[ <SystemTime as Clone>::clone ](t: &SystemTime) -> SystemTime;

/// Relies on `dirs::document_dir`: the user's document directory, if the
/// platform reports one.  Nothing can be promised of the value.
#[verifier::external_body]
fn document_dir() -> (r: Option<PathBuf>) {
    dirs::document_dir()
}

/// Relies on `PathBuf::from::<&str>`: a path made of the one component.
#[verifier::external_body]
fn path_from(s: &str) -> (r: PathBuf) {
    PathBuf::from(s)
}

/// Relies on `Path::join`: the base path extended with one component.
#[verifier::external_body]
fn path_join(base: &PathBuf, child: &str) -> (r: PathBuf) {
    base.join(child)
}

/// The tool's data directory inside the user's documents folder, or under
/// the current directory when the platform reports no documents folder.
pub fn get_app_data_dir() -> PathBuf {
    let base = match document_dir() {
        Some(d) => d,
        None => path_from("."),
    };
    path_join(&base, "Olympix Pattern Tool")
}

/// Where imported contracts are stored.
pub fn get_contracts_dir() -> PathBuf {
    let app = get_app_data_dir();
    path_join(&app, "contracts")
}

/// Where imported pattern files are stored.
pub fn get_patterns_dir() -> PathBuf {
    let app = get_app_data_dir();
    path_join(&app, "patterns")
}

/// Where imported Rust pattern files are stored.
pub fn get_rust_patterns_dir() -> PathBuf {
    let patterns = get_patterns_dir();
    path_join(&patterns, "rust")
}

/// Where imported regex pattern files are stored.
pub fn get_regex_patterns_dir() -> PathBuf {
    let patterns = get_patterns_dir();
    path_join(&patterns, "regex")
}

} // verus!
