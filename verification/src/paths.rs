//! Where the application keeps its files, as paths below one root directory.
//!
//! A path is a string whose parts are joined by `/`.

use vstd::prelude::*;
use crate::text::join2;

verus! {

/// `parent` followed by a separator and `name`.
pub open spec fn child_path(parent: Seq<char>, name: Seq<char>) -> Seq<char> {
    parent + "/"@ + name
}

/// The path of `name` inside the directory `parent`.
pub fn child(parent: &str, name: &str) -> (path: String)
    ensures
        path@ == child_path(parent@, name@),
{
    join2(parent, "/").concat(name)
}

/// The application's directory inside the home directory `home`.
pub open spec fn config_dir_spec(home: Seq<char>) -> Seq<char> {
    child_path(home, "lightwhisper"@)
}

/// Asks the operating system for the user's home directory, by
/// `dirs::home_dir`. Nothing is claimed of the answer, which depends on the
/// environment. A home directory whose name is not valid Unicode is given as
/// absent.
#[verifier::external_body]
fn home_dir() -> (home: Option<String>) {
    match dirs::home_dir() {
        Some(path) => path.into_os_string().into_string().ok(),
        None => None,
    }
}

/// Asks the file system whether anything exists at `path`, by
/// `std::path::Path::exists`. Nothing is claimed of the answer, which depends
/// on what is on disk.
#[verifier::external_body]
pub(crate) fn path_exists(path: &str) -> (found: bool) {
    std::path::Path::new(path).exists()
}

/// The application's directory inside the given home directory.
pub fn config_dir_under(home: &str) -> (dir: String)
    ensures
        dir@ == config_dir_spec(home@),
{
    child(home, "lightwhisper")
}

/// The application's directory inside the user's home directory, or `None`
/// where the system names no home directory.
pub fn config_dir() -> (dir: Option<String>)
    ensures
        dir matches Some(d) ==> exists|home: Seq<char>| d@ == config_dir_spec(home),
{
    match home_dir() {
        Some(home) => {
            let dir: String = config_dir_under(home.as_str());
            proof {
                assert(dir@ == config_dir_spec(home@));
            }
            Some(dir)
        },
        None => None,
    }
}

/// The settings file inside the application's directory `root`.
pub fn config_path(root: &str) -> (path: String)
    ensures
        path@ == child_path(root@, "config.json"@),
{
    child(root, "config.json")
}

/// The directory of downloaded models inside `root`.
pub open spec fn models_dir_spec(root: Seq<char>) -> Seq<char> {
    child_path(root, "models"@)
}

/// The directory of downloaded models inside the application's directory `root`.
pub fn models_dir(root: &str) -> (path: String)
    ensures
        path@ == models_dir_spec(root@),
{
    child(root, "models")
}

/// The directory of the streaming model's files inside `root`.
pub open spec fn parakeet_models_dir_spec(root: Seq<char>) -> Seq<char> {
    child_path(models_dir_spec(root), "parakeet-tdt"@)
}

/// The directory of the streaming model's files inside the application's
/// directory `root`.
pub fn parakeet_models_dir(root: &str) -> (path: String)
    ensures
        path@ == parakeet_models_dir_spec(root@),
{
    let models: String = models_dir(root);
    child(models.as_str(), "parakeet-tdt")
}

/// The directory for scratch files inside the application's directory `root`.
pub fn temp_dir(root: &str) -> (path: String)
    ensures
        path@ == child_path(root@, "temp"@),
{
    child(root, "temp")
}

} // verus!
