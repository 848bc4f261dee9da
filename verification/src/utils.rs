//! Small helpers around the pipeline: the staging-directory guard, and the
//! check that a picked directory belongs to the game installation.

use vstd::prelude::*;
use crate::text::{has_substr, str_has_substr};

verus! {

/// Whether a picked directory is the game's installation directory.
#[derive(Clone, Copy, Debug, PartialEq, Eq, Structural)]
pub enum MatchesGameDirectory {
    Match,
    NoMatch,
}

/// Fixed well-known name of the staging directory, created in the process's
/// working directory for each installation run.
pub fn staging_dir_name() -> (r: &'static str)
    ensures
        r@ == ".zips_temp"@,
{
    ".zips_temp"
}

/// Runs the given action only when the staging directory is present, so that
/// cleanup touches the staging directory if and only if it exists; when it
/// does not exist nothing runs at all — a no-op, not an error.
pub fn zips_temp_exists<F: FnOnce() -> ()>(staging_present: bool, closure: F) -> (ran: bool)
    requires
        staging_present ==> call_requires(closure, ()),
    ensures
        ran == staging_present,
        ran ==> call_ensures(closure, (), ()),
{
    if staging_present {
        closure();
        true
    } else {
        false
    }
}

/// Decides whether a picked directory path belongs to the game, by the fixed
/// name the installation directory carries.
pub fn check_directory_match(directory: &str) -> (r: MatchesGameDirectory)
    ensures
        (r is Match) == has_substr(directory@, "7 Days To Die"@),
{
    if str_has_substr(directory, "7 Days To Die") {
        MatchesGameDirectory::Match
    } else {
        MatchesGameDirectory::NoMatch
    }
}

} // verus!
