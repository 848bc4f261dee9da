//! Classification of extracted directories: a directory is a package when a
//! marker file stands at its top level, unless its name matches the exclusion
//! pattern, in which case it is skipped without being classified either way.

use vstd::prelude::*;
use crate::text::{has_substr, str_equal, str_has_substr};

verus! {

/// Name of the marker file whose presence at a directory's top level makes
/// that directory an installable package.
pub open spec fn marker_name() -> Seq<char> {
    "ModInfo.xml"@
}

/// Substring of a directory name that makes the directory excluded: such a
/// directory is always skipped, by reconciler and scanner alike.
pub open spec fn exclusion_pattern() -> Seq<char> {
    "Config"@
}

/// One immediate subdirectory of a scanned directory: its name and the names
/// of its direct file entries, in directory-entry order.
pub struct SubDir {
    pub name: String,
    pub files: Vec<String>,
}

/// How one extracted entry is treated.
#[derive(Clone, Copy, Debug, PartialEq, Eq, Structural)]
pub enum Classification {
    /// Carries the marker file: relocated into the destination.
    Package,
    /// Name matches the exclusion pattern: skipped, left in place.
    Excluded,
    /// Neither marker nor exclusion: left in place, never installed.
    Unrecognized,
}

/// The exclusion rule on a directory name.
pub open spec fn spec_excluded(name: Seq<char>) -> bool {
    has_substr(name, exclusion_pattern())
}

/// Some direct file entry is named exactly like the marker file.
pub open spec fn spec_has_marker(files: Seq<String>) -> bool {
    exists|k: int| 0 <= k < files.len() && files[k]@ == marker_name()
}

/// The full classification rule. Exclusion is decided first; the marker is
/// consulted only for non-excluded names.
pub open spec fn spec_classify(name: Seq<char>, files: Seq<String>) -> Classification {
    if spec_excluded(name) {
        Classification::Excluded
    } else if spec_has_marker(files) {
        Classification::Package
    } else {
        Classification::Unrecognized
    }
}

impl SubDir {
    /// Classification of this subdirectory.
    pub open spec fn classification(self) -> Classification {
        spec_classify(self.name@, self.files@)
    }

    /// This subdirectory would be relocated by the reconciler.
    pub open spec fn is_package(self) -> bool {
        self.classification() is Package
    }
}

/// Decides the exclusion rule for one directory name.
pub fn is_excluded_name(name: &str) -> (r: bool)
    ensures
        r == spec_excluded(name@),
{
    str_has_substr(name, "Config")
}

/// First-match marker scan: walks the direct file entries in order and stops
/// at the first one named exactly like the marker file.
pub fn has_marker_file(files: &Vec<String>) -> (r: bool)
    ensures
        r == spec_has_marker(files@),
{
    let n: usize = files.len();
    let mut k: usize = 0;
    while k < n
        invariant
            n == files@.len(),
            k <= n,
            forall|t: int| 0 <= t < k ==> files@[t]@ != marker_name(),
        decreases n - k,
    {
        if str_equal(files[k].as_str(), "ModInfo.xml") {
            proof {
                assert(files@[k as int]@ == marker_name());
            }
            return true;
        }
        k += 1;
    }
    false
}

/// Classifies one extracted subdirectory, exclusion first, marker second.
pub fn classify_subdir(dir: &SubDir) -> (c: Classification)
    ensures
        c == spec_classify(dir.name@, dir.files@),
{
    if is_excluded_name(dir.name.as_str()) {
        Classification::Excluded
    } else if has_marker_file(&dir.files) {
        Classification::Package
    } else {
        Classification::Unrecognized
    }
}

/// The marker file's name, as the driver and tests spell it.
pub fn marker_file_name() -> (r: &'static str)
    ensures
        r@ == marker_name(),
{
    "ModInfo.xml"
}

/// The exclusion pattern, as the driver and tests spell it.
pub fn exclusion_pattern_text() -> (r: &'static str)
    ensures
        r@ == exclusion_pattern(),
{
    "Config"
}

} // verus!
