//! Verified core of a mod installer: archives are opened and extracted into a
//! staging directory, extracted subdirectories are classified as installable
//! packages by the presence of a marker file, packages are relocated into the
//! game's `Mods` directory, the staging directory is cleaned up, and the set of
//! installed packages can be listed again with the same classification rule.
//!
//! All filesystem, archive and user-interface work is performed by an
//! unverified driver; this crate holds the decision logic, stated over a plain
//! model of the directory listings the driver reads.

pub mod classify;
pub mod management;
pub mod mod_installation;
pub mod pipeline;
pub mod text;
pub mod utils;
