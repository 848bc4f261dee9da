//! The installation pipeline's decision logic: pairing opened archives with
//! their display paths, deciding which extracted subdirectories are relocated
//! into the destination, and listing the packages already installed there.
//!
//! The functions here work on a plain model of what the driver reads from
//! disk: each immediate subdirectory as a [`SubDir`]. The driver enumerates
//! directories, performs the moves this module decides on, and feeds the
//! results back.

use vstd::prelude::*;
use crate::classify::{classify_subdir, Classification, SubDir};

verus! {

/// Metadata of one installable mod.
pub struct Mod {
    pub name: String,
    pub version: String,
    pub author: String,
}

impl Mod {
    /// Builds a mod record from its parts.
    pub fn new(name: String, version: String, author: String) -> (m: Mod)
        ensures
            m.name == name,
            m.version == version,
            m.author == author,
    {
        Mod { name, version, author }
    }
}

/// Names of all subdirectories, in directory-entry order: what the reconciler
/// reports as examined.
pub open spec fn spec_examined_names(dirs: Seq<SubDir>) -> Seq<Seq<char>>
    decreases dirs.len(),
{
    if dirs.len() == 0 {
        Seq::empty()
    } else {
        spec_examined_names(dirs.drop_last()) + seq![dirs.last().name@]
    }
}

/// Names of the package-classified subdirectories, in directory-entry order:
/// what the reconciler moves and what the scanner lists.
pub open spec fn spec_package_names(dirs: Seq<SubDir>) -> Seq<Seq<char>>
    decreases dirs.len(),
{
    if dirs.len() == 0 {
        Seq::empty()
    } else if dirs.last().is_package() {
        spec_package_names(dirs.drop_last()) + seq![dirs.last().name@]
    } else {
        spec_package_names(dirs.drop_last())
    }
}

/// The subdirectories a full reconciliation leaves behind in staging:
/// everything not classified as a package.
pub open spec fn spec_remaining(dirs: Seq<SubDir>) -> Seq<SubDir>
    decreases dirs.len(),
{
    if dirs.len() == 0 {
        Seq::empty()
    } else if dirs.last().is_package() {
        spec_remaining(dirs.drop_last())
    } else {
        spec_remaining(dirs.drop_last()) + seq![dirs.last()]
    }
}

/// The subdirectories a full reconciliation relocates, in order: exactly the
/// package-classified ones.
pub open spec fn spec_moved(dirs: Seq<SubDir>) -> Seq<SubDir>
    decreases dirs.len(),
{
    if dirs.len() == 0 {
        Seq::empty()
    } else if dirs.last().is_package() {
        spec_moved(dirs.drop_last()) + seq![dirs.last()]
    } else {
        spec_moved(dirs.drop_last())
    }
}

/// Extending the examined prefix by one subdirectory extends each derived
/// sequence by that subdirectory's contribution.
proof fn lemma_filters_step(dirs: Seq<SubDir>, i: int)
    requires
        0 <= i < dirs.len(),
    ensures
        spec_examined_names(dirs.take(i + 1)) == spec_examined_names(dirs.take(i)) + seq![
            dirs[i].name@,
        ],
        dirs[i].is_package() ==> spec_package_names(dirs.take(i + 1)) == spec_package_names(
            dirs.take(i),
        ) + seq![dirs[i].name@],
        !dirs[i].is_package() ==> spec_package_names(dirs.take(i + 1)) == spec_package_names(
            dirs.take(i),
        ),
        dirs[i].is_package() ==> spec_moved(dirs.take(i + 1)) == spec_moved(dirs.take(i)) + seq![
            dirs[i],
        ],
        !dirs[i].is_package() ==> spec_moved(dirs.take(i + 1)) == spec_moved(dirs.take(i)),
        dirs[i].is_package() ==> spec_remaining(dirs.take(i + 1)) == spec_remaining(dirs.take(i)),
        !dirs[i].is_package() ==> spec_remaining(dirs.take(i + 1)) == spec_remaining(dirs.take(i))
            + seq![dirs[i]],
{
    assert(dirs.take(i + 1).drop_last() =~= dirs.take(i));
    assert(dirs.take(i + 1).last() == dirs[i]);
}

/// What the reconciler reports: every subdirectory name it examined and, of
/// those, the names it relocated into the destination.
pub struct DirsReport {
    pub examined: Vec<String>,
    pub moves: Vec<String>,
}

/// The reconciler's decision over a staging listing. Every immediate
/// subdirectory is examined in order; the package-classified ones are to be
/// relocated into the destination, excluded and unrecognized ones are left in
/// place. Zero packages is success, not an error. The driver performs the
/// moves in the order given and abandons the rest on the first failing move.
pub fn check_dirs(staging: &Vec<SubDir>) -> (r: DirsReport)
    ensures
        r.examined.deep_view() == spec_examined_names(staging@),
        r.moves.deep_view() == spec_package_names(staging@),
{
    let ghost s = staging@;
    let mut examined: Vec<String> = Vec::new();
    let mut moves: Vec<String> = Vec::new();
    let n: usize = staging.len();
    let mut i: usize = 0;
    while i < n
        invariant
            staging@ == s,
            n == s.len(),
            i <= n,
            examined.deep_view() == spec_examined_names(s.take(i as int)),
            moves.deep_view() == spec_package_names(s.take(i as int)),
        decreases n - i,
    {
        let dir = &staging[i];
        let c = classify_subdir(dir);
        let ghost examined_pre = examined.deep_view();
        let ghost moves_pre = moves.deep_view();
        examined.push(dir.name.clone());
        proof {
            lemma_filters_step(s, i as int);
            assert(examined.deep_view() =~= examined_pre + seq![s[i as int].name@]);
        }
        if c == Classification::Package {
            moves.push(dir.name.clone());
            proof {
                assert(moves.deep_view() =~= moves_pre + seq![s[i as int].name@]);
            }
        }
        i += 1;
    }
    proof {
        assert(s.take(n as int) =~= s);
    }
    DirsReport { examined, moves }
}

/// The reconciler's effect on the two listings, assuming every decided move
/// succeeds: package-classified staging entries are appended to the
/// destination in examination order, all other entries stay in staging.
pub fn apply_reconcile(staging: Vec<SubDir>, destination: Vec<SubDir>) -> (r: (
    Vec<SubDir>,
    Vec<SubDir>,
))
    ensures
        r.0@ == spec_remaining(staging@),
        r.1@ == destination@ + spec_moved(staging@),
{
    let ghost s0 = staging@;
    let ghost d0 = destination@;
    let mut staging = staging;
    let mut dest = destination;
    let mut kept: Vec<SubDir> = Vec::new();
    let n: usize = staging.len();
    let mut p: usize = 0;
    while p < n
        invariant
            n == s0.len(),
            p <= n,
            staging@ == s0.skip(p as int),
            kept@ == spec_remaining(s0.take(p as int)),
            dest@ == d0 + spec_moved(s0.take(p as int)),
        decreases n - p,
    {
        let dir = staging.remove(0);
        proof {
            assert(s0.skip(p as int)[0] == s0[p as int]);
            assert(staging@ =~= s0.skip(p as int + 1));
            lemma_filters_step(s0, p as int);
        }
        let c = classify_subdir(&dir);
        if c == Classification::Package {
            dest.push(dir);
            proof {
                assert(dest@ =~= d0 + spec_moved(s0.take(p as int + 1)));
            }
        } else {
            kept.push(dir);
            proof {
                assert(kept@ =~= spec_remaining(s0.take(p as int + 1)));
            }
        }
        p += 1;
    }
    proof {
        assert(s0.take(n as int) =~= s0);
        assert(s0.skip(n as int) =~= Seq::<SubDir>::empty());
    }
    (kept, dest)
}

/// A reconciliation relocates a subdirectory only if it is classified as a
/// package, relocates each staging entry at most once, and leaves exactly the
/// non-package entries behind: moved and remaining partition the staging
/// listing.
pub proof fn lemma_reconcile_partition(dirs: Seq<SubDir>)
    ensures
        forall|k: int|
            0 <= k < spec_moved(dirs).len() ==> (#[trigger] spec_moved(dirs)[k]).is_package(),
        forall|k: int|
            0 <= k < spec_remaining(dirs).len() ==> !(#[trigger] spec_remaining(
                dirs,
            )[k]).is_package(),
        spec_moved(dirs).len() + spec_remaining(dirs).len() == dirs.len(),
        spec_moved(dirs).to_multiset().add(spec_remaining(dirs).to_multiset())
            == dirs.to_multiset(),
    decreases dirs.len(),
{
    broadcast use vstd::seq_lib::group_to_multiset_ensures;
    broadcast use vstd::multiset::lemma_multiset_empty_len;

    if dirs.len() == 0 {
        assert(dirs.to_multiset().len() == 0);
        assert(spec_moved(dirs).to_multiset().len() == 0);
        assert(spec_remaining(dirs).to_multiset().len() == 0);
        assert(spec_moved(dirs).to_multiset().add(spec_remaining(dirs).to_multiset())
            =~= dirs.to_multiset());
    } else {
        let prefix = dirs.drop_last();
        let last = dirs.last();
        lemma_reconcile_partition(prefix);
        assert(prefix.push(last) =~= dirs);
        assert(prefix.push(last).to_multiset() =~= prefix.to_multiset().insert(last));
        if last.is_package() {
            assert(spec_moved(prefix).push(last) =~= spec_moved(dirs));
            assert(spec_moved(prefix).push(last).to_multiset() =~= spec_moved(
                prefix,
            ).to_multiset().insert(last));
            assert(spec_moved(dirs).to_multiset().add(spec_remaining(dirs).to_multiset())
                =~= dirs.to_multiset());
        } else {
            assert(spec_remaining(prefix).push(last) =~= spec_remaining(dirs));
            assert(spec_remaining(prefix).push(last).to_multiset() =~= spec_remaining(
                prefix,
            ).to_multiset().insert(last));
            assert(spec_moved(dirs).to_multiset().add(spec_remaining(dirs).to_multiset())
                =~= dirs.to_multiset());
        }
    }
}

/// The examined list is the whole staging listing: one name per immediate
/// subdirectory, in directory-entry order, excluded and unrecognized ones
/// included.
pub proof fn lemma_examined_is_every_name(dirs: Seq<SubDir>)
    ensures
        spec_examined_names(dirs).len() == dirs.len(),
        forall|k: int|
            0 <= k < dirs.len() ==> #[trigger] spec_examined_names(dirs)[k] == dirs[k].name@,
    decreases dirs.len(),
{
    if dirs.len() > 0 {
        lemma_examined_is_every_name(dirs.drop_last());
    }
}

/// The reconciler's report and its effect agree: the move names it reports
/// are exactly the names of the entries a reconciliation relocates, in the
/// same order.
pub proof fn lemma_moves_are_the_package_names(dirs: Seq<SubDir>)
    ensures
        spec_moved(dirs).len() == spec_package_names(dirs).len(),
        forall|k: int|
            0 <= k < spec_moved(dirs).len() ==> (#[trigger] spec_moved(dirs)[k]).name@
                == spec_package_names(dirs)[k],
    decreases dirs.len(),
{
    if dirs.len() > 0 {
        lemma_moves_are_the_package_names(dirs.drop_last());
    }
}

/// The installed-package listing over the destination's immediate
/// subdirectories, by the same classification rule as the reconciler. `None`
/// stands for a destination that could not be enumerated: the result then
/// degrades to a single placeholder line instead of failing.
pub fn scan_game_mods(listing: Option<&Vec<SubDir>>) -> (r: Vec<String>)
    ensures
        match listing {
            Some(dirs) => r.deep_view() == spec_package_names(dirs@),
            None => r@.len() == 1 && r@[0]@ == "Mods list could not be loaded/displayed"@,
        },
{
    match listing {
        Some(dirs) => {
            let report = check_dirs(dirs);
            report.moves
        },
        None => {
            let mut single_element_vec: Vec<String> = Vec::new();
            single_element_vec.push(String::from_str("Mods list could not be loaded/displayed"));
            single_element_vec
        },
    }
}

/// Scanning is a function of the destination listing alone: two scans over an
/// unchanged destination yield identical results.
pub proof fn lemma_scan_idempotent(
    dirs: Seq<SubDir>,
    first: Seq<Seq<char>>,
    second: Seq<Seq<char>>,
)
    requires
        first == spec_package_names(dirs),
        second == spec_package_names(dirs),
    ensures
        first == second,
{
}

/// Display-path list: one rendered path per selected archive, in input order.
pub fn create_paths_vector(mods: &Vec<String>) -> (r: Vec<String>)
    ensures
        r.deep_view() == mods.deep_view(),
{
    let mut paths_vector: Vec<String> = Vec::new();
    let n: usize = mods.len();
    let mut i: usize = 0;
    while i < n
        invariant
            n == mods@.len(),
            i <= n,
            paths_vector.deep_view() == mods.deep_view().take(i as int),
        decreases n - i,
    {
        let ghost pre = paths_vector.deep_view();
        paths_vector.push(mods[i].clone());
        proof {
            assert(paths_vector.deep_view() =~= pre.push(mods@[i as int]@));
            assert(paths_vector.deep_view() =~= mods.deep_view().take(i as int + 1));
        }
        i += 1;
    }
    proof {
        assert(mods.deep_view().take(n as int) =~= mods.deep_view());
    }
    paths_vector
}

/// Handle slots for the archives the driver opens: slot `i` stands for the
/// opened handle of the `i`-th archive path, so the batch carries one handle
/// per path, in input order. The driver fills the slots by opening the files
/// and abandons the whole batch if any single open fails.
pub fn create_files_vector(mods: &Vec<String>) -> (r: Vec<usize>)
    ensures
        r@.len() == mods@.len(),
        forall|i: int| 0 <= i < r@.len() ==> r@[i] == i,
{
    let mut files_vector: Vec<usize> = Vec::new();
    let n: usize = mods.len();
    let mut i: usize = 0;
    while i < n
        invariant
            n == mods@.len(),
            i <= n,
            files_vector@.len() == i,
            forall|k: int| 0 <= k < i ==> files_vector@[k] == k,
        decreases n - i,
    {
        files_vector.push(i);
        i += 1;
    }
    files_vector
}

/// The loader's output as one unit: handle slots and display paths. The two
/// lists are complete and aligned — one opened handle and one display path per
/// input path, in matching order.
pub fn create_zip_vectors(mods: &Vec<String>) -> (r: (Vec<usize>, Vec<String>))
    ensures
        r.0@.len() == mods@.len(),
        r.1@.len() == mods@.len(),
        forall|i: int| 0 <= i < mods@.len() ==> r.0@[i] == i,
        forall|i: int| 0 <= i < mods@.len() ==> r.1@[i]@ == mods@[i]@,
{
    let paths = create_paths_vector(mods);
    let files = create_files_vector(mods);
    proof {
        assert(paths.deep_view().len() == paths@.len());
        assert(mods.deep_view().len() == mods@.len());
        assert forall|i: int| 0 <= i < mods@.len() implies paths@[i]@ == mods@[i]@ by {
            assert(paths.deep_view()[i] == paths@[i].deep_view());
            assert(mods.deep_view()[i] == mods@[i].deep_view());
        }
    }
    (files, paths)
}

/// Path of the package root beneath the chosen destination directory: the
/// fixed `Mods` subdirectory, which the driver creates when absent.
pub fn check_mod_path(directory: &str) -> (r: String)
    ensures
        r@ == directory@ + "/Mods"@,
{
    let mut path: String = String::from_str(directory);
    path.append("/Mods");
    path
}

} // verus!
