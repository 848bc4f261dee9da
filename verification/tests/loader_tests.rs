use std::cell::Cell;

use mod_installer::mod_installation::{
    check_mod_path, create_paths_vector, create_zip_vectors, Mod,
};
use mod_installer::utils::{
    check_directory_match, staging_dir_name, zips_temp_exists, MatchesGameDirectory,
};

#[test]
fn loader_unit_has_one_handle_and_one_path_per_archive() {
    let mods = vec![
        "first.zip".to_string(),
        "second.zip".to_string(),
        "third.zip".to_string(),
    ];
    let (handles, paths) = create_zip_vectors(&mods);
    assert_eq!(handles.len(), mods.len());
    assert_eq!(paths.len(), mods.len());
    assert_eq!(handles, vec![0, 1, 2]);
    assert_eq!(paths, mods);
}

#[test]
fn loader_unit_of_no_archives_is_empty() {
    let mods: Vec<String> = Vec::new();
    let (handles, paths) = create_zip_vectors(&mods);
    assert!(handles.is_empty());
    assert!(paths.is_empty());
}

#[test]
fn display_paths_keep_the_input_order() {
    let mods = vec!["b.zip".to_string(), "a.zip".to_string()];
    assert_eq!(create_paths_vector(&mods), mods);
}

#[test]
fn mod_record_keeps_its_parts() {
    let m = Mod::new(
        "CoolMod".to_string(),
        "1.2".to_string(),
        "someone".to_string(),
    );
    assert_eq!(m.name, "CoolMod");
    assert_eq!(m.version, "1.2");
    assert_eq!(m.author, "someone");
}

#[test]
fn mods_path_is_the_fixed_subdirectory() {
    assert_eq!(check_mod_path("/games/seven"), "/games/seven/Mods");
    assert_eq!(check_mod_path(""), "/Mods");
}

#[test]
fn staging_directory_has_its_fixed_name() {
    assert_eq!(staging_dir_name(), ".zips_temp");
}

#[test]
fn game_directory_is_matched_by_name() {
    assert_eq!(
        check_directory_match("/home/player/7 Days To Die"),
        MatchesGameDirectory::Match
    );
    assert_eq!(
        check_directory_match("/home/player/other game"),
        MatchesGameDirectory::NoMatch
    );
}

#[test]
fn cleanup_action_runs_only_when_staging_exists() {
    let calls = Cell::new(0u32);
    let ran = zips_temp_exists(true, || calls.set(calls.get() + 1));
    assert!(ran);
    assert_eq!(calls.get(), 1);

    let ran = zips_temp_exists(false, || calls.set(calls.get() + 1));
    assert!(!ran);
    assert_eq!(calls.get(), 1);
}
