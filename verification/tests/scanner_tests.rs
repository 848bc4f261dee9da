use mod_installer::classify::SubDir;
use mod_installer::mod_installation::scan_game_mods;

fn subdir(name: &str, files: &[&str]) -> SubDir {
    SubDir {
        name: name.to_string(),
        files: files.iter().map(|f| f.to_string()).collect(),
    }
}

fn two_packages_and_one_excluded() -> Vec<SubDir> {
    vec![
        subdir("FirstMod", &["ModInfo.xml", "content.bin"]),
        subdir("SharedConfig", &["ModInfo.xml"]),
        subdir("SecondMod", &["notes.txt", "ModInfo.xml"]),
    ]
}

#[test]
fn scanner_lists_the_two_packages_in_entry_order() {
    let listed = scan_game_mods(Some(&two_packages_and_one_excluded()));
    assert_eq!(
        listed,
        vec!["FirstMod".to_string(), "SecondMod".to_string()]
    );
}

#[test]
fn scanner_is_idempotent_over_an_unchanged_destination() {
    let destination = two_packages_and_one_excluded();
    let first = scan_game_mods(Some(&destination));
    let second = scan_game_mods(Some(&destination));
    assert_eq!(first, second);
}

#[test]
fn scanner_degrades_to_a_placeholder_when_listing_fails() {
    let listed = scan_game_mods(None);
    assert_eq!(
        listed,
        vec!["Mods list could not be loaded/displayed".to_string()]
    );
}

#[test]
fn scanner_of_empty_destination_is_empty() {
    let listed = scan_game_mods(Some(&Vec::new()));
    assert!(listed.is_empty());
}
