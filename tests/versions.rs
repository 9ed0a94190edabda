use game_library_manager::game_info::{FileType, GameFile, GameInfo};
use game_library_manager::resolver::resolve_versions;
use game_library_manager::repository::classify_file;
use game_library_manager::version::VersionManager;

fn file(name: &str) -> GameFile {
    GameFile {
        name: name.to_string(),
        remote_path: format!("game/{}", name),
        size: 1,
        file_type: classify_file(name),
    }
}

fn game(names: &[&str]) -> GameInfo {
    GameInfo {
        id: "game".to_string(),
        title: "Game".to_string(),
        developer: None,
        publisher: None,
        release_date: None,
        description: None,
        igdb_id: None,
        files: names.iter().map(|n| file(n)).collect(),
        versions: Vec::new(),
        cover_image: None,
    }
}

#[test]
fn build_style_installer_gives_one_build_version() {
    let mut g = game(&["setup_game_build_2241b_(64bit)_(51706).exe"]);
    assert_eq!(g.files[0].file_type, FileType::Installer);
    g.parse_versions();
    assert_eq!(g.versions.len(), 1);
    assert_eq!(g.versions[0].name, "Build 2241b");
    assert_eq!(g.versions[0].build, 2241);
    assert_eq!(g.versions[0].files.len(), 1);
}

#[test]
fn dotted_installer_encodes_build_number() {
    let mut g = game(&["v1.2.3_setup.exe"]);
    g.parse_versions();
    assert_eq!(g.versions.len(), 1);
    assert_eq!(g.versions[0].name, "Version 1.2.3");
    assert_eq!(g.versions[0].build, 1_020_300);
}

#[test]
fn patch_with_source_build_attaches_only_to_that_build() {
    let mut g = game(&[
        "setup_build_100.exe",
        "setup_build_200.exe",
        "patch_build_100_to_build_200.exe",
    ]);
    assert_eq!(g.files[2].file_type, FileType::Patch);
    g.parse_versions();
    assert_eq!(g.versions.len(), 2);
    assert_eq!(g.versions[0].build, 200);
    assert_eq!(g.versions[1].build, 100);
    assert!(g.versions[0].required_patches.is_empty());
    assert_eq!(g.versions[1].required_patches.len(), 1);
    assert_eq!(g.versions[1].required_patches[0].name, "patch_build_100_to_build_200.exe");
}

#[test]
fn patch_without_source_build_attaches_to_every_version() {
    let mut g = game(&["setup_build_100.exe", "setup_build_200.exe", "update_hotfix.exe"]);
    assert_eq!(g.files[2].file_type, FileType::Patch);
    g.parse_versions();
    assert_eq!(g.versions.len(), 2);
    for v in &g.versions {
        assert_eq!(v.required_patches.len(), 1);
        assert_eq!(v.required_patches[0].name, "update_hotfix.exe");
    }
}

#[test]
fn no_installers_gives_no_versions() {
    let mut g = game(&[]);
    g.parse_versions();
    assert!(g.versions.is_empty());
    let mut h = game(&["readme.txt"]);
    assert_eq!(h.files[0].file_type, FileType::Other);
    h.parse_versions();
    assert!(h.versions.is_empty());
}

#[test]
fn versions_are_ordered_by_build_descending() {
    let v = resolve_versions(&game(&[
        "setup_build_100.exe",
        "setup_v2.0.exe",
        "setup_build_300.exe",
        "setup_1.5.exe",
    ])
    .files);
    let builds: Vec<u32> = v.iter().map(|x| x.build).collect();
    assert_eq!(builds, vec![2_000_000, 1_050_000, 300, 100]);
    for w in builds.windows(2) {
        assert!(w[0] >= w[1]);
    }
}

#[test]
fn equal_builds_keep_first_appearance_order() {
    let v = resolve_versions(&game(&["setup_build_100a.exe", "setup_build_100.exe"]).files);
    assert_eq!(v.len(), 2);
    assert_eq!(v[0].name, "Build 100a");
    assert_eq!(v[1].name, "Build 100");
    assert_eq!(v[0].build, 100);
    assert_eq!(v[1].build, 100);
}

#[test]
fn installers_of_the_same_version_are_grouped() {
    let v = resolve_versions(&game(&["setup_build_7.exe", "readme.txt", "launcher_build_7.exe"]).files);
    assert_eq!(v.len(), 1);
    assert_eq!(v[0].files.len(), 2);
    assert_eq!(v[0].files[0].name, "setup_build_7.exe");
    assert_eq!(v[0].files[1].name, "launcher_build_7.exe");
}

#[test]
fn unversioned_installer_goes_to_default_version() {
    let v = resolve_versions(&game(&["setup.exe"]).files);
    assert_eq!(v.len(), 1);
    assert_eq!(v[0].name, "Default Version");
    assert_eq!(v[0].build, 1);
}

#[test]
fn dotted_components_are_limited_to_two_digits() {
    let v = resolve_versions(&game(&["setup_v1.234.exe"]).files);
    assert_eq!(v[0].build, 1_990_000);
    let w = resolve_versions(&game(&["setup_v2.10.exe"]).files);
    assert_eq!(w[0].build, 2_100_000);
}

#[test]
fn uppercase_names_are_matched_lowercased() {
    let v = resolve_versions(&game(&["SETUP_BUILD_55.EXE"]).files);
    assert_eq!(v[0].name, "Build 55");
    assert_eq!(v[0].build, 55);
}

#[test]
fn patch_source_with_letter_counts_as_zero() {
    let v = resolve_versions(&game(&["setup_build_0.exe", "patch_build_12a_to_build_13.exe"]).files);
    assert_eq!(v.len(), 1);
    assert_eq!(v[0].build, 0);
    assert_eq!(v[0].required_patches.len(), 1);
}

#[test]
fn latest_and_by_build_lookups() {
    let mut g = game(&["setup_build_100.exe", "setup_build_200.exe"]);
    assert!(g.latest_version().is_none());
    g.parse_versions();
    assert_eq!(g.latest_version().unwrap().build, 200);
    assert_eq!(g.get_version_by_build(100).unwrap().name, "Build 100");
    assert!(g.get_version_by_build(150).is_none());
    let m = VersionManager::new();
    assert_eq!(m.get_latest_version(&g).unwrap().build, 200);
    assert_eq!(m.get_version_by_build(&g, 200).unwrap().name, "Build 200");
}

#[test]
fn required_files_are_installers_then_patches() {
    let mut g = game(&[
        "setup_build_100.exe",
        "setup_build_200.exe",
        "patch_build_100_to_build_200.exe",
    ]);
    g.parse_versions();
    let m = VersionManager::new();
    let old = &g.versions[1];
    let files = m.get_required_files(old);
    let names: Vec<&str> = files.iter().map(|f| f.name.as_str()).collect();
    assert_eq!(names, vec!["setup_build_100.exe", "patch_build_100_to_build_200.exe"]);
    assert!(m.needs_patches(old));
    assert!(!m.needs_patches(&g.versions[0]));
    assert_eq!(m.get_ordered_patches(old).len(), 1);
}

#[test]
fn classification_rules_in_priority_order() {
    assert_eq!(classify_file("Setup_Game.MSI"), FileType::Installer);
    assert_eq!(classify_file("install.dmg"), FileType::Installer);
    assert_eq!(classify_file("update_1.zip"), FileType::Patch);
    assert_eq!(classify_file("patch.exe"), FileType::Patch);
    assert_eq!(classify_file("game.EXE"), FileType::Installer);
    assert_eq!(classify_file("setup_notes.txt"), FileType::Other);
    assert_eq!(classify_file("update.rar"), FileType::Other);
}
