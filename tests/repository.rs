use game_library_manager::config::{Config, IgdbConfig, PathsConfig, RepositoryConfig};
use game_library_manager::game_info::{FileType, GameInfo};
use game_library_manager::repository::{
    is_game_directory, looks_like_local_path, ScannedFile, SmbConnection,
};
use game_library_manager::text::parse_u32;

fn repo(server: &str, base_dir: &str) -> RepositoryConfig {
    RepositoryConfig {
        server: server.to_string(),
        share: "Games".to_string(),
        username: String::new(),
        password: String::new(),
        base_dir: base_dir.to_string(),
    }
}

fn blank(id: &str) -> GameInfo {
    GameInfo {
        id: id.to_string(),
        title: String::new(),
        developer: None,
        publisher: None,
        release_date: None,
        description: None,
        igdb_id: None,
        files: Vec::new(),
        versions: Vec::new(),
        cover_image: None,
    }
}

#[test]
fn info_text_sets_fields_with_aliases_and_multiline_values() {
    let mut g = blank("x");
    g.parse_metadata(
        "# comment\nName: Amid Evil\nDEV : Indefatigable\n\npub: New Blood\nrelease date: 2019\nigdb_id: 42\ncolour: red\ndescription:\n  First line\nsecond line\n",
    );
    assert_eq!(g.title, "Amid Evil");
    assert_eq!(g.developer.as_deref(), Some("Indefatigable"));
    assert_eq!(g.publisher.as_deref(), Some("New Blood"));
    assert_eq!(g.release_date.as_deref(), Some("2019"));
    assert_eq!(g.igdb_id, Some(42));
    assert_eq!(g.description.as_deref(), Some("First line\nsecond line"));
}

#[test]
fn multiline_value_ends_at_next_key() {
    let mut g = blank("x");
    g.parse_metadata("about:\r\nline one\r\nline two\r\ntitle: T\r\n");
    assert_eq!(g.description.as_deref(), Some("line one\nline two"));
    assert_eq!(g.title, "T");
    let mut h = blank("y");
    h.parse_metadata("igdb: not a number\ngame name: A: B");
    assert_eq!(h.igdb_id, None);
    assert_eq!(h.title, "A: B");
}

#[test]
fn local_scan_builds_a_record() {
    let mut conn = SmbConnection::new(repo("/srv/games", ""));
    assert!(!conn.scans_local_files());
    conn.use_local_directory("/srv/games".to_string());
    assert!(conn.scans_local_files());
    assert!(conn.is_connected());
    let entries = vec![
        ScannedFile {
            name: "setup_hades_build_100.exe".to_string(),
            relative_path: "setup_hades_build_100.exe".to_string(),
            size: 10,
        },
        ScannedFile {
            name: "manual.pdf".to_string(),
            relative_path: "docs\\manual.pdf".to_string(),
            size: 3,
        },
    ];
    let g = conn.get_game_info("hades_game", Some("developer: Supergiant"), &entries);
    assert_eq!(g.id, "hades_game");
    assert_eq!(g.title, "Hades Game");
    assert_eq!(g.developer.as_deref(), Some("Supergiant"));
    assert_eq!(g.files.len(), 2);
    assert_eq!(g.files[0].file_type, FileType::Installer);
    assert_eq!(g.files[1].file_type, FileType::Other);
    assert_eq!(g.files[1].remote_path, "hades_game/docs/manual.pdf");
    assert_eq!(g.versions.len(), 1);
    assert_eq!(g.versions[0].name, "Build 100");
}

#[test]
fn files_without_installers_get_a_default_version() {
    let mut conn = SmbConnection::new(repo("/srv", ""));
    conn.use_local_directory("/srv".to_string());
    let entries = vec![ScannedFile {
        name: "readme.txt".to_string(),
        relative_path: "readme.txt".to_string(),
        size: 1,
    }];
    let g = conn.get_game_info("docs_only", None, &entries);
    assert_eq!(g.versions.len(), 1);
    assert_eq!(g.versions[0].name, "Default Version");
    assert_eq!(g.versions[0].build, 1);
    assert_eq!(g.versions[0].files.len(), 1);
    let empty = conn.get_game_info("empty", None, &Vec::new());
    assert!(empty.versions.is_empty());
}

#[test]
fn remote_scan_uses_stand_in_files() {
    let conn = SmbConnection::new(repo("nas", "Windows"));
    assert!(conn.is_connected());
    let g = conn.get_game_info("hades", None, &Vec::new());
    assert_eq!(g.files.len(), 2);
    assert_eq!(g.files[0].name, "setup_hades_gog_build_2241b_(64bit)_(51706).exe");
    assert_eq!(g.files[1].file_type, FileType::Patch);
    assert_eq!(g.developer.as_deref(), Some("Demo Developer"));
    assert_eq!(g.igdb_id, Some(12345));
    assert_eq!(g.versions.len(), 1);
    assert_eq!(g.versions[0].build, 2241);
    assert_eq!(g.versions[0].required_patches.len(), 0);
    assert_eq!(conn.get_demo_directories().len(), 4);
    assert_eq!(conn.get_full_path("hades"), "Windows/hades");
    assert_eq!(SmbConnection::new(repo("nas", "")).get_full_path("hades"), "hades");
    assert!(!SmbConnection::new(repo("", "")).is_connected());
}

#[test]
fn directory_and_server_rules() {
    assert!(is_game_directory("hades"));
    assert!(!is_game_directory(".git"));
    assert!(!is_game_directory("_incoming"));
    assert!(looks_like_local_path("C:\\Games"));
    assert!(looks_like_local_path("/mnt/games"));
    assert!(looks_like_local_path("\\\\nas\\share"));
    assert!(!looks_like_local_path("192.168.1.100"));
}

#[test]
fn default_config_and_credentials() {
    let paths = PathsConfig {
        install_dir: "/home/u/Games".to_string(),
        cache_dir: "/home/u/.cache/glm".to_string(),
        temp_dir: "/tmp/glm".to_string(),
    };
    let c = Config::default_with_paths(paths.clone());
    assert_eq!(c.repository.share, "Games");
    assert_eq!(c.repository.base_dir, "Windows");
    assert_eq!(c.paths, paths);
    assert!(!c.igdb.is_configured());
    let k = IgdbConfig { client_id: "id".to_string(), client_secret: "s".to_string() };
    assert!(k.is_configured());
}

#[test]
fn decimal_parsing() {
    let p = |s: &str| parse_u32(&s.chars().collect());
    assert_eq!(p("0"), Some(0));
    assert_eq!(p("+17"), Some(17));
    assert_eq!(p("4294967295"), Some(u32::MAX));
    assert_eq!(p("4294967296"), None);
    assert_eq!(p(""), None);
    assert_eq!(p("+"), None);
    assert_eq!(p("12a"), None);
    assert_eq!(p("-1"), None);
}
