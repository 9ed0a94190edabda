use game_library_manager::cache::{CachedMetadata, MetadataCache};
use game_library_manager::handler::{
    BatchProgress, GameOutcome, LookupOutcome, MetadataHandler, MetadataStatus,
};
use game_library_manager::igdb::{
    get_cover_url, needs_authentication, search_query, select_best_match, IgdbCover, IgdbGame,
};

fn igdb_game(id: u32, name: &str, cover: Option<&str>) -> IgdbGame {
    IgdbGame {
        id,
        name: name.to_string(),
        summary: None,
        storyline: None,
        first_release_date: Some(1_600_000_000),
        cover: cover.map(|c| IgdbCover { id: 1, url: None, image_id: c.to_string() }),
        involved_companies: None,
        genres: None,
        platforms: None,
        slug: None,
        url: None,
        total_rating_bits: None,
        total_rating_count: Some(3),
    }
}

fn record(id: &str, at: u64) -> CachedMetadata {
    CachedMetadata {
        game_id: id.to_string(),
        igdb_id: Some(7),
        igdb_data: Some(igdb_game(7, "Hades", Some("abc"))),
        cover_path: Some("images/hades_cover.jpg".to_string()),
        last_updated: at,
    }
}

fn same(a: &CachedMetadata, b: &CachedMetadata) -> bool {
    a.game_id == b.game_id
        && a.igdb_id == b.igdb_id
        && a.cover_path == b.cover_path
        && a.last_updated == b.last_updated
        && a.igdb_data.as_ref().map(|g| (g.id, g.name.clone()))
            == b.igdb_data.as_ref().map(|g| (g.id, g.name.clone()))
}

#[test]
fn save_then_load_returns_the_record() {
    let mut c = MetadataCache::new("/cache".to_string());
    let r = record("hades", 1234);
    c.save_metadata(r.clone());
    let loaded = c.load_metadata("hades", None, 99);
    assert!(same(&loaded, &r));
    assert!(c.has_metadata("hades"));
}

#[test]
fn load_uses_file_then_fresh_record() {
    let mut c = MetadataCache::new("/cache".to_string());
    let from_disk = c.load_metadata("hades", Some(record("hades", 5)), 99);
    assert_eq!(from_disk.last_updated, 5);
    assert_eq!(c.get_metadata("hades").unwrap().last_updated, 5);
    let fresh = c.load_metadata("doom", None, 42);
    assert_eq!(fresh.game_id, "doom");
    assert_eq!(fresh.last_updated, 42);
    assert!(fresh.igdb_data.is_none());
    assert!(c.has_metadata("doom"));
}

#[test]
fn staleness_boundary() {
    let mut c = MetadataCache::new("/cache".to_string());
    c.save_metadata(record("hades", 1_000));
    let limit = 30 * 86_400;
    assert!(!c.is_stale_at("hades", 30, 1_000 + limit - 1));
    assert!(!c.is_stale_at("hades", 30, 1_000 + limit));
    assert!(c.is_stale_at("hades", 30, 1_000 + limit + 1));
    assert!(!c.is_stale_at("hades", 30, 10));
    assert!(c.is_stale_at("missing", 30, 1_000));
    assert!(c.is_stale("missing", 30));
    assert!(!c.is_stale_at("hades", u64::MAX, u64::MAX));
}

#[test]
fn store_paths() {
    let c = MetadataCache::new("/cache".to_string());
    assert_eq!(c.metadata_dir(), "/cache/metadata");
    assert_eq!(c.images_dir(), "/cache/images");
    assert_eq!(c.get_metadata_path("hades"), "/cache/metadata/hades.json");
    assert_eq!(c.get_cover_path("hades"), "/cache/images/hades_cover.jpg");
    let m = c.create_metadata("hades");
    assert_eq!(m.game_id, "hades");
    assert!(m.cover_path.is_none());
}

#[test]
fn update_with_igdb_keeps_the_later_time() {
    let mut c = MetadataCache::new("/cache".to_string());
    c.update_with_igdb("hades", igdb_game(9, "Hades", None), 500);
    let m = c.get_metadata("hades").unwrap();
    assert_eq!(m.igdb_id, Some(9));
    assert_eq!(m.last_updated, 500);
    c.update_with_igdb("hades", igdb_game(10, "Hades II", None), 400);
    let m = c.get_metadata("hades").unwrap();
    assert_eq!(m.igdb_id, Some(10));
    assert_eq!(m.last_updated, 500);
}

#[test]
fn cover_path_is_recorded_only_for_held_records() {
    let mut c = MetadataCache::new("/cache".to_string());
    assert!(!c.update_cover_path("hades", "images/hades_cover.jpg", 10));
    assert!(!c.has_metadata("hades"));
    c.save_metadata(record("hades", 5));
    assert!(c.update_cover_path("hades", "images/x.jpg", 10));
    let m = c.get_metadata("hades").unwrap();
    assert_eq!(m.cover_path.as_deref(), Some("images/x.jpg"));
    assert_eq!(m.last_updated, 10);
}

#[test]
fn second_fetch_is_answered_from_the_cache() {
    let mut h = MetadataHandler::new(MetadataCache::new("/cache".to_string()));
    let (needs, events) = h.begin_fetch("hades", "Hades", 1_000);
    assert!(needs);
    assert_eq!(events.len(), 1);
    assert!(matches!(&events[0], MetadataStatus::Started { game_id, .. } if game_id == "hades"));
    let (res, events) = h.finish_fetch(
        "hades",
        "Hades",
        LookupOutcome::Found(igdb_game(7, "Hades", Some("abc"))),
        1_000,
    );
    assert_eq!(res, Ok(true));
    assert!(matches!(&events[0], MetadataStatus::Success { .. }));
    let (needs, events) = h.begin_fetch("hades", "Hades", 2_000);
    assert!(!needs);
    assert_eq!(events.len(), 2);
    assert!(matches!(&events[1], MetadataStatus::Success { game_name, .. } if game_name == "Hades"));
    assert!(h.was_recently_refreshed("hades", 3_600, 2_500));
    assert!(!h.was_recently_refreshed("hades", 100, 2_500));
    assert!(h.refresh_due("hades", 1_000 + 30 * 86_400 + 1));
}

#[test]
fn fetch_failures_are_reported() {
    let mut h = MetadataHandler::new(MetadataCache::new("/cache".to_string()));
    let (res, events) = h.finish_fetch("doom", "Doom", LookupOutcome::NotFound, 1);
    assert_eq!(res, Ok(false));
    assert!(matches!(&events[0], MetadataStatus::Failed { error, .. }
        if error == "No matching game found on IGDB"));
    let (res, events) =
        h.finish_fetch("doom", "Doom", LookupOutcome::Failed("timeout".to_string()), 1);
    assert_eq!(res, Err("timeout".to_string()));
    assert!(matches!(&events[0], MetadataStatus::Failed { error, .. }
        if error == "IGDB API error: timeout"));
    assert!(!h.has_igdb_metadata("doom"));
    assert!(h.refresh_due("doom", 1));
}

#[test]
fn cover_download_bookkeeping() {
    let mut h = MetadataHandler::new(MetadataCache::new("/cache".to_string()));
    assert_eq!(h.cover_to_download("hades"), None);
    h.finish_fetch("hades", "Hades", LookupOutcome::Found(igdb_game(7, "Hades", Some("co1x"))), 5);
    assert_eq!(h.cover_to_download("hades"), Some("co1x".to_string()));
    assert!(h.cover_downloaded("hades", 6));
    assert_eq!(
        h.cache.get_metadata("hades").unwrap().cover_path.as_deref(),
        Some("images/hades_cover.jpg")
    );
    h.finish_fetch("doom", "Doom", LookupOutcome::Found(igdb_game(8, "Doom", None)), 5);
    assert_eq!(h.cover_to_download("doom"), None);
}

#[test]
fn batch_with_one_failure_still_completes() {
    let (mut b, first) = BatchProgress::start(3);
    assert!(matches!(first, MetadataStatus::Progress { completed: 0, total: 3 }));
    b.record("a", "A", GameOutcome::Updated);
    let ev = b.record("b", "B", GameOutcome::Failed("lookup error".to_string()));
    assert!(matches!(&ev[0], MetadataStatus::Failed { error, .. } if error == "lookup error"));
    assert!(matches!(ev[1], MetadataStatus::Progress { completed: 2, total: 3 }));
    b.record("c", "C", GameOutcome::Updated);
    assert!(matches!(
        b.finish(),
        MetadataStatus::Completed { successful: 2, failed: 1, total: 3 }
    ));
}

#[test]
fn batch_counts_current_games_as_neither() {
    let (mut b, _) = BatchProgress::start(2);
    let ev = b.record("a", "A", GameOutcome::Current);
    assert!(matches!(&ev[0], MetadataStatus::Success { .. }));
    let ev = b.record("b", "B", GameOutcome::NotFound);
    assert!(matches!(&ev[0], MetadataStatus::Failed { error, .. } if error == "Could not find metadata"));
    assert!(matches!(
        b.finish(),
        MetadataStatus::Completed { successful: 0, failed: 1, total: 2 }
    ));
}

#[test]
fn best_match_prefers_exact_name_ignoring_case() {
    let games = vec![igdb_game(1, "Hades II", None), igdb_game(2, "HADES", None)];
    assert_eq!(select_best_match(&games, "hades").unwrap().id, 2);
    assert_eq!(select_best_match(&games, "Hollow").unwrap().id, 1);
    assert!(select_best_match(&Vec::new(), "hades").is_none());
}

#[test]
fn database_request_helpers() {
    assert!(needs_authentication(false, Some(10_000), 0));
    assert!(needs_authentication(true, None, 0));
    assert!(!needs_authentication(true, Some(10_000), 9_000));
    assert!(needs_authentication(true, Some(10_000), 9_700));
    assert!(needs_authentication(true, Some(100), 0));
    assert_eq!(
        get_cover_url("co1x", "cover_big"),
        "https://images.igdb.com/igdb/image/upload/t_cover_big/co1x.jpg"
    );
    assert!(search_query("Hades").starts_with("search \"Hades\"; fields id,name,"));
    assert!(search_query("Hades").ends_with(" limit 10;"));
}
