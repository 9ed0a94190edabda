//! Indexing of a game repository: file classification, version resolution,
//! metadata parsing, a staleness-aware metadata store and the refresh
//! orchestration that keeps it current.
pub mod text;
pub mod game_info;
pub mod info_text;
pub mod resolver;
pub mod config;
pub mod repository;
pub mod igdb;
pub mod cache;
pub mod handler;
pub mod version;
