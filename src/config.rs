//! Application configuration.
use vstd::prelude::*;
use crate::text::{chars_of, string_of};

verus! {

/// Where the game repository lives and how to reach it.
#[derive(Debug, Clone, PartialEq)]
pub struct RepositoryConfig {
    /// Server address, or a local directory
    pub server: String,
    /// Share name
    pub share: String,
    /// User name
    pub username: String,
    /// Password
    pub password: String,
    /// Base directory within the share
    pub base_dir: String,
}

/// Local directories.
#[derive(Debug, Clone, PartialEq)]
pub struct PathsConfig {
    /// Where games are installed
    pub install_dir: String,
    /// Where metadata and images are cached
    pub cache_dir: String,
    /// Where downloads are kept for the time being
    pub temp_dir: String,
}

/// Credentials for the external game database.
#[derive(Debug, Clone, PartialEq)]
pub struct IgdbConfig {
    /// Client identifier
    pub client_id: String,
    /// Client secret
    pub client_secret: String,
}

/// Application configuration.
#[derive(Debug, Clone, PartialEq)]
pub struct Config {
    /// Repository settings
    pub repository: RepositoryConfig,
    /// Local paths
    pub paths: PathsConfig,
    /// Game database credentials
    pub igdb: IgdbConfig,
}

impl IgdbConfig {
    /// Whether both credentials are set.
    pub fn is_configured(&self) -> (r: bool)
        ensures
            r == (self.client_id@.len() > 0 && self.client_secret@.len() > 0),
    {
        !self.client_id.as_str().is_empty() && !self.client_secret.as_str().is_empty()
    }
}

impl Config {
    /// The default settings, with the given local paths: no server, the
    /// share `Games` with base directory `Windows`, and no credentials.
    pub fn default_with_paths(paths: PathsConfig) -> (r: Config)
        ensures
            r.repository.server@.len() == 0,
            r.repository.share@ == "Games"@,
            r.repository.username@.len() == 0,
            r.repository.password@.len() == 0,
            r.repository.base_dir@ == "Windows"@,
            r.paths == paths,
            r.igdb.client_id@.len() == 0,
            r.igdb.client_secret@.len() == 0,
    {
        Config {
            repository: RepositoryConfig {
                server: String::new(),
                share: string_of(&chars_of("Games")),
                username: String::new(),
                password: String::new(),
                base_dir: string_of(&chars_of("Windows")),
            },
            paths,
            igdb: IgdbConfig { client_id: String::new(), client_secret: String::new() },
        }
    }
}

} // verus!
