//! The game repository: classification of files, the connection settings and
//! the assembly of one game record per directory.
use vstd::prelude::*;
use crate::config::RepositoryConfig;
use crate::game_info::{versions_view, FileType, GameFile, GameInfo, GameVersion, VersionView};
use crate::info_text::{opt_view, parse_meta, MetaView};
use crate::resolver::{default_label, resolved_versions};
use crate::text::{
    captures_of, chars_of, ends_with, has_suffix, humanize, humanize_name, join3, lower_of,
    regex_captures, replace_char, replace_chars, starts_with_char, string_of, to_lower,
};

verus! {

/// An installer by name: setup, install or launcher, with an executable
/// extension.
pub const INSTALLER_PATTERN: &'static str = r"(?i)(setup|install|launcher).*\.(exe|msi|pkg|dmg)$";

/// A patch by name: patch or update, with an executable or archive extension.
pub const PATCH_PATTERN: &'static str = r"(?i)(patch|update).*\.(exe|msi|pkg|dmg|zip)$";

/// The kind of a file, by name: installer names first, then patch names,
/// then any other executable counts as an installer.
pub open spec fn classify(name: Seq<char>) -> FileType {
    if captures_of(INSTALLER_PATTERN@, name) is Some {
        FileType::Installer
    } else if captures_of(PATCH_PATTERN@, name) is Some {
        FileType::Patch
    } else if ends_with(lower_of(name), ".exe"@) {
        FileType::Installer
    } else {
        FileType::Other
    }
}

/// Classifies a file by its name.
pub fn classify_file(name: &str) -> (r: FileType)
    ensures
        r == classify(name@),
{
    if regex_captures(INSTALLER_PATTERN, name).is_some() {
        FileType::Installer
    } else if regex_captures(PATCH_PATTERN, name).is_some() {
        FileType::Patch
    } else {
        let lower = to_lower(name);
        if has_suffix(&chars_of(lower.as_str()), &chars_of(".exe")) {
            FileType::Installer
        } else {
            FileType::Other
        }
    }
}

/// A file found while walking a game directory.
#[derive(Debug, Clone)]
pub struct ScannedFile {
    /// File name
    pub name: String,
    /// Path relative to the game directory, with either separator
    pub relative_path: String,
    /// Size in bytes
    pub size: u64,
}

/// The repository path of a file of a game directory.
pub open spec fn remote_path_of(dir: Seq<char>, relative: Seq<char>) -> Seq<char> {
    dir + "/"@ + replace_char(relative, '\\', '/')
}

/// Whether `f` is the classified record of a scanned file of `dir`.
pub open spec fn scanned_record(dir: Seq<char>, s: ScannedFile, f: GameFile) -> bool {
    &&& f.name@ == s.name@
    &&& f.remote_path@ == remote_path_of(dir, s.relative_path@)
    &&& f.size == s.size
    &&& f.file_type == classify(s.name@)
}

/// Whether a directory of the repository holds a game: hidden (`.`) and
/// reserved (`_`) directories do not.
pub open spec fn is_game_dir(name: Seq<char>) -> bool {
    !starts_with_char(name, '.') && !starts_with_char(name, '_')
}

/// Whether a directory of the repository holds a game.
pub fn is_game_directory(name: &str) -> (r: bool)
    ensures
        r == is_game_dir(name@),
{
    let cs = chars_of(name);
    !(cs.len() > 0 && (cs[0] == '.' || cs[0] == '_'))
}

/// Whether a server setting names a local directory rather than a host.
pub open spec fn is_local_path(server: Seq<char>) -> bool {
    (exists|i: int|
        0 <= i && i + 1 < server.len() && #[trigger] server[i] == ':' && server[i + 1] == '\\')
        || starts_with_char(server, '/') || starts_with_char(server, '\\')
}

/// Whether a server setting names a local directory rather than a host.
pub fn looks_like_local_path(server: &str) -> (r: bool)
    ensures
        r == is_local_path(server@),
{
    let cs = chars_of(server);
    if cs.len() > 0 && (cs[0] == '/' || cs[0] == '\\') {
        return true;
    }
    let mut i: usize = 0;
    while i < cs.len() && i + 1 < cs.len()
        invariant
            cs@ == server@,
            i <= cs@.len(),
            forall|k: int|
                0 <= k < i && k + 1 < cs@.len() ==> !(#[trigger] cs@[k] == ':' && cs@[k + 1] == '\\'),
        decreases cs.len() - i,
    {
        if cs[i] == ':' && cs[i + 1] == '\\' {
            return true;
        }
        i = i + 1;
    }
    false
}

/// The fields of a fresh record of directory `dir`.
pub open spec fn base_meta(dir: Seq<char>) -> MetaView {
    MetaView {
        title: humanize(dir),
        developer: None,
        publisher: None,
        release_date: None,
        description: None,
        igdb_id: None,
    }
}

/// The versions of a game with these files, falling back to one default
/// version holding every file where no version was resolved.
pub open spec fn versions_with_fallback(files: Seq<GameFile>) -> Seq<VersionView> {
    if resolved_versions(files).len() == 0 && files.len() > 0 {
        seq![
            VersionView {
                name: default_label(),
                build: 1,
                files,
                required_patches: Seq::empty(),
            },
        ]
    } else {
        resolved_versions(files)
    }
}

/// The installer of the stand-in data for directory `dir`.
pub open spec fn demo_installer_name(dir: Seq<char>) -> Seq<char> {
    "setup_"@ + dir + "_gog_build_2241b_(64bit)_(51706).exe"@
}

/// The patch of the stand-in data for directory `dir`.
pub open spec fn demo_patch_name(dir: Seq<char>) -> Seq<char> {
    "patch_"@ + dir + "_GOG_Build_2055a_(37083)_to_GOG_Build_2172_(47150).exe"@
}

/// Whether `f` is the stand-in installer of directory `dir`.
pub open spec fn is_demo_installer(dir: Seq<char>, f: GameFile) -> bool {
    &&& f.name@ == demo_installer_name(dir)
    &&& f.remote_path@ == dir + "/"@ + demo_installer_name(dir)
    &&& f.size == 15_000_000
    &&& f.file_type == FileType::Installer
}

/// Whether `f` is the stand-in patch of directory `dir`.
pub open spec fn is_demo_patch(dir: Seq<char>, f: GameFile) -> bool {
    &&& f.name@ == demo_patch_name(dir)
    &&& f.remote_path@ == dir + "/"@ + demo_patch_name(dir)
    &&& f.size == 2_000_000
    &&& f.file_type == FileType::Patch
}

/// The descriptive fields of a stand-in record of directory `dir`.
pub open spec fn demo_meta(dir: Seq<char>) -> MetaView {
    MetaView {
        title: humanize(dir),
        developer: Some("Demo Developer"@),
        publisher: Some("Demo Publisher"@),
        release_date: Some("2023-01-01"@),
        description: Some("This is a demo game description."@),
        igdb_id: Some(12345),
    }
}

/// The connection to the game repository.
pub struct SmbConnection {
    /// Repository settings
    pub config: RepositoryConfig,
    /// Whether a local directory stands in for the share
    using_local_fallback: bool,
    /// That local directory
    local_path: Option<String>,
}

impl SmbConnection {
    /// The repository settings.
    pub closed spec fn spec_config(&self) -> RepositoryConfig {
        self.config
    }

    /// Whether a local directory stands in for the share.
    pub closed spec fn spec_local(&self) -> bool {
        self.using_local_fallback
    }

    /// The local directory, where one is set.
    pub closed spec fn spec_local_path(&self) -> Option<Seq<char>> {
        match self.local_path {
            Some(p) => Some(p@),
            None => None,
        }
    }

    /// A connection that has not yet chosen a local directory.
    pub fn new(config: RepositoryConfig) -> (r: SmbConnection)
        ensures
            r.spec_config() == config,
            !r.spec_local(),
            r.spec_local_path() is None,
    {
        SmbConnection { config, using_local_fallback: false, local_path: None }
    }

    /// Uses a local directory as the repository.
    pub fn use_local_directory(&mut self, path: String)
        ensures
            final(self).spec_local(),
            final(self).spec_local_path() == Some(path@),
            final(self).spec_config() == old(self).spec_config(),
    {
        self.using_local_fallback = true;
        self.local_path = Some(path);
    }

    /// The local directory, where the repository is one.
    pub fn local_directory(&self) -> (r: Option<&String>)
        ensures
            self.spec_local() && self.spec_local_path() is Some <==> r is Some,
            r matches Some(p) ==> Some(p@) == self.spec_local_path(),
    {
        if self.using_local_fallback {
            match &self.local_path {
                Some(p) => Some(p),
                None => None,
            }
        } else {
            None
        }
    }

    /// Whether the repository can be listed: a local directory is in use or
    /// a server is set.
    pub fn is_connected(&self) -> (r: bool)
        ensures
            r == (self.spec_local() || self.spec_config().server@.len() > 0),
    {
        self.using_local_fallback || !self.config.server.as_str().is_empty()
    }

    /// The path of `path` below the configured base directory.
    pub fn get_full_path(&self, path: &str) -> (r: String)
        ensures
            self.spec_config().base_dir@.len() == 0 ==> r@ == path@,
            self.spec_config().base_dir@.len() > 0 ==> r@ == self.spec_config().base_dir@ + "/"@
                + path@,
    {
        if self.config.base_dir.as_str().is_empty() {
            path.to_owned()
        } else {
            join3(self.config.base_dir.as_str(), "/", path)
        }
    }

    /// The directories that stand in for a share that cannot be listed.
    pub fn get_demo_directories(&self) -> (r: Vec<String>)
        ensures
            r@.len() == 4,
            r@[0]@ == "amid_evil"@,
            r@[1]@ == "doom_eternal"@,
            r@[2]@ == "hades"@,
            r@[3]@ == "hollow_knight"@,
    {
        let mut r: Vec<String> = Vec::new();
        r.push("amid_evil".to_owned());
        r.push("doom_eternal".to_owned());
        r.push("hades".to_owned());
        r.push("hollow_knight".to_owned());
        r
    }

    /// Adds the stand-in installer and patch of a game, and stand-in values
    /// for the descriptive fields that are not set.
    pub fn add_demo_files(&self, game_info: &mut GameInfo)
        ensures
            final(game_info).files@.len() == old(game_info).files@.len() + 2,
            final(game_info).files@.take(old(game_info).files@.len() as int)
                == old(game_info).files@,
            is_demo_installer(
                old(game_info).id@,
                final(game_info).files@[old(game_info).files@.len() as int],
            ),
            is_demo_patch(
                old(game_info).id@,
                final(game_info).files@[old(game_info).files@.len() + 1int],
            ),
            final(game_info).id == old(game_info).id,
            final(game_info).title == old(game_info).title,
            final(game_info).versions == old(game_info).versions,
            final(game_info).cover_image == old(game_info).cover_image,
            old(game_info).developer is Some ==> final(game_info).developer == old(
                game_info,
            ).developer,
            old(game_info).developer is None ==> opt_view(final(game_info).developer) == Some("Demo Developer"@),
            old(game_info).publisher is Some ==> final(game_info).publisher == old(
                game_info,
            ).publisher,
            old(game_info).publisher is None ==> opt_view(final(game_info).publisher) == Some("Demo Publisher"@),
            old(game_info).release_date is Some ==> final(game_info).release_date == old(
                game_info,
            ).release_date,
            old(game_info).release_date is None ==> opt_view(final(game_info).release_date) == Some("2023-01-01"@),
            old(game_info).description is Some ==> final(game_info).description == old(
                game_info,
            ).description,
            old(game_info).description is None ==> opt_view(final(game_info).description) == Some("This is a demo game description."@),
            old(game_info).igdb_id is Some ==> final(game_info).igdb_id == old(game_info).igdb_id,
            old(game_info).igdb_id is None ==> final(game_info).igdb_id == Some(12345u32),
    {
        let dir = game_info.id.as_str();
        let installer = join3("setup_", dir, "_gog_build_2241b_(64bit)_(51706).exe");
        let patch = join3("patch_", dir, "_GOG_Build_2055a_(37083)_to_GOG_Build_2172_(47150).exe");
        let installer_path = join3(dir, "/", installer.as_str());
        let patch_path = join3(dir, "/", patch.as_str());
        proof {
            assert(installer@ =~= demo_installer_name(game_info.id@));
            assert(patch@ =~= demo_patch_name(game_info.id@));
        }
        let ghost before = game_info.files@;
        game_info.files.push(
            GameFile {
                name: installer,
                remote_path: installer_path,
                size: 15_000_000,
                file_type: FileType::Installer,
            },
        );
        game_info.files.push(
            GameFile {
                name: patch,
                remote_path: patch_path,
                size: 2_000_000,
                file_type: FileType::Patch,
            },
        );
        assert(game_info.files@.take(before.len() as int) =~= before);
        if game_info.developer.is_none() {
            game_info.developer = Some("Demo Developer".to_owned());
        }
        if game_info.publisher.is_none() {
            game_info.publisher = Some("Demo Publisher".to_owned());
        }
        if game_info.release_date.is_none() {
            game_info.release_date = Some("2023-01-01".to_owned());
        }
        if game_info.description.is_none() {
            game_info.description = Some("This is a demo game description.".to_owned());
        }
        if game_info.igdb_id.is_none() {
            game_info.igdb_id = Some(12345);
        }
    }

    /// Whether game records are built from the files of a local directory
    /// (rather than from stand-in data).
    pub fn scans_local_files(&self) -> (r: bool)
        ensures
            r == (self.spec_local() && self.spec_local_path() is Some),
    {
        self.using_local_fallback && self.local_path.is_some()
    }

    /// The record of game directory `dir_name`. Where local files are
    /// scanned, `info_text` is the content of its info file (if one was
    /// found) and `entries` the files found in it; otherwise both are
    /// ignored and stand-in files are used.
    pub fn get_game_info(
        &self,
        dir_name: &str,
        info_text: Option<&str>,
        entries: &Vec<ScannedFile>,
    ) -> (r: GameInfo)
        ensures
            r.id@ == dir_name@,
            r.cover_image is None,
            versions_view(r.versions@) == versions_with_fallback(r.files@),
            self.spec_local() && self.spec_local_path() is Some ==> {
                &&& r.meta() == match info_text {
                    Some(t) => parse_meta(base_meta(dir_name@), t@),
                    None => base_meta(dir_name@),
                }
                &&& r.files@.len() == entries@.len()
                &&& forall|k: int|
                    0 <= k < entries@.len() ==> #[trigger] scanned_record(
                        dir_name@,
                        entries@[k],
                        r.files@[k],
                    )
            },
            !(self.spec_local() && self.spec_local_path() is Some) ==> {
                &&& r.files@.len() == 2
                &&& is_demo_installer(dir_name@, r.files@[0])
                &&& is_demo_patch(dir_name@, r.files@[1])
                &&& r.meta() == demo_meta(dir_name@)
            },
    {
        let mut info = GameInfo {
            id: dir_name.to_owned(),
            title: humanize_name(dir_name),
            developer: None,
            publisher: None,
            release_date: None,
            description: None,
            igdb_id: None,
            files: Vec::new(),
            versions: Vec::new(),
            cover_image: None,
        };
        if self.scans_local_files() {
            match info_text {
                Some(t) => info.parse_metadata(t),
                None => {},
            }
            let mut files: Vec<GameFile> = Vec::new();
            let mut k: usize = 0;
            while k < entries.len()
                invariant
                    k <= entries@.len(),
                    files@.len() == k,
                    forall|j: int|
                        0 <= j < k ==> #[trigger] scanned_record(
                            dir_name@,
                            entries@[j],
                            files@[j],
                        ),
                decreases entries.len() - k,
            {
                let e = &entries[k];
                let rel = replace_chars(&chars_of(e.relative_path.as_str()), '\\', '/');
                let remote = join3(dir_name, "/", string_of(&rel).as_str());
                files.push(
                    GameFile {
                        name: e.name.clone(),
                        remote_path: remote,
                        size: e.size,
                        file_type: classify_file(e.name.as_str()),
                    },
                );
                k = k + 1;
            }
            info.files = files;
        } else {
            self.add_demo_files(&mut info);
        }
        info.parse_versions();
        self.ensure_default_version(&mut info);
        info
    }

    /// Adds one default version holding every file where the record has
    /// files but no version.
    pub fn ensure_default_version(&self, info: &mut GameInfo)
        requires
            versions_view(old(info).versions@) == resolved_versions(old(info).files@),
        ensures
            versions_view(final(info).versions@) == versions_with_fallback(old(info).files@),
            final(info).files == old(info).files,
            final(info).meta() == old(info).meta(),
            final(info).id == old(info).id,
            final(info).title == old(info).title,
            final(info).cover_image == old(info).cover_image,
    {
        if info.versions.len() == 0 && info.files.len() > 0 {
            let files = crate::game_info::duplicate_files(&info.files);
            info.versions.push(
                GameVersion {
                    name: "Default Version".to_owned(),
                    build: 1,
                    files,
                    required_patches: Vec::new(),
                },
            );
            assert(versions_view(info.versions@) =~= versions_with_fallback(info.files@));
        }
    }
}

} // verus!
