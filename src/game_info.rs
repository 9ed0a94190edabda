//! The game record with its files and versions.
use vstd::prelude::*;
use crate::info_text::{
    apply_value, flush_pending, is_key, meta_lines, opt_view, parse_meta, MetaState, MetaView,
};
use crate::resolver::{resolve_versions, resolved_versions};
use crate::text::{
    chars_of, find_char, parse_u32, seqs_view, slice_chars, split_chars, split_on, string_of,
    to_lower, trim,
};

verus! {

/// Kind of a file in a game directory.
#[derive(Debug, Clone, Copy, PartialEq, Eq, Structural)]
pub enum FileType {
    /// Game installer
    Installer,
    /// Game patch
    Patch,
    /// Any other file
    Other,
}

/// A file of a game directory.
#[derive(Debug, Clone)]
pub struct GameFile {
    /// File name
    pub name: String,
    /// Path relative to the repository root
    pub remote_path: String,
    /// Size in bytes
    pub size: u64,
    /// Kind of file
    pub file_type: FileType,
}

impl GameFile {
    /// A field-by-field copy of this record.
    pub fn duplicate(&self) -> (r: GameFile)
        ensures
            r == *self,
    {
        GameFile {
            name: self.name.clone(),
            remote_path: self.remote_path.clone(),
            size: self.size,
            file_type: self.file_type,
        }
    }
}

/// One installable version of a game.
#[derive(Debug, Clone)]
pub struct GameVersion {
    /// Display name, also the grouping key
    pub name: String,
    /// Ordering key: larger is newer
    pub build: u32,
    /// Installer files of this version
    pub files: Vec<GameFile>,
    /// Patches that may apply to this version
    pub required_patches: Vec<GameFile>,
}

/// The mathematical content of a `GameVersion`.
pub struct VersionView {
    pub name: Seq<char>,
    pub build: u32,
    pub files: Seq<GameFile>,
    pub required_patches: Seq<GameFile>,
}

impl View for GameVersion {
    type V = VersionView;

    open spec fn view(&self) -> VersionView {
        VersionView {
            name: self.name@,
            build: self.build,
            files: self.files@,
            required_patches: self.required_patches@,
        }
    }
}

/// The views of a list of versions.
pub open spec fn versions_view(vs: Seq<GameVersion>) -> Seq<VersionView> {
    vs.map_values(|v: GameVersion| v@)
}

/// A copy of a list of files.
pub fn duplicate_files(files: &Vec<GameFile>) -> (r: Vec<GameFile>)
    ensures
        r@ == files@,
{
    let mut r: Vec<GameFile> = Vec::new();
    let mut i: usize = 0;
    while i < files.len()
        invariant
            i <= files@.len(),
            r@ =~= files@.take(i as int),
        decreases files.len() - i,
    {
        r.push(files[i].duplicate());
        i = i + 1;
    }
    assert(files@.take(files@.len() as int) =~= files@);
    r
}

/// Everything known about a game.
#[derive(Debug, Clone)]
pub struct GameInfo {
    /// Identity: the directory name
    pub id: String,
    /// Title
    pub title: String,
    /// Developer
    pub developer: Option<String>,
    /// Publisher
    pub publisher: Option<String>,
    /// Release date
    pub release_date: Option<String>,
    /// Description
    pub description: Option<String>,
    /// Identifier in the external game database
    pub igdb_id: Option<u32>,
    /// Files of the game directory
    pub files: Vec<GameFile>,
    /// Versions, largest build first
    pub versions: Vec<GameVersion>,
    /// Path of the cover image
    pub cover_image: Option<String>,
}

impl GameInfo {
    /// The descriptive fields.
    pub open spec fn meta(&self) -> MetaView {
        MetaView {
            title: self.title@,
            developer: opt_view(self.developer),
            publisher: opt_view(self.publisher),
            release_date: opt_view(self.release_date),
            description: opt_view(self.description),
            igdb_id: self.igdb_id,
        }
    }

    /// Whether two records agree on everything but the descriptive fields.
    pub open spec fn same_content(&self, other: &GameInfo) -> bool {
        &&& self.id == other.id
        &&& self.files == other.files
        &&& self.versions == other.versions
        &&& self.cover_image == other.cover_image
    }

    /// Sets the field that `key` names to `value`; unknown keys are ignored.
    pub fn set_metadata_value(&mut self, key: &String, value: &String)
        ensures
            final(self).meta() == apply_value(old(self).meta(), key@, value@),
            final(self).same_content(old(self)),
    {
        if is_key(key, "title") || is_key(key, "name") || is_key(key, "game") || is_key(
            key,
            "game name",
        ) {
            self.title = value.clone();
        } else if is_key(key, "developer") || is_key(key, "dev") {
            self.developer = Some(value.clone());
        } else if is_key(key, "publisher") || is_key(key, "pub") {
            self.publisher = Some(value.clone());
        } else if is_key(key, "release") || is_key(key, "release date") || is_key(key, "date") {
            self.release_date = Some(value.clone());
        } else if is_key(key, "description") || is_key(key, "desc") || is_key(key, "about") {
            self.description = Some(value.clone());
        } else if is_key(key, "igdb") || is_key(key, "igdb_id") || is_key(key, "igdb id") {
            self.igdb_id = parse_u32(&chars_of(value.as_str()));
        }
    }

    /// Reads the descriptive fields from the text of an info file.
    pub fn parse_metadata(&mut self, content: &str)
        ensures
            final(self).meta() == parse_meta(old(self).meta(), content@),
            final(self).same_content(old(self)),
    {
        let cs = chars_of(content);
        let lines = split_chars(&cs, '\n');
        let ghost ls = seqs_view(lines@);
        let ghost init = MetaState { meta: self.meta(), key: None, buf: Seq::empty() };
        let ghost orig = *self;
        let mut key: Option<String> = None;
        let mut buf: Vec<char> = Vec::new();
        let mut i: usize = 0;
        assert(ls.take(0) =~= Seq::<Seq<char>>::empty());
        while i < lines.len()
            invariant
                i <= lines@.len(),
                ls == seqs_view(lines@),
                ls == split_on(content@, '\n'),
                self.same_content(&orig),
                meta_lines(init, ls.take(i as int)) == (MetaState {
                    meta: self.meta(),
                    key: opt_view(key),
                    buf: buf@,
                }),
            decreases lines.len() - i,
        {
            assert(ls.take(i + 1).drop_last() =~= ls.take(i as int));
            assert(ls.take(i + 1).last() == lines@[i as int]@);
            let ghost st = MetaState { meta: self.meta(), key: opt_view(key), buf: buf@ };
            let raw = string_of(&lines[i]);
            let line_s = trim(raw.as_str());
            let line = chars_of(line_s.as_str());
            if line.len() == 0 || line[0] == '#' {
            } else {
                let colon = find_char(&line, ':');
                if colon < line.len() {
                    let pending = key;
                    key = None;
                    match pending {
                        Some(k) => {
                            if buf.len() > 0 {
                                self.set_metadata_value(&k, &string_of(&buf));
                                buf.clear();
                            }
                        },
                        None => {},
                    }
                    assert(self.meta() == flush_pending(st));
                    let key_raw = string_of(&slice_chars(&line, 0, colon));
                    let key_t = trim(key_raw.as_str());
                    let k = to_lower(key_t.as_str());
                    let value_raw = string_of(&slice_chars(&line, colon + 1, line.len()));
                    let value = trim(value_raw.as_str());
                    assert(line@.subrange(0, colon as int) =~= line@.take(colon as int));
                    assert(line@.subrange(colon + 1, line@.len() as int) =~= line@.skip(
                        colon + 1,
                    ));
                    if value.as_str().is_empty() {
                        key = Some(k);
                    } else {
                        self.set_metadata_value(&k, &value);
                    }
                } else {
                    match &key {
                        Some(_) => {
                            if buf.len() > 0 {
                                buf.push('\n');
                            }
                            let mut tail = line.clone();
                            assert(tail@ == line@);
                            buf.append(&mut tail);
                        },
                        None => {},
                    }
                }
            }
            i = i + 1;
        }
        assert(ls.take(lines@.len() as int) =~= ls);
        match key {
            Some(k) => {
                if buf.len() > 0 {
                    self.set_metadata_value(&k, &string_of(&buf));
                }
            },
            None => {},
        }
    }

    /// Resolves `files` into `versions`.
    pub fn parse_versions(&mut self)
        ensures
            versions_view(final(self).versions@) == resolved_versions(old(self).files@),
            final(self).files == old(self).files,
            final(self).meta() == old(self).meta(),
            final(self).id == old(self).id,
            final(self).cover_image == old(self).cover_image,
    {
        self.versions = resolve_versions(&self.files);
    }

    /// The newest version, if there is any.
    pub fn latest_version(&self) -> (r: Option<&GameVersion>)
        ensures
            r is None <==> self.versions@.len() == 0,
            r matches Some(v) ==> *v == self.versions@[0],
    {
        if self.versions.len() > 0 {
            Some(&self.versions[0])
        } else {
            None
        }
    }

    /// The first version with the given build number, if there is any.
    pub fn get_version_by_build(&self, build: u32) -> (r: Option<&GameVersion>)
        ensures
            r is None <==> forall|i: int|
                0 <= i < self.versions@.len() ==> #[trigger] self.versions@[i].build != build,
            r matches Some(v) ==> exists|i: int|
                0 <= i < self.versions@.len() && *v == #[trigger] self.versions@[i] && v.build
                    == build && forall|j: int|
                    0 <= j < i ==> #[trigger] self.versions@[j].build != build,
    {
        let mut i: usize = 0;
        while i < self.versions.len()
            invariant
                i <= self.versions@.len(),
                forall|j: int| 0 <= j < i ==> #[trigger] self.versions@[j].build != build,
            decreases self.versions.len() - i,
        {
            if self.versions[i].build == build {
                return Some(&self.versions[i]);
            }
            i = i + 1;
        }
        None
    }
}

} // verus!
