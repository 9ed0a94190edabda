//! Choosing versions of a game and the files their installation needs.
use vstd::prelude::*;
use crate::game_info::{FileType, GameFile, GameInfo, GameVersion};

verus! {

/// The installers of a version followed by all of its patches.
pub open spec fn required_files(v: GameVersion) -> Seq<GameFile> {
    v.files@.filter(|f: GameFile| f.file_type == FileType::Installer) + v.required_patches@
}

/// Chooses versions and the files to install them.
#[derive(Clone)]
pub struct VersionManager {}

impl VersionManager {
    /// A version manager.
    pub fn new() -> (r: VersionManager) {
        VersionManager {}
    }

    /// The newest version of a game, if it has any.
    pub fn get_latest_version<'a>(&self, game: &'a GameInfo) -> (r: Option<&'a GameVersion>)
        ensures
            r is None <==> game.versions@.len() == 0,
            r matches Some(v) ==> *v == game.versions@[0],
    {
        game.latest_version()
    }

    /// The first version of a game with the given build number, if any.
    pub fn get_version_by_build<'a>(&self, game: &'a GameInfo, build: u32) -> (r: Option<
        &'a GameVersion,
    >)
        ensures
            r is None <==> forall|i: int|
                0 <= i < game.versions@.len() ==> #[trigger] game.versions@[i].build != build,
            r matches Some(v) ==> exists|i: int|
                0 <= i < game.versions@.len() && *v == #[trigger] game.versions@[i] && v.build
                    == build && forall|j: int|
                    0 <= j < i ==> #[trigger] game.versions@[j].build != build,
    {
        game.get_version_by_build(build)
    }

    /// The files to fetch to install a version: its installer files, then
    /// all of its patches.
    pub fn get_required_files<'a>(&self, version: &'a GameVersion) -> (r: Vec<&'a GameFile>)
        ensures
            r@.map_values(|f: &GameFile| *f) == required_files(*version),
    {
        let mut files: Vec<&'a GameFile> = Vec::new();
        let ghost installers = version.files@.filter(|f: GameFile| f.file_type == FileType::Installer);
        let mut i: usize = 0;
        assert(version.files@.take(0).filter(|f: GameFile| f.file_type == FileType::Installer)
            =~= Seq::<GameFile>::empty());
        while i < version.files.len()
            invariant
                i <= version.files@.len(),
                files@.map_values(|f: &GameFile| *f) == version.files@.take(i as int).filter(
                    |f: GameFile| f.file_type == FileType::Installer,
                ),
            decreases version.files.len() - i,
        {
            let ghost before = files@;
            proof {
                reveal(Seq::filter);
                assert(version.files@.take(i + 1).drop_last() =~= version.files@.take(i as int));
            }
            if version.files[i].file_type == FileType::Installer {
                files.push(&version.files[i]);
                assert(files@.map_values(|f: &GameFile| *f) =~= before.map_values(
                    |f: &GameFile| *f,
                ).push(version.files@[i as int]));
            }
            i = i + 1;
        }
        assert(version.files@.take(version.files@.len() as int) =~= version.files@);
        let ghost mid = files@;
        let mut j: usize = 0;
        while j < version.required_patches.len()
            invariant
                j <= version.required_patches@.len(),
                files@.map_values(|f: &GameFile| *f) == mid.map_values(|f: &GameFile| *f)
                    + version.required_patches@.take(j as int),
            decreases version.required_patches.len() - j,
        {
            let ghost before = files@;
            files.push(&version.required_patches[j]);
            assert(files@.map_values(|f: &GameFile| *f) =~= before.map_values(|f: &GameFile| *f).push(
                version.required_patches@[j as int],
            ));
            assert(version.required_patches@.take(j + 1) =~= version.required_patches@.take(
                j as int,
            ).push(version.required_patches@[j as int]));
            j = j + 1;
        }
        assert(version.required_patches@.take(version.required_patches@.len() as int)
            =~= version.required_patches@);
        files
    }

    /// Whether installing a version involves patches.
    pub fn needs_patches(&self, version: &GameVersion) -> (r: bool)
        ensures
            r == (version.required_patches@.len() > 0),
    {
        version.required_patches.len() > 0
    }

    /// The patches of a version, in the order they are listed.
    pub fn get_ordered_patches<'a>(&self, version: &'a GameVersion) -> (r: Vec<&'a GameFile>)
        ensures
            r@.map_values(|f: &GameFile| *f) == version.required_patches@,
    {
        let mut out: Vec<&'a GameFile> = Vec::new();
        let mut j: usize = 0;
        while j < version.required_patches.len()
            invariant
                j <= version.required_patches@.len(),
                out@.map_values(|f: &GameFile| *f) == version.required_patches@.take(j as int),
            decreases version.required_patches.len() - j,
        {
            let ghost before = out@;
            out.push(&version.required_patches[j]);
            assert(out@.map_values(|f: &GameFile| *f) =~= before.map_values(|f: &GameFile| *f).push(
                version.required_patches@[j as int],
            ));
            assert(version.required_patches@.take(j + 1) =~= version.required_patches@.take(
                j as int,
            ).push(version.required_patches@[j as int]));
            j = j + 1;
        }
        assert(version.required_patches@.take(version.required_patches@.len() as int)
            =~= version.required_patches@);
        out
    }
}

} // verus!
