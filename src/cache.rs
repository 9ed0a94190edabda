//! The metadata store: one enrichment record per game, held in memory and
//! mirrored to one file per game by its caller.
use vstd::prelude::*;
use crate::igdb::IgdbGame;
use crate::text::join3;

verus! {

/// Seconds in a day.
pub const SECONDS_PER_DAY: u64 = 86400;

/// The enrichment record of one game.
#[derive(Debug, Clone)]
pub struct CachedMetadata {
    /// The game's identity (its directory name)
    pub game_id: String,
    /// Identifier in the external game database
    pub igdb_id: Option<u32>,
    /// What the external game database returned
    pub igdb_data: Option<IgdbGame>,
    /// Cover image path, relative to the cache directory
    pub cover_path: Option<String>,
    /// Time of the last change, in seconds since the Unix epoch
    pub last_updated: u64,
}

impl CachedMetadata {
    /// Whether two records agree in every field.
    pub open spec fn same_as(&self, o: &CachedMetadata) -> bool {
        &&& self.game_id == o.game_id
        &&& self.igdb_id == o.igdb_id
        &&& match (self.igdb_data, o.igdb_data) {
            (Some(a), Some(b)) => a.same_as(&b),
            (None, None) => true,
            _ => false,
        }
        &&& self.cover_path == o.cover_path
        &&& self.last_updated == o.last_updated
    }

    /// A field-by-field copy.
    pub fn duplicate(&self) -> (r: Self)
        ensures
            r.same_as(self),
    {
        CachedMetadata {
            game_id: self.game_id.clone(),
            igdb_id: self.igdb_id,
            igdb_data: match &self.igdb_data {
                Some(g) => Some(g.duplicate()),
                None => None,
            },
            cover_path: crate::igdb::copy_opt_string(&self.cover_path),
            last_updated: self.last_updated,
        }
    }
}

/// Whether `m` is the empty record of game `id` made at `now`.
pub open spec fn is_fresh(m: CachedMetadata, id: Seq<char>, now: u64) -> bool {
    &&& m.game_id@ == id
    &&& m.igdb_id is None
    &&& m.igdb_data is None
    &&& m.cover_path is None
    &&& m.last_updated == now
}

/// Whether a record, if any, is out of date: there is none, or more than
/// `days` whole days' worth of seconds passed since its last change.
pub open spec fn stale(entry: Option<CachedMetadata>, days: u64, now: u64) -> bool {
    match entry {
        None => true,
        Some(m) => now - m.last_updated > days * SECONDS_PER_DAY,
    }
}

/// The later of two times.
pub open spec fn later(a: u64, b: u64) -> u64 {
    if a >= b {
        a
    } else {
        b
    }
}

/// The index of the first record at or after `i` of game `id`, or the length.
pub open spec fn find_record(s: Seq<CachedMetadata>, id: Seq<char>, i: int) -> int
    decreases s.len() - i,
{
    if i < 0 || i >= s.len() {
        s.len() as int
    } else if s[i].game_id@ == id {
        i
    } else {
        find_record(s, id, i + 1)
    }
}

proof fn lemma_find_record(s: Seq<CachedMetadata>, id: Seq<char>, i: int)
    requires
        0 <= i <= s.len(),
    ensures
        i <= find_record(s, id, i) <= s.len(),
        forall|k: int| i <= k < find_record(s, id, i) ==> s[k].game_id@ != id,
        find_record(s, id, i) < s.len() ==> s[find_record(s, id, i)].game_id@ == id,
    decreases s.len() - i,
{
    if i < s.len() && s[i].game_id@ != id {
        lemma_find_record(s, id, i + 1);
    }
}

/// Replacing a record that is not of game `id` by another that is not
/// either leaves the search for `id` where it was.
proof fn lemma_find_record_update(
    s: Seq<CachedMetadata>,
    k: int,
    m: CachedMetadata,
    id: Seq<char>,
    i: int,
)
    requires
        0 <= k < s.len(),
        0 <= i <= s.len(),
        s[k].game_id@ != id,
        m.game_id@ != id,
    ensures
        find_record(s.update(k, m), id, i) == find_record(s, id, i),
    decreases s.len() - i,
{
    if i < s.len() {
        lemma_find_record_update(s, k, m, id, i + 1);
    }
}

/// Appending a record leaves the search where it was, unless nothing was
/// found before and the new record is of game `id`.
proof fn lemma_find_record_push(s: Seq<CachedMetadata>, m: CachedMetadata, id: Seq<char>, i: int)
    requires
        0 <= i <= s.len(),
    ensures
        find_record(s, id, i) < s.len() ==> find_record(s.push(m), id, i) == find_record(s, id, i),
        find_record(s, id, i) == s.len() ==> find_record(s.push(m), id, i) == (if m.game_id@ == id {
            s.len() as int
        } else {
            s.len() + 1int
        }),
    decreases s.len() - i,
{
    if i < s.len() {
        assert(s.push(m)[i] == s[i]);
        lemma_find_record_push(s, m, id, i + 1);
    } else {
        assert(s.push(m)[i] == m);
        assert(find_record(s.push(m), id, i + 1) == s.len() + 1);
    }
}

/// Relies on `std::time::SystemTime::now`: the current time in whole
/// seconds since the Unix epoch (zero for a clock set before it).
#[verifier::external_body]
fn now_epoch_seconds() -> u64 {
    match std::time::SystemTime::now().duration_since(std::time::UNIX_EPOCH) {
        Ok(d) => d.as_secs(),
        Err(_) => 0,
    }
}

/// The metadata store of one cache directory.
pub struct MetadataCache {
    /// Base directory of the cache
    cache_dir: String,
    /// Records held in memory
    metadata: Vec<CachedMetadata>,
}

/// Whether `new` is `old` with `m` stored as the record of its game.
pub open spec fn stored(old: MetadataCache, m: CachedMetadata, new: MetadataCache) -> bool {
    &&& new.spec_get(m.game_id@) == Some(m)
    &&& forall|id: Seq<char>| id != m.game_id@ ==> #[trigger] new.spec_get(id) == old.spec_get(id)
    &&& new.spec_dir() == old.spec_dir()
}

/// Whether `r` is what loading game `id` gives, given what memory held
/// (`held`), what the caller read from its file (`on_disk`) and the time.
pub open spec fn load_result(
    held: Option<CachedMetadata>,
    on_disk: Option<CachedMetadata>,
    id: Seq<char>,
    now: u64,
    r: CachedMetadata,
) -> bool {
    match held {
        Some(m) => r.same_as(&m),
        None => match on_disk {
            Some(d) => r.same_as(&d),
            None => is_fresh(r, id, now),
        },
    }
}

/// Whether `new` is the record `old` with the cover path `rel`, dated
/// `now` unless already later.
pub open spec fn cover_recorded(
    old: Option<CachedMetadata>,
    new: Option<CachedMetadata>,
    rel: Seq<char>,
    now: u64,
) -> bool {
    match (old, new) {
        (Some(o), Some(m)) => {
            &&& m.game_id == o.game_id
            &&& m.igdb_id == o.igdb_id
            &&& m.cover_path matches Some(p) && p@ == rel
            &&& m.last_updated == later(o.last_updated, now)
            &&& match (m.igdb_data, o.igdb_data) {
                (Some(a), Some(b)) => a.same_as(&b),
                (None, None) => true,
                _ => false,
            }
        },
        _ => false,
    }
}

/// Whether no two records are of the same game.
pub open spec fn one_per_game(s: Seq<CachedMetadata>) -> bool {
    forall|i: int, j: int| 0 <= i < j < s.len() ==> #[trigger] s[i].game_id@ != #[trigger] s[j].game_id@
}

impl MetadataCache {
    /// The store holds at most one record per game.
    #[verifier::type_invariant]
    closed spec fn holds_one_per_game(&self) -> bool {
        one_per_game(self.metadata@)
    }

    /// The record of game `id` held in memory.
    pub closed spec fn spec_get(&self, id: Seq<char>) -> Option<CachedMetadata> {
        let k = find_record(self.metadata@, id, 0);
        if 0 <= k < self.metadata@.len() {
            Some(self.metadata@[k])
        } else {
            None
        }
    }

    /// The base directory.
    pub closed spec fn spec_dir(&self) -> Seq<char> {
        self.cache_dir@
    }

    /// A record held for game `id` is a record of that game.
    pub proof fn lemma_get_is_keyed(&self, id: Seq<char>)
        ensures
            self.spec_get(id) matches Some(m) ==> m.game_id@ == id,
    {
        lemma_find_record(self.metadata@, id, 0);
    }

    /// An empty store for the given base directory.
    pub fn new(cache_dir: String) -> (r: MetadataCache)
        ensures
            r.spec_dir() == cache_dir@,
            forall|id: Seq<char>| #[trigger] r.spec_get(id) is None,
    {
        MetadataCache { cache_dir, metadata: Vec::new() }
    }

    /// The directory of the record files.
    pub fn metadata_dir(&self) -> (r: String)
        ensures
            r@ == self.spec_dir() + "/metadata"@,
    {
        proof {
            reveal_strlit("");
        }
        join3(self.cache_dir.as_str(), "/metadata", "")
    }

    /// The directory of the cover images.
    pub fn images_dir(&self) -> (r: String)
        ensures
            r@ == self.spec_dir() + "/images"@,
    {
        proof {
            reveal_strlit("");
        }
        join3(self.cache_dir.as_str(), "/images", "")
    }

    /// The file of the record of `game_id`.
    pub fn get_metadata_path(&self, game_id: &str) -> (r: String)
        ensures
            r@ == self.spec_dir() + "/metadata"@ + "/"@ + game_id@ + ".json"@,
    {
        let dir = self.metadata_dir();
        let head = join3(dir.as_str(), "/", game_id);
        let r = join3(head.as_str(), ".json", "");
        proof {
            reveal_strlit("");
        }
        assert(r@ =~= self.spec_dir() + "/metadata"@ + "/"@ + game_id@ + ".json"@);
        r
    }

    /// The file of the cover image of `game_id`.
    pub fn get_cover_path(&self, game_id: &str) -> (r: String)
        ensures
            r@ == self.spec_dir() + "/images"@ + "/"@ + game_id@ + "_cover.jpg"@,
    {
        let dir = self.images_dir();
        let head = join3(dir.as_str(), "/", game_id);
        let r = join3(head.as_str(), "_cover.jpg", "");
        proof {
            reveal_strlit("");
        }
        assert(r@ =~= self.spec_dir() + "/images"@ + "/"@ + game_id@ + "_cover.jpg"@);
        r
    }

    /// The index of the record of `game_id`, or the number of records.
    fn position(&self, game_id: &str) -> (r: usize)
        ensures
            r as int == find_record(self.metadata@, game_id@, 0),
    {
        let wanted = game_id.to_owned();
        let mut i: usize = 0;
        while i < self.metadata.len()
            invariant
                wanted@ == game_id@,
                i <= self.metadata@.len(),
                find_record(self.metadata@, game_id@, 0) == find_record(
                    self.metadata@,
                    game_id@,
                    i as int,
                ),
            decreases self.metadata.len() - i,
        {
            if self.metadata[i].game_id == wanted {
                return i;
            }
            i = i + 1;
        }
        i
    }

    /// The record of `game_id` held in memory.
    pub fn get_metadata(&self, game_id: &str) -> (r: Option<&CachedMetadata>)
        ensures
            r matches Some(m) ==> self.spec_get(game_id@) == Some(*m),
            r is None ==> self.spec_get(game_id@) is None,
    {
        let k = self.position(game_id);
        if k < self.metadata.len() {
            Some(&self.metadata[k])
        } else {
            None
        }
    }

    /// Whether a record of `game_id` is held in memory.
    pub fn has_metadata(&self, game_id: &str) -> (r: bool)
        ensures
            r == self.spec_get(game_id@) is Some,
    {
        self.position(game_id) < self.metadata.len()
    }

    /// An empty record of `game_id`, dated `now`.
    pub fn create_metadata_at(&self, game_id: &str, now: u64) -> (r: CachedMetadata)
        ensures
            is_fresh(r, game_id@, now),
    {
        CachedMetadata {
            game_id: game_id.to_owned(),
            igdb_id: None,
            igdb_data: None,
            cover_path: None,
            last_updated: now,
        }
    }

    /// An empty record of `game_id`, dated by the system clock.
    pub fn create_metadata(&self, game_id: &str) -> (r: CachedMetadata)
        ensures
            exists|now: u64| is_fresh(r, game_id@, now),
    {
        self.create_metadata_at(game_id, now_epoch_seconds())
    }

    /// Stores `metadata` in memory as the record of its game, replacing any
    /// earlier one. The caller writes it to its file.
    pub fn save_metadata(&mut self, metadata: CachedMetadata)
        ensures
            stored(*old(self), metadata, *final(self)),
    {
        let ghost id = metadata.game_id@;
        let ghost before = self.metadata@;
        proof {
            use_type_invariant(&*self);
        }
        let k = self.position(metadata.game_id.as_str());
        proof {
            lemma_find_record(before, id, 0);
        }
        if k < self.metadata.len() {
            assert(one_per_game(before.update(k as int, metadata))) by {
                let u = before.update(k as int, metadata);
                assert forall|i: int, j: int| 0 <= i < j < u.len() implies #[trigger] u[i].game_id@
                    != #[trigger] u[j].game_id@ by {
                    if i != k && j != k {
                        assert(before[i].game_id@ != before[j].game_id@);
                    } else if i == k {
                        assert(before[k as int].game_id@ != before[j].game_id@);
                    } else {
                        assert(before[i].game_id@ != before[k as int].game_id@);
                    }
                }
            }
            let mut records: Vec<CachedMetadata> = Vec::new();
            std::mem::swap(&mut self.metadata, &mut records);
            records.remove(k);
            records.insert(k, metadata);
            assert(records@ =~= before.update(k as int, metadata));
            std::mem::swap(&mut self.metadata, &mut records);
            assert(self.metadata@ =~= before.update(k as int, metadata));
            assert forall|other: Seq<char>| other != id implies #[trigger] self.spec_get(other)
                == old(self).spec_get(other) by {
                lemma_find_record_update(before, k as int, metadata, other, 0);
                lemma_find_record(before, other, 0);
            }
            assert forall|j: int| 0 <= j < k implies self.metadata@[j].game_id@ != id by {
                assert(self.metadata@[j] == before[j]);
            }
            assert(self.metadata@[k as int] == metadata);
            assert(find_record(self.metadata@, id, 0) == k) by {
                lemma_find_record(self.metadata@, id, 0);
            }
        } else {
            assert(one_per_game(before.push(metadata))) by {
                let u = before.push(metadata);
                assert forall|i: int, j: int| 0 <= i < j < u.len() implies #[trigger] u[i].game_id@
                    != #[trigger] u[j].game_id@ by {
                    if j < before.len() {
                        assert(before[i].game_id@ != before[j].game_id@);
                    } else {
                        assert(u[i] == before[i]);
                    }
                }
            }
            let mut records: Vec<CachedMetadata> = Vec::new();
            std::mem::swap(&mut self.metadata, &mut records);
            records.push(metadata);
            std::mem::swap(&mut self.metadata, &mut records);
            assert(self.metadata@ =~= before.push(metadata));
            proof {
                lemma_find_record_push(before, metadata, id, 0);
            }
            assert forall|other: Seq<char>| other != id implies #[trigger] self.spec_get(other)
                == old(self).spec_get(other) by {
                lemma_find_record_push(before, metadata, other, 0);
                lemma_find_record(before, other, 0);
            }
        }
    }

    /// The record of `game_id`: the one in memory; else `on_disk`, what the
    /// caller read from the record's file (which is then held in memory);
    /// else a fresh record dated `now`, held in memory but not yet saved.
    pub fn load_metadata(
        &mut self,
        game_id: &str,
        on_disk: Option<CachedMetadata>,
        now: u64,
    ) -> (r: CachedMetadata)
        requires
            on_disk matches Some(d) ==> d.game_id@ == game_id@,
        ensures
            load_result(old(self).spec_get(game_id@), on_disk, game_id@, now, r),
            old(self).spec_get(game_id@) is Some ==> *final(self) == *old(self),
            old(self).spec_get(game_id@) is None ==> (final(self).spec_get(game_id@) matches Some(h)
                && h.same_as(&r)),
            final(self).spec_dir() == old(self).spec_dir(),
            forall|id: Seq<char>| id != game_id@ ==> #[trigger] final(self).spec_get(id) == old(
                self,
            ).spec_get(id),
    {
        let k = self.position(game_id);
        if k < self.metadata.len() {
            return self.metadata[k].duplicate();
        }
        let m = match on_disk {
            Some(d) => d,
            None => self.create_metadata_at(game_id, now),
        };
        let r = m.duplicate();
        self.save_metadata(m);
        r
    }

    /// Records what the external database returned for `game_id`: the
    /// record (held, or fresh at `now`) gets the identifier and data, and is
    /// dated `now` unless it is already later.
    pub fn update_with_igdb(&mut self, game_id: &str, game: IgdbGame, now: u64)
        ensures
            final(self).spec_dir() == old(self).spec_dir(),
            forall|id: Seq<char>| id != game_id@ ==> #[trigger] final(self).spec_get(id) == old(
                self,
            ).spec_get(id),
            final(self).spec_get(game_id@) is Some,
            final(self).spec_get(game_id@) matches Some(m) ==> {
                &&& m.game_id@ == game_id@
                &&& m.igdb_id == Some(game.id)
                &&& m.igdb_data == Some(game)
                &&& m.cover_path == match old(self).spec_get(game_id@) {
                    Some(o) => o.cover_path,
                    None => None,
                }
                &&& m.last_updated == match old(self).spec_get(game_id@) {
                    Some(o) => later(o.last_updated, now),
                    None => now,
                }
            },
    {
        proof {
            old(self).lemma_get_is_keyed(game_id@);
        }
        let k = self.position(game_id);
        let mut m = if k < self.metadata.len() {
            self.metadata[k].duplicate()
        } else {
            self.create_metadata_at(game_id, now)
        };
        m.igdb_id = Some(game.id);
        m.igdb_data = Some(game);
        if now > m.last_updated {
            m.last_updated = now;
        }
        self.save_metadata(m);
    }

    /// Records the path of a downloaded cover for a held record, dated `now`
    /// unless already later; reports whether a record was held.
    pub fn update_cover_path(&mut self, game_id: &str, relative_path: &str, now: u64) -> (r: bool)
        ensures
            r == old(self).spec_get(game_id@) is Some,
            !r ==> *final(self) == *old(self),
            final(self).spec_dir() == old(self).spec_dir(),
            forall|id: Seq<char>| id != game_id@ ==> #[trigger] final(self).spec_get(id) == old(
                self,
            ).spec_get(id),
            r ==> cover_recorded(
                old(self).spec_get(game_id@),
                final(self).spec_get(game_id@),
                relative_path@,
                now,
            ),
    {
        proof {
            old(self).lemma_get_is_keyed(game_id@);
        }
        let k = self.position(game_id);
        if k >= self.metadata.len() {
            return false;
        }
        let mut m = self.metadata[k].duplicate();
        m.cover_path = Some(relative_path.to_owned());
        if now > m.last_updated {
            m.last_updated = now;
        }
        self.save_metadata(m);
        true
    }

    /// Whether the record of `game_id` is out of date at time `now`.
    pub fn is_stale_at(&self, game_id: &str, days: u64, now: u64) -> (r: bool)
        ensures
            r == stale(self.spec_get(game_id@), days, now),
    {
        match self.get_metadata(game_id) {
            None => true,
            Some(m) => {
                if now <= m.last_updated {
                    return false;
                }
                let age = now - m.last_updated;
                if days > u64::MAX / SECONDS_PER_DAY {
                    assert(days * SECONDS_PER_DAY > u64::MAX) by (nonlinear_arith)
                        requires
                            days > u64::MAX / SECONDS_PER_DAY,
                            SECONDS_PER_DAY == 86400,
                    ;
                    false
                } else {
                    assert(days * SECONDS_PER_DAY <= u64::MAX) by (nonlinear_arith)
                        requires
                            days <= u64::MAX / SECONDS_PER_DAY,
                            SECONDS_PER_DAY == 86400,
                    ;
                    age > days * SECONDS_PER_DAY
                }
            },
        }
    }

    /// Whether the record of `game_id` is out of date by the system clock.
    pub fn is_stale(&self, game_id: &str, days: u64) -> (r: bool)
        ensures
            exists|now: u64| r == stale(self.spec_get(game_id@), days, now),
            self.spec_get(game_id@) is None ==> r,
    {
        let now = now_epoch_seconds();
        self.is_stale_at(game_id, days, now)
    }
}

/// Saving a record and then loading its game gives the record back, without
/// reading its file.
pub proof fn lemma_save_then_load(
    before: MetadataCache,
    record: CachedMetadata,
    saved: MetadataCache,
    on_disk: Option<CachedMetadata>,
    now: u64,
    loaded: CachedMetadata,
)
    requires
        stored(before, record, saved),
        load_result(saved.spec_get(record.game_id@), on_disk, record.game_id@, now, loaded),
    ensures
        loaded.same_as(&record),
{
}

/// A record is fresh one second before the end of its allowed age and out
/// of date one second after it.
pub proof fn lemma_staleness_boundary(m: CachedMetadata, days: u64, now: u64)
    ensures
        now - m.last_updated == days * SECONDS_PER_DAY - 1 ==> !stale(Some(m), days, now),
        now - m.last_updated == days * SECONDS_PER_DAY + 1 ==> stale(Some(m), days, now),
{
}

} // verus!
