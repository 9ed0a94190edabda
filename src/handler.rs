//! The refresh orchestrator: decides when the external database is asked,
//! records its answers in the store and reports progress as status events.
//! The caller performs the lookups and downloads and hands back their
//! outcomes.
use vstd::prelude::*;
use crate::cache::{stale, CachedMetadata, MetadataCache, SECONDS_PER_DAY};
use crate::igdb::IgdbGame;
use crate::text::join3;

verus! {

/// Age in days after which enrichment data is fetched again.
pub const MAX_AGE_DAYS: u64 = 30;

/// A status notification of a metadata operation.
#[derive(Debug, Clone)]
pub enum MetadataStatus {
    /// Fetching started for a game
    Started { game_id: String, game_name: String },
    /// Metadata of a game is current
    Success { game_id: String, game_name: String },
    /// Metadata of a game could not be obtained
    Failed { game_id: String, game_name: String, error: String },
    /// A batch has handled `completed` of `total` games
    Progress { completed: usize, total: usize },
    /// A batch is over
    Completed { successful: usize, failed: usize, total: usize },
}

/// What a lookup in the external database gave.
#[derive(Debug, Clone)]
pub enum LookupOutcome {
    /// The best match
    Found(IgdbGame),
    /// No game matched
    NotFound,
    /// The lookup failed, with its message
    Failed(String),
}

pub open spec fn is_started(e: MetadataStatus, id: Seq<char>, name: Seq<char>) -> bool {
    e matches MetadataStatus::Started { game_id, game_name } && game_id@ == id && game_name@
        == name
}

pub open spec fn is_success(e: MetadataStatus, id: Seq<char>, name: Seq<char>) -> bool {
    e matches MetadataStatus::Success { game_id, game_name } && game_id@ == id && game_name@
        == name
}

pub open spec fn is_failed(e: MetadataStatus, id: Seq<char>, name: Seq<char>, msg: Seq<char>) -> bool {
    e matches MetadataStatus::Failed { game_id, game_name, error } && game_id@ == id
        && game_name@ == name && error@ == msg
}

pub open spec fn is_progress(e: MetadataStatus, completed: int, total: int) -> bool {
    e matches MetadataStatus::Progress { completed: c, total: t } && c == completed && t == total
}

pub open spec fn is_completed(e: MetadataStatus, successful: int, failed: int, total: int) -> bool {
    e matches MetadataStatus::Completed { successful: s, failed: f, total: t } && s == successful
        && f == failed && t == total
}

/// Whether the external database must be asked about a game with this
/// record: unless it holds enrichment data that is not out of date.
pub open spec fn lookup_needed(entry: Option<CachedMetadata>, now: u64) -> bool {
    !(entry matches Some(m) && m.igdb_data is Some && !stale(entry, MAX_AGE_DAYS, now))
}

fn started(game_id: &str, game_name: &str) -> (r: MetadataStatus)
    ensures
        is_started(r, game_id@, game_name@),
{
    MetadataStatus::Started { game_id: game_id.to_owned(), game_name: game_name.to_owned() }
}

fn success(game_id: &str, game_name: &str) -> (r: MetadataStatus)
    ensures
        is_success(r, game_id@, game_name@),
{
    MetadataStatus::Success { game_id: game_id.to_owned(), game_name: game_name.to_owned() }
}

fn failed(game_id: &str, game_name: &str, error: String) -> (r: MetadataStatus)
    ensures
        is_failed(r, game_id@, game_name@, error@),
{
    MetadataStatus::Failed {
        game_id: game_id.to_owned(),
        game_name: game_name.to_owned(),
        error,
    }
}

/// The message of a failed fetch for which nothing matched.
pub open spec fn no_match_message() -> Seq<char> {
    "No matching game found on IGDB"@
}

/// The message of a failed fetch whose lookup failed.
pub open spec fn lookup_error_message(e: Seq<char>) -> Seq<char> {
    "IGDB API error: "@ + e
}

/// The store together with the time each game was last refreshed.
pub struct MetadataHandler {
    /// The metadata store
    pub cache: MetadataCache,
    /// When each game was last found current, in seconds since the epoch
    pub last_refresh: Vec<(String, u64)>,
}

/// Whether `new` is the state after a fetch at `now` found `game` for `id`.
pub open spec fn found_recorded(
    old: MetadataHandler,
    id: Seq<char>,
    game: IgdbGame,
    now: u64,
    new: MetadataHandler,
) -> bool {
    &&& new.cache.spec_get(id) matches Some(m)
    &&& m.igdb_data == Some(game)
    &&& m.igdb_id == Some(game.id)
    &&& m.last_updated >= now
    &&& forall|o: Seq<char>| o != id ==> #[trigger] new.cache.spec_get(o) == old.cache.spec_get(o)
}

impl MetadataHandler {
    /// The time a game was last found current, if ever.
    pub closed spec fn spec_refreshed(&self, id: Seq<char>) -> Option<u64> {
        let k = self.refresh_index(id, 0);
        if k < self.last_refresh@.len() {
            Some(self.last_refresh@[k].1)
        } else {
            None
        }
    }

    closed spec fn refresh_index(&self, id: Seq<char>, i: int) -> int
        decreases self.last_refresh@.len() - i,
    {
        if i < 0 || i >= self.last_refresh@.len() {
            self.last_refresh@.len() as int
        } else if self.last_refresh@[i].0@ == id {
            i
        } else {
            self.refresh_index(id, i + 1)
        }
    }

    /// A handler over the given store, with nothing refreshed yet.
    pub fn new(cache: MetadataCache) -> (r: MetadataHandler)
        ensures
            r.cache == cache,
            forall|id: Seq<char>| #[trigger] r.spec_refreshed(id) is None,
    {
        MetadataHandler { cache, last_refresh: Vec::new() }
    }

    fn refresh_position(&self, game_id: &str) -> (r: usize)
        ensures
            r as int == self.refresh_index(game_id@, 0),
            r <= self.last_refresh@.len(),
    {
        let wanted = game_id.to_owned();
        let mut i: usize = 0;
        while i < self.last_refresh.len()
            invariant
                wanted@ == game_id@,
                i <= self.last_refresh@.len(),
                self.refresh_index(game_id@, 0) == self.refresh_index(game_id@, i as int),
            decreases self.last_refresh.len() - i,
        {
            if self.last_refresh[i].0 == wanted {
                return i;
            }
            i = i + 1;
        }
        i
    }

    proof fn lemma_refresh_index(&self, id: Seq<char>, i: int)
        requires
            0 <= i <= self.last_refresh@.len(),
        ensures
            i <= self.refresh_index(id, i) <= self.last_refresh@.len(),
            self.refresh_index(id, i) < self.last_refresh@.len() ==> self.last_refresh@[self.refresh_index(id, i)].0@ == id,
            forall|k: int| i <= k < self.refresh_index(id, i) ==> self.last_refresh@[k].0@ != id,
        decreases self.last_refresh@.len() - i,
    {
        if i < self.last_refresh@.len() && self.last_refresh@[i].0@ != id {
            self.lemma_refresh_index(id, i + 1);
        }
    }

    /// Notes that `game_id` was found current at `now`.
    fn mark_refreshed(&mut self, game_id: &str, now: u64)
        ensures
            final(self).cache == old(self).cache,
    {
        let k = self.refresh_position(game_id);
        if k < self.last_refresh.len() {
            self.last_refresh.remove(k);
            self.last_refresh.insert(k, (game_id.to_owned(), now));
        } else {
            self.last_refresh.push((game_id.to_owned(), now));
        }
    }

    /// Whether `game_id` was found current less than `seconds` before `now`.
    pub fn was_recently_refreshed(&self, game_id: &str, seconds: u64, now: u64) -> (r: bool)
        ensures
            r == (self.spec_refreshed(game_id@) matches Some(t) && now - t < seconds),
    {
        let k = self.refresh_position(game_id);
        if k < self.last_refresh.len() {
            let t = self.last_refresh[k].1;
            if now < t {
                true
            } else {
                now - t < seconds
            }
        } else {
            false
        }
    }

    /// Whether the store holds enrichment data for `game_id`.
    pub fn has_igdb_metadata(&self, game_id: &str) -> (r: bool)
        ensures
            r == (self.cache.spec_get(game_id@) matches Some(m) && m.igdb_data is Some),
    {
        match self.cache.get_metadata(game_id) {
            Some(m) => m.igdb_data.is_some(),
            None => false,
        }
    }

    /// Whether the external database must be asked about `game_id` at `now`.
    pub fn refresh_due(&self, game_id: &str, now: u64) -> (r: bool)
        ensures
            r == lookup_needed(self.cache.spec_get(game_id@), now),
    {
        !self.has_igdb_metadata(game_id) || self.cache.is_stale_at(game_id, MAX_AGE_DAYS, now)
    }

    /// The first half of fetching a game's metadata: reports the start and,
    /// where the store holds current enrichment data, the success, without
    /// any lookup. Returns whether a lookup is needed, and the events.
    pub fn begin_fetch(&mut self, game_id: &str, game_name: &str, now: u64) -> (r: (
        bool,
        Vec<MetadataStatus>,
    ))
        ensures
            r.0 == lookup_needed(old(self).cache.spec_get(game_id@), now),
            final(self).cache == old(self).cache,
            r.0 ==> r.1@.len() == 1,
            !r.0 ==> r.1@.len() == 2 && is_success(r.1@[1], game_id@, game_name@),
            is_started(r.1@[0], game_id@, game_name@),
    {
        let mut events: Vec<MetadataStatus> = Vec::new();
        events.push(started(game_id, game_name));
        if self.refresh_due(game_id, now) {
            (true, events)
        } else {
            self.mark_refreshed(game_id, now);
            events.push(success(game_id, game_name));
            (false, events)
        }
    }

    /// The second half of fetching a game's metadata, given what the lookup
    /// gave: a match is stored and reported as a success; no match is
    /// reported as a failure and yields `Ok(false)`; a failed lookup is
    /// reported and its message returned as the error.
    pub fn finish_fetch(
        &mut self,
        game_id: &str,
        game_name: &str,
        outcome: LookupOutcome,
        now: u64,
    ) -> (r: (Result<bool, String>, Vec<MetadataStatus>))
        ensures
            r.1@.len() == 1,
            outcome matches LookupOutcome::Found(g) ==> {
                &&& r.0 == Ok::<bool, String>(true)
                &&& found_recorded(*old(self), game_id@, g, now, *final(self))
                &&& is_success(r.1@[0], game_id@, game_name@)
            },
            outcome is NotFound ==> {
                &&& r.0 == Ok::<bool, String>(false)
                &&& final(self).cache == old(self).cache
                &&& is_failed(r.1@[0], game_id@, game_name@, no_match_message())
            },
            outcome matches LookupOutcome::Failed(e) ==> {
                &&& r.0 matches Err(m) && m@ == e@
                &&& final(self).cache == old(self).cache
                &&& is_failed(r.1@[0], game_id@, game_name@, lookup_error_message(e@))
            },
    {
        let mut events: Vec<MetadataStatus> = Vec::new();
        match outcome {
            LookupOutcome::Found(game) => {
                self.cache.update_with_igdb(game_id, game, now);
                self.mark_refreshed(game_id, now);
                events.push(success(game_id, game_name));
                (Ok(true), events)
            },
            LookupOutcome::NotFound => {
                events.push(failed(game_id, game_name, "No matching game found on IGDB".to_owned()));
                (Ok(false), events)
            },
            LookupOutcome::Failed(e) => {
                let msg = join3("IGDB API error: ", e.as_str(), "");
                proof {
                    reveal_strlit("");
                    assert(msg@ =~= lookup_error_message(e@));
                }
                events.push(failed(game_id, game_name, msg));
                (Err(e), events)
            },
        }
    }

    /// The image of the cover to download for `game_id`: the one its
    /// enrichment data refers to, if any.
    pub fn cover_to_download(&self, game_id: &str) -> (r: Option<String>)
        ensures
            r matches Some(i) ==> (self.cache.spec_get(game_id@) matches Some(m) && m.igdb_data
                matches Some(g) && g.cover matches Some(c) && c.image_id@ == i@),
            r is None ==> !(self.cache.spec_get(game_id@) matches Some(m) && m.igdb_data matches Some(
                g,
            ) && g.cover is Some),
    {
        match self.cache.get_metadata(game_id) {
            Some(m) => match &m.igdb_data {
                Some(g) => match &g.cover {
                    Some(c) => Some(c.image_id.clone()),
                    None => None,
                },
                None => None,
            },
            None => None,
        }
    }

    /// Records that the cover of `game_id` was downloaded to its place,
    /// `images/<id>_cover.jpg` below the cache directory.
    pub fn cover_downloaded(&mut self, game_id: &str, now: u64) -> (r: bool)
        ensures
            r == old(self).cache.spec_get(game_id@) is Some,
            r ==> crate::cache::cover_recorded(
                old(self).cache.spec_get(game_id@),
                final(self).cache.spec_get(game_id@),
                "images/"@ + game_id@ + "_cover.jpg"@,
                now,
            ),
    {
        let rel = join3("images/", game_id, "_cover.jpg");
        self.cache.update_cover_path(game_id, rel.as_str(), now)
    }
}

/// Two fetches of a game in succession, the second no later than the
/// allowed age after the first, ask the external database at most once,
/// provided a lookup made by the first one found a match; and where the
/// first was answered from the store, so is a second one at the same time.
pub proof fn lemma_fetch_twice_looks_up_once(
    h0: MetadataHandler,
    h1: MetadataHandler,
    h2: MetadataHandler,
    id: Seq<char>,
    t1: u64,
    t2: u64,
    first_needed: bool,
    game: IgdbGame,
)
    requires
        first_needed == lookup_needed(h0.cache.spec_get(id), t1),
        h1.cache == h0.cache,
        first_needed ==> found_recorded(h1, id, game, t1, h2),
        !first_needed ==> h2.cache == h1.cache,
        t1 <= t2,
        t2 - t1 <= MAX_AGE_DAYS * SECONDS_PER_DAY,
    ensures
        !(first_needed && lookup_needed(h2.cache.spec_get(id), t2)),
        !first_needed && t2 == t1 ==> !lookup_needed(h2.cache.spec_get(id), t2),
{
}

/// Counters of a batch refresh.
pub struct BatchProgress {
    /// Games in the batch
    pub total: usize,
    /// Games handled so far
    pub completed: usize,
    /// Games whose metadata was fetched
    pub successful: usize,
    /// Games whose metadata could not be obtained
    pub failed: usize,
}

/// How one game of a batch went.
#[derive(Debug, Clone)]
pub enum GameOutcome {
    /// Its metadata was current; nothing was fetched
    Current,
    /// Its metadata was fetched
    Updated,
    /// Nothing matched it
    NotFound,
    /// Fetching failed, with the message
    Failed(String),
}

impl BatchProgress {
    /// Whether the counters are consistent.
    pub open spec fn wf(&self) -> bool {
        self.successful + self.failed <= self.completed <= self.total
    }

    /// A batch of `total` games, and its first progress event.
    pub fn start(total: usize) -> (r: (BatchProgress, MetadataStatus))
        ensures
            r.0.wf(),
            r.0.total == total,
            r.0.completed == 0,
            r.0.successful == 0,
            r.0.failed == 0,
            is_progress(r.1, 0, total as int),
    {
        (
            BatchProgress { total, completed: 0, successful: 0, failed: 0 },
            MetadataStatus::Progress { completed: 0, total },
        )
    }

    /// Counts one more game and returns its events: its success or failure,
    /// then the progress.
    pub fn record(&mut self, game_id: &str, game_name: &str, outcome: GameOutcome) -> (r: Vec<
        MetadataStatus,
    >)
        requires
            old(self).wf(),
            old(self).completed < old(self).total,
        ensures
            final(self).wf(),
            final(self).total == old(self).total,
            final(self).completed == old(self).completed + 1,
            final(self).successful == old(self).successful + (if outcome is Updated {
                1int
            } else {
                0
            }),
            final(self).failed == old(self).failed + (if outcome is NotFound || outcome is Failed {
                1int
            } else {
                0
            }),
            r@.len() == 2,
            outcome is Current || outcome is Updated ==> is_success(r@[0], game_id@, game_name@),
            outcome is NotFound ==> is_failed(r@[0], game_id@, game_name@, "Could not find metadata"@),
            outcome matches GameOutcome::Failed(e) ==> is_failed(r@[0], game_id@, game_name@, e@),
            is_progress(r@[1], final(self).completed as int, final(self).total as int),
    {
        let mut events: Vec<MetadataStatus> = Vec::new();
        match outcome {
            GameOutcome::Current => {
                events.push(success(game_id, game_name));
            },
            GameOutcome::Updated => {
                self.successful = self.successful + 1;
                events.push(success(game_id, game_name));
            },
            GameOutcome::NotFound => {
                self.failed = self.failed + 1;
                events.push(failed(game_id, game_name, "Could not find metadata".to_owned()));
            },
            GameOutcome::Failed(e) => {
                self.failed = self.failed + 1;
                events.push(failed(game_id, game_name, e));
            },
        }
        self.completed = self.completed + 1;
        events.push(MetadataStatus::Progress { completed: self.completed, total: self.total });
        events
    }

    /// The closing event of the batch.
    pub fn finish(&self) -> (r: MetadataStatus)
        ensures
            is_completed(r, self.successful as int, self.failed as int, self.total as int),
    {
        MetadataStatus::Completed {
            successful: self.successful,
            failed: self.failed,
            total: self.total,
        }
    }
}

} // verus!
