//! Records of the external game database, and the choices made on what it
//! returns.
use vstd::prelude::*;
use crate::text::{join3, lower_of, to_lower};

verus! {

/// A cover image.
#[derive(Debug, Clone)]
pub struct IgdbCover {
    pub id: u32,
    pub url: Option<String>,
    pub image_id: String,
}

/// A company's name.
#[derive(Debug, Clone)]
pub struct IgdbCompanyInfo {
    pub id: u32,
    pub name: String,
}

/// A company's part in a game.
#[derive(Debug, Clone)]
pub struct IgdbCompany {
    pub id: u32,
    pub company: IgdbCompanyInfo,
    pub developer: bool,
    pub publisher: bool,
}

/// A genre.
#[derive(Debug, Clone)]
pub struct IgdbGenre {
    pub id: u32,
    pub name: String,
}

/// A platform.
#[derive(Debug, Clone)]
pub struct IgdbPlatform {
    pub id: u32,
    pub name: String,
    pub slug: Option<String>,
}

/// A game as the database describes it. The aggregated rating is kept as
/// the bit pattern of its 32-bit floating-point value.
#[derive(Debug, Clone)]
pub struct IgdbGame {
    pub id: u32,
    pub name: String,
    pub summary: Option<String>,
    pub storyline: Option<String>,
    pub first_release_date: Option<u64>,
    pub cover: Option<IgdbCover>,
    pub involved_companies: Option<Vec<IgdbCompany>>,
    pub genres: Option<Vec<IgdbGenre>>,
    pub platforms: Option<Vec<IgdbPlatform>>,
    pub slug: Option<String>,
    pub url: Option<String>,
    pub total_rating_bits: Option<u32>,
    pub total_rating_count: Option<u32>,
}

/// A copy of an optional string.
pub fn copy_opt_string(o: &Option<String>) -> (r: Option<String>)
    ensures
        r == *o,
{
    match o {
        Some(s) => Some(s.clone()),
        None => None,
    }
}

impl IgdbCover {
    /// A field-by-field copy.
    pub fn duplicate(&self) -> (r: Self)
        ensures
            r == *self,
    {
        IgdbCover { id: self.id, url: copy_opt_string(&self.url), image_id: self.image_id.clone() }
    }
}

impl IgdbCompany {
    /// A field-by-field copy.
    pub fn duplicate(&self) -> (r: Self)
        ensures
            r == *self,
    {
        IgdbCompany {
            id: self.id,
            company: IgdbCompanyInfo { id: self.company.id, name: self.company.name.clone() },
            developer: self.developer,
            publisher: self.publisher,
        }
    }
}

impl IgdbGenre {
    /// A field-by-field copy.
    pub fn duplicate(&self) -> (r: Self)
        ensures
            r == *self,
    {
        IgdbGenre { id: self.id, name: self.name.clone() }
    }
}

impl IgdbPlatform {
    /// A field-by-field copy.
    pub fn duplicate(&self) -> (r: Self)
        ensures
            r == *self,
    {
        IgdbPlatform { id: self.id, name: self.name.clone(), slug: copy_opt_string(&self.slug) }
    }
}

fn copy_companies(v: &Option<Vec<IgdbCompany>>) -> (r: Option<Vec<IgdbCompany>>)
    ensures
        r matches Some(x) ==> v matches Some(y) && x@ == y@,
        r is None <==> v is None,
{
    match v {
        None => None,
        Some(items) => {
            let mut out: Vec<IgdbCompany> = Vec::new();
            let mut i: usize = 0;
            while i < items.len()
                invariant
                    i <= items@.len(),
                    out@ =~= items@.take(i as int),
                decreases items.len() - i,
            {
                out.push(items[i].duplicate());
                i = i + 1;
            }
            assert(items@.take(items@.len() as int) =~= items@);
            Some(out)
        },
    }
}

fn copy_genres(v: &Option<Vec<IgdbGenre>>) -> (r: Option<Vec<IgdbGenre>>)
    ensures
        r matches Some(x) ==> v matches Some(y) && x@ == y@,
        r is None <==> v is None,
{
    match v {
        None => None,
        Some(items) => {
            let mut out: Vec<IgdbGenre> = Vec::new();
            let mut i: usize = 0;
            while i < items.len()
                invariant
                    i <= items@.len(),
                    out@ =~= items@.take(i as int),
                decreases items.len() - i,
            {
                out.push(items[i].duplicate());
                i = i + 1;
            }
            assert(items@.take(items@.len() as int) =~= items@);
            Some(out)
        },
    }
}

fn copy_platforms(v: &Option<Vec<IgdbPlatform>>) -> (r: Option<Vec<IgdbPlatform>>)
    ensures
        r matches Some(x) ==> v matches Some(y) && x@ == y@,
        r is None <==> v is None,
{
    match v {
        None => None,
        Some(items) => {
            let mut out: Vec<IgdbPlatform> = Vec::new();
            let mut i: usize = 0;
            while i < items.len()
                invariant
                    i <= items@.len(),
                    out@ =~= items@.take(i as int),
                decreases items.len() - i,
            {
                out.push(items[i].duplicate());
                i = i + 1;
            }
            assert(items@.take(items@.len() as int) =~= items@);
            Some(out)
        },
    }
}

/// Whether two optional lists hold the same items.
pub open spec fn same_list<T>(a: Option<Vec<T>>, b: Option<Vec<T>>) -> bool {
    match (a, b) {
        (Some(x), Some(y)) => x@ == y@,
        (None, None) => true,
        _ => false,
    }
}

impl IgdbGame {
    /// Whether two records agree in every field, lists compared by contents.
    pub open spec fn same_as(&self, o: &IgdbGame) -> bool {
        &&& self.id == o.id
        &&& self.name == o.name
        &&& self.summary == o.summary
        &&& self.storyline == o.storyline
        &&& self.first_release_date == o.first_release_date
        &&& self.cover == o.cover
        &&& same_list(self.involved_companies, o.involved_companies)
        &&& same_list(self.genres, o.genres)
        &&& same_list(self.platforms, o.platforms)
        &&& self.slug == o.slug
        &&& self.url == o.url
        &&& self.total_rating_bits == o.total_rating_bits
        &&& self.total_rating_count == o.total_rating_count
    }

    /// A field-by-field copy.
    pub fn duplicate(&self) -> (r: Self)
        ensures
            r.same_as(self),
    {
        IgdbGame {
            id: self.id,
            name: self.name.clone(),
            summary: copy_opt_string(&self.summary),
            storyline: copy_opt_string(&self.storyline),
            first_release_date: self.first_release_date,
            cover: match &self.cover {
                Some(c) => Some(c.duplicate()),
                None => None,
            },
            involved_companies: copy_companies(&self.involved_companies),
            genres: copy_genres(&self.genres),
            platforms: copy_platforms(&self.platforms),
            slug: copy_opt_string(&self.slug),
            url: copy_opt_string(&self.url),
            total_rating_bits: self.total_rating_bits,
            total_rating_count: self.total_rating_count,
        }
    }
}

/// The index of the first game at or after `i` whose name equals `name`
/// ignoring case, or the length of the list.
pub open spec fn first_name_match(games: Seq<IgdbGame>, name: Seq<char>, i: int) -> int
    decreases games.len() - i,
{
    if i < 0 || i >= games.len() {
        games.len() as int
    } else if lower_of(games[i].name@) == lower_of(name) {
        i
    } else {
        first_name_match(games, name, i + 1)
    }
}

/// The result to take for a searched name: the first whose name matches it
/// ignoring case, else the first result.
pub open spec fn best_match_index(games: Seq<IgdbGame>, name: Seq<char>) -> int {
    let k = first_name_match(games, name, 0);
    if k < games.len() {
        k
    } else {
        0
    }
}

/// Picks the best of the search results for `name`; none where there are
/// no results.
pub fn select_best_match(games: &Vec<IgdbGame>, name: &str) -> (r: Option<IgdbGame>)
    ensures
        r is None <==> games@.len() == 0,
        r matches Some(g) ==> g.same_as(&games@[best_match_index(games@, name@)]),
{
    if games.len() == 0 {
        return None;
    }
    let wanted = to_lower(name);
    let mut i: usize = 0;
    while i < games.len()
        invariant
            i <= games@.len(),
            wanted@ == lower_of(name@),
            first_name_match(games@, name@, 0) == first_name_match(games@, name@, i as int),
        decreases games.len() - i,
    {
        let candidate = to_lower(games[i].name.as_str());
        if candidate == wanted {
            return Some(games[i].duplicate());
        }
        i = i + 1;
    }
    Some(games[0].duplicate())
}

/// Whether a new access token is needed: there is none, or it expires
/// within five minutes of `now` (all in seconds).
pub open spec fn auth_needed(has_token: bool, expiry: Option<u64>, now: u64) -> bool {
    match expiry {
        Some(e) => !has_token || e <= now + 300,
        None => true,
    }
}

/// Whether a new access token is needed.
pub fn needs_authentication(has_token: bool, token_expiry: Option<u64>, now: u64) -> (r: bool)
    ensures
        r == auth_needed(has_token, token_expiry, now),
{
    match token_expiry {
        Some(e) => !has_token || e <= 300 || e - 300 <= now,
        None => true,
    }
}

/// The address of a cover image of the given size.
pub open spec fn cover_url(image_id: Seq<char>, size: Seq<char>) -> Seq<char> {
    "https://images.igdb.com/igdb/image/upload/t_"@ + size + "/"@ + image_id + ".jpg"@
}

/// The address of a cover image of the given size.
pub fn get_cover_url(image_id: &str, size: &str) -> (r: String)
    ensures
        r@ == cover_url(image_id@, size@),
{
    let head = join3("https://images.igdb.com/igdb/image/upload/t_", size, "/");
    let r = join3(head.as_str(), image_id, ".jpg");
    assert(r@ =~= cover_url(image_id@, size@));
    r
}

/// The fields that every game query asks for.
pub open spec fn game_fields() -> Seq<char> {
    "fields id,name,summary,storyline,first_release_date,cover.image_id,involved_companies.company.name,involved_companies.developer,involved_companies.publisher,genres.name,platforms.name,platforms.slug,slug,url,total_rating,total_rating_count;"@
}

/// The query that searches for up to ten games by name.
pub open spec fn search_query_text(name: Seq<char>) -> Seq<char> {
    "search \""@ + name + "\"; "@ + game_fields() + " limit 10;"@
}

/// The query that searches for up to ten games by name.
pub fn search_query(name: &str) -> (r: String)
    ensures
        r@ == search_query_text(name@),
{
    let head = join3("search \"", name, "\"; ");
    let r = join3(
        head.as_str(),
        "fields id,name,summary,storyline,first_release_date,cover.image_id,involved_companies.company.name,involved_companies.developer,involved_companies.publisher,genres.name,platforms.name,platforms.slug,slug,url,total_rating,total_rating_count;",
        " limit 10;",
    );
    assert(r@ =~= search_query_text(name@));
    r
}

} // verus!
