//! Value objects emitted by the metadata providers: search results and
//! detail records for movies, TV shows and anime.
//!
//! Ratings coming from a catalog are carried as integers scaled by 100
//! (a score of 7.8 becomes 780) so that contracts can speak about them
//! exactly.

use vstd::prelude::*;

verus! {

/// Kind of media a provider can describe.
#[derive(Debug, Clone, Copy, PartialEq, Eq, Structural)]
pub enum MediaType {
    Movie,
    Tv,
    Anime,
}

/// Identifiers for one title across the known catalogs.
#[derive(Debug, Clone)]
pub struct ExternalIds {
    pub imdb_id: Option<String>,
    pub tmdb_id: Option<String>,
    pub tvdb_id: Option<String>,
    pub anilist_id: Option<String>,
    pub bangumi_id: Option<String>,
    pub mal_id: Option<String>,
}

impl ExternalIds {
    /// A record with every catalog id absent.
    pub fn empty() -> (r: ExternalIds)
        ensures
            r.imdb_id is None,
            r.tmdb_id is None,
            r.tvdb_id is None,
            r.anilist_id is None,
            r.bangumi_id is None,
            r.mal_id is None,
    {
        ExternalIds {
            imdb_id: None,
            tmdb_id: None,
            tvdb_id: None,
            anilist_id: None,
            bangumi_id: None,
            mal_id: None,
        }
    }
}

/// Movie search result.
#[derive(Debug, Clone)]
pub struct MovieSearchResult {
    pub id: String,
    pub title: String,
    pub original_title: Option<String>,
    pub year: Option<i32>,
    pub poster_path: Option<String>,
    pub overview: Option<String>,
    /// Vote average scaled by 100.
    pub vote_average: Option<i64>,
    pub provider: String,
}

/// TV show search result.
#[derive(Debug, Clone)]
pub struct TvSearchResult {
    pub id: String,
    pub name: String,
    pub original_name: Option<String>,
    pub first_air_date: Option<String>,
    pub poster_path: Option<String>,
    pub overview: Option<String>,
    /// Vote average scaled by 100.
    pub vote_average: Option<i64>,
    pub provider: String,
}

/// Anime search result.
#[derive(Debug, Clone)]
pub struct AnimeSearchResult {
    pub id: String,
    pub title: String,
    pub title_english: Option<String>,
    pub title_japanese: Option<String>,
    pub year: Option<i32>,
    pub poster_path: Option<String>,
    pub overview: Option<String>,
    /// Score scaled by 100.
    pub score: Option<i64>,
    pub provider: String,
}

/// Generic media search result over all supported kinds.
#[derive(Debug, Clone)]
pub enum MediaSearchResult {
    Movie(MovieSearchResult),
    Tv(TvSearchResult),
    Anime(AnimeSearchResult),
}

impl MediaSearchResult {
    /// Provider-specific id of the result.
    pub fn id(&self) -> (r: &String)
        ensures
            r@ == self.spec_id(),
    {
        match self {
            MediaSearchResult::Movie(m) => &m.id,
            MediaSearchResult::Tv(t) => &t.id,
            MediaSearchResult::Anime(a) => &a.id,
        }
    }

    /// The id as a sequence of characters.
    pub open spec fn spec_id(&self) -> Seq<char> {
        match self {
            MediaSearchResult::Movie(m) => m.id@,
            MediaSearchResult::Tv(t) => t.id@,
            MediaSearchResult::Anime(a) => a.id@,
        }
    }

    /// Display title of the result.
    pub fn title(&self) -> (r: &String)
        ensures
            r@ == self.spec_title(),
    {
        match self {
            MediaSearchResult::Movie(m) => &m.title,
            MediaSearchResult::Tv(t) => &t.name,
            MediaSearchResult::Anime(a) => &a.title,
        }
    }

    /// The display title as a sequence of characters.
    pub open spec fn spec_title(&self) -> Seq<char> {
        match self {
            MediaSearchResult::Movie(m) => m.title@,
            MediaSearchResult::Tv(t) => t.name@,
            MediaSearchResult::Anime(a) => a.title@,
        }
    }

    /// Kind of the result.
    pub fn media_type(&self) -> (r: MediaType)
        ensures
            r == self.spec_media_type(),
    {
        match self {
            MediaSearchResult::Movie(_) => MediaType::Movie,
            MediaSearchResult::Tv(_) => MediaType::Tv,
            MediaSearchResult::Anime(_) => MediaType::Anime,
        }
    }

    /// The kind of the result, for contracts.
    pub open spec fn spec_media_type(&self) -> MediaType {
        match self {
            MediaSearchResult::Movie(_) => MediaType::Movie,
            MediaSearchResult::Tv(_) => MediaType::Tv,
            MediaSearchResult::Anime(_) => MediaType::Anime,
        }
    }

    /// Name of the provider that produced the result.
    pub fn provider(&self) -> (r: &String)
        ensures
            r@ == self.spec_provider(),
    {
        match self {
            MediaSearchResult::Movie(m) => &m.provider,
            MediaSearchResult::Tv(t) => &t.provider,
            MediaSearchResult::Anime(a) => &a.provider,
        }
    }

    /// The provider name as a sequence of characters.
    pub open spec fn spec_provider(&self) -> Seq<char> {
        match self {
            MediaSearchResult::Movie(m) => m.provider@,
            MediaSearchResult::Tv(t) => t.provider@,
            MediaSearchResult::Anime(a) => a.provider@,
        }
    }
}

/// Movie metadata.
#[derive(Debug, Clone)]
pub struct MovieMetadata {
    pub id: String,
    pub title: String,
    pub original_title: Option<String>,
    pub release_date: Option<String>,
    pub runtime: Option<i32>,
    pub overview: Option<String>,
    pub poster_path: Option<String>,
    pub backdrop_path: Option<String>,
    /// Vote average scaled by 100.
    pub vote_average: Option<i64>,
    pub vote_count: Option<i32>,
    pub genres: Vec<String>,
    pub production_companies: Vec<String>,
    pub production_countries: Vec<String>,
    pub original_language: Option<String>,
    pub provider: String,
    pub external_ids: ExternalIds,
}

/// TV show metadata.
#[derive(Debug, Clone)]
pub struct TvMetadata {
    pub id: String,
    pub name: String,
    pub original_name: Option<String>,
    pub first_air_date: Option<String>,
    pub last_air_date: Option<String>,
    pub overview: Option<String>,
    pub poster_path: Option<String>,
    pub backdrop_path: Option<String>,
    /// Vote average scaled by 100.
    pub vote_average: Option<i64>,
    pub vote_count: Option<i32>,
    pub genres: Vec<String>,
    pub number_of_seasons: Option<i32>,
    pub number_of_episodes: Option<i32>,
    pub episode_run_time: Vec<i32>,
    pub status: Option<String>,
    pub original_language: Option<String>,
    pub production_companies: Vec<String>,
    pub provider: String,
    pub external_ids: ExternalIds,
}

/// Anime metadata.
#[derive(Debug, Clone)]
pub struct AnimeMetadata {
    pub id: String,
    pub title: String,
    pub title_english: Option<String>,
    pub title_japanese: Option<String>,
    pub start_date: Option<String>,
    pub end_date: Option<String>,
    pub overview: Option<String>,
    pub poster_path: Option<String>,
    pub backdrop_path: Option<String>,
    /// Score scaled by 100.
    pub score: Option<i64>,
    pub genres: Vec<String>,
    pub episodes: Option<i32>,
    pub status: Option<String>,
    pub format: Option<String>,
    pub provider: String,
    pub external_ids: ExternalIds,
}

/// Episode metadata.
#[derive(Debug, Clone)]
pub struct EpisodeMetadata {
    pub id: String,
    pub name: String,
    pub season_number: i32,
    pub episode_number: i32,
    pub air_date: Option<String>,
    pub overview: Option<String>,
    pub still_path: Option<String>,
    pub runtime: Option<i32>,
    /// Vote average scaled by 100.
    pub vote_average: Option<i64>,
    pub provider: String,
}

/// Generic media details over all supported kinds.
#[derive(Debug, Clone)]
pub enum MediaDetails {
    Movie(MovieMetadata),
    Tv(TvMetadata),
    Anime(AnimeMetadata),
}

impl MediaDetails {
    /// Provider-specific id of the record.
    pub fn id(&self) -> (r: &String)
        ensures
            r@ == self.spec_id(),
    {
        match self {
            MediaDetails::Movie(m) => &m.id,
            MediaDetails::Tv(t) => &t.id,
            MediaDetails::Anime(a) => &a.id,
        }
    }

    /// The id as a sequence of characters.
    pub open spec fn spec_id(&self) -> Seq<char> {
        match self {
            MediaDetails::Movie(m) => m.id@,
            MediaDetails::Tv(t) => t.id@,
            MediaDetails::Anime(a) => a.id@,
        }
    }

    /// Display title of the record.
    pub fn title(&self) -> (r: &String)
        ensures
            r@ == self.spec_title(),
    {
        match self {
            MediaDetails::Movie(m) => &m.title,
            MediaDetails::Tv(t) => &t.name,
            MediaDetails::Anime(a) => &a.title,
        }
    }

    /// The display title as a sequence of characters.
    pub open spec fn spec_title(&self) -> Seq<char> {
        match self {
            MediaDetails::Movie(m) => m.title@,
            MediaDetails::Tv(t) => t.name@,
            MediaDetails::Anime(a) => a.title@,
        }
    }

    /// Kind of the record.
    pub fn media_type(&self) -> (r: MediaType)
        ensures
            r == self.spec_media_type(),
    {
        match self {
            MediaDetails::Movie(_) => MediaType::Movie,
            MediaDetails::Tv(_) => MediaType::Tv,
            MediaDetails::Anime(_) => MediaType::Anime,
        }
    }

    /// The kind of the record, for contracts.
    pub open spec fn spec_media_type(&self) -> MediaType {
        match self {
            MediaDetails::Movie(_) => MediaType::Movie,
            MediaDetails::Tv(_) => MediaType::Tv,
            MediaDetails::Anime(_) => MediaType::Anime,
        }
    }

    /// Name of the provider that produced the record.
    pub fn provider(&self) -> (r: &String)
        ensures
            r@ == self.spec_provider(),
    {
        match self {
            MediaDetails::Movie(m) => &m.provider,
            MediaDetails::Tv(t) => &t.provider,
            MediaDetails::Anime(a) => &a.provider,
        }
    }

    /// The provider name as a sequence of characters.
    pub open spec fn spec_provider(&self) -> Seq<char> {
        match self {
            MediaDetails::Movie(m) => m.provider@,
            MediaDetails::Tv(t) => t.provider@,
            MediaDetails::Anime(a) => a.provider@,
        }
    }
}

} // verus!
