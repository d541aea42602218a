//! AniList catalog adapter: the GraphQL documents, response shapes and
//! their mapping. AniList serves anime only, needs no API key, and
//! answers search and details through a single POST endpoint.
//!
//! The HTTP calls and the JSON decoding happen outside the library.

use vstd::prelude::*;
use crate::provider::{spec_pad2, spec_pad4, pad2, pad4};
use crate::scraper::ScraperError;
use crate::strutil::{spec_int_str, spec_parse_i64, i64_to_string, parse_i64};
use crate::types::{AnimeMetadata, AnimeSearchResult, ExternalIds, MediaSearchResult};

verus! {

/// The AniList GraphQL endpoint.
pub fn anilist_api_url() -> (r: &'static str)
    ensures
        r@ == "https://graphql.anilist.co"@,
{
    "https://graphql.anilist.co"
}

/// AniList provider.
pub struct AniListProvider {}

/// A date of an AniList response, split into parts.
#[derive(Debug, Clone, Copy, PartialEq, Eq, Structural)]
pub struct AniListDate {
    pub year: Option<i32>,
    pub month: Option<i32>,
    pub day: Option<i32>,
}

/// One search hit, as decoded from the wire.
#[derive(Debug)]
pub struct AniListSearchMedia {
    pub id: i32,
    pub title_romaji: String,
    pub title_english: Option<String>,
    pub title_native: String,
    pub season_year: Option<i32>,
    pub cover_image_large: String,
    pub description: Option<String>,
    /// Average score on the catalog's 0-100 scale.
    pub average_score: Option<i32>,
}

/// A media detail response, as decoded from the wire.
#[derive(Debug)]
pub struct AniListMedia {
    pub id: i32,
    pub title_romaji: String,
    pub title_english: Option<String>,
    pub title_native: String,
    pub start_date: Option<AniListDate>,
    pub end_date: Option<AniListDate>,
    pub description: Option<String>,
    pub cover_image_large: String,
    pub banner_image: Option<String>,
    /// Average score on the catalog's 0-100 scale.
    pub average_score: Option<i32>,
    pub genres: Vec<String>,
    pub episodes: Option<i32>,
    pub status: String,
    pub format: String,
    pub id_mal: Option<i32>,
}

/// The calendar date a split response date renders to, when complete.
pub open spec fn spec_date_of(d: Option<AniListDate>) -> Option<Seq<char>> {
    match d {
        Some(parts) => match (parts.year, parts.month, parts.day) {
            (Some(y), Some(m), Some(day)) => Some(
                spec_pad4(y as int) + seq!['-'] + spec_pad2(m as int) + seq!['-'] + spec_pad2(
                    day as int,
                ),
            ),
            _ => None,
        },
        None => None,
    }
}

/// The catalog's 0-100 score scaled to hundredths of a ten-point
/// scale: a score of 85 reads as 8.50.
pub open spec fn spec_score_scaled(s: Option<i32>) -> Option<i64> {
    match s {
        Some(v) => Some((v * 10) as i64),
        None => None,
    }
}

impl AniListProvider {
    /// Create a new AniList provider (no API key required).
    pub fn new() -> (r: AniListProvider) {
        AniListProvider {  }
    }

    /// Provider name.
    pub fn name(&self) -> (r: &'static str)
        ensures
            r@ == "anilist"@,
    {
        "anilist"
    }

    /// Whether the provider requires an API key.
    pub fn requires_api_key(&self) -> (r: bool)
        ensures
            r == false,
    {
        false
    }

    /// Render a split response date as `YYYY-MM-DD`, when every part is
    /// present.
    pub fn format_date(&self, date: Option<&AniListDate>) -> (r: Option<String>)
        requires
            match date {
                Some(d) => (match d.year {
                    Some(y) => 0 <= y <= 9999,
                    None => true,
                }) && (match d.month {
                    Some(m) => 0 <= m <= 99,
                    None => true,
                }) && (match d.day {
                    Some(x) => 0 <= x <= 99,
                    None => true,
                }),
                None => true,
            },
        ensures
            match date {
                Some(d) => match spec_date_of(Some(*d)) {
                    Some(txt) => r matches Some(out) && out@ == txt,
                    None => r is None,
                },
                None => r is None,
            },
    {
        match date {
            Some(d) => {
                match (d.year, d.month, d.day) {
                    (Some(y), Some(m), Some(day)) => {
                        let out = pad4(y as u64).concat("-").concat(pad2(m as u64).as_str()).concat(
                            "-",
                        ).concat(pad2(day as u64).as_str());
                        proof {
                            reveal_strlit("-");
                            assert(out@ =~= spec_pad4(y as int) + seq!['-'] + spec_pad2(m as int)
                                + seq!['-'] + spec_pad2(day as int));
                        }
                        Some(out)
                    },
                    _ => None,
                }
            },
            None => None,
        }
    }

    /// Map one decoded search hit onto the neutral shape.
    pub fn anime_search_from_wire(&self, anime: AniListSearchMedia) -> (r: AnimeSearchResult)
        ensures
            r.id@ == spec_int_str(anime.id as int),
            r.title == anime.title_romaji,
            r.title_english == anime.title_english,
            r.title_japanese == Some(anime.title_native),
            r.year == anime.season_year,
            r.poster_path == Some(anime.cover_image_large),
            r.overview == anime.description,
            r.score == spec_score_scaled(anime.average_score),
            r.provider@ == "anilist"@,
    {
        let score: Option<i64> = match anime.average_score {
            Some(s) => Some((s as i64) * 10),
            None => None,
        };
        AnimeSearchResult {
            id: i64_to_string(anime.id as i64),
            title: anime.title_romaji,
            title_english: anime.title_english,
            title_japanese: Some(anime.title_native),
            year: anime.season_year,
            poster_path: Some(anime.cover_image_large),
            overview: anime.description,
            score,
            provider: String::from_str("anilist"),
        }
    }

    /// Map a decoded media detail response onto the neutral shape.
    pub fn anime_details_from_wire(&self, anime: AniListMedia) -> (r: AnimeMetadata)
        requires
            match anime.start_date {
                Some(d) => (match d.year {
                    Some(y) => 0 <= y <= 9999,
                    None => true,
                }) && (match d.month {
                    Some(m) => 0 <= m <= 99,
                    None => true,
                }) && (match d.day {
                    Some(x) => 0 <= x <= 99,
                    None => true,
                }),
                None => true,
            },
            match anime.end_date {
                Some(d) => (match d.year {
                    Some(y) => 0 <= y <= 9999,
                    None => true,
                }) && (match d.month {
                    Some(m) => 0 <= m <= 99,
                    None => true,
                }) && (match d.day {
                    Some(x) => 0 <= x <= 99,
                    None => true,
                }),
                None => true,
            },
        ensures
            r.id@ == spec_int_str(anime.id as int),
            r.title == anime.title_romaji,
            r.title_english == anime.title_english,
            r.title_japanese == Some(anime.title_native),
            (match spec_date_of(anime.start_date) {
                Some(txt) => r.start_date matches Some(out) && out@ == txt,
                None => r.start_date is None,
            }),
            (match spec_date_of(anime.end_date) {
                Some(txt) => r.end_date matches Some(out) && out@ == txt,
                None => r.end_date is None,
            }),
            r.overview == anime.description,
            r.poster_path == Some(anime.cover_image_large),
            r.backdrop_path == anime.banner_image,
            r.score == spec_score_scaled(anime.average_score),
            r.genres == anime.genres,
            r.episodes == anime.episodes,
            r.status == Some(anime.status),
            r.format == Some(anime.format),
            r.provider@ == "anilist"@,
            r.external_ids.anilist_id matches Some(a) && a@ == spec_int_str(anime.id as int),
            (match anime.id_mal {
                Some(m) => r.external_ids.mal_id matches Some(s) && s@ == spec_int_str(m as int),
                None => r.external_ids.mal_id is None,
            }),
            r.external_ids.imdb_id is None,
            r.external_ids.tmdb_id is None,
            r.external_ids.tvdb_id is None,
            r.external_ids.bangumi_id is None,
    {
        let score: Option<i64> = match anime.average_score {
            Some(s) => Some((s as i64) * 10),
            None => None,
        };
        let start_date = self.format_date(anime.start_date.as_ref());
        let end_date = self.format_date(anime.end_date.as_ref());
        let mal_id = match anime.id_mal {
            Some(m) => Some(i64_to_string(m as i64)),
            None => None,
        };
        let mut external_ids = ExternalIds::empty();
        external_ids.anilist_id = Some(i64_to_string(anime.id as i64));
        external_ids.mal_id = mal_id;
        AnimeMetadata {
            id: i64_to_string(anime.id as i64),
            title: anime.title_romaji,
            title_english: anime.title_english,
            title_japanese: Some(anime.title_native),
            start_date,
            end_date,
            overview: anime.description,
            poster_path: Some(anime.cover_image_large),
            backdrop_path: anime.banner_image,
            score,
            genres: anime.genres,
            episodes: anime.episodes,
            status: Some(anime.status),
            format: Some(anime.format),
            provider: String::from_str("anilist"),
            external_ids,
        }
    }

    /// The media id a detail lookup would fetch. AniList specializes in
    /// anime: a movie or TV result is a configuration error, and an id
    /// that is no number cannot be queried.
    pub fn details_id_for(&self, result: &MediaSearchResult) -> (r: Result<i32, ScraperError>)
        ensures
            match result {
                MediaSearchResult::Anime(a) => match spec_parse_i64(a.id@) {
                    Some(v) => if i32::MIN <= v <= i32::MAX {
                        r matches Ok(id) && id as int == v
                    } else {
                        r matches Err(e) && (e matches ScraperError::Parse(m) && m@
                            == "Invalid AniList ID: "@ + a.id@)
                    },
                    None => r matches Err(e) && (e matches ScraperError::Parse(m) && m@
                        == "Invalid AniList ID: "@ + a.id@),
                },
                _ => r matches Err(e) && (e matches ScraperError::Config(m) && m@
                    == "AniList specializes in anime"@),
            },
    {
        match result {
            MediaSearchResult::Anime(a) => {
                match parse_i64(a.id.as_str()) {
                    Some(v) => {
                        if v >= -2147483648i64 && v <= 2147483647i64 {
                            Ok(v as i32)
                        } else {
                            Err(
                                ScraperError::Parse(
                                    String::from_str("Invalid AniList ID: ").concat(a.id.as_str()),
                                ),
                            )
                        }
                    },
                    None => Err(
                        ScraperError::Parse(
                            String::from_str("Invalid AniList ID: ").concat(a.id.as_str()),
                        ),
                    ),
                }
            },
            _ => Err(ScraperError::Config(String::from_str("AniList specializes in anime"))),
        }
    }

    /// Episode lookups are not served by this catalog.
    pub fn episode_details_error(&self) -> (r: ScraperError)
        ensures
            r matches ScraperError::Config(m) && m@
                == "AniList does not provide individual episode details"@,
    {
        ScraperError::Config(
            String::from_str("AniList does not provide individual episode details"),
        )
    }
}

} // verus!
