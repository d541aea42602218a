//! Bangumi catalog adapter: request URLs, response shapes and their
//! mapping. Bangumi serves anime and manga only, needs no API key, and
//! uses path-based REST endpoints.
//!
//! The HTTP calls and the JSON decoding happen outside the library.

use vstd::prelude::*;
use crate::provider::{spec_year_of_date, url_encoded_of, url_encode, year_of_date};
use crate::scraper::ScraperError;
use crate::strutil::{spec_int_str, i64_to_string};
use crate::types::{AnimeMetadata, AnimeSearchResult, ExternalIds, MediaSearchResult};

verus! {

/// The Bangumi API root.
pub fn bangumi_api_url() -> (r: &'static str)
    ensures
        r@ == "https://api.bgm.tv"@,
{
    "https://api.bgm.tv"
}

/// Bangumi provider.
pub struct BangumiProvider {}

/// One search hit, as decoded from the wire.
#[derive(Debug)]
pub struct BangumiSearchSubject {
    pub id: i32,
    pub name: String,
    pub name_cn: Option<String>,
    pub air_date: Option<String>,
    pub image_large: Option<String>,
    pub summary: Option<String>,
    /// Score scaled by 100.
    pub score: Option<i64>,
}

/// A tag row of a subject response.
#[derive(Debug)]
pub struct BangumiTag {
    pub name: String,
}

/// A subject detail response, as decoded from the wire.
#[derive(Debug)]
pub struct BangumiSubject {
    pub id: i32,
    pub subject_type: i32,
    pub name: String,
    pub name_cn: Option<String>,
    pub summary: Option<String>,
    pub date: Option<String>,
    pub image_large: Option<String>,
    pub eps: Option<i32>,
    /// Rating score scaled by 100.
    pub rating_score: Option<i64>,
    pub tags: Vec<BangumiTag>,
}

/// The format tag a numeric subject type renders to.
pub open spec fn spec_format_of_type(t: i32) -> Seq<char> {
    if t == 2 {
        "TV"@
    } else if t == 6 {
        "Movie"@
    } else {
        "Unknown"@
    }
}

impl BangumiProvider {
    /// Create a new Bangumi provider (no API key required).
    pub fn new() -> (r: BangumiProvider) {
        BangumiProvider {  }
    }

    /// Provider name.
    pub fn name(&self) -> (r: &'static str)
        ensures
            r@ == "bangumi"@,
    {
        "bangumi"
    }

    /// Whether the provider requires an API key.
    pub fn requires_api_key(&self) -> (r: bool)
        ensures
            r == false,
    {
        false
    }

    /// The URL of a subject search, query percent-encoded.
    pub fn search_url(&self, query: &str) -> (r: String)
        ensures
            r@ == "https://api.bgm.tv"@ + "/search/subject/"@ + url_encoded_of(query@)
                + "?type=2&responseGroup=small"@,
    {
        let u = String::from_str(bangumi_api_url()).concat("/search/subject/").concat(
            url_encode(query).as_str(),
        ).concat("?type=2&responseGroup=small");
        proof {
            assert(u@ =~= "https://api.bgm.tv"@ + "/search/subject/"@ + url_encoded_of(query@)
                + "?type=2&responseGroup=small"@);
        }
        u
    }

    /// The URL of a subject detail lookup.
    pub fn subject_url(&self, id: &str) -> (r: String)
        ensures
            r@ == "https://api.bgm.tv"@ + "/v0/subjects/"@ + id@,
    {
        let u = String::from_str(bangumi_api_url()).concat("/v0/subjects/").concat(id);
        proof {
            assert(u@ =~= "https://api.bgm.tv"@ + "/v0/subjects/"@ + id@);
        }
        u
    }

    /// Map one decoded search hit onto the neutral shape: the Chinese
    /// title is preferred, the original name is kept as the Japanese
    /// title, and the year is read from the air date.
    pub fn anime_search_from_wire(&self, subject: BangumiSearchSubject) -> (r: AnimeSearchResult)
        ensures
            r.id@ == spec_int_str(subject.id as int),
            (match subject.name_cn {
                Some(cn) => r.title == cn,
                None => r.title == subject.name,
            }),
            r.title_english is None,
            r.title_japanese == Some(subject.name),
            (match subject.air_date {
                Some(d) => match spec_year_of_date(d@) {
                    Some(y) => r.year == Some(y as i32),
                    None => r.year is None,
                },
                None => r.year is None,
            }),
            r.poster_path == subject.image_large,
            r.overview == subject.summary,
            r.score == subject.score,
            r.provider@ == "bangumi"@,
    {
        let title = match &subject.name_cn {
            Some(cn) => cn.clone(),
            None => subject.name.clone(),
        };
        let year = match &subject.air_date {
            Some(d) => year_of_date(d.as_str()),
            None => None,
        };
        AnimeSearchResult {
            id: i64_to_string(subject.id as i64),
            title,
            title_english: None,
            title_japanese: Some(subject.name),
            year,
            poster_path: subject.image_large,
            overview: subject.summary,
            score: subject.score,
            provider: String::from_str("bangumi"),
        }
    }

    /// Map a decoded subject detail response onto the neutral shape.
    #[verifier::loop_isolation(false)]
    pub fn anime_details_from_wire(&self, subject: BangumiSubject) -> (r: AnimeMetadata)
        ensures
            r.id@ == spec_int_str(subject.id as int),
            (match subject.name_cn {
                Some(cn) => r.title == cn,
                None => r.title == subject.name,
            }),
            r.title_english is None,
            r.title_japanese == Some(subject.name),
            r.start_date == subject.date,
            r.end_date is None,
            r.overview == subject.summary,
            r.poster_path == subject.image_large,
            r.backdrop_path is None,
            r.score == subject.rating_score,
            r.genres@.len() == subject.tags@.len(),
            forall|i: int| 0 <= i < r.genres@.len() ==> r.genres@[i] == subject.tags@[i].name,
            r.episodes == subject.eps,
            r.status is None,
            r.format matches Some(f) && f@ == spec_format_of_type(subject.subject_type),
            r.provider@ == "bangumi"@,
            r.external_ids.bangumi_id matches Some(b) && b@ == spec_int_str(subject.id as int),
            r.external_ids.imdb_id is None,
            r.external_ids.tmdb_id is None,
            r.external_ids.tvdb_id is None,
            r.external_ids.anilist_id is None,
            r.external_ids.mal_id is None,
    {
        let title = match &subject.name_cn {
            Some(cn) => cn.clone(),
            None => subject.name.clone(),
        };
        let format: String = if subject.subject_type == 2 {
            String::from_str("TV")
        } else if subject.subject_type == 6 {
            String::from_str("Movie")
        } else {
            String::from_str("Unknown")
        };
        let mut genres: Vec<String> = Vec::new();
        let mut rest = subject.tags;
        let ghost all = rest@;
        while rest.len() > 0
            invariant
                rest@.len() <= all.len(),
                rest@ =~= all.skip(all.len() - rest@.len()),
                genres@.len() == all.len() - rest@.len(),
                forall|i: int| 0 <= i < genres@.len() ==> genres@[i] == all[i].name,
            decreases rest@.len(),
        {
            let ghost i = all.len() - rest@.len();
            let t = rest.remove(0);
            proof {
                assert(t == all[i as int]);
                assert(rest@ =~= all.skip(i + 1));
            }
            genres.push(t.name);
        }
        let mut external_ids = ExternalIds::empty();
        external_ids.bangumi_id = Some(i64_to_string(subject.id as i64));
        AnimeMetadata {
            id: i64_to_string(subject.id as i64),
            title,
            title_english: None,
            title_japanese: Some(subject.name),
            start_date: subject.date,
            end_date: None,
            overview: subject.summary,
            poster_path: subject.image_large,
            backdrop_path: None,
            score: subject.rating_score,
            genres,
            episodes: subject.eps,
            status: None,
            format: Some(format),
            provider: String::from_str("bangumi"),
            external_ids,
        }
    }

    /// The subject id a detail lookup would fetch. Bangumi specializes
    /// in anime and manga: a movie or TV result is a configuration
    /// error.
    pub fn details_id_for(&self, result: &MediaSearchResult) -> (r: Result<String, ScraperError>)
        ensures
            match result {
                MediaSearchResult::Anime(a) => r matches Ok(id) && id@ == a.id@,
                _ => r matches Err(e) && (e matches ScraperError::Config(m) && m@
                    == "Bangumi specializes in anime/manga"@),
            },
    {
        match result {
            MediaSearchResult::Anime(a) => Ok(a.id.clone()),
            _ => Err(ScraperError::Config(String::from_str("Bangumi specializes in anime/manga"))),
        }
    }

    /// Episode lookups are not served by this catalog.
    pub fn episode_details_error(&self) -> (r: ScraperError)
        ensures
            r matches ScraperError::Config(m) && m@
                == "Bangumi does not provide individual episode details"@,
    {
        ScraperError::Config(
            String::from_str("Bangumi does not provide individual episode details"),
        )
    }
}

} // verus!
