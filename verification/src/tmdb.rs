//! TMDB catalog adapter: request URLs, response shapes and their
//! mapping onto the provider-neutral value objects. TMDB serves movies
//! and TV shows and requires an API key; image paths come back relative
//! and are prefixed with the image base and a size token.
//!
//! The HTTP calls and the JSON decoding into the wire shapes happen
//! outside the library.

use vstd::prelude::*;
use crate::provider::{url_encoded_of, url_encode};
use crate::scraper::ScraperError;
use crate::strutil::{spec_int_str, i64_to_string, i32_to_string};
use crate::types::{
    EpisodeMetadata,
    ExternalIds,
    MediaSearchResult,
    MovieMetadata,
    MovieSearchResult,
    TvMetadata,
    TvSearchResult,
};

verus! {

/// The TMDB API root.
pub fn tmdb_base_url() -> (r: &'static str)
    ensures
        r@ == "https://api.themoviedb.org/3"@,
{
    "https://api.themoviedb.org/3"
}

/// The TMDB image root.
pub fn tmdb_image_base() -> (r: &'static str)
    ensures
        r@ == "https://image.tmdb.org/t/p"@,
{
    "https://image.tmdb.org/t/p"
}

/// TMDB provider.
pub struct TmdbProvider {
    pub api_key: String,
}

/// A genre entry of a TMDB response.
#[derive(Debug, Clone)]
pub struct TmdbGenre {
    pub id: i64,
    pub name: String,
}

/// A production company entry of a TMDB response.
#[derive(Debug, Clone)]
pub struct TmdbCompany {
    pub id: i64,
    pub name: String,
}

/// A production country entry of a TMDB response.
#[derive(Debug, Clone)]
pub struct TmdbCountry {
    pub iso_3166_1: String,
    pub name: String,
}

/// The external id record of a TMDB detail response.
#[derive(Debug, Clone)]
pub struct TmdbExternalIds {
    pub imdb_id: Option<String>,
    pub tvdb_id: Option<i64>,
}

/// One movie search hit, as decoded from the wire.
#[derive(Debug)]
pub struct TmdbMovieSearchResult {
    pub id: i64,
    pub title: String,
    pub original_title: String,
    pub release_date: Option<String>,
    pub poster_path: Option<String>,
    pub overview: Option<String>,
    /// Vote average scaled by 100.
    pub vote_average: Option<i64>,
}

/// A movie search response.
#[derive(Debug)]
pub struct TmdbSearchResponse {
    pub results: Vec<TmdbMovieSearchResult>,
}

/// One TV search hit, as decoded from the wire.
#[derive(Debug)]
pub struct TmdbTvSearchResult {
    pub id: i64,
    pub name: String,
    pub original_name: String,
    pub first_air_date: Option<String>,
    pub poster_path: Option<String>,
    pub overview: Option<String>,
    /// Vote average scaled by 100.
    pub vote_average: Option<i64>,
}

/// A TV search response.
#[derive(Debug)]
pub struct TmdbTvSearchResponse {
    pub results: Vec<TmdbTvSearchResult>,
}

/// A movie detail response.
#[derive(Debug)]
pub struct TmdbMovieDetails {
    pub id: i64,
    pub title: String,
    pub original_title: String,
    pub release_date: Option<String>,
    pub runtime: Option<i32>,
    pub overview: Option<String>,
    pub poster_path: Option<String>,
    pub backdrop_path: Option<String>,
    /// Vote average scaled by 100.
    pub vote_average: Option<i64>,
    pub vote_count: Option<i32>,
    pub genres: Vec<TmdbGenre>,
    pub production_companies: Vec<TmdbCompany>,
    pub production_countries: Vec<TmdbCountry>,
    pub original_language: String,
    pub external_ids: Option<TmdbExternalIds>,
}

/// A TV detail response.
#[derive(Debug)]
pub struct TmdbTvDetails {
    pub id: i64,
    pub name: String,
    pub original_name: String,
    pub first_air_date: Option<String>,
    pub last_air_date: Option<String>,
    pub overview: Option<String>,
    pub poster_path: Option<String>,
    pub backdrop_path: Option<String>,
    /// Vote average scaled by 100.
    pub vote_average: Option<i64>,
    pub vote_count: Option<i32>,
    pub genres: Vec<TmdbGenre>,
    pub number_of_seasons: i32,
    pub number_of_episodes: i32,
    pub episode_run_time: Vec<i32>,
    pub status: String,
    pub original_language: String,
    pub production_companies: Vec<TmdbCompany>,
    pub external_ids: Option<TmdbExternalIds>,
}

/// An episode detail response.
#[derive(Debug)]
pub struct TmdbEpisodeDetails {
    pub id: i64,
    pub name: String,
    pub season_number: i32,
    pub episode_number: i32,
    pub air_date: Option<String>,
    pub overview: Option<String>,
    pub still_path: Option<String>,
    pub runtime: Option<i32>,
    /// Vote average scaled by 100.
    pub vote_average: Option<i64>,
}

/// The image URL a relative path maps to, under a size token.
pub open spec fn spec_image_url(size: Seq<char>, path: Seq<char>) -> Seq<char> {
    "https://image.tmdb.org/t/p"@ + "/"@ + size + path
}

/// The year carried by an optional date, by way of its first
/// dash-separated component.
pub open spec fn spec_opt_year(d: Option<String>) -> Option<int> {
    match d {
        Some(s) => crate::provider::spec_year_of_date(s@),
        None => None,
    }
}

impl TmdbProvider {
    /// Create a new TMDB provider.
    pub fn new(api_key: String) -> (r: TmdbProvider)
        ensures
            r.api_key == api_key,
    {
        TmdbProvider { api_key }
    }

    /// Provider name.
    pub fn name(&self) -> (r: &'static str)
        ensures
            r@ == "tmdb"@,
    {
        "tmdb"
    }

    /// Whether the provider requires an API key.
    pub fn requires_api_key(&self) -> (r: bool)
        ensures
            r == true,
    {
        true
    }

    /// Build complete image URL from a relative path and a size token.
    pub fn build_image_url(&self, path: Option<&String>, size: &str) -> (r: Option<String>)
        ensures
            match path {
                Some(p) => r matches Some(u) && u@ == spec_image_url(size@, p@),
                None => r is None,
            },
    {
        match path {
            Some(p) => {
                let u = String::from_str(tmdb_image_base()).concat("/").concat(size).concat(
                    p.as_str(),
                );
                proof {
                    assert(u@ =~= spec_image_url(size@, p@));
                }
                Some(u)
            },
            None => None,
        }
    }

    /// The URL of a movie search, query and year percent-encoded.
    pub fn search_movie_url(&self, query: &str, year: Option<i32>) -> (r: String)
        ensures
            ({
                let head = "https://api.themoviedb.org/3"@ + "/search/movie?api_key="@
                    + url_encoded_of(self.api_key@) + "&query="@ + url_encoded_of(query@);
                match year {
                    Some(y) => r@ == head + "&year="@ + url_encoded_of(spec_int_str(y as int)),
                    None => r@ == head,
                }
            }),
    {
        let mut url = String::from_str(tmdb_base_url()).concat("/search/movie?api_key=").concat(
            url_encode(self.api_key.as_str()).as_str(),
        ).concat("&query=").concat(url_encode(query).as_str());
        match year {
            Some(y) => {
                let ys = i32_to_string(y);
                url = url.concat("&year=").concat(url_encode(ys.as_str()).as_str());
                proof {
                    assert(url@ =~= "https://api.themoviedb.org/3"@ + "/search/movie?api_key="@
                        + url_encoded_of(self.api_key@) + "&query="@ + url_encoded_of(query@)
                        + "&year="@ + url_encoded_of(spec_int_str(y as int)));
                }
            },
            None => {
                proof {
                    assert(url@ =~= "https://api.themoviedb.org/3"@ + "/search/movie?api_key="@
                        + url_encoded_of(self.api_key@) + "&query="@ + url_encoded_of(query@));
                }
            },
        }
        url
    }

    /// The URL of a TV search, query and year percent-encoded.
    pub fn search_tv_url(&self, query: &str, year: Option<i32>) -> (r: String)
        ensures
            ({
                let head = "https://api.themoviedb.org/3"@ + "/search/tv?api_key="@
                    + url_encoded_of(self.api_key@) + "&query="@ + url_encoded_of(query@);
                match year {
                    Some(y) => r@ == head + "&first_air_date_year="@ + url_encoded_of(
                        spec_int_str(y as int),
                    ),
                    None => r@ == head,
                }
            }),
    {
        let mut url = String::from_str(tmdb_base_url()).concat("/search/tv?api_key=").concat(
            url_encode(self.api_key.as_str()).as_str(),
        ).concat("&query=").concat(url_encode(query).as_str());
        match year {
            Some(y) => {
                let ys = i32_to_string(y);
                url = url.concat("&first_air_date_year=").concat(url_encode(ys.as_str()).as_str());
                proof {
                    assert(url@ =~= "https://api.themoviedb.org/3"@ + "/search/tv?api_key="@
                        + url_encoded_of(self.api_key@) + "&query="@ + url_encoded_of(query@)
                        + "&first_air_date_year="@ + url_encoded_of(spec_int_str(y as int)));
                }
            },
            None => {
                proof {
                    assert(url@ =~= "https://api.themoviedb.org/3"@ + "/search/tv?api_key="@
                        + url_encoded_of(self.api_key@) + "&query="@ + url_encoded_of(query@));
                }
            },
        }
        url
    }

    /// The URL of a movie detail lookup, with external ids appended.
    pub fn movie_details_url(&self, id: &str) -> (r: String)
        ensures
            r@ == "https://api.themoviedb.org/3"@ + "/movie/"@ + id@ + "?api_key="@
                + url_encoded_of(self.api_key@) + "&append_to_response="@ + url_encoded_of(
                "external_ids"@,
            ),
    {
        let url = String::from_str(tmdb_base_url()).concat("/movie/").concat(id).concat(
            "?api_key=",
        ).concat(url_encode(self.api_key.as_str()).as_str()).concat("&append_to_response=").concat(
            url_encode("external_ids").as_str(),
        );
        proof {
            assert(url@ =~= "https://api.themoviedb.org/3"@ + "/movie/"@ + id@ + "?api_key="@
                + url_encoded_of(self.api_key@) + "&append_to_response="@ + url_encoded_of(
                "external_ids"@,
            ));
        }
        url
    }

    /// The URL of a TV detail lookup, with external ids appended.
    pub fn tv_details_url(&self, id: &str) -> (r: String)
        ensures
            r@ == "https://api.themoviedb.org/3"@ + "/tv/"@ + id@ + "?api_key="@ + url_encoded_of(
                self.api_key@,
            ) + "&append_to_response="@ + url_encoded_of("external_ids"@),
    {
        let url = String::from_str(tmdb_base_url()).concat("/tv/").concat(id).concat(
            "?api_key=",
        ).concat(url_encode(self.api_key.as_str()).as_str()).concat("&append_to_response=").concat(
            url_encode("external_ids").as_str(),
        );
        proof {
            assert(url@ =~= "https://api.themoviedb.org/3"@ + "/tv/"@ + id@ + "?api_key="@
                + url_encoded_of(self.api_key@) + "&append_to_response="@ + url_encoded_of(
                "external_ids"@,
            ));
        }
        url
    }

    /// The URL of an episode detail lookup.
    pub fn episode_details_url(&self, series_id: &str, season: i32, episode: i32) -> (r: String)
        ensures
            r@ == "https://api.themoviedb.org/3"@ + "/tv/"@ + series_id@ + "/season/"@
                + spec_int_str(season as int) + "/episode/"@ + spec_int_str(episode as int)
                + "?api_key="@ + url_encoded_of(self.api_key@),
    {
        let url = String::from_str(tmdb_base_url()).concat("/tv/").concat(series_id).concat(
            "/season/",
        ).concat(i32_to_string(season).as_str()).concat("/episode/").concat(
            i32_to_string(episode).as_str(),
        ).concat("?api_key=").concat(url_encode(self.api_key.as_str()).as_str());
        proof {
            assert(url@ =~= "https://api.themoviedb.org/3"@ + "/tv/"@ + series_id@ + "/season/"@
                + spec_int_str(season as int) + "/episode/"@ + spec_int_str(episode as int)
                + "?api_key="@ + url_encoded_of(self.api_key@));
        }
        url
    }

    /// Map one decoded movie search hit onto the neutral shape: the id
    /// becomes decimal text, the year is read from the release date,
    /// and the poster path gains the image base under size `w500`.
    pub fn movie_search_from_wire(&self, movie: TmdbMovieSearchResult) -> (r: MovieSearchResult)
        ensures
            r.id@ == spec_int_str(movie.id as int),
            r.title == movie.title,
            r.original_title == Some(movie.original_title),
            match spec_opt_year(movie.release_date) {
                Some(y) => r.year == Some(y as i32),
                None => r.year is None,
            },
            match movie.poster_path {
                Some(p) => r.poster_path matches Some(u) && u@ == spec_image_url("w500"@, p@),
                None => r.poster_path is None,
            },
            r.overview == movie.overview,
            r.vote_average == movie.vote_average,
            r.provider@ == "tmdb"@,
    {
        let year = match &movie.release_date {
            Some(d) => crate::provider::year_of_date(d.as_str()),
            None => None,
        };
        MovieSearchResult {
            id: i64_to_string(movie.id),
            title: movie.title,
            original_title: Some(movie.original_title),
            year,
            poster_path: self.build_image_url(movie.poster_path.as_ref(), "w500"),
            overview: movie.overview,
            vote_average: movie.vote_average,
            provider: String::from_str("tmdb"),
        }
    }

    /// Map one decoded TV search hit onto the neutral shape.
    pub fn tv_search_from_wire(&self, tv: TmdbTvSearchResult) -> (r: TvSearchResult)
        ensures
            r.id@ == spec_int_str(tv.id as int),
            r.name == tv.name,
            r.original_name == Some(tv.original_name),
            r.first_air_date == tv.first_air_date,
            match tv.poster_path {
                Some(p) => r.poster_path matches Some(u) && u@ == spec_image_url("w500"@, p@),
                None => r.poster_path is None,
            },
            r.overview == tv.overview,
            r.vote_average == tv.vote_average,
            r.provider@ == "tmdb"@,
    {
        TvSearchResult {
            id: i64_to_string(tv.id),
            name: tv.name,
            original_name: Some(tv.original_name),
            first_air_date: tv.first_air_date,
            poster_path: self.build_image_url(tv.poster_path.as_ref(), "w500"),
            overview: tv.overview,
            vote_average: tv.vote_average,
            provider: String::from_str("tmdb"),
        }
    }

    /// Combine the two search halves the way the provider reports them:
    /// whatever succeeded contributes, movies before TV shows, and an
    /// empty outcome is `NotFound` for the query.
    #[verifier::loop_isolation(false)]
    pub fn search(
        &self,
        movies: Result<Vec<MovieSearchResult>, ScraperError>,
        tv_shows: Result<Vec<TvSearchResult>, ScraperError>,
        query: &str,
    ) -> (r: Result<Vec<MediaSearchResult>, ScraperError>)
        ensures
            ({
                let ms = match movies {
                    Ok(v) => v@.map_values(|m: MovieSearchResult| MediaSearchResult::Movie(m)),
                    Err(_) => Seq::empty(),
                };
                let ts = match tv_shows {
                    Ok(v) => v@.map_values(|t: TvSearchResult| MediaSearchResult::Tv(t)),
                    Err(_) => Seq::empty(),
                };
                match r {
                    Ok(all) => all@ == ms + ts && all@.len() > 0,
                    Err(e) => {
                        &&& ms.len() + ts.len() == 0
                        &&& e matches ScraperError::NotFound(m) && m@ == "No results found for: "@
                            + query@
                    },
                }
            }),
    {
        let mut results: Vec<MediaSearchResult> = Vec::new();
        let ghost ms = match &movies {
            Ok(v) => v@.map_values(|m: MovieSearchResult| MediaSearchResult::Movie(m)),
            Err(_) => Seq::empty(),
        };
        let ghost ts = match &tv_shows {
            Ok(v) => v@.map_values(|t: TvSearchResult| MediaSearchResult::Tv(t)),
            Err(_) => Seq::empty(),
        };
        match movies {
            Ok(list) => {
                let mut rest = list;
                let ghost all = rest@;
                while rest.len() > 0
                    invariant
                        rest@.len() <= all.len(),
                        rest@ =~= all.skip(all.len() - rest@.len()),
                        results@ =~= all.take(all.len() - rest@.len()).map_values(
                            |m: MovieSearchResult| MediaSearchResult::Movie(m),
                        ),
                    decreases rest@.len(),
                {
                    let ghost i = all.len() - rest@.len();
                    let m = rest.remove(0);
                    proof {
                        assert(m == all[i as int]);
                        assert(rest@ =~= all.skip(i + 1));
                    }
                    results.push(MediaSearchResult::Movie(m));
                    proof {
                        assert(results@ =~= all.take(i + 1).map_values(
                            |m2: MovieSearchResult| MediaSearchResult::Movie(m2),
                        ));
                    }
                }
                proof {
                    assert(all.take(all.len() as int) =~= all);
                    assert(results@ =~= ms);
                }
            },
            Err(_) => {},
        }
        let ghost mid = results@;
        match tv_shows {
            Ok(list) => {
                let mut rest = list;
                let ghost all = rest@;
                while rest.len() > 0
                    invariant
                        rest@.len() <= all.len(),
                        rest@ =~= all.skip(all.len() - rest@.len()),
                        results@ =~= mid + all.take(all.len() - rest@.len()).map_values(
                            |t: TvSearchResult| MediaSearchResult::Tv(t),
                        ),
                    decreases rest@.len(),
                {
                    let ghost i = all.len() - rest@.len();
                    let t = rest.remove(0);
                    proof {
                        assert(t == all[i as int]);
                        assert(rest@ =~= all.skip(i + 1));
                    }
                    results.push(MediaSearchResult::Tv(t));
                    proof {
                        assert(results@ =~= mid + all.take(i + 1).map_values(
                            |t2: TvSearchResult| MediaSearchResult::Tv(t2),
                        ));
                    }
                }
                proof {
                    assert(all.take(all.len() as int) =~= all);
                    assert(results@ =~= mid + ts);
                }
            },
            Err(_) => {
                proof {
                    assert(results@ =~= mid + ts);
                }
            },
        }
        proof {
            assert(results@ =~= ms + ts);
        }
        if results.len() == 0 {
            Err(ScraperError::NotFound(String::from_str("No results found for: ").concat(query)))
        } else {
            Ok(results)
        }
    }

    /// The detail URL the provider would fetch for a search result:
    /// movies and TV shows resolve to their endpoints, anime is not
    /// served by TMDB.
    pub fn details_url_for(&self, result: &MediaSearchResult) -> (r: Result<String, ScraperError>)
        ensures
            match result {
                MediaSearchResult::Movie(m) => r matches Ok(u) && u@ == "https://api.themoviedb.org/3"@
                    + "/movie/"@ + m.id@ + "?api_key="@ + url_encoded_of(self.api_key@)
                    + "&append_to_response="@ + url_encoded_of("external_ids"@),
                MediaSearchResult::Tv(t) => r matches Ok(u) && u@ == "https://api.themoviedb.org/3"@
                    + "/tv/"@ + t.id@ + "?api_key="@ + url_encoded_of(self.api_key@)
                    + "&append_to_response="@ + url_encoded_of("external_ids"@),
                MediaSearchResult::Anime(_) => r matches Err(e) && e matches ScraperError::Config(m)
                    && m@ == "TMDB does not support anime"@,
            },
    {
        match result {
            MediaSearchResult::Movie(m) => Ok(self.movie_details_url(m.id.as_str())),
            MediaSearchResult::Tv(t) => Ok(self.tv_details_url(t.id.as_str())),
            MediaSearchResult::Anime(_) => Err(
                ScraperError::Config(String::from_str("TMDB does not support anime")),
            ),
        }
    }

    /// Map a decoded movie detail response onto the neutral shape.
    #[verifier::loop_isolation(false)]
    pub fn movie_details_from_wire(&self, movie: TmdbMovieDetails) -> (r: MovieMetadata)
        ensures
            r.id@ == spec_int_str(movie.id as int),
            r.title == movie.title,
            r.original_title == Some(movie.original_title),
            r.release_date == movie.release_date,
            r.runtime == movie.runtime,
            r.overview == movie.overview,
            match movie.poster_path {
                Some(p) => r.poster_path matches Some(u) && u@ == spec_image_url("w500"@, p@),
                None => r.poster_path is None,
            },
            match movie.backdrop_path {
                Some(p) => r.backdrop_path matches Some(u) && u@ == spec_image_url(
                    "original"@,
                    p@,
                ),
                None => r.backdrop_path is None,
            },
            r.vote_average == movie.vote_average,
            r.vote_count == movie.vote_count,
            r.genres@.len() == movie.genres@.len(),
            forall|i: int| 0 <= i < r.genres@.len() ==> r.genres@[i] == movie.genres@[i].name,
            r.production_companies@.len() == movie.production_companies@.len(),
            forall|i: int|
                0 <= i < r.production_companies@.len() ==> r.production_companies@[i]
                    == movie.production_companies@[i].name,
            r.production_countries@.len() == movie.production_countries@.len(),
            forall|i: int|
                0 <= i < r.production_countries@.len() ==> r.production_countries@[i]
                    == movie.production_countries@[i].name,
            r.original_language == Some(movie.original_language),
            r.provider@ == "tmdb"@,
            r.external_ids.imdb_id == (match movie.external_ids {
                Some(e) => e.imdb_id,
                None => None,
            }),
            r.external_ids.tmdb_id matches Some(t) && t@ == spec_int_str(movie.id as int),
            (match movie.external_ids {
                Some(e) => match e.tvdb_id {
                    Some(tv) => r.external_ids.tvdb_id matches Some(s) && s@ == spec_int_str(
                        tv as int,
                    ),
                    None => r.external_ids.tvdb_id is None,
                },
                None => r.external_ids.tvdb_id is None,
            }),
            r.external_ids.anilist_id is None,
            r.external_ids.bangumi_id is None,
            r.external_ids.mal_id is None,
    {
        let poster_path = self.build_image_url(movie.poster_path.as_ref(), "w500");
        let backdrop_path = self.build_image_url(movie.backdrop_path.as_ref(), "original");
        let genres = genre_names(movie.genres);
        let production_companies = company_names(movie.production_companies);
        let production_countries = country_names(movie.production_countries);
        let (imdb_id, tvdb_wire) = match movie.external_ids {
            Some(e) => (e.imdb_id, e.tvdb_id),
            None => (None, None),
        };
        let tvdb_id = match tvdb_wire {
            Some(tv) => Some(i64_to_string(tv)),
            None => None,
        };
        let mut external_ids = ExternalIds::empty();
        external_ids.imdb_id = imdb_id;
        external_ids.tmdb_id = Some(i64_to_string(movie.id));
        external_ids.tvdb_id = tvdb_id;
        MovieMetadata {
            id: i64_to_string(movie.id),
            title: movie.title,
            original_title: Some(movie.original_title),
            release_date: movie.release_date,
            runtime: movie.runtime,
            overview: movie.overview,
            poster_path,
            backdrop_path,
            vote_average: movie.vote_average,
            vote_count: movie.vote_count,
            genres,
            production_companies,
            production_countries,
            original_language: Some(movie.original_language),
            provider: String::from_str("tmdb"),
            external_ids,
        }
    }

    /// Map a decoded TV detail response onto the neutral shape.
    #[verifier::loop_isolation(false)]
    pub fn tv_details_from_wire(&self, tv: TmdbTvDetails) -> (r: TvMetadata)
        ensures
            r.id@ == spec_int_str(tv.id as int),
            r.name == tv.name,
            r.original_name == Some(tv.original_name),
            r.first_air_date == tv.first_air_date,
            r.last_air_date == tv.last_air_date,
            r.overview == tv.overview,
            match tv.poster_path {
                Some(p) => r.poster_path matches Some(u) && u@ == spec_image_url("w500"@, p@),
                None => r.poster_path is None,
            },
            match tv.backdrop_path {
                Some(p) => r.backdrop_path matches Some(u) && u@ == spec_image_url(
                    "original"@,
                    p@,
                ),
                None => r.backdrop_path is None,
            },
            r.vote_average == tv.vote_average,
            r.vote_count == tv.vote_count,
            r.genres@.len() == tv.genres@.len(),
            forall|i: int| 0 <= i < r.genres@.len() ==> r.genres@[i] == tv.genres@[i].name,
            r.number_of_seasons == Some(tv.number_of_seasons),
            r.number_of_episodes == Some(tv.number_of_episodes),
            r.episode_run_time == tv.episode_run_time,
            r.status == Some(tv.status),
            r.original_language == Some(tv.original_language),
            r.production_companies@.len() == tv.production_companies@.len(),
            forall|i: int|
                0 <= i < r.production_companies@.len() ==> r.production_companies@[i]
                    == tv.production_companies@[i].name,
            r.provider@ == "tmdb"@,
            r.external_ids.imdb_id == (match tv.external_ids {
                Some(e) => e.imdb_id,
                None => None,
            }),
            r.external_ids.tmdb_id matches Some(t) && t@ == spec_int_str(tv.id as int),
            (match tv.external_ids {
                Some(e) => match e.tvdb_id {
                    Some(tvid) => r.external_ids.tvdb_id matches Some(s) && s@ == spec_int_str(
                        tvid as int,
                    ),
                    None => r.external_ids.tvdb_id is None,
                },
                None => r.external_ids.tvdb_id is None,
            }),
            r.external_ids.anilist_id is None,
            r.external_ids.bangumi_id is None,
            r.external_ids.mal_id is None,
    {
        let poster_path = self.build_image_url(tv.poster_path.as_ref(), "w500");
        let backdrop_path = self.build_image_url(tv.backdrop_path.as_ref(), "original");
        let genres = genre_names(tv.genres);
        let production_companies = company_names(tv.production_companies);
        let (imdb_id, tvdb_wire) = match tv.external_ids {
            Some(e) => (e.imdb_id, e.tvdb_id),
            None => (None, None),
        };
        let tvdb_id = match tvdb_wire {
            Some(t) => Some(i64_to_string(t)),
            None => None,
        };
        let mut external_ids = ExternalIds::empty();
        external_ids.imdb_id = imdb_id;
        external_ids.tmdb_id = Some(i64_to_string(tv.id));
        external_ids.tvdb_id = tvdb_id;
        TvMetadata {
            id: i64_to_string(tv.id),
            name: tv.name,
            original_name: Some(tv.original_name),
            first_air_date: tv.first_air_date,
            last_air_date: tv.last_air_date,
            overview: tv.overview,
            poster_path,
            backdrop_path,
            vote_average: tv.vote_average,
            vote_count: tv.vote_count,
            genres,
            number_of_seasons: Some(tv.number_of_seasons),
            number_of_episodes: Some(tv.number_of_episodes),
            episode_run_time: tv.episode_run_time,
            status: Some(tv.status),
            original_language: Some(tv.original_language),
            production_companies,
            provider: String::from_str("tmdb"),
            external_ids,
        }
    }

    /// Map a decoded episode detail response onto the neutral shape.
    pub fn episode_from_wire(&self, ep: TmdbEpisodeDetails) -> (r: EpisodeMetadata)
        ensures
            r.id@ == spec_int_str(ep.id as int),
            r.name == ep.name,
            r.season_number == ep.season_number,
            r.episode_number == ep.episode_number,
            r.air_date == ep.air_date,
            r.overview == ep.overview,
            match ep.still_path {
                Some(p) => r.still_path matches Some(u) && u@ == spec_image_url("w300"@, p@),
                None => r.still_path is None,
            },
            r.runtime == ep.runtime,
            r.vote_average == ep.vote_average,
            r.provider@ == "tmdb"@,
    {
        EpisodeMetadata {
            id: i64_to_string(ep.id),
            name: ep.name,
            season_number: ep.season_number,
            episode_number: ep.episode_number,
            air_date: ep.air_date,
            overview: ep.overview,
            still_path: self.build_image_url(ep.still_path.as_ref(), "w300"),
            runtime: ep.runtime,
            vote_average: ep.vote_average,
            provider: String::from_str("tmdb"),
        }
    }
}

/// The names of a genre list, in order.
#[verifier::loop_isolation(false)]
fn genre_names(genres: Vec<TmdbGenre>) -> (r: Vec<String>)
    ensures
        r@.len() == genres@.len(),
        forall|i: int| 0 <= i < r@.len() ==> r@[i] == genres@[i].name,
{
    let mut out: Vec<String> = Vec::new();
    let mut rest = genres;
    let ghost all = rest@;
    while rest.len() > 0
        invariant
            rest@.len() <= all.len(),
            rest@ =~= all.skip(all.len() - rest@.len()),
            out@.len() == all.len() - rest@.len(),
            forall|i: int| 0 <= i < out@.len() ==> out@[i] == all[i].name,
        decreases rest@.len(),
    {
        let ghost i = all.len() - rest@.len();
        let g = rest.remove(0);
        proof {
            assert(g == all[i as int]);
            assert(rest@ =~= all.skip(i + 1));
        }
        out.push(g.name);
    }
    out
}

/// The names of a company list, in order.
#[verifier::loop_isolation(false)]
fn company_names(companies: Vec<TmdbCompany>) -> (r: Vec<String>)
    ensures
        r@.len() == companies@.len(),
        forall|i: int| 0 <= i < r@.len() ==> r@[i] == companies@[i].name,
{
    let mut out: Vec<String> = Vec::new();
    let mut rest = companies;
    let ghost all = rest@;
    while rest.len() > 0
        invariant
            rest@.len() <= all.len(),
            rest@ =~= all.skip(all.len() - rest@.len()),
            out@.len() == all.len() - rest@.len(),
            forall|i: int| 0 <= i < out@.len() ==> out@[i] == all[i].name,
        decreases rest@.len(),
    {
        let ghost i = all.len() - rest@.len();
        let c = rest.remove(0);
        proof {
            assert(c == all[i as int]);
            assert(rest@ =~= all.skip(i + 1));
        }
        out.push(c.name);
    }
    out
}

/// The names of a country list, in order.
#[verifier::loop_isolation(false)]
fn country_names(countries: Vec<TmdbCountry>) -> (r: Vec<String>)
    ensures
        r@.len() == countries@.len(),
        forall|i: int| 0 <= i < r@.len() ==> r@[i] == countries@[i].name,
{
    let mut out: Vec<String> = Vec::new();
    let mut rest = countries;
    let ghost all = rest@;
    while rest.len() > 0
        invariant
            rest@.len() <= all.len(),
            rest@ =~= all.skip(all.len() - rest@.len()),
            out@.len() == all.len() - rest@.len(),
            forall|i: int| 0 <= i < out@.len() ==> out@[i] == all[i].name,
        decreases rest@.len(),
    {
        let ghost i = all.len() - rest@.len();
        let c = rest.remove(0);
        proof {
            assert(c == all[i as int]);
            assert(rest@ =~= all.skip(i + 1));
        }
        out.push(c.name);
    }
    out
}

} // verus!
