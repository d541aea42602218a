//! TVDB catalog adapter: request URLs, the token lifecycle, response
//! shapes and their mapping. TVDB serves TV shows only and requires an
//! API key; a bearer token is obtained by a login call, cached in the
//! adapter, and refreshed once when a request comes back unauthorized.
//!
//! The HTTP calls and the JSON decoding happen outside the library;
//! the driver reports each response status back to the adapter and
//! follows the decision it returns.

use vstd::prelude::*;
use crate::provider::{url_encoded_of, url_encode};
use crate::scraper::{spec_is_success, ScraperError};
use crate::strutil::{spec_int_str, i64_to_string};
use crate::types::{
    EpisodeMetadata,
    ExternalIds,
    MediaSearchResult,
    TvMetadata,
    TvSearchResult,
};

verus! {

/// The TVDB API root.
pub fn tvdb_api_url() -> (r: &'static str)
    ensures
        r@ == "https://api4.thetvdb.com/v4"@,
{
    "https://api4.thetvdb.com/v4"
}

/// TVDB provider, with its cached bearer token.
pub struct TvdbProvider {
    pub api_key: String,
    pub token: Option<String>,
}

/// What the driver must do before sending an API request.
#[derive(Debug, Clone)]
pub enum TvdbFlow {
    /// No token is cached: log in first.
    NeedLogin,
    /// Send the request with this bearer token.
    SendRequest(String),
}

/// What the driver must do with a response status.
#[derive(Debug, Clone)]
pub enum TvdbOutcome {
    /// Parse the body.
    Proceed,
    /// The token was rejected for the first time: log in again and
    /// retry the request once.
    RetryAfterLogin,
    /// Give up with this error.
    Fail(ScraperError),
}

/// A search result row, as decoded from the wire.
#[derive(Debug)]
pub struct TvdbSearchResult {
    pub tvdb_id: String,
    pub name: String,
    pub original_name: Option<String>,
    pub first_aired: Option<String>,
    pub image_url: Option<String>,
    pub overview: Option<String>,
}

/// A genre row of a series response.
#[derive(Debug)]
pub struct TvdbGenre {
    pub name: String,
}

/// A series detail response.
#[derive(Debug)]
pub struct TvdbSeriesDetails {
    pub id: i64,
    pub name: String,
    pub overview: Option<String>,
    pub first_aired: Option<String>,
    pub last_aired: Option<String>,
    pub image: Option<String>,
    /// Score scaled by 100.
    pub score: Option<i64>,
    pub status_name: String,
    pub original_language: Option<String>,
    pub genres: Option<Vec<TvdbGenre>>,
}

/// An episode row of a season response.
#[derive(Debug)]
pub struct TvdbEpisode {
    pub id: i64,
    pub name: String,
    pub season_number: i32,
    pub number: i32,
    pub aired: Option<String>,
    pub overview: Option<String>,
    pub image: Option<String>,
    pub runtime: Option<i32>,
}

impl TvdbProvider {
    /// Create a new TVDB provider with no cached token.
    pub fn new(api_key: String) -> (r: TvdbProvider)
        ensures
            r.api_key == api_key,
            r.token is None,
    {
        TvdbProvider { api_key, token: None }
    }

    /// Provider name.
    pub fn name(&self) -> (r: &'static str)
        ensures
            r@ == "tvdb"@,
    {
        "tvdb"
    }

    /// Whether the provider requires an API key.
    pub fn requires_api_key(&self) -> (r: bool)
        ensures
            r == true,
    {
        true
    }

    /// The login endpoint.
    pub fn login_url(&self) -> (r: String)
        ensures
            r@ == "https://api4.thetvdb.com/v4"@ + "/login"@,
    {
        let u = String::from_str(tvdb_api_url()).concat("/login");
        proof {
            assert(u@ =~= "https://api4.thetvdb.com/v4"@ + "/login"@);
        }
        u
    }

    /// Whether a request can go out right away, and with which token.
    pub fn begin_request(&self) -> (r: TvdbFlow)
        ensures
            match r {
                TvdbFlow::NeedLogin => self.token is None,
                TvdbFlow::SendRequest(t) => self.token matches Some(c) && c@ == t@,
            },
    {
        match &self.token {
            Some(t) => TvdbFlow::SendRequest(t.clone()),
            None => TvdbFlow::NeedLogin,
        }
    }

    /// Cache the token a login call returned.
    pub fn token_received(&mut self, token: String)
        ensures
            final(self).token == Some(token),
            final(self).api_key == old(self).api_key,
    {
        self.token = Some(token);
    }

    /// Decide what a response status means. An unauthorized answer
    /// drops the cached token and asks for one fresh login — but only
    /// the first time: a second rejection propagates the failure.
    pub fn on_status(&mut self, status: u16, body: String, already_retried: bool) -> (r:
        TvdbOutcome)
        ensures
            on_status_post(*old(self), *final(self), status, body, already_retried, r),
    {
        if status >= 200 && status < 300 {
            TvdbOutcome::Proceed
        } else if status == 401 && !already_retried {
            self.token = None;
            TvdbOutcome::RetryAfterLogin
        } else {
            TvdbOutcome::Fail(ScraperError::Api { status, message: body })
        }
    }

    /// The URL of a series search, query percent-encoded.
    pub fn search_tv_url(&self, query: &str) -> (r: String)
        ensures
            r@ == "https://api4.thetvdb.com/v4"@ + "/search?query="@ + url_encoded_of(query@)
                + "&type=series"@,
    {
        let u = String::from_str(tvdb_api_url()).concat("/search?query=").concat(
            url_encode(query).as_str(),
        ).concat("&type=series");
        proof {
            assert(u@ =~= "https://api4.thetvdb.com/v4"@ + "/search?query="@ + url_encoded_of(
                query@,
            ) + "&type=series"@);
        }
        u
    }

    /// The URL of an extended series lookup.
    pub fn series_url(&self, id: &str) -> (r: String)
        ensures
            r@ == "https://api4.thetvdb.com/v4"@ + "/series/"@ + id@ + "/extended"@,
    {
        let u = String::from_str(tvdb_api_url()).concat("/series/").concat(id).concat("/extended");
        proof {
            assert(u@ =~= "https://api4.thetvdb.com/v4"@ + "/series/"@ + id@ + "/extended"@);
        }
        u
    }

    /// The URL of a season's episode listing.
    pub fn season_episodes_url(&self, series_id: &str, season: i32) -> (r: String)
        ensures
            r@ == "https://api4.thetvdb.com/v4"@ + "/series/"@ + series_id@
                + "/episodes/default?season="@ + spec_int_str(season as int),
    {
        let u = String::from_str(tvdb_api_url()).concat("/series/").concat(series_id).concat(
            "/episodes/default?season=",
        ).concat(crate::strutil::i32_to_string(season).as_str());
        proof {
            assert(u@ =~= "https://api4.thetvdb.com/v4"@ + "/series/"@ + series_id@
                + "/episodes/default?season="@ + spec_int_str(season as int));
        }
        u
    }

    /// Map one decoded search row onto the neutral shape.
    pub fn tv_search_from_wire(&self, series: TvdbSearchResult) -> (r: TvSearchResult)
        ensures
            r.id == series.tvdb_id,
            r.name == series.name,
            r.original_name == series.original_name,
            r.first_air_date == series.first_aired,
            r.poster_path == series.image_url,
            r.overview == series.overview,
            r.vote_average is None,
            r.provider@ == "tvdb"@,
    {
        TvSearchResult {
            id: series.tvdb_id,
            name: series.name,
            original_name: series.original_name,
            first_air_date: series.first_aired,
            poster_path: series.image_url,
            overview: series.overview,
            vote_average: None,
            provider: String::from_str("tvdb"),
        }
    }

    /// Map a decoded series detail response onto the neutral shape.
    #[verifier::loop_isolation(false)]
    pub fn tv_details_from_wire(&self, series: TvdbSeriesDetails) -> (r: TvMetadata)
        ensures
            r.id@ == spec_int_str(series.id as int),
            r.name == series.name,
            r.original_name is None,
            r.first_air_date == series.first_aired,
            r.last_air_date == series.last_aired,
            r.overview == series.overview,
            r.poster_path == series.image,
            r.backdrop_path is None,
            r.vote_average == series.score,
            r.vote_count is None,
            (match series.genres {
                Some(gs) => r.genres@.len() == gs@.len() && forall|i: int|
                    0 <= i < r.genres@.len() ==> r.genres@[i] == gs@[i].name,
                None => r.genres@.len() == 0,
            }),
            r.number_of_seasons is None,
            r.number_of_episodes is None,
            r.episode_run_time@.len() == 0,
            r.status == Some(series.status_name),
            r.original_language == series.original_language,
            r.production_companies@.len() == 0,
            r.provider@ == "tvdb"@,
            r.external_ids.tvdb_id matches Some(t) && t@ == spec_int_str(series.id as int),
            r.external_ids.imdb_id is None,
            r.external_ids.tmdb_id is None,
            r.external_ids.anilist_id is None,
            r.external_ids.bangumi_id is None,
            r.external_ids.mal_id is None,
    {
        let genres: Vec<String> = match series.genres {
            Some(gs) => {
                let mut out: Vec<String> = Vec::new();
                let mut rest = gs;
                let ghost all = rest@;
                while rest.len() > 0
                    invariant
                        rest@.len() <= all.len(),
                        rest@ =~= all.skip(all.len() - rest@.len()),
                        out@.len() == all.len() - rest@.len(),
                        forall|i: int| 0 <= i < out@.len() ==> out@[i] == all[i].name,
                    decreases rest@.len(),
                {
                    let ghost i = all.len() - rest@.len();
                    let g = rest.remove(0);
                    proof {
                        assert(g == all[i as int]);
                        assert(rest@ =~= all.skip(i + 1));
                    }
                    out.push(g.name);
                }
                out
            },
            None => Vec::new(),
        };
        let mut external_ids = ExternalIds::empty();
        external_ids.tvdb_id = Some(i64_to_string(series.id));
        TvMetadata {
            id: i64_to_string(series.id),
            name: series.name,
            original_name: None,
            first_air_date: series.first_aired,
            last_air_date: series.last_aired,
            overview: series.overview,
            poster_path: series.image,
            backdrop_path: None,
            vote_average: series.score,
            vote_count: None,
            genres,
            number_of_seasons: None,
            number_of_episodes: None,
            episode_run_time: Vec::new(),
            status: Some(series.status_name),
            original_language: series.original_language,
            production_companies: Vec::new(),
            provider: String::from_str("tvdb"),
            external_ids,
        }
    }

    /// A search result this provider can fetch details for: TVDB only
    /// serves TV shows.
    pub fn details_id_for(&self, result: &MediaSearchResult) -> (r: Result<String, ScraperError>)
        ensures
            match result {
                MediaSearchResult::Tv(t) => r matches Ok(id) && id@ == t.id@,
                MediaSearchResult::Movie(_) => r matches Err(e) && e
                    matches ScraperError::Config(m) && m@ == "TVDB does not support movies"@,
                MediaSearchResult::Anime(_) => r matches Err(e) && e
                    matches ScraperError::Config(m) && m@ == "TVDB does not support anime"@,
            },
    {
        match result {
            MediaSearchResult::Tv(t) => Ok(t.id.clone()),
            MediaSearchResult::Movie(_) => Err(
                ScraperError::Config(String::from_str("TVDB does not support movies")),
            ),
            MediaSearchResult::Anime(_) => Err(
                ScraperError::Config(String::from_str("TVDB does not support anime")),
            ),
        }
    }

    /// Select the requested episode from a season listing and map it
    /// onto the neutral shape; a missing episode number is reported as
    /// not found.
    #[verifier::loop_isolation(false)]
    pub fn episode_from_season(
        &self,
        episodes: Vec<TvdbEpisode>,
        season: i32,
        episode: i32,
    ) -> (r: Result<EpisodeMetadata, ScraperError>)
        ensures
            match r {
                Ok(ep) => {
                    &&& exists|i: int|
                        {
                            &&& 0 <= i < episodes@.len()
                            &&& (#[trigger] episodes@[i]).number == episode
                            &&& ep.id@ == spec_int_str(episodes@[i].id as int)
                            &&& ep.name == episodes@[i].name
                            &&& ep.season_number == episodes@[i].season_number
                            &&& ep.episode_number == episodes@[i].number
                            &&& ep.air_date == episodes@[i].aired
                            &&& ep.overview == episodes@[i].overview
                            &&& ep.still_path == episodes@[i].image
                            &&& ep.runtime == episodes@[i].runtime
                            &&& forall|j: int|
                                0 <= j < i ==> (#[trigger] episodes@[j]).number != episode
                        }
                    &&& ep.vote_average is None
                    &&& ep.provider@ == "tvdb"@
                },
                Err(e) => {
                    &&& forall|i: int|
                        0 <= i < episodes@.len() ==> (#[trigger] episodes@[i]).number != episode
                    &&& e matches ScraperError::NotFound(m) && m@ == "Episode "@ + spec_int_str(
                        episode as int,
                    ) + " not found in season "@ + spec_int_str(season as int)
                },
            },
    {
        let mut rest = episodes;
        let ghost all = rest@;
        while rest.len() > 0
            invariant
                rest@.len() <= all.len(),
                rest@ =~= all.skip(all.len() - rest@.len()),
                forall|j: int|
                    0 <= j < all.len() - rest@.len() ==> (#[trigger] all[j]).number != episode,
            decreases rest@.len(),
        {
            let ghost i = all.len() - rest@.len();
            let ep = rest.remove(0);
            proof {
                assert(ep == all[i as int]);
                assert(rest@ =~= all.skip(i + 1));
            }
            if ep.number == episode {
                return Ok(
                    EpisodeMetadata {
                        id: i64_to_string(ep.id),
                        name: ep.name,
                        season_number: ep.season_number,
                        episode_number: ep.number,
                        air_date: ep.aired,
                        overview: ep.overview,
                        still_path: ep.image,
                        runtime: ep.runtime,
                        vote_average: None,
                        provider: String::from_str("tvdb"),
                    },
                );
            }
        }
        let msg = String::from_str("Episode ").concat(
            crate::strutil::i32_to_string(episode).as_str(),
        ).concat(" not found in season ").concat(crate::strutil::i32_to_string(season).as_str());
        proof {
            assert(msg@ =~= "Episode "@ + spec_int_str(episode as int) + " not found in season "@
                + spec_int_str(season as int));
        }
        Err(ScraperError::NotFound(msg))
    }
}

/// The token lifecycle never re-authenticates twice for one request: a
/// first unauthorized answer asks for a fresh login, and any
/// unauthorized answer after that retry propagates the failure.
pub proof fn lemma_reauth_once(
    s0: TvdbProvider,
    s1: TvdbProvider,
    s2: TvdbProvider,
    r1: TvdbOutcome,
    r2: TvdbOutcome,
    status1: u16,
    status2: u16,
    body1: String,
    body2: String,
)
    requires
        // First response handled with no retry behind it, second after
        // the one retry.
        on_status_post(s0, s1, status1, body1, false, r1),
        r1 is RetryAfterLogin,
        on_status_post(s1, s2, status2, body2, true, r2),
    ensures
        status1 == 401,
        !(r2 is RetryAfterLogin),
        status2 == 401 ==> (r2 matches TvdbOutcome::Fail(e) && (e matches ScraperError::Api {
            status: s,
            message,
        } && s == 401)),
{
}

/// What `on_status` leaves behind; its contract, as a predicate for
/// laws that span two calls.
pub open spec fn on_status_post(
    pre: TvdbProvider,
    post: TvdbProvider,
    status: u16,
    body: String,
    already_retried: bool,
    r: TvdbOutcome,
) -> bool {
    &&& post.api_key == pre.api_key
    &&& match r {
        TvdbOutcome::Proceed => spec_is_success(status) && post == pre,
        TvdbOutcome::RetryAfterLogin => status == 401 && !already_retried && post.token is None,
        TvdbOutcome::Fail(e) => {
            &&& !spec_is_success(status)
            &&& (status == 401 ==> already_retried)
            &&& post == pre
            &&& e matches ScraperError::Api { status: s, message } && s == status && message@
                == body@
        },
    }
}

} // verus!
