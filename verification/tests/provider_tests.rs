//! Provider adapter behavior: URL building with percent-encoding, the
//! wire mappings, the kind checks, the TVDB token lifecycle, and the
//! aggregation across providers.

use ayiah::anilist::{AniListDate, AniListProvider, AniListSearchMedia};
use ayiah::bangumi::{BangumiProvider, BangumiSearchSubject, BangumiSubject};
use ayiah::provider::ProviderConfig;
use ayiah::rate_limiter::RateLimitConfig;
use ayiah::scraper::{ScraperError, ScraperManager};
use ayiah::tmdb::{TmdbExternalIds, TmdbMovieDetails, TmdbMovieSearchResult, TmdbProvider};
use ayiah::tvdb::{TvdbEpisode, TvdbFlow, TvdbOutcome, TvdbProvider};
use ayiah::types::{MediaSearchResult, MovieSearchResult};

fn movie_result(id: &str) -> MediaSearchResult {
    MediaSearchResult::Movie(MovieSearchResult {
        id: id.to_string(),
        title: "Arrival".to_string(),
        original_title: None,
        year: None,
        poster_path: None,
        overview: None,
        vote_average: None,
        provider: "tmdb".to_string(),
    })
}

#[test]
fn provider_config_builders() {
    let config = ProviderConfig::new("https://api.example".to_string())
        .with_api_key("SECRET-REDACTED".to_string())
        .with_rate_limit(RateLimitConfig { max_concurrent: 2, max_requests: 3, window_seconds: 4 })
        .with_cache_ttl(86400);
    assert_eq!(config.base_url, "https://api.example");
    assert_eq!(config.api_key.as_deref(), Some("SECRET-REDACTED"));
    assert_eq!(config.rate_limit.max_requests, 3);
    assert_eq!(config.cache_ttl, 86400);
}

#[test]
fn tmdb_urls_are_percent_encoded() {
    let tmdb = TmdbProvider::new("k".to_string());
    assert_eq!(
        tmdb.search_movie_url("The Matrix", Some(1999)),
        "https://api.themoviedb.org/3/search/movie?api_key=k&query=The%20Matrix&year=1999"
    );
    assert_eq!(
        tmdb.search_tv_url("Severance", None),
        "https://api.themoviedb.org/3/search/tv?api_key=k&query=Severance"
    );
    assert_eq!(
        tmdb.movie_details_url("329865"),
        "https://api.themoviedb.org/3/movie/329865?api_key=k&append_to_response=external_ids"
    );
    assert_eq!(
        tmdb.episode_details_url("1396", 5, 14),
        "https://api.themoviedb.org/3/tv/1396/season/5/episode/14?api_key=k"
    );
}

#[test]
fn tmdb_movie_search_mapping() {
    let tmdb = TmdbProvider::new("k".to_string());
    let mapped = tmdb.movie_search_from_wire(TmdbMovieSearchResult {
        id: 329865,
        title: "Arrival".to_string(),
        original_title: "Arrival".to_string(),
        release_date: Some("2016-11-11".to_string()),
        poster_path: Some("/poster.jpg".to_string()),
        overview: Some("A linguist.".to_string()),
        vote_average: Some(780),
    });
    assert_eq!(mapped.id, "329865");
    assert_eq!(mapped.year, Some(2016));
    assert_eq!(
        mapped.poster_path.as_deref(),
        Some("https://image.tmdb.org/t/p/w500/poster.jpg")
    );
    assert_eq!(mapped.provider, "tmdb");
}

#[test]
fn tmdb_movie_details_mapping() {
    let tmdb = TmdbProvider::new("k".to_string());
    let mapped = tmdb.movie_details_from_wire(TmdbMovieDetails {
        id: 329865,
        title: "Arrival".to_string(),
        original_title: "Arrival".to_string(),
        release_date: Some("2016-11-11".to_string()),
        runtime: Some(116),
        overview: None,
        poster_path: Some("/p.jpg".to_string()),
        backdrop_path: Some("/b.jpg".to_string()),
        vote_average: Some(780),
        vote_count: Some(100),
        genres: vec![
            ayiah::tmdb::TmdbGenre { id: 18, name: "Drama".to_string() },
            ayiah::tmdb::TmdbGenre { id: 878, name: "Science Fiction".to_string() },
        ],
        production_companies: vec![],
        production_countries: vec![],
        original_language: "en".to_string(),
        external_ids: Some(TmdbExternalIds {
            imdb_id: Some("tt2543164".to_string()),
            tvdb_id: None,
        }),
    });
    assert_eq!(mapped.id, "329865");
    assert_eq!(mapped.genres, vec!["Drama".to_string(), "Science Fiction".to_string()]);
    assert_eq!(
        mapped.backdrop_path.as_deref(),
        Some("https://image.tmdb.org/t/p/original/b.jpg")
    );
    assert_eq!(mapped.external_ids.tmdb_id.as_deref(), Some("329865"));
    assert_eq!(mapped.external_ids.imdb_id.as_deref(), Some("tt2543164"));
}

#[test]
fn tmdb_rejects_anime_details() {
    let tmdb = TmdbProvider::new("k".to_string());
    let anime = MediaSearchResult::Anime(ayiah::types::AnimeSearchResult {
        id: "1".to_string(),
        title: "x".to_string(),
        title_english: None,
        title_japanese: None,
        year: None,
        poster_path: None,
        overview: None,
        score: None,
        provider: "anilist".to_string(),
    });
    match tmdb.details_url_for(&anime) {
        Err(ScraperError::Config(m)) => assert_eq!(m, "TMDB does not support anime"),
        _ => panic!("anime must be refused"),
    }
}

#[test]
fn tvdb_reauthenticates_exactly_once() {
    let mut tvdb = TvdbProvider::new("k".to_string());
    assert!(matches!(tvdb.begin_request(), TvdbFlow::NeedLogin));
    tvdb.token_received("tok1".to_string());
    match tvdb.begin_request() {
        TvdbFlow::SendRequest(t) => assert_eq!(t, "tok1"),
        TvdbFlow::NeedLogin => panic!("token should be cached"),
    }
    // First 401: the token is dropped and one retry is requested.
    match tvdb.on_status(401, "denied".to_string(), false) {
        TvdbOutcome::RetryAfterLogin => {}
        _ => panic!("first rejection must trigger one re-login"),
    }
    assert!(matches!(tvdb.begin_request(), TvdbFlow::NeedLogin));
    tvdb.token_received("tok2".to_string());
    // Second 401 within the same request: the failure propagates.
    match tvdb.on_status(401, "denied".to_string(), true) {
        TvdbOutcome::Fail(ScraperError::Api { status, .. }) => assert_eq!(status, 401),
        _ => panic!("second rejection must propagate"),
    }
    // A success proceeds.
    assert!(matches!(tvdb.on_status(200, String::new(), true), TvdbOutcome::Proceed));
}

#[test]
fn tvdb_urls_and_episode_selection() {
    let tvdb = TvdbProvider::new("k".to_string());
    assert_eq!(
        tvdb.search_tv_url("Dark Matter"),
        "https://api4.thetvdb.com/v4/search?query=Dark%20Matter&type=series"
    );
    assert_eq!(tvdb.series_url("7"), "https://api4.thetvdb.com/v4/series/7/extended");
    let episodes = vec![
        TvdbEpisode {
            id: 1,
            name: "One".to_string(),
            season_number: 1,
            number: 1,
            aired: None,
            overview: None,
            image: None,
            runtime: None,
        },
        TvdbEpisode {
            id: 2,
            name: "Two".to_string(),
            season_number: 1,
            number: 2,
            aired: None,
            overview: None,
            image: None,
            runtime: None,
        },
    ];
    let ep = tvdb.episode_from_season(episodes, 1, 2).unwrap();
    assert_eq!(ep.name, "Two");
    assert_eq!(ep.episode_number, 2);
    let missing = tvdb.episode_from_season(vec![], 1, 3).unwrap_err();
    assert_eq!(missing.message(), "Not found: Episode 3 not found in season 1");
}

#[test]
fn anilist_mapping_and_kind_check() {
    let anilist = AniListProvider::new();
    assert_eq!(anilist.name(), "anilist");
    assert!(!anilist.requires_api_key());
    let mapped = anilist.anime_search_from_wire(AniListSearchMedia {
        id: 21,
        title_romaji: "One Piece".to_string(),
        title_english: Some("One Piece".to_string()),
        title_native: "ワンピース".to_string(),
        season_year: Some(1999),
        cover_image_large: "https://img/one.jpg".to_string(),
        description: None,
        average_score: Some(85),
    });
    assert_eq!(mapped.id, "21");
    assert_eq!(mapped.score, Some(850));
    let date = anilist
        .format_date(Some(&AniListDate { year: Some(2016), month: Some(3), day: Some(9) }))
        .unwrap();
    assert_eq!(date, "2016-03-09");
    assert_eq!(
        anilist.format_date(Some(&AniListDate { year: Some(2016), month: None, day: Some(9) })),
        None
    );
    match anilist.details_id_for(&movie_result("329865")) {
        Err(ScraperError::Config(m)) => assert_eq!(m, "AniList specializes in anime"),
        _ => panic!("a movie result must be refused"),
    }
    match anilist.episode_details_error() {
        ScraperError::Config(m) => {
            assert_eq!(m, "AniList does not provide individual episode details")
        }
        _ => panic!("unexpected error kind"),
    }
}

#[test]
fn bangumi_mapping_and_kind_check() {
    let bangumi = BangumiProvider::new();
    assert_eq!(
        bangumi.search_url("葬送のフリーレン"),
        format!(
            "https://api.bgm.tv/search/subject/{}?type=2&responseGroup=small",
            urlencoding::encode("葬送のフリーレン")
        )
    );
    let mapped = bangumi.anime_search_from_wire(BangumiSearchSubject {
        id: 400602,
        name: "葬送のフリーレン".to_string(),
        name_cn: Some("葬送的芙莉莲".to_string()),
        air_date: Some("2023-09-29".to_string()),
        image_large: None,
        summary: None,
        score: Some(880),
    });
    assert_eq!(mapped.title, "葬送的芙莉莲");
    assert_eq!(mapped.title_japanese.as_deref(), Some("葬送のフリーレン"));
    assert_eq!(mapped.year, Some(2023));
    let details = bangumi.anime_details_from_wire(BangumiSubject {
        id: 400602,
        subject_type: 2,
        name: "x".to_string(),
        name_cn: None,
        summary: None,
        date: None,
        image_large: None,
        eps: Some(28),
        rating_score: None,
        tags: vec![ayiah::bangumi::BangumiTag { name: "fantasy".to_string() }],
    });
    assert_eq!(details.format.as_deref(), Some("TV"));
    assert_eq!(details.genres, vec!["fantasy".to_string()]);
    match bangumi.details_id_for(&movie_result("1")) {
        Err(ScraperError::Config(m)) => assert_eq!(m, "Bangumi specializes in anime/manga"),
        _ => panic!("a movie result must be refused"),
    }
}

#[test]
fn manager_merges_and_routes() {
    let mut manager = ScraperManager::new();
    manager.add_provider("tmdb".to_string());
    manager.add_provider("anilist".to_string());
    assert_eq!(manager.providers().len(), 2);
    assert_eq!(manager.find_provider("anilist").unwrap(), 1);
    match manager.find_provider("tvdb") {
        Err(ScraperError::Config(m)) => assert_eq!(m, "Provider not found: tvdb"),
        _ => panic!("unknown provider must be refused"),
    }

    let merged = manager
        .merge_search_results(
            vec![
                Err(ScraperError::Network("down".to_string())),
                Ok(vec![movie_result("329865")]),
            ],
            "Arrival",
        )
        .unwrap();
    assert_eq!(merged.len(), 1);

    match manager.merge_search_results(
        vec![Err(ScraperError::Network("down".to_string())), Ok(vec![])],
        "Arrival",
    ) {
        Err(ScraperError::NotFound(m)) => assert_eq!(m, "No provider could find: Arrival"),
        _ => panic!("an empty merge must be NotFound"),
    }
}

#[test]
fn tmdb_search_combines_halves() {
    let tmdb = TmdbProvider::new("k".to_string());
    let movies = vec![tmdb.movie_search_from_wire(TmdbMovieSearchResult {
        id: 1,
        title: "m".to_string(),
        original_title: "m".to_string(),
        release_date: None,
        poster_path: None,
        overview: None,
        vote_average: None,
    })];
    let combined = tmdb
        .search(Ok(movies), Err(ScraperError::Network("down".to_string())), "m")
        .unwrap();
    assert_eq!(combined.len(), 1);
    match tmdb.search(
        Err(ScraperError::Network("down".to_string())),
        Err(ScraperError::Network("down".to_string())),
        "m",
    ) {
        Err(ScraperError::NotFound(m)) => assert_eq!(m, "No results found for: m"),
        _ => panic!("an empty combination must be NotFound"),
    }
}
