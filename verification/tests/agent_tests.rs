//! Metadata agent behavior: title parsing, kind-strict selection, and
//! the save/upsert pipeline with its idempotence.

use ayiah::agent::MetadataAgent;
use ayiah::store;
use ayiah::store::{CreateLibraryFolder, CreateMediaItem, LibraryFolder, MediaItem, Store, VideoMetadata};
use ayiah::types::{
    AnimeSearchResult, ExternalIds, MediaDetails, MediaSearchResult, MovieMetadata,
    MovieSearchResult, TvSearchResult,
};

fn movie_result(id: &str, title: &str) -> MovieSearchResult {
    MovieSearchResult {
        id: id.to_string(),
        title: title.to_string(),
        original_title: None,
        year: None,
        poster_path: None,
        overview: None,
        vote_average: None,
        provider: "tmdb".to_string(),
    }
}

fn tv_result(id: &str, name: &str) -> TvSearchResult {
    TvSearchResult {
        id: id.to_string(),
        name: name.to_string(),
        original_name: None,
        first_air_date: None,
        poster_path: None,
        overview: None,
        vote_average: None,
        provider: "tmdb".to_string(),
    }
}

fn empty_ids() -> ExternalIds {
    ExternalIds {
        imdb_id: None,
        tmdb_id: None,
        tvdb_id: None,
        anilist_id: None,
        bangumi_id: None,
        mal_id: None,
    }
}

fn arrival_details() -> MediaDetails {
    MediaDetails::Movie(MovieMetadata {
        id: "329865".to_string(),
        title: "Arrival".to_string(),
        original_title: Some("Arrival".to_string()),
        release_date: Some("2016-11-11".to_string()),
        runtime: Some(116),
        overview: Some("A linguist is recruited.".to_string()),
        poster_path: Some("https://image.tmdb.org/t/p/w500/poster.jpg".to_string()),
        backdrop_path: None,
        vote_average: Some(780),
        vote_count: Some(100),
        genres: vec!["Drama".to_string(), "Science Fiction".to_string()],
        production_companies: vec![],
        production_countries: vec![],
        original_language: Some("en".to_string()),
        provider: "tmdb".to_string(),
        external_ids: ExternalIds { tmdb_id: Some("329865".to_string()), ..empty_ids() },
    })
}

fn arrival_item(db: &mut Store) -> MediaItem {
    let folder = LibraryFolder::create(
        db,
        CreateLibraryFolder {
            name: "Movies".to_string(),
            path: "/media/movies".to_string(),
            media_type: store::MediaType::Movie,
        },
        1000,
    )
    .unwrap();
    MediaItem::create(
        db,
        CreateMediaItem {
            library_folder_id: folder.id,
            media_type: store::MediaType::Movie,
            title: "Arrival (2016)".to_string(),
            file_path: "/media/movies/Arrival (2016).mkv".to_string(),
            file_size: 1_000_000,
        },
        1100,
    )
    .unwrap()
}

#[test]
fn title_with_year_is_split() {
    let agent = MetadataAgent::new();
    let (title, year) = agent.parse_title_and_year("Foo (1999)");
    assert_eq!(title, "Foo");
    assert_eq!(year, Some(1999));
}

#[test]
fn short_year_passes_through() {
    let agent = MetadataAgent::new();
    let (title, year) = agent.parse_title_and_year("Foo (199)");
    assert_eq!(title, "Foo (199)");
    assert_eq!(year, None);
}

#[test]
fn title_without_year_passes_through() {
    let agent = MetadataAgent::new();
    let (title, year) = agent.parse_title_and_year("Foo");
    assert_eq!(title, "Foo");
    assert_eq!(year, None);
}

#[test]
fn trailing_space_and_last_group_win() {
    let agent = MetadataAgent::new();
    let (title, year) = agent.parse_title_and_year("Arrival (2016) ");
    assert_eq!(title, "Arrival");
    assert_eq!(year, Some(2016));
    let (title, year) = agent.parse_title_and_year("Foo (1999) (2000)");
    assert_eq!(title, "Foo (1999)");
    assert_eq!(year, Some(2000));
}

#[test]
fn selection_is_kind_strict() {
    let agent = MetadataAgent::new();
    let results = vec![
        MediaSearchResult::Tv(tv_result("7", "Arrival Show")),
        MediaSearchResult::Movie(movie_result("329865", "Arrival")),
    ];
    let selected = agent.select_matching_result(store::MediaType::Movie, results).unwrap();
    match selected {
        MediaSearchResult::Movie(m) => assert_eq!(m.id, "329865"),
        _ => panic!("selected a result of the wrong kind"),
    }
}

#[test]
fn selection_never_crosses_kinds() {
    let agent = MetadataAgent::new();
    let results = vec![MediaSearchResult::Movie(movie_result("1", "Some Movie"))];
    let err = agent.select_matching_result(store::MediaType::Tv, results).unwrap_err();
    assert_eq!(err.message(), "No matching results found");
    // An anime result serves neither a movie nor a TV folder.
    let anime = vec![MediaSearchResult::Anime(AnimeSearchResult {
        id: "9".to_string(),
        title: "Some Anime".to_string(),
        title_english: None,
        title_japanese: None,
        year: None,
        poster_path: None,
        overview: None,
        score: None,
        provider: "anilist".to_string(),
    })];
    assert!(agent.select_matching_result(store::MediaType::Movie, anime).is_err());
}

#[test]
fn metadata_enrichment_writes_row() {
    let mut db = Store::new();
    let item = arrival_item(&mut db);
    let agent = MetadataAgent::new();
    let row = agent.save_metadata(&mut db, item.id, arrival_details(), 2000).unwrap();
    assert_eq!(row.tmdb_id, Some(329865));
    assert!(row.poster_path.is_some());
    assert_eq!(row.release_date, Some("2016-11-11".to_string()));
    assert_eq!(row.media_item_id, item.id);
    let stored = VideoMetadata::find_by_media_item_id(&db, item.id).unwrap();
    assert_eq!(stored.tmdb_id, Some(329865));
}

#[test]
fn refetch_is_idempotent_with_newer_timestamp() {
    let mut db = Store::new();
    let item = arrival_item(&mut db);
    let agent = MetadataAgent::new();
    let first = agent.save_metadata(&mut db, item.id, arrival_details(), 2000).unwrap();
    let second = agent.save_metadata(&mut db, item.id, arrival_details(), 3000).unwrap();
    assert_eq!(second.id, first.id);
    assert_eq!(second.tmdb_id, first.tmdb_id);
    assert_eq!(second.overview, first.overview);
    assert_eq!(second.genres, first.genres);
    assert_eq!(second.created_at, first.created_at);
    assert!(second.updated_at > first.updated_at);
    assert_eq!(db.metadata.len(), 1);
}

#[test]
fn anime_details_are_rejected() {
    let mut db = Store::new();
    let item = arrival_item(&mut db);
    let agent = MetadataAgent::new();
    let details = MediaDetails::Anime(ayiah::types::AnimeMetadata {
        id: "1".to_string(),
        title: "Some Anime".to_string(),
        title_english: None,
        title_japanese: None,
        start_date: None,
        end_date: None,
        overview: None,
        poster_path: None,
        backdrop_path: None,
        score: None,
        genres: vec![],
        episodes: None,
        status: None,
        format: None,
        provider: "anilist".to_string(),
        external_ids: empty_ids(),
    });
    let err = agent.save_metadata(&mut db, item.id, details, 2000).unwrap_err();
    assert_eq!(err.message(), "Unsupported media type: Anime not yet supported");
    assert_eq!(db.metadata.len(), 0);
}

#[test]
fn unknown_item_is_a_database_error() {
    let mut db = Store::new();
    let agent = MetadataAgent::new();
    let err = agent.save_metadata(&mut db, 77, arrival_details(), 2000).unwrap_err();
    assert_eq!(err.message(), "Database error: foreign key constraint violation");
}

#[test]
fn refresh_finds_its_item() {
    let mut db = Store::new();
    let item = arrival_item(&mut db);
    let agent = MetadataAgent::new();
    let found = agent.refresh_target(&db, item.id).unwrap();
    assert_eq!(found.id, item.id);
    let err = agent.refresh_target(&db, 999).unwrap_err();
    assert_eq!(err.message(), "Media item not found");
    assert_eq!(agent.inter_request_delay_ms(), 250);
}
