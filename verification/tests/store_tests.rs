//! Store behavior: uniqueness constraints, the cascade of a folder
//! delete, upsert semantics and the list queries.

use ayiah::store::{
    CreateLibraryFolder, CreateMediaItem, CreateVideoMetadata, LibraryFolder, MediaItem,
    MediaItemWithMetadata, MediaType, Store, StoreError, VideoMetadata,
};

fn folder(db: &mut Store, name: &str, path: &str, kind: MediaType) -> LibraryFolder {
    LibraryFolder::create(
        db,
        CreateLibraryFolder { name: name.to_string(), path: path.to_string(), media_type: kind },
        1000,
    )
    .unwrap()
}

fn item(db: &mut Store, folder_id: i64, path: &str) -> MediaItem {
    MediaItem::create(
        db,
        CreateMediaItem {
            library_folder_id: folder_id,
            media_type: MediaType::Movie,
            title: "t".to_string(),
            file_path: path.to_string(),
            file_size: 1,
        },
        1100,
    )
    .unwrap()
}

fn metadata_request(media_item_id: i64, overview: &str) -> CreateVideoMetadata {
    CreateVideoMetadata {
        media_item_id,
        tmdb_id: Some(1),
        tvdb_id: None,
        imdb_id: None,
        overview: Some(overview.to_string()),
        poster_path: None,
        backdrop_path: None,
        release_date: None,
        runtime: None,
        vote_average: None,
        vote_count: None,
        genres: vec!["Drama".to_string()],
    }
}

#[test]
fn folder_paths_are_unique() {
    let mut db = Store::new();
    folder(&mut db, "a", "/media/a", MediaType::Movie);
    let err = LibraryFolder::create(
        &mut db,
        CreateLibraryFolder {
            name: "b".to_string(),
            path: "/media/a".to_string(),
            media_type: MediaType::Tv,
        },
        1001,
    )
    .unwrap_err();
    assert_eq!(err, StoreError::UniqueViolation);
    assert_eq!(db.folders.len(), 1);
}

#[test]
fn item_paths_are_globally_unique() {
    let mut db = Store::new();
    let f1 = folder(&mut db, "a", "/media/a", MediaType::Movie);
    let f2 = folder(&mut db, "b", "/media/b", MediaType::Movie);
    item(&mut db, f1.id, "/media/a/x.mkv");
    let err = MediaItem::create(
        &mut db,
        CreateMediaItem {
            library_folder_id: f2.id,
            media_type: MediaType::Movie,
            title: "t".to_string(),
            file_path: "/media/a/x.mkv".to_string(),
            file_size: 2,
        },
        1200,
    )
    .unwrap_err();
    assert_eq!(err, StoreError::UniqueViolation);
}

#[test]
fn item_needs_existing_folder() {
    let mut db = Store::new();
    let err = MediaItem::create(
        &mut db,
        CreateMediaItem {
            library_folder_id: 42,
            media_type: MediaType::Movie,
            title: "t".to_string(),
            file_path: "/media/x.mkv".to_string(),
            file_size: 2,
        },
        1200,
    )
    .unwrap_err();
    assert_eq!(err, StoreError::ForeignKeyViolation);
}

#[test]
fn deleting_a_folder_cascades() {
    let mut db = Store::new();
    let kept = folder(&mut db, "keep", "/media/keep", MediaType::Movie);
    let doomed = folder(&mut db, "doom", "/media/doom", MediaType::Movie);
    let kept_item = item(&mut db, kept.id, "/media/keep/x.mkv");
    let doomed_item = item(&mut db, doomed.id, "/media/doom/y.mkv");
    VideoMetadata::upsert(&mut db, metadata_request(kept_item.id, "keep"), 2000).unwrap();
    VideoMetadata::upsert(&mut db, metadata_request(doomed_item.id, "doom"), 2000).unwrap();

    LibraryFolder::delete(&mut db, doomed.id).unwrap();

    // The folder, its item and its metadata row are gone; nothing else.
    assert!(LibraryFolder::find_by_id(&db, doomed.id).is_none());
    assert!(MediaItem::find_by_id(&db, doomed_item.id).is_none());
    assert!(VideoMetadata::find_by_media_item_id(&db, doomed_item.id).is_none());
    assert!(LibraryFolder::find_by_id(&db, kept.id).is_some());
    assert!(MediaItem::find_by_id(&db, kept_item.id).is_some());
    assert!(VideoMetadata::find_by_media_item_id(&db, kept_item.id).is_some());
    // No dangling metadata: every row still has its item.
    for m in &db.metadata {
        assert!(MediaItem::find_by_id(&db, m.media_item_id).is_some());
    }
}

#[test]
fn upsert_replaces_content_and_keeps_identity() {
    let mut db = Store::new();
    let f = folder(&mut db, "a", "/media/a", MediaType::Movie);
    let it = item(&mut db, f.id, "/media/a/x.mkv");
    let first = VideoMetadata::upsert(&mut db, metadata_request(it.id, "one"), 2000).unwrap();
    let second = VideoMetadata::upsert(&mut db, metadata_request(it.id, "two"), 3000).unwrap();
    assert_eq!(second.id, first.id);
    assert_eq!(second.created_at, first.created_at);
    assert_eq!(second.overview, Some("two".to_string()));
    assert_eq!(second.updated_at, 3000);
    assert_eq!(db.metadata.len(), 1);
}

#[test]
fn upsert_requires_item() {
    let mut db = Store::new();
    let err = VideoMetadata::upsert(&mut db, metadata_request(9, "x"), 2000).unwrap_err();
    assert_eq!(err, StoreError::ForeignKeyViolation);
}

#[test]
fn lists_come_newest_first() {
    let mut db = Store::new();
    let f1 = folder(&mut db, "a", "/media/a", MediaType::Movie);
    let f2 = folder(&mut db, "b", "/media/b", MediaType::Tv);
    let all = LibraryFolder::list_all(&db);
    assert_eq!(all.len(), 2);
    assert_eq!(all[0].id, f2.id);
    assert_eq!(all[1].id, f1.id);

    let mut disabled = LibraryFolder::find_by_id(&db, f2.id).unwrap();
    disabled.enabled = false;
    disabled.update(&mut db, 5000).unwrap();
    let enabled = LibraryFolder::list_enabled(&db);
    assert_eq!(enabled.len(), 1);
    assert_eq!(enabled[0].id, f1.id);

    let i1 = item(&mut db, f1.id, "/media/a/x.mkv");
    let i2 = item(&mut db, f1.id, "/media/a/y.mkv");
    let movies = MediaItem::list_by_type(&db, MediaType::Movie);
    assert_eq!(movies.len(), 2);
    assert_eq!(movies[0].id, i2.id);
    assert_eq!(movies[1].id, i1.id);
}

#[test]
fn pending_items_lack_metadata() {
    let mut db = Store::new();
    let f = folder(&mut db, "a", "/media/a", MediaType::Movie);
    let with = item(&mut db, f.id, "/media/a/with.mkv");
    let without = item(&mut db, f.id, "/media/a/without.mkv");
    VideoMetadata::upsert(&mut db, metadata_request(with.id, "x"), 2000).unwrap();
    let pending = MediaItem::list_by_folder_without_metadata(&db, f.id);
    assert_eq!(pending.len(), 1);
    assert_eq!(pending[0].id, without.id);
}

#[test]
fn items_pair_with_their_metadata() {
    let mut db = Store::new();
    let f = folder(&mut db, "a", "/media/a", MediaType::Movie);
    let it = item(&mut db, f.id, "/media/a/x.mkv");
    VideoMetadata::upsert(&mut db, metadata_request(it.id, "x"), 2000).unwrap();
    let listed = MediaItemWithMetadata::list_by_type(&db, MediaType::Movie);
    assert_eq!(listed.len(), 1);
    assert!(listed[0].metadata.is_some());
    let one = MediaItemWithMetadata::find_by_id(&db, it.id).unwrap();
    assert_eq!(one.media_item.id, it.id);
    assert!(one.metadata.is_some());
    assert!(MediaItemWithMetadata::find_by_id(&db, 999).is_none());
}

#[test]
fn genres_round_through_the_row() {
    let mut db = Store::new();
    let f = folder(&mut db, "a", "/media/a", MediaType::Movie);
    let it = item(&mut db, f.id, "/media/a/x.mkv");
    let row = VideoMetadata::upsert(&mut db, metadata_request(it.id, "x"), 2000).unwrap();
    assert_eq!(row.parse_genres(), vec!["Drama".to_string()]);
}
