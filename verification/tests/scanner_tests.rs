//! Scanner behavior: extension classification, title derivation, the
//! fresh-scan and rescan counters, and the multi-folder pass.

use ayiah::scanner::{
    extract_title, get_supported_extensions, is_candidate, FileEntry, FileScanner, FolderScan,
    PathStatus, ScanResult,
};
use ayiah::store::{CreateLibraryFolder, LibraryFolder, MediaItem, MediaType, Store};

fn movie_folder(db: &mut Store, path: &str) -> LibraryFolder {
    LibraryFolder::create(
        db,
        CreateLibraryFolder {
            name: "Movies".to_string(),
            path: path.to_string(),
            media_type: MediaType::Movie,
        },
        1000,
    )
    .unwrap()
}

fn entry(path: &str, size: i64) -> FileEntry {
    FileEntry { path: path.to_string(), size: Some(size) }
}

#[test]
fn supported_extensions_per_kind() {
    assert_eq!(
        get_supported_extensions(MediaType::Movie),
        vec!["mkv", "mp4", "avi", "mov", "wmv", "flv", "webm", "m4v", "mpg", "mpeg", "m2ts", "ts"]
    );
    assert_eq!(
        get_supported_extensions(MediaType::Tv),
        get_supported_extensions(MediaType::Movie)
    );
    assert_eq!(get_supported_extensions(MediaType::Comic), vec!["cbz", "cbr", "cb7", "cbt", "pdf"]);
    assert_eq!(get_supported_extensions(MediaType::Book), vec!["epub", "mobi", "azw3", "pdf"]);
}

#[test]
fn candidate_classification() {
    assert!(is_candidate(MediaType::Movie, "/media/movies/Arrival (2016).mkv"));
    assert!(is_candidate(MediaType::Movie, "/media/movies/UPPER.MKV"));
    assert!(!is_candidate(MediaType::Movie, "/media/movies/notes.txt"));
    assert!(!is_candidate(MediaType::Movie, "/media/movies/no_extension"));
    assert!(is_candidate(MediaType::Book, "/books/novel.epub"));
    assert!(!is_candidate(MediaType::Book, "/books/novel.mkv"));
}

#[test]
fn title_from_file_stem() {
    assert_eq!(extract_title("/media/movies/Arrival (2016).mkv"), "Arrival (2016)");
    assert_eq!(extract_title("plain.mkv"), "plain");
    assert_eq!(extract_title("a.tar.gz"), "a.tar");
    assert_eq!(extract_title("/media/.hidden"), ".hidden");
    assert_eq!(extract_title("/media/"), "Unknown");
}

#[test]
fn fresh_scan_counts_and_rows() {
    let mut db = Store::new();
    let folder = movie_folder(&mut db, "/media/movies");
    let scanner = FileScanner::new();
    let entries = vec![
        entry("/media/movies/Arrival (2016).mkv", 1_000_000),
        entry("/media/movies/notes.txt", 10),
    ];
    let result = scanner
        .scan_library_folder(&mut db, &folder, PathStatus::Directory, entries, 2000)
        .unwrap();
    assert_eq!(
        result,
        ScanResult { total_files: 1, new_items: 1, existing_items: 0, errors: 0 }
    );
    let item = MediaItem::find_by_path(&db, "/media/movies/Arrival (2016).mkv").unwrap();
    assert_eq!(item.title, "Arrival (2016)");
    assert_eq!(item.file_size, 1_000_000);
    assert_eq!(item.library_folder_id, folder.id);
    assert!(ayiah::store::VideoMetadata::find_by_media_item_id(&db, item.id).is_none());
}

#[test]
fn rescan_is_idempotent() {
    let mut db = Store::new();
    let folder = movie_folder(&mut db, "/media/movies");
    let scanner = FileScanner::new();
    let entries = || vec![entry("/media/movies/Arrival (2016).mkv", 1_000_000)];
    let first = scanner
        .scan_library_folder(&mut db, &folder, PathStatus::Directory, entries(), 2000)
        .unwrap();
    assert_eq!(first, ScanResult { total_files: 1, new_items: 1, existing_items: 0, errors: 0 });
    let second = scanner
        .scan_library_folder(&mut db, &folder, PathStatus::Directory, entries(), 3000)
        .unwrap();
    assert_eq!(second, ScanResult { total_files: 1, new_items: 0, existing_items: 1, errors: 0 });
    assert_eq!(db.items.len(), 1);
}

#[test]
fn missing_path_reports_error() {
    let mut db = Store::new();
    let folder = movie_folder(&mut db, "/media/gone");
    let scanner = FileScanner::new();
    let err = scanner
        .scan_library_folder(&mut db, &folder, PathStatus::Missing, vec![], 2000)
        .unwrap_err();
    assert_eq!(err.message(), "Path not found: /media/gone");
    let err = scanner
        .scan_library_folder(&mut db, &folder, PathStatus::NotDirectory, vec![], 2000)
        .unwrap_err();
    assert_eq!(err.message(), "Not a directory: /media/gone");
}

#[test]
fn unreadable_file_counts_as_error() {
    let mut db = Store::new();
    let folder = movie_folder(&mut db, "/media/movies");
    let scanner = FileScanner::new();
    let entries = vec![FileEntry { path: "/media/movies/broken.mkv".to_string(), size: None }];
    let result = scanner
        .scan_library_folder(&mut db, &folder, PathStatus::Directory, entries, 2000)
        .unwrap();
    assert_eq!(result, ScanResult { total_files: 1, new_items: 0, existing_items: 0, errors: 1 });
    assert_eq!(db.items.len(), 0);
}

#[test]
fn scan_all_reports_per_folder() {
    let mut db = Store::new();
    let movies = movie_folder(&mut db, "/media/movies");
    let books = LibraryFolder::create(
        &mut db,
        CreateLibraryFolder {
            name: "Books".to_string(),
            path: "/media/books".to_string(),
            media_type: MediaType::Book,
        },
        1500,
    )
    .unwrap();
    let scanner = FileScanner::new();
    // Enabled folders are listed most recently created first.
    let scans = vec![
        FolderScan {
            status: PathStatus::Directory,
            entries: vec![entry("/media/books/novel.epub", 5000)],
        },
        FolderScan { status: PathStatus::Missing, entries: vec![] },
    ];
    let results = scanner.scan_all_libraries(&mut db, scans, 2000).unwrap();
    assert_eq!(results.len(), 2);
    assert_eq!(results[0].0.id, books.id);
    assert_eq!(
        results[0].1,
        ScanResult { total_files: 1, new_items: 1, existing_items: 0, errors: 0 }
    );
    assert_eq!(results[1].0.id, movies.id);
    assert_eq!(
        results[1].1,
        ScanResult { total_files: 0, new_items: 0, existing_items: 0, errors: 1 }
    );
}
