//! File scanner: classifies walked directory entries by extension,
//! derives titles from file stems, and upserts discovered files into the
//! store as media items.
//!
//! The filesystem walk itself happens outside the library; the scanner
//! receives the observed entries as plain values and performs every
//! decision and store update here.

use vstd::prelude::*;
use vstd::seq_lib::*;
use crate::store::{enabled_folders, lemma_filter_embeds, lemma_filter_take_step, CreateMediaItem, LibraryFolder, MediaItem, MediaType, Store};

verus! {

/// Counters reported by one folder scan.
#[derive(Debug, Clone, Copy, PartialEq, Eq, Structural)]
pub struct ScanResult {
    pub total_files: usize,
    pub new_items: usize,
    pub existing_items: usize,
    pub errors: usize,
}

/// Errors of the scanning stage.
#[derive(Debug, Clone)]
pub enum FileScannerError {
    /// The folder's path does not exist.
    PathNotFound(String),
    /// The folder's path is not a directory.
    NotADirectory(String),
    /// The store refused an operation.
    DatabaseError(String),
    /// Reading the filesystem failed.
    IoError(String),
}

/// What a stat of the folder's root reported.
#[derive(Debug, Clone, Copy, PartialEq, Eq, Structural)]
pub enum PathStatus {
    /// The path does not exist.
    Missing,
    /// The path exists but is not a directory.
    NotDirectory,
    /// The path is a directory that can be walked.
    Directory,
}

/// One regular file seen during the walk: its absolute path, and its
/// size in bytes when the metadata read succeeded.
#[derive(Debug, Clone)]
pub struct FileEntry {
    pub path: String,
    pub size: Option<i64>,
}

/// The lower-case form of an ASCII letter; other characters are kept.
pub open spec fn lower_char(c: char) -> char {
    if 'A' <= c && c <= 'Z' {
        ((c as u32) + 32) as char
    } else {
        c
    }
}

/// ASCII-lowercased view of a character sequence.
pub open spec fn spec_lower(s: Seq<char>) -> Seq<char> {
    Seq::new(s.len(), |i: int| lower_char(s[i]))
}

/// A slash occurs somewhere in the path.
pub open spec fn spec_has_slash(path: Seq<char>) -> bool {
    exists|i: int| 0 <= i < path.len() && path[i] == '/'
}

/// Position of the last slash of the path.
pub open spec fn spec_last_slash(path: Seq<char>) -> int {
    choose|i: int|
        0 <= i < path.len() && path[i] == '/' && forall|j: int|
            i < j < path.len() ==> path[j] != '/'
}

/// The file name part of a path: the suffix after the last slash.
pub open spec fn spec_file_name(path: Seq<char>) -> Seq<char> {
    if spec_has_slash(path) {
        path.skip(spec_last_slash(path) + 1)
    } else {
        path
    }
}

/// A dot occurs somewhere after the first character of the name.
pub open spec fn spec_has_dot_after_first(name: Seq<char>) -> bool {
    exists|i: int| 1 <= i < name.len() && name[i] == '.'
}

/// Position of the last dot of a file name, ignoring a dot in first
/// position (a leading dot marks a hidden file, not an extension).
pub open spec fn spec_last_dot(name: Seq<char>) -> int {
    choose|i: int|
        1 <= i < name.len() && name[i] == '.' && forall|j: int|
            i < j < name.len() ==> name[j] != '.'
}

/// The stem of a file name: everything before the extension.
pub open spec fn spec_stem_of_name(name: Seq<char>) -> Seq<char> {
    if spec_has_dot_after_first(name) {
        name.take(spec_last_dot(name))
    } else {
        name
    }
}

/// The extension of a file name: everything after the last dot, if a
/// dot stands anywhere after the first character.
pub open spec fn spec_extension_of_name(name: Seq<char>) -> Option<Seq<char>> {
    if spec_has_dot_after_first(name) {
        Some(name.skip(spec_last_dot(name) + 1))
    } else {
        None
    }
}
/// Title derived from a file path: the stem of its file name, or
/// `"Unknown"` when the name is empty.
pub open spec fn spec_title_of_path(path: Seq<char>) -> Seq<char> {
    let name = spec_file_name(path);
    if name.len() == 0 {
        "Unknown"@
    } else {
        spec_stem_of_name(name)
    }
}

/// The extensions a folder of this kind accepts, lower case.
pub open spec fn spec_supported_exts(media_type: MediaType) -> Seq<Seq<char>> {
    match media_type {
        MediaType::Movie | MediaType::Tv => seq![
            "mkv"@,
            "mp4"@,
            "avi"@,
            "mov"@,
            "wmv"@,
            "flv"@,
            "webm"@,
            "m4v"@,
            "mpg"@,
            "mpeg"@,
            "m2ts"@,
            "ts"@,
        ],
        MediaType::Comic => seq!["cbz"@, "cbr"@, "cb7"@, "cbt"@, "pdf"@],
        MediaType::Book => seq!["epub"@, "mobi"@, "azw3"@, "pdf"@],
    }
}

/// A path is a scan candidate when its file name carries an extension
/// whose ASCII-lowercased form the folder's kind accepts.
pub open spec fn spec_candidate(media_type: MediaType, path: Seq<char>) -> bool {
    match spec_extension_of_name(spec_file_name(path)) {
        Some(e) => spec_supported_exts(media_type).contains(spec_lower(e)),
        None => false,
    }
}

/// The candidate predicate over file entries.
pub open spec fn candidate_pred(media_type: MediaType) -> spec_fn(FileEntry) -> bool {
    |e: FileEntry| spec_candidate(media_type, e.path@)
}

/// The candidates whose size was read successfully: exactly the files
/// the scan inserts or recognizes.
pub open spec fn readable_pred(media_type: MediaType) -> spec_fn(FileEntry) -> bool {
    |e: FileEntry| spec_candidate(media_type, e.path@) && e.size is Some
}

impl FileScannerError {
    /// Human-readable description of the failure.
    pub fn message(&self) -> (r: String)
        ensures
            match self {
                FileScannerError::PathNotFound(p) => r@ == "Path not found: "@ + p@,
                FileScannerError::NotADirectory(p) => r@ == "Not a directory: "@ + p@,
                FileScannerError::DatabaseError(m) => r@ == "Database error: "@ + m@,
                FileScannerError::IoError(m) => r@ == "IO error: "@ + m@,
            },
    {
        match self {
            FileScannerError::PathNotFound(p) => String::from_str("Path not found: ").concat(
                p.as_str(),
            ),
            FileScannerError::NotADirectory(p) => String::from_str("Not a directory: ").concat(
                p.as_str(),
            ),
            FileScannerError::DatabaseError(m) => String::from_str("Database error: ").concat(
                m.as_str(),
            ),
            FileScannerError::IoError(m) => String::from_str("IO error: ").concat(m.as_str()),
        }
    }
}

/// Supported file extensions for a media kind, lower case.
pub fn get_supported_extensions(media_type: MediaType) -> (r: Vec<&'static str>)
    ensures
        r.deep_view() =~~= spec_supported_exts(media_type),
{
    match media_type {
        MediaType::Movie | MediaType::Tv => {
            let v: Vec<&'static str> = vec![
                "mkv",
                "mp4",
                "avi",
                "mov",
                "wmv",
                "flv",
                "webm",
                "m4v",
                "mpg",
                "mpeg",
                "m2ts",
                "ts",
            ];
            v
        },
        MediaType::Comic => {
            let v: Vec<&'static str> = vec!["cbz", "cbr", "cb7", "cbt", "pdf"];
            v
        },
        MediaType::Book => {
            let v: Vec<&'static str> = vec!["epub", "mobi", "azw3", "pdf"];
            v
        },
    }
}

/// Compare two strings after ASCII-lowercasing both.
fn str_eq_ignore_ascii_case(a: &str, b: &str) -> (r: bool)
    ensures
        r == (spec_lower(a@) == spec_lower(b@)),
{
    let alen = a.unicode_len();
    let blen = b.unicode_len();
    if alen != blen {
        assert(spec_lower(a@).len() != spec_lower(b@).len());
        return false;
    }
    let mut i: usize = 0;
    while i < alen
        invariant
            alen == a@.len(),
            alen == b@.len(),
            0 <= i <= alen,
            forall|j: int| 0 <= j < i ==> spec_lower(a@)[j] == spec_lower(b@)[j],
        decreases alen - i,
    {
        let ca = lower_ascii(a.get_char(i));
        let cb = lower_ascii(b.get_char(i));
        if ca != cb {
            assert(spec_lower(a@)[i as int] != spec_lower(b@)[i as int]);
            return false;
        }
        i = i + 1;
    }
    proof {
        assert(spec_lower(a@) =~= spec_lower(b@));
    }
    true
}

/// Lower-case an ASCII letter; other characters pass through.
fn lower_ascii(c: char) -> (r: char)
    ensures
        r == lower_char(c),
{
    if c >= 'A' && c <= 'Z' {
        (((c as u8) + 32) as char)
    } else {
        c
    }
}

/// Position one past the last slash of the path, or zero when the
/// path holds no slash.
#[verifier::loop_isolation(false)]
fn find_name_start(path: &str) -> (r: usize)
    ensures
        r <= path@.len(),
        path@.skip(r as int) == spec_file_name(path@),
        forall|j: int| r <= j < path@.len() ==> path@[j] != '/',
{
    let len = path.unicode_len();
    let mut i: usize = len;
    while i > 0
        invariant
            0 <= i <= len,
            forall|j: int| i <= j < len ==> path@[j] != '/',
        decreases i,
    {
        if path.get_char(i - 1) == '/' {
            proof {
                let w: int = i - 1;
                assert(0 <= w < path@.len() && path@[w] == '/' && (forall|j: int|
                    w < j < path@.len() ==> path@[j] != '/'));
                assert(spec_has_slash(path@));
                let k = spec_last_slash(path@);
                assert(0 <= k < path@.len() && path@[k] == '/' && (forall|j: int|
                    k < j < path@.len() ==> path@[j] != '/'));
                assert(k == w);
            }
            return i;
        }
        i = i - 1;
    }
    proof {
        if spec_has_slash(path@) {
            let k = choose|k: int| 0 <= k < path@.len() && path@[k] == '/';
            assert(path@[k] != '/');
        }
        assert(path@.skip(0) =~= path@);
    }
    0
}

/// Position of the last dot strictly after `start`, the first position
/// of the file name, when one exists.
#[verifier::loop_isolation(false)]
fn find_last_dot(path: &str, start: usize) -> (r: Option<usize>)
    requires
        start <= path@.len(),
        path@.skip(start as int) == spec_file_name(path@),
    ensures
        ({
            let name = spec_file_name(path@);
            match r {
                Some(d) => {
                    &&& start < d < path@.len()
                    &&& spec_has_dot_after_first(name)
                    &&& spec_last_dot(name) == d - start
                },
                None => !spec_has_dot_after_first(name),
            }
        }),
{
    let ghost name = spec_file_name(path@);
    let len = path.unicode_len();
    let mut i: usize = len;
    while i > start
        invariant
            start <= i <= len || i == len,
            i <= len,
            forall|j: int| i <= j < len && j > start ==> path@[j] != '.',
        decreases i,
    {
        if i - 1 > start && path.get_char(i - 1) == '.' {
            proof {
                let w: int = i - 1 - start;
                assert(name.len() == path@.len() - start);
                assert(forall|j: int| 0 <= j < name.len() ==> name[j] == path@[start + j]);
                assert(1 <= w < name.len() && name[w] == '.' && (forall|j: int|
                    w < j < name.len() ==> name[j] != '.'));
                assert(spec_has_dot_after_first(name));
                let k = spec_last_dot(name);
                assert(1 <= k < name.len() && name[k] == '.' && (forall|j: int|
                    k < j < name.len() ==> name[j] != '.'));
                assert(k == w);
            }
            return Some(i - 1);
        }
        i = i - 1;
    }
    proof {
        assert(name.len() == path@.len() - start);
        assert(forall|j: int| 0 <= j < name.len() ==> name[j] == path@[start + j]);
        if spec_has_dot_after_first(name) {
            let k = choose|k: int| 1 <= k < name.len() && name[k] == '.';
            assert(path@[start + k] != '.');
        }
    }
    None
}

/// Title derived from a file path: the stem of its file name, with
/// `"Unknown"` standing in when the name is empty.
pub fn extract_title(path: &str) -> (r: String)
    ensures
        r@ == spec_title_of_path(path@),
{
    let len = path.unicode_len();
    let start = find_name_start(path);
    if start == len {
        proof {
            assert(spec_file_name(path@).len() == 0);
        }
        return String::from_str("Unknown");
    }
    let ghost name = spec_file_name(path@);
    match find_last_dot(path, start) {
        Some(d) => {
            let stem = path.substring_char(start, d);
            proof {
                assert(stem@ =~= name.take(spec_last_dot(name)));
            }
            stem.to_owned()
        },
        None => {
            let stem = path.substring_char(start, len);
            proof {
                assert(stem@ =~= name);
            }
            stem.to_owned()
        },
    }
}

/// The fixed extension lists carry no upper-case letter.
proof fn lemma_exts_lower(media_type: MediaType)
    ensures
        forall|k: int|
            0 <= k < spec_supported_exts(media_type).len() ==> spec_lower(
                #[trigger] spec_supported_exts(media_type)[k],
            ) == spec_supported_exts(media_type)[k],
{
    reveal_strlit("mkv");
    reveal_strlit("mp4");
    reveal_strlit("avi");
    reveal_strlit("mov");
    reveal_strlit("wmv");
    reveal_strlit("flv");
    reveal_strlit("webm");
    reveal_strlit("m4v");
    reveal_strlit("mpg");
    reveal_strlit("mpeg");
    reveal_strlit("m2ts");
    reveal_strlit("ts");
    reveal_strlit("cbz");
    reveal_strlit("cbr");
    reveal_strlit("cb7");
    reveal_strlit("cbt");
    reveal_strlit("pdf");
    reveal_strlit("epub");
    reveal_strlit("mobi");
    reveal_strlit("azw3");
    assert(spec_lower("mkv"@) =~= "mkv"@);
    assert(spec_lower("mp4"@) =~= "mp4"@);
    assert(spec_lower("avi"@) =~= "avi"@);
    assert(spec_lower("mov"@) =~= "mov"@);
    assert(spec_lower("wmv"@) =~= "wmv"@);
    assert(spec_lower("flv"@) =~= "flv"@);
    assert(spec_lower("webm"@) =~= "webm"@);
    assert(spec_lower("m4v"@) =~= "m4v"@);
    assert(spec_lower("mpg"@) =~= "mpg"@);
    assert(spec_lower("mpeg"@) =~= "mpeg"@);
    assert(spec_lower("m2ts"@) =~= "m2ts"@);
    assert(spec_lower("ts"@) =~= "ts"@);
    assert(spec_lower("cbz"@) =~= "cbz"@);
    assert(spec_lower("cbr"@) =~= "cbr"@);
    assert(spec_lower("cb7"@) =~= "cb7"@);
    assert(spec_lower("cbt"@) =~= "cbt"@);
    assert(spec_lower("pdf"@) =~= "pdf"@);
    assert(spec_lower("epub"@) =~= "epub"@);
    assert(spec_lower("mobi"@) =~= "mobi"@);
    assert(spec_lower("azw3"@) =~= "azw3"@);
}

/// Whether an extension, lowercased, belongs to a kind's accepted list.
#[verifier::loop_isolation(false)]
fn ext_supported(media_type: MediaType, ext: &str) -> (r: bool)
    ensures
        r == spec_supported_exts(media_type).contains(spec_lower(ext@)),
{
    proof {
        lemma_exts_lower(media_type);
    }
    let list = get_supported_extensions(media_type);
    let ghost exts = spec_supported_exts(media_type);
    let mut i: usize = 0;
    while i < list.len()
        invariant
            0 <= i <= list@.len(),
            forall|k: int| 0 <= k < i ==> spec_lower(ext@) != exts[k],
        decreases list@.len() - i,
    {
        proof {
            assert(list.deep_view()[i as int] == exts[i as int]);
            assert(list@[i as int]@ == exts[i as int]);
        }
        if str_eq_ignore_ascii_case(ext, list[i]) {
            proof {
                assert(spec_lower(ext@) == spec_lower(exts[i as int]));
                assert(exts.contains(spec_lower(ext@)));
            }
            return true;
        }
        i = i + 1;
    }
    false
}

/// Whether a file path is a scan candidate for a folder of this kind.
#[verifier::rlimit(100)]
pub fn is_candidate(media_type: MediaType, path: &str) -> (r: bool)
    ensures
        r == spec_candidate(media_type, path@),
{
    let len = path.unicode_len();
    let start = find_name_start(path);
    if start == len {
        proof {
            assert(spec_file_name(path@).len() == 0);
            assert(!spec_has_dot_after_first(spec_file_name(path@)));
        }
        return false;
    }
    let ghost name = spec_file_name(path@);
    match find_last_dot(path, start) {
        Some(d) => {
            let ext = path.substring_char(d + 1, len);
            proof {
                assert(ext@ =~= name.skip(spec_last_dot(name) + 1));
            }
            ext_supported(media_type, ext)
        },
        None => false,
    }
}

/// The file scanner service.
pub struct FileScanner {}

impl FileScanner {
    /// Create a new file scanner.
    pub fn new() -> (r: FileScanner) {
        FileScanner {  }
    }

    /// Scan one library folder: classify the walked entries by the
    /// folder's supported extensions, then record each matching file in
    /// the store, once. `status` and `entries` report what the
    /// filesystem walk observed; `now` is the wall clock in
    /// milliseconds.
    #[verifier::loop_isolation(false)]
    #[verifier::rlimit(100)]
    pub fn scan_library_folder(
        &self,
        db: &mut Store,
        folder: &LibraryFolder,
        status: PathStatus,
        entries: Vec<FileEntry>,
        now: i64,
    ) -> (r: Result<ScanResult, FileScannerError>)
        requires
            old(db).wf(),
            old(db).has_folder(folder.id),
            old(db).next_item_id + entries@.len() <= i64::MAX,
        ensures
            final(db).wf(),
            final(db).folders == old(db).folders,
            final(db).metadata == old(db).metadata,
            final(db).next_folder_id == old(db).next_folder_id,
            final(db).next_metadata_id == old(db).next_metadata_id,
            final(db).next_item_id <= old(db).next_item_id + entries@.len(),
            match r {
                Ok(res) => {
                    &&& status == PathStatus::Directory
                    &&& res.total_files == entries@.filter(
                        candidate_pred(folder.media_type),
                    ).len()
                    &&& res.new_items + res.existing_items == entries@.filter(
                        readable_pred(folder.media_type),
                    ).len()
                    &&& res.total_files == res.new_items + res.existing_items + res.errors
                    &&& forall|i: int|
                        0 <= i < entries@.len() && readable_pred(folder.media_type)(
                            #[trigger] entries@[i],
                        ) ==> final(db).has_item_with_path(entries@[i].path@)
                    &&& old(db).items@.is_prefix_of(final(db).items@)
                    &&& forall|k: int|
                        old(db).items@.len() <= k < final(db).items@.len() ==> {
                            let it = #[trigger] final(db).items@[k];
                            &&& it.library_folder_id == folder.id
                            &&& it.media_type == folder.media_type
                            &&& it.added_at == now
                            &&& it.updated_at == now
                            &&& it.title@ == spec_title_of_path(it.file_path@)
                            &&& exists|i: int|
                                0 <= i < entries@.len() && readable_pred(folder.media_type)(
                                    #[trigger] entries@[i],
                                ) && it.file_path@ == entries@[i].path@ && entries@[i].size
                                    == Some(it.file_size)
                        }
                    &&& (forall|i: int|
                        0 <= i < entries@.len() && readable_pred(folder.media_type)(
                            #[trigger] entries@[i],
                        ) ==> old(db).has_item_with_path(entries@[i].path@)) ==> (
                    res.new_items == 0 && final(db).items == old(db).items)
                },
                Err(e) => {
                    &&& *final(db) == *old(db)
                    &&& match e {
                        FileScannerError::PathNotFound(p) => status == PathStatus::Missing && p@
                            == folder.path@,
                        FileScannerError::NotADirectory(p) => status == PathStatus::NotDirectory
                            && p@ == folder.path@,
                        _ => false,
                    }
                },
            },
    {
        match status {
            PathStatus::Missing => {
                return Err(FileScannerError::PathNotFound(folder.path.clone()));
            },
            PathStatus::NotDirectory => {
                return Err(FileScannerError::NotADirectory(folder.path.clone()));
            },
            PathStatus::Directory => {},
        }
        let ghost cand = candidate_pred(folder.media_type);
        let ghost readp = readable_pred(folder.media_type);
        let ghost old_len = old(db).items@.len() as int;
        let mut total_files: usize = 0;
        let mut new_items: usize = 0;
        let mut existing_items: usize = 0;
        let mut errors: usize = 0;
        let mut i: usize = 0;
        while i < entries.len()
            invariant
                0 <= i <= entries@.len(),
                db.wf(),
                db.folders == old(db).folders,
                db.metadata == old(db).metadata,
                db.next_folder_id == old(db).next_folder_id,
                db.next_metadata_id == old(db).next_metadata_id,
                db.has_folder(folder.id),
                new_items <= i,
                db.next_item_id <= old(db).next_item_id + new_items,
                total_files == entries@.take(i as int).filter(cand).len(),
                new_items + existing_items == entries@.take(i as int).filter(readp).len(),
                total_files == new_items + existing_items + errors,
                total_files <= i,
                forall|k: int|
                    0 <= k < i && readp(#[trigger] entries@[k]) ==> db.has_item_with_path(
                        entries@[k].path@,
                    ),
                old(db).items@.is_prefix_of(db.items@),
                forall|k: int|
                    old_len <= k < db.items@.len() ==> {
                        let it = #[trigger] db.items@[k];
                        &&& it.library_folder_id == folder.id
                        &&& it.media_type == folder.media_type
                        &&& it.added_at == now
                        &&& it.updated_at == now
                        &&& it.title@ == spec_title_of_path(it.file_path@)
                        &&& exists|e: int|
                            0 <= e < i && readp(#[trigger] entries@[e]) && it.file_path@
                                == entries@[e].path@ && entries@[e].size == Some(it.file_size)
                    },
                (forall|k: int|
                    0 <= k < entries@.len() && readp(#[trigger] entries@[k]) ==> old(
                        db,
                    ).has_item_with_path(entries@[k].path@)) ==> (new_items == 0 && db.items
                    == old(db).items),
            decreases entries@.len() - i,
        {
            proof {
                lemma_filter_take_step(entries@, cand, i as int);
                lemma_filter_take_step(entries@, readp, i as int);
            }
            let ghost pre_items = db.items@;
            if is_candidate(folder.media_type, entries[i].path.as_str()) {
                total_files = total_files + 1;
                match entries[i].size {
                    None => {
                        errors = errors + 1;
                        proof {
                            assert(!readp(entries@[i as int]));
                        }
                    },
                    Some(size) => {
                        match MediaItem::find_by_path(db, entries[i].path.as_str()) {
                            Some(_) => {
                                existing_items = existing_items + 1;
                                proof {
                                    assert(db.has_item_with_path(entries@[i as int].path@));
                                }
                            },
                            None => {
                                let title = extract_title(entries[i].path.as_str());
                                let create_item = CreateMediaItem {
                                    library_folder_id: folder.id,
                                    media_type: folder.media_type,
                                    title,
                                    file_path: entries[i].path.clone(),
                                    file_size: size,
                                };
                                match MediaItem::create(db, create_item, now) {
                                    Ok(_) => {
                                        new_items = new_items + 1;
                                        proof {
                                            assert(db.items@[db.items@.len()
                                                - 1].file_path@ == entries@[i as int].path@);
                                            assert(db.has_item_with_path(
                                                entries@[i as int].path@,
                                            ));
                                        }
                                    },
                                    Err(_) => {
                                        errors = errors + 1;
                                        proof {
                                            assert(false);
                                        }
                                    },
                                }
                            },
                        }
                    },
                }
            } else {
                proof {
                    assert(!readp(entries@[i as int]));
                }
            }
            proof {
                assert forall|k: int|
                    0 <= k < i + 1 && readp(#[trigger] entries@[k]) implies db.has_item_with_path(
                    entries@[k].path@,
                ) by {
                    if k < i {
                        let w = choose|w: int|
                            0 <= w < pre_items.len() && pre_items[w].file_path@
                                == entries@[k].path@;
                        assert(db.items@[w].file_path@ == entries@[k].path@);
                    }
                }
            }
            i = i + 1;
        }
        proof {
            assert(entries@.take(entries@.len() as int) =~= entries@);
        }
        Ok(ScanResult { total_files, new_items, existing_items, errors })
    }
}

/// What one folder contributed to a scan-all pass: the stat of its
/// root, and the files the walk observed under it.
#[derive(Debug, Clone)]
pub struct FolderScan {
    pub status: PathStatus,
    pub entries: Vec<FileEntry>,
}

/// Number of walked entries over a whole scan-all pass.
pub open spec fn total_entries(scans: Seq<FolderScan>) -> int
    decreases scans.len(),
{
    if scans.len() == 0 {
        0
    } else {
        scans[0].entries@.len() + total_entries(scans.drop_first())
    }
}

/// A walked entry count is never negative.
proof fn lemma_total_entries_nonneg(scans: Seq<FolderScan>)
    ensures
        total_entries(scans) >= 0,
    decreases scans.len(),
{
    if scans.len() > 0 {
        lemma_total_entries_nonneg(scans.drop_first());
    }
}

/// The counters a successful folder scan reports, as functions of the
/// walked entries alone.
pub open spec fn scan_outcome_ok(folder: LibraryFolder, scan: FolderScan, res: ScanResult) -> bool {
    &&& res.total_files == scan.entries@.filter(candidate_pred(folder.media_type)).len()
    &&& res.new_items + res.existing_items == scan.entries@.filter(
        readable_pred(folder.media_type),
    ).len()
    &&& res.total_files == res.new_items + res.existing_items + res.errors
}

impl FileScanner {
    /// Scan every enabled library folder, pairing each with its result.
    /// `scans` reports, folder by folder in the order of
    /// `enabled_folders`, what the filesystem walk observed. A folder
    /// whose root is gone is reported in-band as one error and never
    /// aborts the remaining folders.
    #[verifier::loop_isolation(false)]
    #[verifier::rlimit(100)]
    pub fn scan_all_libraries(
        &self,
        db: &mut Store,
        scans: Vec<FolderScan>,
        now: i64,
    ) -> (r: Result<Vec<(LibraryFolder, ScanResult)>, FileScannerError>)
        requires
            old(db).wf(),
            scans@.len() == enabled_folders(*old(db)).len(),
            old(db).next_item_id + total_entries(scans@) <= i64::MAX,
        ensures
            final(db).wf(),
            final(db).folders == old(db).folders,
            final(db).metadata == old(db).metadata,
            match r {
                Ok(out) => {
                    &&& out@.len() == scans@.len()
                    &&& forall|j: int|
                        0 <= j < out@.len() ==> (#[trigger] out@[j]).0 == enabled_folders(
                            *old(db),
                        )[j]
                    &&& forall|j: int|
                        0 <= j < out@.len() ==> if scans@[j].status == PathStatus::Directory {
                            scan_outcome_ok(
                                enabled_folders(*old(db))[j],
                                scans@[j],
                                (#[trigger] out@[j]).1,
                            )
                        } else {
                            out@[j].1 == (ScanResult {
                                total_files: 0,
                                new_items: 0,
                                existing_items: 0,
                                errors: 1,
                            })
                        }
                    &&& forall|j: int, e: int|
                        0 <= j < scans@.len() && (#[trigger] scans@[j]).status
                            == PathStatus::Directory && 0 <= e < scans@[j].entries@.len()
                            && readable_pred(enabled_folders(*old(db))[j].media_type)(
                            #[trigger] scans@[j].entries@[e],
                        ) ==> final(db).has_item_with_path(scans@[j].entries@[e].path@)
                },
                Err(_) => false,
            },
    {
        let folders = LibraryFolder::list_enabled(db);
        let ghost ef = enabled_folders(*old(db));
        let ghost scans0 = scans@;
        let mut scans = scans;
        let mut results: Vec<(LibraryFolder, ScanResult)> = Vec::new();
        let mut j: usize = 0;
        proof {
            lemma_filter_embeds(
                old(db).folders@.reverse(),
                crate::store::enabled_pred(),
            );
        }
        while j < folders.len()
            invariant
                0 <= j <= folders@.len(),
                folders@ =~= ef,
                results@.len() == j,
                scans@ =~= scans0.skip(j as int),
                db.wf(),
                db.folders == old(db).folders,
                db.metadata == old(db).metadata,
                db.next_folder_id == old(db).next_folder_id,
                db.next_metadata_id == old(db).next_metadata_id,
                db.next_item_id + total_entries(scans@) <= i64::MAX,
                forall|k: int| 0 <= k < j ==> (#[trigger] results@[k]).0 == ef[k],
                forall|k: int|
                    0 <= k < j ==> if scans0[k].status == PathStatus::Directory {
                        scan_outcome_ok(ef[k], scans0[k], (#[trigger] results@[k]).1)
                    } else {
                        results@[k].1 == (ScanResult {
                            total_files: 0,
                            new_items: 0,
                            existing_items: 0,
                            errors: 1,
                        })
                    },
                forall|k: int, e: int|
                    0 <= k < j && (#[trigger] scans0[k]).status == PathStatus::Directory && 0 <= e
                        < scans0[k].entries@.len() && readable_pred(ef[k].media_type)(
                        #[trigger] scans0[k].entries@[e],
                    ) ==> db.has_item_with_path(scans0[k].entries@[e].path@),
            decreases folders@.len() - j,
        {
            let folder = folders[j].clone();
            proof {
                // The folder row is still in the table: the enabled list
                // embeds into the reversed folder table.
                let w = choose|w: int|
                    j <= w < old(db).folders@.reverse().len() && #[trigger] old(
                        db,
                    ).folders@.reverse().filter(crate::store::enabled_pred())[j as int] == old(
                        db,
                    ).folders@.reverse()[w];
                assert(old(db).folders@.reverse()[w] == old(db).folders@[old(db).folders@.len() - 1
                    - w]);
                assert(db.folders@[old(db).folders@.len() - 1 - w].id == folder.id);
                assert(db.has_folder(folder.id));
                // The remaining walk budget covers this folder.
                assert(scans@[0] == scans0[j as int]);
                lemma_total_entries_nonneg(scans@.drop_first());
                assert(scans@.drop_first() =~= scans0.skip(j + 1));
            }
            let scan = scans.remove(0);
            let ghost pre_items = db.items@;
            let outcome = match self.scan_library_folder(db, &folder, scan.status, scan.entries, now) {
                Ok(res) => res,
                Err(_) => ScanResult { total_files: 0, new_items: 0, existing_items: 0, errors: 1 },
            };
            results.push((folder, outcome));
            proof {
                assert forall|k: int, e: int|
                    0 <= k < j + 1 && (#[trigger] scans0[k]).status == PathStatus::Directory && 0
                        <= e < scans0[k].entries@.len() && readable_pred(ef[k].media_type)(
                        #[trigger] scans0[k].entries@[e],
                    ) implies db.has_item_with_path(scans0[k].entries@[e].path@) by {
                    if k < j {
                        let w = choose|w: int|
                            0 <= w < pre_items.len() && pre_items[w].file_path@
                                == scans0[k].entries@[e].path@;
                        assert(pre_items.is_prefix_of(db.items@) || pre_items == db.items@);
                        assert(db.items@[w].file_path@ == scans0[k].entries@[e].path@);
                    }
                }
            }
            j = j + 1;
        }
        Ok(results)
    }
}

/// The store keeps at most one media item per file path, so after a
/// scan has recorded a file, the row with its path is unique.
pub proof fn lemma_scan_unique_row(db: Store, path: Seq<char>)
    requires
        db.wf(),
        db.has_item_with_path(path),
    ensures
        exists|i: int|
            {
                &&& 0 <= i < db.items@.len()
                &&& (#[trigger] db.items@[i]).file_path@ == path
                &&& forall|j: int|
                    0 <= j < db.items@.len() && #[trigger] db.items@[j].file_path@ == path ==> j
                        == i
            },
{
    let i = choose|i: int| 0 <= i < db.items@.len() && db.items@[i].file_path@ == path;
    assert forall|j: int|
        0 <= j < db.items@.len() && #[trigger] db.items@[j].file_path@ == path implies j == i by {
        if j < i {
            assert(db.items@[j].file_path@ != db.items@[i].file_path@);
        } else if j > i {
            assert(db.items@[i].file_path@ != db.items@[j].file_path@);
        }
    }
}

} // verus!
