//! In-memory relational store for library folders, media items and video
//! metadata rows, with the uniqueness and referential invariants the
//! pipeline relies on: folder paths are unique, item file paths are
//! globally unique, at most one metadata row exists per item, and every
//! row references an existing owner.

use vstd::prelude::*;
use vstd::seq_lib::*;
use crate::strutil::str_eq;

verus! {

/// Kind of media a library folder holds.
#[derive(Debug, Clone, Copy, PartialEq, Eq, Structural)]
pub enum MediaType {
    Movie,
    Tv,
    Comic,
    Book,
}

impl MediaType {
    /// Lower-case tag used for routing and serialization.
    pub fn tag(&self) -> (r: &'static str)
        ensures
            r@ == self.spec_tag(),
    {
        match self {
            MediaType::Movie => "movie",
            MediaType::Tv => "tv",
            MediaType::Comic => "comic",
            MediaType::Book => "book",
        }
    }

    /// The lower-case tag, for contracts.
    pub open spec fn spec_tag(&self) -> Seq<char> {
        match self {
            MediaType::Movie => "movie"@,
            MediaType::Tv => "tv"@,
            MediaType::Comic => "comic"@,
            MediaType::Book => "book"@,
        }
    }
}

/// A watched library root.
#[derive(Debug)]
pub struct LibraryFolder {
    pub id: i64,
    pub name: String,
    pub path: String,
    pub media_type: MediaType,
    pub enabled: bool,
    pub created_at: i64,
    pub updated_at: i64,
}

impl Clone for LibraryFolder {
    fn clone(&self) -> (r: Self)
        ensures
            r == *self,
    {
        LibraryFolder {
            id: self.id,
            name: self.name.clone(),
            path: self.path.clone(),
            media_type: self.media_type,
            enabled: self.enabled,
            created_at: self.created_at,
            updated_at: self.updated_at,
        }
    }
}

/// Request to register a new library folder.
#[derive(Debug, Clone)]
pub struct CreateLibraryFolder {
    pub name: String,
    pub path: String,
    pub media_type: MediaType,
}

/// A discovered media file.
#[derive(Debug)]
pub struct MediaItem {
    pub id: i64,
    pub library_folder_id: i64,
    pub media_type: MediaType,
    pub title: String,
    pub file_path: String,
    pub file_size: i64,
    pub added_at: i64,
    pub updated_at: i64,
}

impl Clone for MediaItem {
    fn clone(&self) -> (r: Self)
        ensures
            r == *self,
    {
        MediaItem {
            id: self.id,
            library_folder_id: self.library_folder_id,
            media_type: self.media_type,
            title: self.title.clone(),
            file_path: self.file_path.clone(),
            file_size: self.file_size,
            added_at: self.added_at,
            updated_at: self.updated_at,
        }
    }
}

/// Request to insert a newly discovered media file.
#[derive(Debug, Clone)]
pub struct CreateMediaItem {
    pub library_folder_id: i64,
    pub media_type: MediaType,
    pub title: String,
    pub file_path: String,
    pub file_size: i64,
}

/// Externally sourced metadata attached to one media item.
#[derive(Debug)]
pub struct VideoMetadata {
    pub id: i64,
    pub media_item_id: i64,
    pub tmdb_id: Option<i64>,
    pub tvdb_id: Option<i64>,
    pub imdb_id: Option<String>,
    pub overview: Option<String>,
    pub poster_path: Option<String>,
    pub backdrop_path: Option<String>,
    pub release_date: Option<String>,
    pub runtime: Option<i32>,
    /// Vote average scaled by 100.
    pub vote_average: Option<i64>,
    pub vote_count: Option<i32>,
    pub genres: Vec<String>,
    pub created_at: i64,
    pub updated_at: i64,
}

/// Copy an optional string, preserving its value.
fn clone_opt_string(x: &Option<String>) -> (r: Option<String>)
    ensures
        r == *x,
{
    match x {
        Some(s) => Some(s.clone()),
        None => None,
    }
}

/// Copy a vector of strings, preserving every element.
fn clone_string_vec(v: &Vec<String>) -> (r: Vec<String>)
    ensures
        r@ =~= v@,
{
    let mut out: Vec<String> = Vec::new();
    let mut i: usize = 0;
    while i < v.len()
        invariant
            0 <= i <= v@.len(),
            out@ =~= v@.take(i as int),
        decreases v@.len() - i,
    {
        out.push(v[i].clone());
        proof {
            assert(out@ =~= v@.take(i + 1));
        }
        i = i + 1;
    }
    proof {
        assert(v@.take(v@.len() as int) =~= v@);
    }
    out
}

impl Clone for VideoMetadata {
    fn clone(&self) -> (r: Self)
        ensures
            r.same_row(*self),
    {
        let r = VideoMetadata {
            id: self.id,
            media_item_id: self.media_item_id,
            tmdb_id: self.tmdb_id,
            tvdb_id: self.tvdb_id,
            imdb_id: clone_opt_string(&self.imdb_id),
            overview: clone_opt_string(&self.overview),
            poster_path: clone_opt_string(&self.poster_path),
            backdrop_path: clone_opt_string(&self.backdrop_path),
            release_date: clone_opt_string(&self.release_date),
            runtime: self.runtime,
            vote_average: self.vote_average,
            vote_count: self.vote_count,
            genres: clone_string_vec(&self.genres),
            created_at: self.created_at,
            updated_at: self.updated_at,
        };
        r
    }
}

/// Content columns written by an upsert, everything except the row
/// identity and the timestamps.
pub struct CreateVideoMetadata {
    pub media_item_id: i64,
    pub tmdb_id: Option<i64>,
    pub tvdb_id: Option<i64>,
    pub imdb_id: Option<String>,
    pub overview: Option<String>,
    pub poster_path: Option<String>,
    pub backdrop_path: Option<String>,
    pub release_date: Option<String>,
    pub runtime: Option<i32>,
    /// Vote average scaled by 100.
    pub vote_average: Option<i64>,
    pub vote_count: Option<i32>,
    pub genres: Vec<String>,
}

impl VideoMetadata {
    /// True when the row carries exactly the content columns of the
    /// request; row identity and timestamps are not constrained.
    /// Strings and lists are compared by their character contents.
    pub open spec fn matches_content(&self, c: &CreateVideoMetadata) -> bool {
        &&& self.media_item_id == c.media_item_id
        &&& self.tmdb_id == c.tmdb_id
        &&& self.tvdb_id == c.tvdb_id
        &&& self.imdb_id.deep_view() == c.imdb_id.deep_view()
        &&& self.overview.deep_view() == c.overview.deep_view()
        &&& self.poster_path.deep_view() == c.poster_path.deep_view()
        &&& self.backdrop_path.deep_view() == c.backdrop_path.deep_view()
        &&& self.release_date.deep_view() == c.release_date.deep_view()
        &&& self.runtime == c.runtime
        &&& self.vote_average == c.vote_average
        &&& self.vote_count == c.vote_count
        &&& self.genres.deep_view() == c.genres.deep_view()
    }

    /// Row equality up to the physical representation of strings: every
    /// column agrees, character for character.
    pub open spec fn same_row(&self, other: VideoMetadata) -> bool {
        &&& self.id == other.id
        &&& self.media_item_id == other.media_item_id
        &&& self.tmdb_id == other.tmdb_id
        &&& self.tvdb_id == other.tvdb_id
        &&& self.imdb_id.deep_view() == other.imdb_id.deep_view()
        &&& self.overview.deep_view() == other.overview.deep_view()
        &&& self.poster_path.deep_view() == other.poster_path.deep_view()
        &&& self.backdrop_path.deep_view() == other.backdrop_path.deep_view()
        &&& self.release_date.deep_view() == other.release_date.deep_view()
        &&& self.runtime == other.runtime
        &&& self.vote_average == other.vote_average
        &&& self.vote_count == other.vote_count
        &&& self.genres.deep_view() == other.genres.deep_view()
        &&& self.created_at == other.created_at
        &&& self.updated_at == other.updated_at
    }

    /// The content columns of two rows agree, character for character;
    /// row identity and timestamps may differ.
    pub open spec fn same_content(&self, other: VideoMetadata) -> bool {
        &&& self.media_item_id == other.media_item_id
        &&& self.tmdb_id == other.tmdb_id
        &&& self.tvdb_id == other.tvdb_id
        &&& self.imdb_id.deep_view() == other.imdb_id.deep_view()
        &&& self.overview.deep_view() == other.overview.deep_view()
        &&& self.poster_path.deep_view() == other.poster_path.deep_view()
        &&& self.backdrop_path.deep_view() == other.backdrop_path.deep_view()
        &&& self.release_date.deep_view() == other.release_date.deep_view()
        &&& self.runtime == other.runtime
        &&& self.vote_average == other.vote_average
        &&& self.vote_count == other.vote_count
        &&& self.genres.deep_view() == other.genres.deep_view()
    }
}

impl CreateVideoMetadata {
    /// Two requests ask for the same row content, character for
    /// character.
    pub open spec fn same_request(&self, other: &CreateVideoMetadata) -> bool {
        &&& self.media_item_id == other.media_item_id
        &&& self.tmdb_id == other.tmdb_id
        &&& self.tvdb_id == other.tvdb_id
        &&& self.imdb_id.deep_view() == other.imdb_id.deep_view()
        &&& self.overview.deep_view() == other.overview.deep_view()
        &&& self.poster_path.deep_view() == other.poster_path.deep_view()
        &&& self.backdrop_path.deep_view() == other.backdrop_path.deep_view()
        &&& self.release_date.deep_view() == other.release_date.deep_view()
        &&& self.runtime == other.runtime
        &&& self.vote_average == other.vote_average
        &&& self.vote_count == other.vote_count
        &&& self.genres.deep_view() == other.genres.deep_view()
    }
}

/// A media item together with its metadata row, when one exists.
#[derive(Debug, Clone)]
pub struct MediaItemWithMetadata {
    pub media_item: MediaItem,
    pub metadata: Option<VideoMetadata>,
}

/// Errors raised by store operations, mirroring the constraints of the
/// relational schema.
#[derive(Debug, Clone, Copy, PartialEq, Eq, Structural)]
pub enum StoreError {
    /// A uniqueness constraint (folder path, item file path) was hit.
    UniqueViolation,
    /// A referenced owner row does not exist.
    ForeignKeyViolation,
}

impl StoreError {
    /// Human-readable description of the constraint violation.
    pub fn message(&self) -> (r: &'static str)
        ensures
            *self is UniqueViolation ==> r@ == "unique constraint violation"@,
            *self is ForeignKeyViolation ==> r@ == "foreign key constraint violation"@,
    {
        match self {
            StoreError::UniqueViolation => "unique constraint violation",
            StoreError::ForeignKeyViolation => "foreign key constraint violation",
        }
    }
}

/// The three tables of the persistent schema, with their id counters.
pub struct Store {
    pub folders: Vec<LibraryFolder>,
    pub items: Vec<MediaItem>,
    pub metadata: Vec<VideoMetadata>,
    pub next_folder_id: i64,
    pub next_item_id: i64,
    pub next_metadata_id: i64,
}

impl Store {
    /// A folder row with this id exists.
    pub open spec fn has_folder(self, id: i64) -> bool {
        exists|i: int| 0 <= i < self.folders@.len() && self.folders@[i].id == id
    }

    /// A folder row with this path exists.
    pub open spec fn has_folder_with_path(self, p: Seq<char>) -> bool {
        exists|i: int| 0 <= i < self.folders@.len() && self.folders@[i].path@ == p
    }

    /// An item row with this id exists.
    pub open spec fn has_item(self, id: i64) -> bool {
        exists|i: int| 0 <= i < self.items@.len() && self.items@[i].id == id
    }

    /// An item row with this file path exists.
    pub open spec fn has_item_with_path(self, p: Seq<char>) -> bool {
        exists|i: int| 0 <= i < self.items@.len() && self.items@[i].file_path@ == p
    }

    /// A metadata row for this media item exists.
    pub open spec fn has_metadata_for(self, media_item_id: i64) -> bool {
        exists|i: int|
            0 <= i < self.metadata@.len() && self.metadata@[i].media_item_id == media_item_id
    }

    /// The item with this folder id belongs to the given folder.
    pub open spec fn item_in_folder(self, item_id: i64, folder_id: i64) -> bool {
        exists|i: int|
            0 <= i < self.items@.len() && self.items@[i].id == item_id
                && self.items@[i].library_folder_id == folder_id
    }

    /// Uniqueness and referential integrity of the schema.
    pub open spec fn wf(self) -> bool {
        &&& 0 < self.next_folder_id
        &&& 0 < self.next_item_id
        &&& 0 < self.next_metadata_id
        &&& forall|i: int|
            0 <= i < self.folders@.len() ==> 0 < #[trigger] self.folders@[i].id
                < self.next_folder_id
        &&& forall|i: int, j: int|
            0 <= i < j < self.folders@.len() ==> #[trigger] self.folders@[i].id
                != #[trigger] self.folders@[j].id
        &&& forall|i: int, j: int|
            0 <= i < j < self.folders@.len() ==> #[trigger] self.folders@[i].path@
                != #[trigger] self.folders@[j].path@
        &&& forall|i: int|
            0 <= i < self.items@.len() ==> 0 < #[trigger] self.items@[i].id < self.next_item_id
        &&& forall|i: int, j: int|
            0 <= i < j < self.items@.len() ==> #[trigger] self.items@[i].id
                != #[trigger] self.items@[j].id
        &&& forall|i: int, j: int|
            0 <= i < j < self.items@.len() ==> #[trigger] self.items@[i].file_path@
                != #[trigger] self.items@[j].file_path@
        &&& forall|i: int|
            0 <= i < self.items@.len() ==> self.has_folder(
                #[trigger] self.items@[i].library_folder_id,
            )
        &&& forall|i: int|
            0 <= i < self.metadata@.len() ==> 0 < #[trigger] self.metadata@[i].id
                < self.next_metadata_id
        &&& forall|i: int, j: int|
            0 <= i < j < self.metadata@.len() ==> #[trigger] self.metadata@[i].id
                != #[trigger] self.metadata@[j].id
        &&& forall|i: int, j: int|
            0 <= i < j < self.metadata@.len() ==> #[trigger] self.metadata@[i].media_item_id
                != #[trigger] self.metadata@[j].media_item_id
        &&& forall|i: int|
            0 <= i < self.metadata@.len() ==> self.has_item(
                #[trigger] self.metadata@[i].media_item_id,
            )
    }

    /// An empty store, ready to accept rows.
    pub fn new() -> (r: Store)
        ensures
            r.wf(),
            r.folders@.len() == 0,
            r.items@.len() == 0,
            r.metadata@.len() == 0,
    {
        Store {
            folders: Vec::new(),
            items: Vec::new(),
            metadata: Vec::new(),
            next_folder_id: 1,
            next_item_id: 1,
            next_metadata_id: 1,
        }
    }
}

/// The predicate an enabled folder satisfies.
pub open spec fn enabled_pred() -> spec_fn(LibraryFolder) -> bool {
    |f: LibraryFolder| f.enabled
}

/// The folders that scanning covers: enabled ones, most recently
/// created first.
pub open spec fn enabled_folders(db: Store) -> Seq<LibraryFolder> {
    db.folders@.reverse().filter(enabled_pred())
}

/// The predicate an item of the given media kind satisfies.
pub open spec fn type_pred(media_type: MediaType) -> spec_fn(MediaItem) -> bool {
    |it: MediaItem| it.media_type == media_type
}

/// The items of one media kind, most recently added first.
pub open spec fn items_of_type(db: Store, media_type: MediaType) -> Seq<MediaItem> {
    db.items@.reverse().filter(type_pred(media_type))
}

/// The predicate an item of the folder without a metadata row satisfies.
pub open spec fn pending_pred(db: Store, folder_id: i64) -> spec_fn(MediaItem) -> bool {
    |it: MediaItem| it.library_folder_id == folder_id && !db.has_metadata_for(it.id)
}

/// The items of one folder that still lack a metadata row, in insertion
/// order.
pub open spec fn items_pending_metadata(db: Store, folder_id: i64) -> Seq<MediaItem> {
    db.items@.filter(pending_pred(db, folder_id))
}

/// One unfolding of `filter` along a growing prefix.
pub(crate) proof fn lemma_filter_take_step<T>(s: Seq<T>, p: spec_fn(T) -> bool, i: int)
    requires
        0 <= i < s.len(),
    ensures
        s.take(i + 1).filter(p) == if p(s[i]) {
            s.take(i).filter(p).push(s[i])
        } else {
            s.take(i).filter(p)
        },
{
    reveal_with_fuel(Seq::filter, 2);
    assert(s.take(i + 1).drop_last() =~= s.take(i));
    assert(s.take(i + 1).last() == s[i]);
}

/// Find the position of the folder with the given path.
fn find_folder_index_by_path(db: &Store, path: &str) -> (r: Option<usize>)
    ensures
        match r {
            Some(i) => i < db.folders@.len() && db.folders@[i as int].path@ == path@,
            None => !db.has_folder_with_path(path@),
        },
{
    let mut i: usize = 0;
    while i < db.folders.len()
        invariant
            0 <= i <= db.folders@.len(),
            forall|j: int| 0 <= j < i ==> #[trigger] db.folders@[j].path@ != path@,
        decreases db.folders@.len() - i,
    {
        if str_eq(db.folders[i].path.as_str(), path) {
            return Some(i);
        }
        i = i + 1;
    }
    None
}

/// Find the position of the folder with the given id.
fn find_folder_index(db: &Store, id: i64) -> (r: Option<usize>)
    ensures
        match r {
            Some(i) => i < db.folders@.len() && db.folders@[i as int].id == id,
            None => !db.has_folder(id),
        },
{
    let mut i: usize = 0;
    while i < db.folders.len()
        invariant
            0 <= i <= db.folders@.len(),
            forall|j: int| 0 <= j < i ==> #[trigger] db.folders@[j].id != id,
        decreases db.folders@.len() - i,
    {
        if db.folders[i].id == id {
            return Some(i);
        }
        i = i + 1;
    }
    None
}

/// Find the position of the item with the given file path.
fn find_item_index_by_path(db: &Store, path: &str) -> (r: Option<usize>)
    ensures
        match r {
            Some(i) => i < db.items@.len() && db.items@[i as int].file_path@ == path@,
            None => !db.has_item_with_path(path@),
        },
{
    let mut i: usize = 0;
    while i < db.items.len()
        invariant
            0 <= i <= db.items@.len(),
            forall|j: int| 0 <= j < i ==> #[trigger] db.items@[j].file_path@ != path@,
        decreases db.items@.len() - i,
    {
        if str_eq(db.items[i].file_path.as_str(), path) {
            return Some(i);
        }
        i = i + 1;
    }
    None
}

/// Find the position of the item with the given id.
fn find_item_index(db: &Store, id: i64) -> (r: Option<usize>)
    ensures
        match r {
            Some(i) => i < db.items@.len() && db.items@[i as int].id == id,
            None => !db.has_item(id),
        },
{
    let mut i: usize = 0;
    while i < db.items.len()
        invariant
            0 <= i <= db.items@.len(),
            forall|j: int| 0 <= j < i ==> #[trigger] db.items@[j].id != id,
        decreases db.items@.len() - i,
    {
        if db.items[i].id == id {
            return Some(i);
        }
        i = i + 1;
    }
    None
}

/// Find the position of the metadata row for the given media item.
fn find_metadata_index_by_item(db: &Store, media_item_id: i64) -> (r: Option<usize>)
    ensures
        match r {
            Some(i) => i < db.metadata@.len() && db.metadata@[i as int].media_item_id
                == media_item_id,
            None => !db.has_metadata_for(media_item_id),
        },
{
    let mut i: usize = 0;
    while i < db.metadata.len()
        invariant
            0 <= i <= db.metadata@.len(),
            forall|j: int| 0 <= j < i ==> #[trigger] db.metadata@[j].media_item_id != media_item_id,
        decreases db.metadata@.len() - i,
    {
        if db.metadata[i].media_item_id == media_item_id {
            return Some(i);
        }
        i = i + 1;
    }
    None
}

/// Whether the store holds an item with this id inside this folder.
fn item_in_folder_exec(db: &Store, item_id: i64, folder_id: i64) -> (r: bool)
    ensures
        r == db.item_in_folder(item_id, folder_id),
{
    let mut i: usize = 0;
    while i < db.items.len()
        invariant
            0 <= i <= db.items@.len(),
            forall|j: int|
                0 <= j < i ==> !(#[trigger] db.items@[j].id == item_id
                    && db.items@[j].library_folder_id == folder_id),
        decreases db.items@.len() - i,
    {
        if db.items[i].id == item_id && db.items[i].library_folder_id == folder_id {
            return true;
        }
        i = i + 1;
    }
    false
}

impl LibraryFolder {
    /// Register a new library folder. Fails when another folder already
    /// watches the same path; the new folder starts enabled.
    pub fn create(db: &mut Store, folder: CreateLibraryFolder, now: i64) -> (r: Result<
        LibraryFolder,
        StoreError,
    >)
        requires
            old(db).wf(),
            old(db).next_folder_id < i64::MAX,
        ensures
            final(db).wf(),
            match r {
                Ok(f) => {
                    &&& !old(db).has_folder_with_path(folder.path@)
                    &&& f.id == old(db).next_folder_id
                    &&& f.name@ == folder.name@
                    &&& f.path@ == folder.path@
                    &&& f.media_type == folder.media_type
                    &&& f.enabled == true
                    &&& f.created_at == now
                    &&& f.updated_at == now
                    &&& final(db).folders@ =~= old(db).folders@.push(f)
                    &&& final(db).items == old(db).items
                    &&& final(db).metadata == old(db).metadata
                    &&& final(db).next_folder_id == old(db).next_folder_id + 1
                    &&& final(db).next_item_id == old(db).next_item_id
                    &&& final(db).next_metadata_id == old(db).next_metadata_id
                },
                Err(e) => {
                    &&& e == StoreError::UniqueViolation
                    &&& old(db).has_folder_with_path(folder.path@)
                    &&& *final(db) == *old(db)
                },
            },
    {
        if find_folder_index_by_path(db, folder.path.as_str()).is_some() {
            return Err(StoreError::UniqueViolation);
        }
        let row = LibraryFolder {
            id: db.next_folder_id,
            name: folder.name,
            path: folder.path,
            media_type: folder.media_type,
            enabled: true,
            created_at: now,
            updated_at: now,
        };
        let ret = row.clone();
        db.folders.push(row);
        db.next_folder_id = db.next_folder_id + 1;
        proof {
            assert forall|k: int| 0 <= k < db.items@.len() implies db.has_folder(
                #[trigger] db.items@[k].library_folder_id,
            ) by {
                let fid = db.items@[k].library_folder_id;
                assert(old(db).has_folder(fid));
                let i = choose|i: int|
                    0 <= i < old(db).folders@.len() && old(db).folders@[i].id == fid;
                assert(db.folders@[i].id == fid);
            }
        }
        Ok(ret)
    }

    /// Fetch the folder with the given id, if any.
    pub fn find_by_id(db: &Store, id: i64) -> (r: Option<LibraryFolder>)
        ensures
            match r {
                Some(f) => exists|i: int|
                    0 <= i < db.folders@.len() && #[trigger] db.folders@[i] == f && f.id == id,
                None => !db.has_folder(id),
            },
    {
        match find_folder_index(db, id) {
            Some(i) => Some(db.folders[i].clone()),
            None => None,
        }
    }

    /// All folders, most recently created first.
    pub fn list_all(db: &Store) -> (r: Vec<LibraryFolder>)
        ensures
            r@ =~= db.folders@.reverse(),
    {
        let mut out: Vec<LibraryFolder> = Vec::new();
        let mut i: usize = db.folders.len();
        while i > 0
            invariant
                0 <= i <= db.folders@.len(),
                out@.len() == db.folders@.len() - i,
                forall|j: int|
                    0 <= j < out@.len() ==> #[trigger] out@[j] == db.folders@[db.folders@.len() - 1
                        - j],
            decreases i,
        {
            i = i - 1;
            out.push(db.folders[i].clone());
        }
        out
    }

    /// The enabled folders, most recently created first.
    pub fn list_enabled(db: &Store) -> (r: Vec<LibraryFolder>)
        ensures
            r@ =~= db.folders@.reverse().filter(|f: LibraryFolder| f.enabled),
    {
        let all = LibraryFolder::list_all(db);
        let ghost rev = db.folders@.reverse();
        let mut out: Vec<LibraryFolder> = Vec::new();
        let mut i: usize = 0;
        while i < all.len()
            invariant
                0 <= i <= all@.len(),
                all@ =~= rev,
                out@ =~= rev.take(i as int).filter(|f: LibraryFolder| f.enabled),
            decreases all@.len() - i,
        {
            proof {
                lemma_filter_take_step(rev, |f: LibraryFolder| f.enabled, i as int);
            }
            if all[i].enabled {
                out.push(all[i].clone());
            }
            i = i + 1;
        }
        proof {
            assert(rev.take(rev.len() as int) =~= rev);
        }
        out
    }

    /// Rewrite this folder's row: name, path, kind and enabled flag are
    /// taken from `self`, `updated_at` is refreshed. Updating a row that
    /// no longer exists changes nothing. Fails when the new path would
    /// collide with a different folder.
    pub fn update(&self, db: &mut Store, now: i64) -> (r: Result<(), StoreError>)
        requires
            old(db).wf(),
        ensures
            final(db).wf(),
            final(db).items == old(db).items,
            final(db).metadata == old(db).metadata,
            final(db).next_folder_id == old(db).next_folder_id,
            final(db).next_item_id == old(db).next_item_id,
            final(db).next_metadata_id == old(db).next_metadata_id,
            match r {
                Ok(_) => {
                    if old(db).has_folder(self.id) {
                        exists|i: int|
                            {
                                &&& 0 <= i < old(db).folders@.len()
                                &&& old(db).folders@[i].id == self.id
                                &&& final(db).folders@ =~= old(db).folders@.update(
                                    i,
                                    (LibraryFolder {
                                        id: self.id,
                                        name: self.name,
                                        path: self.path,
                                        media_type: self.media_type,
                                        enabled: self.enabled,
                                        created_at: old(db).folders@[i].created_at,
                                        updated_at: now,
                                    }),
                                )
                            }
                    } else {
                        final(db).folders == old(db).folders
                    }
                },
                Err(e) => {
                    &&& e == StoreError::UniqueViolation
                    &&& *final(db) == *old(db)
                    &&& exists|j: int|
                        0 <= j < old(db).folders@.len() && #[trigger] old(db).folders@[j].path@
                            == self.path@ && old(db).folders@[j].id != self.id
                },
            },
    {
        let idx = match find_folder_index(db, self.id) {
            Some(i) => i,
            None => {
                return Ok(());
            },
        };
        match find_folder_index_by_path(db, self.path.as_str()) {
            Some(j) => {
                if db.folders[j].id != self.id {
                    return Err(StoreError::UniqueViolation);
                }
            },
            None => {},
        }
        let created_at = db.folders[idx].created_at;
        let row = LibraryFolder {
            id: self.id,
            name: self.name.clone(),
            path: self.path.clone(),
            media_type: self.media_type,
            enabled: self.enabled,
            created_at,
            updated_at: now,
        };
        db.folders.remove(idx);
        db.folders.insert(idx, row);
        proof {
            assert(db.folders@ =~= old(db).folders@.update(
                idx as int,
                LibraryFolder {
                    id: self.id,
                    name: self.name,
                    path: self.path,
                    media_type: self.media_type,
                    enabled: self.enabled,
                    created_at: old(db).folders@[idx as int].created_at,
                    updated_at: now,
                },
            ));
            assert forall|k: int| 0 <= k < db.items@.len() implies db.has_folder(
                #[trigger] db.items@[k].library_folder_id,
            ) by {
                let fid = db.items@[k].library_folder_id;
                assert(old(db).has_folder(fid));
                let i = choose|i: int|
                    0 <= i < old(db).folders@.len() && old(db).folders@[i].id == fid;
                assert(db.folders@[i].id == fid);
            }
        }
        Ok(())
    }
}

/// What deleting a library folder leaves behind: the folder's row, its
/// media items, and their metadata rows are all gone; everything else
/// is untouched.
pub open spec fn folder_delete_post(s0: Store, s1: Store, id: i64) -> bool {
    &&& s1.folders@ == s0.folders@.filter(|f: LibraryFolder| f.id != id)
    &&& s1.items@ == s0.items@.filter(|it: MediaItem| it.library_folder_id != id)
    &&& s1.metadata@ == s0.metadata@.filter(
        |m: VideoMetadata| !s0.item_in_folder(m.media_item_id, id),
    )
    &&& s1.next_folder_id == s0.next_folder_id
    &&& s1.next_item_id == s0.next_item_id
    &&& s1.next_metadata_id == s0.next_metadata_id
}

impl LibraryFolder {
    /// Delete the folder with this id, cascading to its media items and
    /// to their metadata rows. Deleting an unknown id changes nothing.
    #[verifier::loop_isolation(false)]
    pub fn delete(db: &mut Store, id: i64) -> (r: Result<(), StoreError>)
        requires
            old(db).wf(),
        ensures
            final(db).wf(),
            r is Ok,
            folder_delete_post(*old(db), *final(db), id),
    {
        let ghost keep_m: spec_fn(VideoMetadata) -> bool = |m: VideoMetadata|
            !old(db).item_in_folder(m.media_item_id, id);
        let ghost keep_i: spec_fn(MediaItem) -> bool = |it: MediaItem| it.library_folder_id != id;
        let ghost keep_f: spec_fn(LibraryFolder) -> bool = |f: LibraryFolder| f.id != id;

        // Metadata rows first: the keep test reads the still-intact item
        // table.
        let mut taken_m: Vec<VideoMetadata> = Vec::new();
        core::mem::swap(&mut db.metadata, &mut taken_m);
        let ghost orig_m = taken_m@;
        while taken_m.len() > 0
            invariant
                old(db).wf(),
                db.folders == old(db).folders,
                db.items == old(db).items,
                db.next_folder_id == old(db).next_folder_id,
                db.next_item_id == old(db).next_item_id,
                db.next_metadata_id == old(db).next_metadata_id,
                taken_m@.len() <= orig_m.len(),
                orig_m == old(db).metadata@,
                taken_m@ =~= orig_m.skip(orig_m.len() - taken_m@.len()),
                db.metadata@ =~= orig_m.take(orig_m.len() - taken_m@.len()).filter(keep_m),
                forall|a: int|
                    0 <= a < db.metadata@.len() ==> exists|k: int|
                        0 <= k < orig_m.len() - taken_m@.len() && #[trigger] db.metadata@[a]
                            == orig_m[k],
            decreases taken_m@.len(),
        {
            let ghost j = orig_m.len() - taken_m@.len();
            let x = taken_m.remove(0);
            proof {
                assert(x == orig_m[j]);
                assert(taken_m@ =~= orig_m.skip(j + 1));
                lemma_filter_take_step(orig_m, keep_m, j as int);
            }
            if !item_in_folder_exec(db, x.media_item_id, id) {
                db.metadata.push(x);
            }
        }
        proof {
            assert(orig_m.take(orig_m.len() as int) =~= orig_m);
        }

        // Media items of the folder.
        let mut taken_i: Vec<MediaItem> = Vec::new();
        core::mem::swap(&mut db.items, &mut taken_i);
        let ghost orig_i = taken_i@;
        while taken_i.len() > 0
            invariant
                old(db).wf(),
                db.folders == old(db).folders,
                db.metadata@ == old(db).metadata@.filter(keep_m),
                db.next_folder_id == old(db).next_folder_id,
                db.next_item_id == old(db).next_item_id,
                db.next_metadata_id == old(db).next_metadata_id,
                taken_i@.len() <= orig_i.len(),
                orig_i == old(db).items@,
                taken_i@ =~= orig_i.skip(orig_i.len() - taken_i@.len()),
                db.items@ =~= orig_i.take(orig_i.len() - taken_i@.len()).filter(keep_i),
            decreases taken_i@.len(),
        {
            let ghost j = orig_i.len() - taken_i@.len();
            let x = taken_i.remove(0);
            proof {
                assert(x == orig_i[j]);
                assert(taken_i@ =~= orig_i.skip(j + 1));
                lemma_filter_take_step(orig_i, keep_i, j as int);
            }
            if !(x.library_folder_id == id) {
                db.items.push(x);
            }
        }
        proof {
            assert(orig_i.take(orig_i.len() as int) =~= orig_i);
        }

        // Finally the folder row itself.
        let mut taken_f: Vec<LibraryFolder> = Vec::new();
        core::mem::swap(&mut db.folders, &mut taken_f);
        let ghost orig_f = taken_f@;
        while taken_f.len() > 0
            invariant
                old(db).wf(),
                db.items@ == old(db).items@.filter(keep_i),
                db.metadata@ == old(db).metadata@.filter(keep_m),
                db.next_folder_id == old(db).next_folder_id,
                db.next_item_id == old(db).next_item_id,
                db.next_metadata_id == old(db).next_metadata_id,
                taken_f@.len() <= orig_f.len(),
                orig_f == old(db).folders@,
                taken_f@ =~= orig_f.skip(orig_f.len() - taken_f@.len()),
                db.folders@ =~= orig_f.take(orig_f.len() - taken_f@.len()).filter(keep_f),
            decreases taken_f@.len(),
        {
            let ghost j = orig_f.len() - taken_f@.len();
            let x = taken_f.remove(0);
            proof {
                assert(x == orig_f[j]);
                assert(taken_f@ =~= orig_f.skip(j + 1));
                lemma_filter_take_step(orig_f, keep_f, j as int);
            }
            if !(x.id == id) {
                db.folders.push(x);
            }
        }
        proof {
            assert(orig_f.take(orig_f.len() as int) =~= orig_f);
            lemma_folder_delete_wf(*old(db), *db, id);
        }
        Ok(())
    }
}

impl MediaItem {
    /// Insert a newly discovered file. Fails when the owning folder does
    /// not exist, or when another item already has the same file path.
    pub fn create(db: &mut Store, item: CreateMediaItem, now: i64) -> (r: Result<
        MediaItem,
        StoreError,
    >)
        requires
            old(db).wf(),
            old(db).next_item_id < i64::MAX,
        ensures
            final(db).wf(),
            final(db).folders == old(db).folders,
            final(db).metadata == old(db).metadata,
            final(db).next_folder_id == old(db).next_folder_id,
            final(db).next_metadata_id == old(db).next_metadata_id,
            match r {
                Ok(it) => {
                    &&& old(db).has_folder(item.library_folder_id)
                    &&& !old(db).has_item_with_path(item.file_path@)
                    &&& it.id == old(db).next_item_id
                    &&& it.library_folder_id == item.library_folder_id
                    &&& it.media_type == item.media_type
                    &&& it.title@ == item.title@
                    &&& it.file_path@ == item.file_path@
                    &&& it.file_size == item.file_size
                    &&& it.added_at == now
                    &&& it.updated_at == now
                    &&& final(db).items@ =~= old(db).items@.push(it)
                    &&& final(db).next_item_id == old(db).next_item_id + 1
                },
                Err(e) => {
                    &&& *final(db) == *old(db)
                    &&& match e {
                        StoreError::ForeignKeyViolation => !old(db).has_folder(
                            item.library_folder_id,
                        ),
                        StoreError::UniqueViolation => old(db).has_folder(item.library_folder_id)
                            && old(db).has_item_with_path(item.file_path@),
                    }
                },
            },
    {
        if find_folder_index(db, item.library_folder_id).is_none() {
            return Err(StoreError::ForeignKeyViolation);
        }
        if find_item_index_by_path(db, item.file_path.as_str()).is_some() {
            return Err(StoreError::UniqueViolation);
        }
        let row = MediaItem {
            id: db.next_item_id,
            library_folder_id: item.library_folder_id,
            media_type: item.media_type,
            title: item.title,
            file_path: item.file_path,
            file_size: item.file_size,
            added_at: now,
            updated_at: now,
        };
        let ret = row.clone();
        db.items.push(row);
        db.next_item_id = db.next_item_id + 1;
        proof {
            assert forall|k: int| 0 <= k < db.items@.len() implies db.has_folder(
                #[trigger] db.items@[k].library_folder_id,
            ) by {
                let fid = db.items@[k].library_folder_id;
                assert(old(db).has_folder(fid));
                let i = choose|i: int|
                    0 <= i < old(db).folders@.len() && old(db).folders@[i].id == fid;
                assert(db.folders@[i].id == fid);
            }
            assert forall|k: int| 0 <= k < db.metadata@.len() implies db.has_item(
                #[trigger] db.metadata@[k].media_item_id,
            ) by {
                let mid = db.metadata@[k].media_item_id;
                assert(old(db).has_item(mid));
                let i = choose|i: int| 0 <= i < old(db).items@.len() && old(db).items@[i].id == mid;
                assert(db.items@[i].id == mid);
            }
        }
        Ok(ret)
    }

    /// Fetch the item with the given id, if any.
    pub fn find_by_id(db: &Store, id: i64) -> (r: Option<MediaItem>)
        ensures
            match r {
                Some(it) => exists|i: int|
                    0 <= i < db.items@.len() && #[trigger] db.items@[i] == it && it.id == id,
                None => !db.has_item(id),
            },
    {
        match find_item_index(db, id) {
            Some(i) => Some(db.items[i].clone()),
            None => None,
        }
    }

    /// Fetch the item with the given file path, if any.
    pub fn find_by_path(db: &Store, path: &str) -> (r: Option<MediaItem>)
        ensures
            match r {
                Some(it) => exists|i: int|
                    0 <= i < db.items@.len() && #[trigger] db.items@[i] == it && it.file_path@
                        == path@,
                None => !db.has_item_with_path(path@),
            },
    {
        match find_item_index_by_path(db, path) {
            Some(i) => Some(db.items[i].clone()),
            None => None,
        }
    }

    /// All items of one media kind, most recently added first.
    #[verifier::loop_isolation(false)]
    pub fn list_by_type(db: &Store, media_type: MediaType) -> (r: Vec<MediaItem>)
        ensures
            r@ =~= items_of_type(*db, media_type),
    {
        let ghost keep: spec_fn(MediaItem) -> bool = type_pred(media_type);
        let ghost rev = db.items@.reverse();
        let mut out: Vec<MediaItem> = Vec::new();
        let mut i: usize = db.items.len();
        while i > 0
            invariant
                0 <= i <= db.items@.len(),
                out@ =~= rev.take(db.items@.len() - i).filter(keep),
            decreases i,
        {
            i = i - 1;
            proof {
                lemma_filter_take_step(rev, keep, db.items@.len() - i - 1);
                assert(rev[db.items@.len() - i - 1] == db.items@[i as int]);
            }
            if db.items[i].media_type == media_type {
                out.push(db.items[i].clone());
            }
        }
        proof {
            assert(rev.take(rev.len() as int) =~= rev);
        }
        out
    }

    /// Items of one folder that have no metadata row yet, in insertion
    /// order; these are the items the orchestrator still has to enrich.
    #[verifier::loop_isolation(false)]
    pub fn list_by_folder_without_metadata(db: &Store, folder_id: i64) -> (r: Vec<MediaItem>)
        ensures
            r@ =~= items_pending_metadata(*db, folder_id),
    {
        let ghost keep: spec_fn(MediaItem) -> bool = pending_pred(*db, folder_id);
        let mut out: Vec<MediaItem> = Vec::new();
        let mut i: usize = 0;
        while i < db.items.len()
            invariant
                0 <= i <= db.items@.len(),
                out@ =~= db.items@.take(i as int).filter(keep),
            decreases db.items@.len() - i,
        {
            proof {
                lemma_filter_take_step(db.items@, keep, i as int);
            }
            if db.items[i].library_folder_id == folder_id {
                if find_metadata_index_by_item(db, db.items[i].id).is_none() {
                    out.push(db.items[i].clone());
                }
            }
            i = i + 1;
        }
        proof {
            assert(db.items@.take(db.items@.len() as int) =~= db.items@);
        }
        out
    }

    /// Rewrite this item's title and refresh `updated_at`; the other
    /// columns never change. Updating a row that no longer exists
    /// changes nothing.
    pub fn update(&self, db: &mut Store, now: i64) -> (r: Result<(), StoreError>)
        requires
            old(db).wf(),
        ensures
            final(db).wf(),
            r is Ok,
            final(db).folders == old(db).folders,
            final(db).metadata == old(db).metadata,
            final(db).next_folder_id == old(db).next_folder_id,
            final(db).next_item_id == old(db).next_item_id,
            final(db).next_metadata_id == old(db).next_metadata_id,
            if old(db).has_item(self.id) {
                exists|i: int|
                    {
                        &&& 0 <= i < old(db).items@.len()
                        &&& old(db).items@[i].id == self.id
                        &&& final(db).items@ =~= old(db).items@.update(
                            i,
                            (MediaItem {
                                title: self.title,
                                updated_at: now,
                                ..old(db).items@[i]
                            }),
                        )
                    }
            } else {
                final(db).items == old(db).items
            },
    {
        let idx = match find_item_index(db, self.id) {
            Some(i) => i,
            None => {
                return Ok(());
            },
        };
        let prev = db.items.remove(idx);
        let row = MediaItem {
            id: prev.id,
            library_folder_id: prev.library_folder_id,
            media_type: prev.media_type,
            title: self.title.clone(),
            file_path: prev.file_path,
            file_size: prev.file_size,
            added_at: prev.added_at,
            updated_at: now,
        };
        db.items.insert(idx, row);
        proof {
            assert(db.items@ =~= old(db).items@.update(
                idx as int,
                (MediaItem { title: self.title, updated_at: now, ..old(db).items@[idx as int] }),
            ));
            assert forall|k: int| 0 <= k < db.items@.len() implies db.has_folder(
                #[trigger] db.items@[k].library_folder_id,
            ) by {
                let fid = db.items@[k].library_folder_id;
                assert(old(db).has_folder(fid));
                let i = choose|i: int|
                    0 <= i < old(db).folders@.len() && old(db).folders@[i].id == fid;
                assert(db.folders@[i].id == fid);
            }
            assert forall|k: int| 0 <= k < db.metadata@.len() implies db.has_item(
                #[trigger] db.metadata@[k].media_item_id,
            ) by {
                let mid = db.metadata@[k].media_item_id;
                assert(old(db).has_item(mid));
                let i = choose|i: int| 0 <= i < old(db).items@.len() && old(db).items@[i].id == mid;
                assert(db.items@[i].id == mid);
            }
        }
        Ok(())
    }
}

/// What deleting a media item leaves behind: the item's row and its
/// metadata row are gone; everything else is untouched.
pub open spec fn item_delete_post(s0: Store, s1: Store, id: i64) -> bool {
    &&& s1.folders == s0.folders
    &&& s1.items@ == s0.items@.filter(|it: MediaItem| it.id != id)
    &&& s1.metadata@ == s0.metadata@.filter(|m: VideoMetadata| m.media_item_id != id)
    &&& s1.next_folder_id == s0.next_folder_id
    &&& s1.next_item_id == s0.next_item_id
    &&& s1.next_metadata_id == s0.next_metadata_id
}

impl MediaItem {
    /// Delete the item with this id, together with its metadata row.
    /// Deleting an unknown id changes nothing.
    #[verifier::loop_isolation(false)]
    pub fn delete(db: &mut Store, id: i64) -> (r: Result<(), StoreError>)
        requires
            old(db).wf(),
        ensures
            final(db).wf(),
            r is Ok,
            item_delete_post(*old(db), *final(db), id),
    {
        let ghost keep_m: spec_fn(VideoMetadata) -> bool = |m: VideoMetadata|
            m.media_item_id != id;
        let ghost keep_i: spec_fn(MediaItem) -> bool = |it: MediaItem| it.id != id;

        let mut taken_m: Vec<VideoMetadata> = Vec::new();
        core::mem::swap(&mut db.metadata, &mut taken_m);
        let ghost orig_m = taken_m@;
        while taken_m.len() > 0
            invariant
                db.folders == old(db).folders,
                db.items == old(db).items,
                db.next_folder_id == old(db).next_folder_id,
                db.next_item_id == old(db).next_item_id,
                db.next_metadata_id == old(db).next_metadata_id,
                taken_m@.len() <= orig_m.len(),
                orig_m == old(db).metadata@,
                taken_m@ =~= orig_m.skip(orig_m.len() - taken_m@.len()),
                db.metadata@ =~= orig_m.take(orig_m.len() - taken_m@.len()).filter(keep_m),
            decreases taken_m@.len(),
        {
            let ghost j = orig_m.len() - taken_m@.len();
            let x = taken_m.remove(0);
            proof {
                assert(x == orig_m[j]);
                assert(taken_m@ =~= orig_m.skip(j + 1));
                lemma_filter_take_step(orig_m, keep_m, j as int);
            }
            if !(x.media_item_id == id) {
                db.metadata.push(x);
            }
        }
        proof {
            assert(orig_m.take(orig_m.len() as int) =~= orig_m);
        }

        let mut taken_i: Vec<MediaItem> = Vec::new();
        core::mem::swap(&mut db.items, &mut taken_i);
        let ghost orig_i = taken_i@;
        while taken_i.len() > 0
            invariant
                db.folders == old(db).folders,
                db.metadata@ == old(db).metadata@.filter(keep_m),
                db.next_folder_id == old(db).next_folder_id,
                db.next_item_id == old(db).next_item_id,
                db.next_metadata_id == old(db).next_metadata_id,
                taken_i@.len() <= orig_i.len(),
                orig_i == old(db).items@,
                taken_i@ =~= orig_i.skip(orig_i.len() - taken_i@.len()),
                db.items@ =~= orig_i.take(orig_i.len() - taken_i@.len()).filter(keep_i),
            decreases taken_i@.len(),
        {
            let ghost j = orig_i.len() - taken_i@.len();
            let x = taken_i.remove(0);
            proof {
                assert(x == orig_i[j]);
                assert(taken_i@ =~= orig_i.skip(j + 1));
                lemma_filter_take_step(orig_i, keep_i, j as int);
            }
            if !(x.id == id) {
                db.items.push(x);
            }
        }
        proof {
            assert(orig_i.take(orig_i.len() as int) =~= orig_i);
            lemma_item_delete_wf(*old(db), *db, id);
        }
        Ok(())
    }
}

/// The cascade of an item delete preserves the schema invariants.
proof fn lemma_item_delete_wf(s0: Store, s1: Store, id: i64)
    requires
        s0.wf(),
        item_delete_post(s0, s1, id),
    ensures
        s1.wf(),
{
    let keep_i = |it: MediaItem| it.id != id;
    let keep_m = |m: VideoMetadata| m.media_item_id != id;
    lemma_filter_embeds(s0.items@, keep_i);
    lemma_filter_pairs(s0.items@, keep_i);
    lemma_filter_embeds(s0.metadata@, keep_m);
    lemma_filter_pairs(s0.metadata@, keep_m);
    s0.items@.filter_lemma(keep_i);
    s0.metadata@.filter_lemma(keep_m);
    assert forall|a: int| 0 <= a < s1.items@.len() implies 0 < #[trigger] s1.items@[a].id
        < s1.next_item_id by {
        let k = choose|k: int| a <= k < s0.items@.len() && s1.items@[a] == s0.items@[k];
    }
    assert forall|a: int, b: int| 0 <= a < b < s1.items@.len() implies #[trigger] s1.items@[a].id
        != #[trigger] s1.items@[b].id && s1.items@[a].file_path@ != s1.items@[b].file_path@ by {
        let (k, l) = choose|k: int, l: int|
            0 <= k < l < s0.items@.len() && s1.items@[a] == s0.items@[k] && s1.items@[b]
                == s0.items@[l];
    }
    assert forall|a: int| 0 <= a < s1.metadata@.len() implies 0 < #[trigger] s1.metadata@[a].id
        < s1.next_metadata_id by {
        let k = choose|k: int| a <= k < s0.metadata@.len() && s1.metadata@[a] == s0.metadata@[k];
    }
    assert forall|a: int, b: int|
        0 <= a < b < s1.metadata@.len() implies #[trigger] s1.metadata@[a].id
        != #[trigger] s1.metadata@[b].id && s1.metadata@[a].media_item_id
        != s1.metadata@[b].media_item_id by {
        let (k, l) = choose|k: int, l: int|
            0 <= k < l < s0.metadata@.len() && s1.metadata@[a] == s0.metadata@[k] && s1.metadata@[b]
                == s0.metadata@[l];
    }
    assert forall|a: int| 0 <= a < s1.items@.len() implies s1.has_folder(
        #[trigger] s1.items@[a].library_folder_id,
    ) by {
        let k = choose|k: int| a <= k < s0.items@.len() && s1.items@[a] == s0.items@[k];
        assert(s0.has_folder(s1.items@[a].library_folder_id));
    }
    assert forall|a: int| 0 <= a < s1.metadata@.len() implies s1.has_item(
        #[trigger] s1.metadata@[a].media_item_id,
    ) by {
        let mid = s1.metadata@[a].media_item_id;
        assert(keep_m(s1.metadata@[a]));
        let k = choose|k: int| a <= k < s0.metadata@.len() && s1.metadata@[a] == s0.metadata@[k];
        assert(s0.has_item(mid));
        let ii = choose|ii: int| 0 <= ii < s0.items@.len() && s0.items@[ii].id == mid;
        assert(keep_i(s0.items@[ii]));
        assert(s1.items@.contains(s0.items@[ii]));
    }
}

/// A filtered table keeps the invariants of the original: every row of
/// the result is a row of the original, at a position no earlier than
/// its own.
pub(crate) proof fn lemma_filter_embeds<T>(s: Seq<T>, p: spec_fn(T) -> bool)
    ensures
        forall|a: int|
            0 <= a < s.filter(p).len() ==> exists|k: int|
                a <= k < s.len() && #[trigger] s.filter(p)[a] == s[k],
        s.filter(p).len() <= s.len(),
    decreases s.len(),
{
    reveal_with_fuel(Seq::filter, 2);
    if s.len() > 0 {
        lemma_filter_embeds(s.drop_last(), p);
        let out = s.filter(p);
        let sub = s.drop_last().filter(p);
        assert forall|a: int| 0 <= a < out.len() implies exists|k: int|
            a <= k < s.len() && #[trigger] out[a] == s[k] by {
            if a < sub.len() {
                let k = choose|k: int| a <= k < s.drop_last().len() && sub[a] == s.drop_last()[k];
                assert(out[a] == s[k]);
            } else {
                assert(out[a] == s.last());
                assert(out[a] == s[s.len() - 1]);
            }
        }
    }
}

/// Two distinct positions of a filtered table come from two distinct
/// positions of the original.
proof fn lemma_filter_pairs<T>(s: Seq<T>, p: spec_fn(T) -> bool)
    ensures
        forall|a: int, b: int|
            0 <= a < b < s.filter(p).len() ==> exists|k: int, l: int|
                0 <= k < l < s.len() && #[trigger] s.filter(p)[a] == s[k] && #[trigger] s.filter(
                    p,
                )[b] == s[l],
    decreases s.len(),
{
    reveal_with_fuel(Seq::filter, 2);
    if s.len() > 0 {
        lemma_filter_pairs(s.drop_last(), p);
        lemma_filter_embeds(s.drop_last(), p);
        let out = s.filter(p);
        let sub = s.drop_last().filter(p);
        assert forall|a: int, b: int| 0 <= a < b < out.len() implies exists|k: int, l: int|
            0 <= k < l < s.len() && #[trigger] out[a] == s[k] && #[trigger] out[b] == s[l] by {
            if b < sub.len() {
                let (k, l) = choose|k: int, l: int|
                    0 <= k < l < s.drop_last().len() && sub[a] == s.drop_last()[k] && sub[b]
                        == s.drop_last()[l];
                assert(out[a] == s[k] && out[b] == s[l]);
            } else {
                // b is the appended last element; a embeds into the prefix.
                assert(out[b] == s[s.len() - 1]);
                let k = choose|k: int| a <= k < s.drop_last().len() && sub[a] == s.drop_last()[k];
                assert(out[a] == s[k]);
                assert(k < s.len() - 1);
            }
        }
    }
}

/// The cascade of a folder delete preserves the schema invariants.
proof fn lemma_folder_delete_wf(s0: Store, s1: Store, id: i64)
    requires
        s0.wf(),
        folder_delete_post(s0, s1, id),
    ensures
        s1.wf(),
{
    let keep_f = |f: LibraryFolder| f.id != id;
    let keep_i = |it: MediaItem| it.library_folder_id != id;
    let keep_m = |m: VideoMetadata| !s0.item_in_folder(m.media_item_id, id);
    lemma_filter_embeds(s0.folders@, keep_f);
    lemma_filter_pairs(s0.folders@, keep_f);
    lemma_filter_embeds(s0.items@, keep_i);
    lemma_filter_pairs(s0.items@, keep_i);
    lemma_filter_embeds(s0.metadata@, keep_m);
    lemma_filter_pairs(s0.metadata@, keep_m);
    s0.folders@.filter_lemma(keep_f);
    s0.items@.filter_lemma(keep_i);
    s0.metadata@.filter_lemma(keep_m);
    assert forall|a: int| 0 <= a < s1.folders@.len() implies 0 < #[trigger] s1.folders@[a].id
        < s1.next_folder_id by {
        let k = choose|k: int| a <= k < s0.folders@.len() && s1.folders@[a] == s0.folders@[k];
    }
    assert forall|a: int, b: int| 0 <= a < b < s1.folders@.len() implies #[trigger] s1.folders@[a].id
        != #[trigger] s1.folders@[b].id && s1.folders@[a].path@ != s1.folders@[b].path@ by {
        let (k, l) = choose|k: int, l: int|
            0 <= k < l < s0.folders@.len() && s1.folders@[a] == s0.folders@[k] && s1.folders@[b]
                == s0.folders@[l];
    }
    assert forall|a: int| 0 <= a < s1.items@.len() implies 0 < #[trigger] s1.items@[a].id
        < s1.next_item_id by {
        let k = choose|k: int| a <= k < s0.items@.len() && s1.items@[a] == s0.items@[k];
    }
    assert forall|a: int, b: int| 0 <= a < b < s1.items@.len() implies #[trigger] s1.items@[a].id
        != #[trigger] s1.items@[b].id && s1.items@[a].file_path@ != s1.items@[b].file_path@ by {
        let (k, l) = choose|k: int, l: int|
            0 <= k < l < s0.items@.len() && s1.items@[a] == s0.items@[k] && s1.items@[b]
                == s0.items@[l];
    }
    assert forall|a: int| 0 <= a < s1.metadata@.len() implies 0 < #[trigger] s1.metadata@[a].id
        < s1.next_metadata_id by {
        let k = choose|k: int| a <= k < s0.metadata@.len() && s1.metadata@[a] == s0.metadata@[k];
    }
    assert forall|a: int, b: int|
        0 <= a < b < s1.metadata@.len() implies #[trigger] s1.metadata@[a].id
        != #[trigger] s1.metadata@[b].id && s1.metadata@[a].media_item_id
        != s1.metadata@[b].media_item_id by {
        let (k, l) = choose|k: int, l: int|
            0 <= k < l < s0.metadata@.len() && s1.metadata@[a] == s0.metadata@[k] && s1.metadata@[b]
                == s0.metadata@[l];
    }
    assert forall|a: int| 0 <= a < s1.items@.len() implies s1.has_folder(
        #[trigger] s1.items@[a].library_folder_id,
    ) by {
        let fid = s1.items@[a].library_folder_id;
        assert(keep_i(s1.items@[a]));
        let k = choose|k: int| a <= k < s0.items@.len() && s1.items@[a] == s0.items@[k];
        assert(s0.has_folder(fid));
        let fi = choose|fi: int| 0 <= fi < s0.folders@.len() && s0.folders@[fi].id == fid;
        assert(keep_f(s0.folders@[fi]));
        assert(s1.folders@.contains(s0.folders@[fi]));
    }
    assert forall|a: int| 0 <= a < s1.metadata@.len() implies s1.has_item(
        #[trigger] s1.metadata@[a].media_item_id,
    ) by {
        let mid = s1.metadata@[a].media_item_id;
        assert(keep_m(s1.metadata@[a]));
        let k = choose|k: int| a <= k < s0.metadata@.len() && s1.metadata@[a] == s0.metadata@[k];
        assert(s0.has_item(mid));
        let ii = choose|ii: int| 0 <= ii < s0.items@.len() && s0.items@[ii].id == mid;
        if s0.items@[ii].library_folder_id == id {
            assert(s0.item_in_folder(mid, id));
        }
        assert(keep_i(s0.items@[ii]));
        assert(s1.items@.contains(s0.items@[ii]));
    }
}

/// What an upsert leaves behind: the metadata row for the item carries
/// exactly the requested content with `updated_at == now`. When a row
/// already existed it keeps its identity and `created_at` and every
/// other row is untouched; otherwise a fresh row is appended.
pub open spec fn upsert_post(
    s0: Store,
    s1: Store,
    row: VideoMetadata,
    c: CreateVideoMetadata,
    now: i64,
) -> bool {
    &&& row.matches_content(&c)
    &&& row.updated_at == now
    &&& s1.folders == s0.folders
    &&& s1.items == s0.items
    &&& s1.next_folder_id == s0.next_folder_id
    &&& s1.next_item_id == s0.next_item_id
    &&& if s0.has_metadata_for(c.media_item_id) {
        exists|i: int|
            {
                &&& 0 <= i < s0.metadata@.len()
                &&& (#[trigger] s0.metadata@[i]).media_item_id == c.media_item_id
                &&& row.id == s0.metadata@[i].id
                &&& row.created_at == s0.metadata@[i].created_at
                &&& s1.metadata@.len() == s0.metadata@.len()
                &&& s1.metadata@[i].same_row(row)
                &&& forall|j: int|
                    0 <= j < s0.metadata@.len() && j != i ==> #[trigger] s1.metadata@[j]
                        == s0.metadata@[j]
                &&& s1.next_metadata_id == s0.next_metadata_id
            }
    } else {
        &&& row.id == s0.next_metadata_id
        &&& row.created_at == now
        &&& s1.metadata@.len() == s0.metadata@.len() + 1
        &&& s1.metadata@[s0.metadata@.len() as int].same_row(row)
        &&& forall|j: int|
            0 <= j < s0.metadata@.len() ==> #[trigger] s1.metadata@[j] == s0.metadata@[j]
        &&& s1.next_metadata_id == s0.next_metadata_id + 1
    }
}

impl VideoMetadata {
    /// Create the metadata row for a media item or, when one already
    /// exists, replace all its content columns and refresh `updated_at`.
    /// Fails only when the media item does not exist.
    pub fn upsert(db: &mut Store, metadata: CreateVideoMetadata, now: i64) -> (r: Result<
        VideoMetadata,
        StoreError,
    >)
        requires
            old(db).wf(),
            old(db).next_metadata_id < i64::MAX,
        ensures
            final(db).wf(),
            match r {
                Ok(row) => {
                    &&& old(db).has_item(metadata.media_item_id)
                    &&& upsert_post(*old(db), *final(db), row, metadata, now)
                },
                Err(e) => {
                    &&& e == StoreError::ForeignKeyViolation
                    &&& !old(db).has_item(metadata.media_item_id)
                    &&& *final(db) == *old(db)
                },
            },
    {
        if find_item_index(db, metadata.media_item_id).is_none() {
            return Err(StoreError::ForeignKeyViolation);
        }
        let (id, created_at, slot) = match find_metadata_index_by_item(db, metadata.media_item_id) {
            Some(i) => {
                let prev = db.metadata.remove(i);
                (prev.id, prev.created_at, Some(i))
            },
            None => (db.next_metadata_id, now, None),
        };
        let row = VideoMetadata {
            id,
            media_item_id: metadata.media_item_id,
            tmdb_id: metadata.tmdb_id,
            tvdb_id: metadata.tvdb_id,
            imdb_id: metadata.imdb_id,
            overview: metadata.overview,
            poster_path: metadata.poster_path,
            backdrop_path: metadata.backdrop_path,
            release_date: metadata.release_date,
            runtime: metadata.runtime,
            vote_average: metadata.vote_average,
            vote_count: metadata.vote_count,
            genres: metadata.genres,
            created_at,
            updated_at: now,
        };
        let ret = row.clone();
        match slot {
            Some(i) => {
                db.metadata.insert(i, row);
                proof {
                    assert forall|k: int| 0 <= k < db.metadata@.len() implies db.has_item(
                        #[trigger] db.metadata@[k].media_item_id,
                    ) by {
                        assert(db.metadata@[k].media_item_id == old(
                            db,
                        ).metadata@[k].media_item_id);
                        let mid = db.metadata@[k].media_item_id;
                        assert(old(db).has_item(mid));
                        let ii = choose|ii: int|
                            0 <= ii < old(db).items@.len() && old(db).items@[ii].id == mid;
                        assert(db.items@[ii].id == mid);
                    }
                }
            },
            None => {
                db.metadata.push(row);
                db.next_metadata_id = db.next_metadata_id + 1;
                proof {
                    assert forall|k: int| 0 <= k < db.metadata@.len() implies db.has_item(
                        #[trigger] db.metadata@[k].media_item_id,
                    ) by {
                        let mid = db.metadata@[k].media_item_id;
                        assert(old(db).has_item(mid));
                        let ii = choose|ii: int|
                            0 <= ii < old(db).items@.len() && old(db).items@[ii].id == mid;
                        assert(db.items@[ii].id == mid);
                    }
                }
            },
        }
        Ok(ret)
    }

    /// Fetch the metadata row attached to a media item, if any.
    pub fn find_by_media_item_id(db: &Store, media_item_id: i64) -> (r: Option<VideoMetadata>)
        ensures
            match r {
                Some(m) => exists|i: int|
                    0 <= i < db.metadata@.len() && m.same_row(#[trigger] db.metadata@[i])
                        && m.media_item_id == media_item_id,
                None => !db.has_metadata_for(media_item_id),
            },
    {
        match find_metadata_index_by_item(db, media_item_id) {
            Some(i) => {
                let m = db.metadata[i].clone();
                proof {
                    assert(m.same_row(db.metadata@[i as int]));
                }
                Some(m)
            },
            None => None,
        }
    }

    /// The genres attached to this row, as stored.
    pub fn parse_genres(&self) -> (r: Vec<String>)
        ensures
            r.deep_view() == self.genres.deep_view(),
    {
        let r = clone_string_vec(&self.genres);
        proof {
            assert(r.deep_view() =~= self.genres.deep_view());
        }
        r
    }
}

impl MediaItemWithMetadata {
    /// The row pairs a metadata row of the store with its own media
    /// item, or records that the store has none for it.
    pub open spec fn consistent_with(&self, db: Store) -> bool {
        match self.metadata {
            Some(m) => m.media_item_id == self.media_item.id && exists|j: int|
                0 <= j < db.metadata@.len() && m.same_row(#[trigger] db.metadata@[j]),
            None => !db.has_metadata_for(self.media_item.id),
        }
    }

    /// All items of one media kind, most recently added first, each with
    /// its metadata row when one exists.
    #[verifier::loop_isolation(false)]
    pub fn list_by_type(db: &Store, media_type: MediaType) -> (r: Vec<MediaItemWithMetadata>)
        ensures
            r@.len() == items_of_type(*db, media_type).len(),
            forall|i: int|
                0 <= i < r@.len() ==> (#[trigger] r@[i]).media_item == items_of_type(
                    *db,
                    media_type,
                )[i],
            forall|i: int| 0 <= i < r@.len() ==> (#[trigger] r@[i]).consistent_with(*db),
    {
        let items = MediaItem::list_by_type(db, media_type);
        let mut out: Vec<MediaItemWithMetadata> = Vec::new();
        let mut i: usize = 0;
        while i < items.len()
            invariant
                0 <= i <= items@.len(),
                out@.len() == i,
                forall|k: int|
                    0 <= k < i ==> (#[trigger] out@[k]).media_item == items_of_type(
                        *db,
                        media_type,
                    )[k],
                forall|k: int| 0 <= k < i ==> (#[trigger] out@[k]).consistent_with(*db),
            decreases items@.len() - i,
        {
            let media_item = items[i].clone();
            let metadata = VideoMetadata::find_by_media_item_id(db, media_item.id);
            out.push(MediaItemWithMetadata { media_item, metadata });
            i = i + 1;
        }
        out
    }

    /// One item with its metadata row, or nothing when the id is
    /// unknown.
    pub fn find_by_id(db: &Store, id: i64) -> (r: Option<MediaItemWithMetadata>)
        ensures
            match r {
                Some(x) => {
                    &&& exists|i: int|
                        0 <= i < db.items@.len() && #[trigger] db.items@[i] == x.media_item
                            && x.media_item.id == id
                    &&& x.consistent_with(*db)
                },
                None => !db.has_item(id),
            },
    {
        let media_item = match MediaItem::find_by_id(db, id) {
            Some(it) => it,
            None => {
                return None;
            },
        };
        let metadata = VideoMetadata::find_by_media_item_id(db, media_item.id);
        Some(MediaItemWithMetadata { media_item, metadata })
    }
}

/// Upserting the same content twice is idempotent: the second call finds
/// the row the first call wrote, keeps its identity, row content and
/// `created_at`, and only moves `updated_at` forward. No other row of
/// the table is touched by the second call.
pub proof fn lemma_upsert_idempotent(
    s0: Store,
    s1: Store,
    s2: Store,
    r1: VideoMetadata,
    r2: VideoMetadata,
    c1: CreateVideoMetadata,
    c2: CreateVideoMetadata,
    now1: i64,
    now2: i64,
)
    requires
        s0.wf(),
        s1.wf(),
        c1.same_request(&c2),
        upsert_post(s0, s1, r1, c1, now1),
        upsert_post(s1, s2, r2, c2, now2),
        now1 <= now2,
    ensures
        r2.same_content(r1),
        r2.id == r1.id,
        r2.created_at == r1.created_at,
        r2.updated_at >= r1.updated_at,
        s2.metadata@.len() == s1.metadata@.len(),
        forall|j: int|
            0 <= j < s1.metadata@.len() ==> (#[trigger] s2.metadata@[j]).same_content(
                s1.metadata@[j],
            ) && s2.metadata@[j].id == s1.metadata@[j].id && s2.metadata@[j].created_at
                == s1.metadata@[j].created_at,
{
    let mid = c1.media_item_id;
    // The first upsert leaves a row for the item, so the second takes the
    // update branch.
    let i1 = if s0.has_metadata_for(mid) {
        choose|i: int|
            {
                &&& 0 <= i < s0.metadata@.len()
                &&& (#[trigger] s0.metadata@[i]).media_item_id == mid
                &&& r1.id == s0.metadata@[i].id
                &&& r1.created_at == s0.metadata@[i].created_at
                &&& s1.metadata@.len() == s0.metadata@.len()
                &&& s1.metadata@[i].same_row(r1)
                &&& forall|j: int|
                    0 <= j < s0.metadata@.len() && j != i ==> #[trigger] s1.metadata@[j]
                        == s0.metadata@[j]
                &&& s1.next_metadata_id == s0.next_metadata_id
            }
    } else {
        s0.metadata@.len() as int
    };
    assert(0 <= i1 < s1.metadata@.len());
    assert(s1.metadata@[i1].same_row(r1));
    assert(s1.has_metadata_for(mid));
    let i2 = choose|i: int|
        {
            &&& 0 <= i < s1.metadata@.len()
            &&& (#[trigger] s1.metadata@[i]).media_item_id == mid
            &&& r2.id == s1.metadata@[i].id
            &&& r2.created_at == s1.metadata@[i].created_at
            &&& s2.metadata@.len() == s1.metadata@.len()
            &&& s2.metadata@[i].same_row(r2)
            &&& forall|j: int|
                0 <= j < s1.metadata@.len() && j != i ==> #[trigger] s2.metadata@[j]
                    == s1.metadata@[j]
            &&& s2.next_metadata_id == s1.next_metadata_id
        };
    // Rows for one media item are unique, so the second upsert hit the
    // row the first one wrote.
    assert(i1 == i2);
}

/// A folder delete leaves no dangling rows: the folder is gone, no item
/// of the folder survives, and every remaining metadata row still has
/// its media item.
pub proof fn lemma_delete_cascade_no_dangling(s0: Store, s1: Store, id: i64)
    requires
        s0.wf(),
        s1.wf(),
        folder_delete_post(s0, s1, id),
    ensures
        !s1.has_folder(id),
        forall|a: int| 0 <= a < s1.items@.len() ==> #[trigger] s1.items@[a].library_folder_id != id,
        forall|a: int|
            0 <= a < s1.metadata@.len() ==> s1.has_item(#[trigger] s1.metadata@[a].media_item_id),
{
    let keep_f = |f: LibraryFolder| f.id != id;
    let keep_i = |it: MediaItem| it.library_folder_id != id;
    s0.folders@.filter_lemma(keep_f);
    s0.items@.filter_lemma(keep_i);
    assert forall|a: int| 0 <= a < s1.folders@.len() implies #[trigger] s1.folders@[a].id
        != id by {
        assert(keep_f(s1.folders@[a]));
    }
    assert forall|a: int| 0 <= a
        < s1.items@.len() implies #[trigger] s1.items@[a].library_folder_id != id by {
        assert(keep_i(s1.items@[a]));
    }
}

} // verus!
