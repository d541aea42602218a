//! Organizer: derives the canonical target path of a media file from
//! its metadata and decides how the file is placed there. The
//! filesystem operations themselves (linking, copying, moving,
//! creating directories) happen outside the library and follow the
//! plan computed here; a dry run plans no operation at all.

use vstd::prelude::*;
use crate::scanner::spec_file_name;
use crate::strutil::{spec_nat_digits, u64_to_string};

verus! {

/// The filesystem operation that places a discovered file at its
/// canonical target path.
#[derive(Debug, Clone, Copy, PartialEq, Eq, Structural)]
pub enum OrganizeMethod {
    SoftLink,
    HardLink,
    Copy,
    Move,
}

/// Errors of the placement stage, one per failure class, each carrying
/// the failing path.
#[derive(Debug, Clone)]
pub enum OrganizeError {
    SymlinkError(String),
    HardLinkError(String),
    CopyError(String),
    MoveError(String),
    DirectoryCreationError(String),
    PermissionDenied(String),
    PathExists(String),
}

impl OrganizeError {
    /// Human-readable description of the failure.
    pub fn message(&self) -> (r: String)
        ensures
            match self {
                OrganizeError::SymlinkError(p) => r@ == "Failed to create symlink: "@ + p@,
                OrganizeError::HardLinkError(p) => r@ == "Failed to create hard link: "@ + p@,
                OrganizeError::CopyError(p) => r@ == "Failed to copy: "@ + p@,
                OrganizeError::MoveError(p) => r@ == "Failed to move: "@ + p@,
                OrganizeError::DirectoryCreationError(p) => r@ == "Failed to create directory: "@
                    + p@,
                OrganizeError::PermissionDenied(p) => r@ == "Permission denied: "@ + p@,
                OrganizeError::PathExists(p) => r@ == "Path already exists: "@ + p@,
            },
    {
        match self {
            OrganizeError::SymlinkError(p) => String::from_str("Failed to create symlink: ").concat(
                p.as_str(),
            ),
            OrganizeError::HardLinkError(p) => String::from_str(
                "Failed to create hard link: ",
            ).concat(p.as_str()),
            OrganizeError::CopyError(p) => String::from_str("Failed to copy: ").concat(p.as_str()),
            OrganizeError::MoveError(p) => String::from_str("Failed to move: ").concat(p.as_str()),
            OrganizeError::DirectoryCreationError(p) => String::from_str(
                "Failed to create directory: ",
            ).concat(p.as_str()),
            OrganizeError::PermissionDenied(p) => String::from_str("Permission denied: ").concat(
                p.as_str(),
            ),
            OrganizeError::PathExists(p) => String::from_str("Path already exists: ").concat(
                p.as_str(),
            ),
        }
    }
}

/// Video metadata as the organizer consumes it.
#[derive(Debug, Clone)]
pub struct VideoInfo {
    pub title: Option<String>,
    pub release_date: Option<String>,
    pub season_number: Option<u32>,
}

/// Book metadata as the organizer consumes it.
#[derive(Debug, Clone)]
pub struct BookInfo {
    pub authors: Vec<String>,
    pub series: Option<String>,
}

/// Music metadata as the organizer consumes it.
#[derive(Debug, Clone)]
pub struct MusicInfo {
    pub artists: Vec<String>,
    pub album: Option<String>,
}

/// Comic metadata as the organizer consumes it.
#[derive(Debug, Clone)]
pub struct ComicInfo {
    pub publisher: Option<String>,
    pub series: Option<String>,
    pub volume: Option<u32>,
}

/// The metadata kinds the organizer derives target paths from.
#[derive(Debug, Clone)]
pub enum MediaInfo {
    Video(VideoInfo),
    Book(BookInfo),
    Music(MusicInfo),
    Comic(ComicInfo),
}

/// The organizer's configuration: where files go and how.
#[derive(Debug, Clone)]
pub struct Organizer {
    pub target_dir: String,
    pub method: OrganizeMethod,
    pub dry_run: bool,
    pub skip_existing: bool,
    pub retry_count: u32,
}

/// The year component of a video target: the first dash-separated part
/// of the release date, or `"Unknown"`.
pub open spec fn spec_year_part(release_date: Option<String>) -> Seq<char> {
    match release_date {
        Some(d) => {
            if exists|i: int| 0 <= i < d@.len() && d@[i] == '-' {
                d@.take(
                    choose|i: int|
                        0 <= i < d@.len() && d@[i] == '-' && forall|j: int|
                            0 <= j < i ==> d@[j] != '-',
                )
            } else {
                d@
            }
        },
        None => "Unknown"@,
    }
}

/// The directory part of a video target: title and year, then a season
/// directory for episodes.
pub open spec fn spec_video_dir(v: VideoInfo) -> Seq<char> {
    let title = match v.title {
        Some(t) => t@,
        None => "Unknown"@,
    };
    let base = "Videos/"@ + title + " ("@ + spec_year_part(v.release_date) + ")"@;
    match v.season_number {
        Some(n) => base + "/Season "@ + spec_nat_digits(n as int),
        None => base,
    }
}

/// The directory part of a book target: first author, then the series.
pub open spec fn spec_book_dir(b: BookInfo) -> Seq<char> {
    let author = if b.authors@.len() > 0 {
        b.authors@[0]@
    } else {
        "Unknown Author"@
    };
    let base = "Books/"@ + author;
    match b.series {
        Some(s) => base + "/"@ + s@,
        None => base,
    }
}

/// The directory part of a music target: first artist, then the album.
pub open spec fn spec_music_dir(m: MusicInfo) -> Seq<char> {
    let artist = if m.artists@.len() > 0 {
        m.artists@[0]@
    } else {
        "Unknown Artist"@
    };
    let base = "Music/"@ + artist;
    match m.album {
        Some(a) => base + "/"@ + a@,
        None => base,
    }
}

/// The directory part of a comic target: optional publisher, then the
/// series with an optional volume directory.
pub open spec fn spec_comic_dir(c: ComicInfo) -> Seq<char> {
    let base = "Comics"@;
    let with_publisher = match c.publisher {
        Some(p) => base + "/"@ + p@,
        None => base,
    };
    match c.series {
        Some(s) => {
            let with_series = with_publisher + "/"@ + s@;
            match c.volume {
                Some(n) => with_series + "/Volume "@ + spec_nat_digits(n as int),
                None => with_series,
            }
        },
        None => with_publisher,
    }
}

/// The full target path of a source file: the configured root, the
/// kind's directory template, and the original file name.
pub open spec fn spec_target_path(
    target_dir: Seq<char>,
    info: MediaInfo,
    source: Seq<char>,
) -> Seq<char> {
    let dir = match info {
        MediaInfo::Video(v) => spec_video_dir(v),
        MediaInfo::Book(b) => spec_book_dir(b),
        MediaInfo::Music(m) => spec_music_dir(m),
        MediaInfo::Comic(c) => spec_comic_dir(c),
    };
    target_dir + "/"@ + dir + "/"@ + spec_file_name(source)
}

/// How one placement is to be carried out, in order: create the
/// target's parent directories, then apply the method — or do neither.
#[derive(Debug, Clone, Copy, PartialEq, Eq, Structural)]
pub struct PlacementPlan {
    /// Create the target's parent directory tree first.
    pub create_parent: bool,
    /// The filesystem operation to apply, if any.
    pub action: PlacementAction,
}

/// The operation of a placement plan.
#[derive(Debug, Clone, Copy, PartialEq, Eq, Structural)]
pub enum PlacementAction {
    /// Nothing touches the filesystem; the intended operation is only
    /// reported.
    LogOnly,
    /// The target already exists and is kept as it is.
    SkipExisting,
    /// Place the file with this method.
    Apply(OrganizeMethod),
}

/// The position of the last slash, for splitting off a parent
/// directory.
fn find_last_slash(path: &str) -> (r: Option<usize>)
    ensures
        match r {
            Some(i) => i < path@.len() && path@[i as int] == '/' && forall|j: int|
                i < j < path@.len() ==> path@[j] != '/',
            None => forall|j: int| 0 <= j < path@.len() ==> path@[j] != '/',
        },
{
    let len = path.unicode_len();
    let mut i: usize = len;
    while i > 0
        invariant
            0 <= i <= len,
            len == path@.len(),
            forall|j: int| i <= j < len ==> path@[j] != '/',
        decreases i,
    {
        if path.get_char(i - 1) == '/' {
            return Some(i - 1);
        }
        i = i - 1;
    }
    None
}

impl Organizer {
    /// An organizer rooted at a target directory, with hard links, no
    /// dry run, skipping existing targets, and three attempts.
    pub fn new(target_dir: String) -> (r: Organizer)
        ensures
            r.target_dir == target_dir,
            r.method == OrganizeMethod::HardLink,
            r.dry_run == false,
            r.skip_existing == true,
            r.retry_count == 3u32,
    {
        Organizer {
            target_dir,
            method: OrganizeMethod::HardLink,
            dry_run: false,
            skip_existing: true,
            retry_count: 3,
        }
    }

    /// Derive the canonical target path of a source file from its
    /// metadata, rooted at the configured target directory.
    pub fn derive_target_path(&self, source: &str, info: &MediaInfo) -> (r: String)
        requires
            match info {
                MediaInfo::Video(v) => match v.season_number {
                    Some(n) => n <= 0xFFFF_FFFFu32,
                    None => true,
                },
                _ => true,
            },
        ensures
            r@ == spec_target_path(self.target_dir@, *info, source@),
    {
        let dir: String = match info {
            MediaInfo::Video(v) => {
                let title: &str = match &v.title {
                    Some(t) => t.as_str(),
                    None => "Unknown",
                };
                let year: String = match &v.release_date {
                    Some(d) => first_date_component(d.as_str()),
                    None => String::from_str("Unknown"),
                };
                let base = String::from_str("Videos/").concat(title).concat(" (").concat(
                    year.as_str(),
                ).concat(")");
                let full = match v.season_number {
                    Some(n) => base.concat("/Season ").concat(u64_to_string(n as u64).as_str()),
                    None => base,
                };
                proof {
                    assert(full@ =~= spec_video_dir(*v));
                }
                full
            },
            MediaInfo::Book(b) => {
                let author: &str = if b.authors.len() > 0 {
                    b.authors[0].as_str()
                } else {
                    "Unknown Author"
                };
                let base = String::from_str("Books/").concat(author);
                let full = match &b.series {
                    Some(s) => base.concat("/").concat(s.as_str()),
                    None => base,
                };
                proof {
                    assert(full@ =~= spec_book_dir(*b));
                }
                full
            },
            MediaInfo::Music(m) => {
                let artist: &str = if m.artists.len() > 0 {
                    m.artists[0].as_str()
                } else {
                    "Unknown Artist"
                };
                let base = String::from_str("Music/").concat(artist);
                let full = match &m.album {
                    Some(a) => base.concat("/").concat(a.as_str()),
                    None => base,
                };
                proof {
                    assert(full@ =~= spec_music_dir(*m));
                }
                full
            },
            MediaInfo::Comic(c) => {
                let base = String::from_str("Comics");
                let with_publisher = match &c.publisher {
                    Some(p) => base.concat("/").concat(p.as_str()),
                    None => base,
                };
                let full = match &c.series {
                    Some(s) => {
                        let with_series = with_publisher.concat("/").concat(s.as_str());
                        match c.volume {
                            Some(n) => with_series.concat("/Volume ").concat(
                                u64_to_string(n as u64).as_str(),
                            ),
                            None => with_series,
                        }
                    },
                    None => with_publisher,
                };
                proof {
                    assert(full@ =~= spec_comic_dir(*c));
                }
                full
            },
        };
        let file_name = file_name_of(source);
        let r = self.target_dir.clone().concat("/").concat(dir.as_str()).concat("/").concat(
            file_name.as_str(),
        );
        proof {
            assert(r@ =~= spec_target_path(self.target_dir@, *info, source@));
        }
        r
    }

    /// Decide how a placement is carried out. A dry run never touches
    /// the filesystem: nothing is created and the operation is only
    /// logged. Otherwise the parent directories are ensured, and an
    /// existing target is kept when the organizer skips existing files.
    pub fn plan_placement(&self, target_exists: bool) -> (r: PlacementPlan)
        ensures
            self.dry_run ==> r.create_parent == false && r.action == PlacementAction::LogOnly,
            !self.dry_run ==> r.create_parent == true,
            !self.dry_run && self.skip_existing && target_exists ==> r.action
                == PlacementAction::SkipExisting,
            !self.dry_run && !(self.skip_existing && target_exists) ==> r.action
                == PlacementAction::Apply(self.method),
    {
        if self.dry_run {
            PlacementPlan { create_parent: false, action: PlacementAction::LogOnly }
        } else if self.skip_existing && target_exists {
            PlacementPlan { create_parent: true, action: PlacementAction::SkipExisting }
        } else {
            PlacementPlan { create_parent: true, action: PlacementAction::Apply(self.method) }
        }
    }

    /// The delay before the next attempt of a failed placement: linear
    /// backoff of one second per attempt already made, as long as
    /// attempts remain.
    pub fn next_retry_delay(&self, attempts_made: u32) -> (r: Option<u64>)
        ensures
            match r {
                Some(d) => attempts_made < self.retry_count && d == attempts_made as u64 * 1000,
                None => attempts_made >= self.retry_count,
            },
    {
        if attempts_made < self.retry_count {
            Some((attempts_made as u64) * 1000)
        } else {
            None
        }
    }

    /// The parent directory of a target path: everything before the
    /// last slash, or nothing when the path has no directory part.
    pub fn parent_of<'a>(&self, target: &'a str) -> (r: Option<&'a str>)
        ensures
            match r {
                Some(p) => exists|i: int|
                    {
                        &&& 0 <= i < target@.len()
                        &&& target@[i] == '/'
                        &&& (forall|j: int| i < j < target@.len() ==> target@[j] != '/')
                        &&& p@ == target@.take(i)
                    },
                None => forall|j: int| 0 <= j < target@.len() ==> target@[j] != '/',
            },
    {
        match find_last_slash(target) {
            Some(i) => {
                let p = target.substring_char(0, i);
                proof {
                    assert(p@ =~= target@.take(i as int));
                }
                Some(p)
            },
            None => None,
        }
    }
}

/// The first dash-separated component of a date string.
fn first_date_component(d: &str) -> (r: String)
    ensures
        ({
            let v = if exists|i: int| 0 <= i < d@.len() && d@[i] == '-' {
                d@.take(
                    choose|i: int|
                        0 <= i < d@.len() && d@[i] == '-' && forall|j: int|
                            0 <= j < i ==> d@[j] != '-',
                )
            } else {
                d@
            };
            r@ == v
        }),
{
    let len = d.unicode_len();
    let mut i: usize = 0;
    while i < len
        invariant
            0 <= i <= len,
            len == d@.len(),
            forall|j: int| 0 <= j < i ==> d@[j] != '-',
        decreases len - i,
    {
        if d.get_char(i) == '-' {
            proof {
                let w: int = i as int;
                assert(0 <= w < d@.len() && d@[w] == '-' && (forall|j: int|
                    0 <= j < w ==> d@[j] != '-'));
                let k = choose|k: int|
                    0 <= k < d@.len() && d@[k] == '-' && forall|j: int| 0 <= j < k ==> d@[j] != '-';
                assert(k == w);
            }
            let seg = d.substring_char(0, i);
            proof {
                assert(seg@ =~= d@.take(i as int));
            }
            return seg.to_owned();
        }
        i = i + 1;
    }
    proof {
        if exists|k: int| 0 <= k < d@.len() && d@[k] == '-' {
            let k = choose|k: int| 0 <= k < d@.len() && d@[k] == '-';
            assert(d@[k] != '-');
        }
    }
    d.to_owned()
}

/// The file name of a source path, owned.
fn file_name_of(source: &str) -> (r: String)
    ensures
        r@ == spec_file_name(source@),
{
    let len = source.unicode_len();
    let mut i: usize = len;
    while i > 0
        invariant
            0 <= i <= len,
            len == source@.len(),
            forall|j: int| i <= j < len ==> source@[j] != '/',
        decreases i,
    {
        if source.get_char(i - 1) == '/' {
            proof {
                let w: int = i - 1 as int;
                assert(0 <= w < source@.len() && source@[w] == '/' && (forall|j: int|
                    w < j < source@.len() ==> source@[j] != '/'));
                assert(crate::scanner::spec_has_slash(source@));
                let k = crate::scanner::spec_last_slash(source@);
                assert(0 <= k < source@.len() && source@[k] == '/' && (forall|j: int|
                    k < j < source@.len() ==> source@[j] != '/'));
                assert(k == w);
            }
            let name = source.substring_char(i, len);
            proof {
                assert(name@ =~= spec_file_name(source@));
            }
            return name.to_owned();
        }
        i = i - 1;
    }
    proof {
        if crate::scanner::spec_has_slash(source@) {
            let k = choose|k: int| 0 <= k < source@.len() && source@[k] == '/';
            assert(source@[k] != '/');
        }
        assert(source@.skip(0) =~= source@);
    }
    source.to_owned()
}

} // verus!
