//! Metadata agent: derives a search query from a media item's title,
//! selects the search result whose kind matches the item, converts the
//! fetched details into a metadata row, and upserts it into the store.
//!
//! The network traffic to the catalogs happens outside the library; the
//! agent receives search results and details as plain values.

use vstd::prelude::*;
use crate::store;
use crate::store::{upsert_post, CreateVideoMetadata, MediaItem, Store, VideoMetadata};
use crate::strutil::{digit_val, is_digit_char, spec_parse_i64, parse_i64};
use crate::types::{MediaDetails, MediaSearchResult, MediaType};

verus! {

/// Errors of the metadata stage.
#[derive(Debug, Clone)]
pub enum MetadataAgentError {
    /// Querying the catalogs failed.
    SearchFailed(String),
    /// No search result has the item's kind.
    NoMatchingResults,
    /// Fetching the details of the selected result failed.
    DetailsFailed(String),
    /// The store refused an operation.
    DatabaseError(String),
    /// The media item is unknown.
    MediaItemNotFound,
    /// The details describe a kind the store cannot hold.
    UnsupportedMediaType(String),
}

impl MetadataAgentError {
    /// Human-readable description of the failure.
    pub fn message(&self) -> (r: String)
        ensures
            match self {
                MetadataAgentError::SearchFailed(m) => r@ == "Search failed: "@ + m@,
                MetadataAgentError::NoMatchingResults => r@ == "No matching results found"@,
                MetadataAgentError::DetailsFailed(m) => r@ == "Failed to get details: "@ + m@,
                MetadataAgentError::DatabaseError(m) => r@ == "Database error: "@ + m@,
                MetadataAgentError::MediaItemNotFound => r@ == "Media item not found"@,
                MetadataAgentError::UnsupportedMediaType(m) => r@ == "Unsupported media type: "@
                    + m@,
            },
    {
        match self {
            MetadataAgentError::SearchFailed(m) => String::from_str("Search failed: ").concat(
                m.as_str(),
            ),
            MetadataAgentError::NoMatchingResults => String::from_str("No matching results found"),
            MetadataAgentError::DetailsFailed(m) => String::from_str(
                "Failed to get details: ",
            ).concat(m.as_str()),
            MetadataAgentError::DatabaseError(m) => String::from_str("Database error: ").concat(
                m.as_str(),
            ),
            MetadataAgentError::MediaItemNotFound => String::from_str("Media item not found"),
            MetadataAgentError::UnsupportedMediaType(m) => String::from_str(
                "Unsupported media type: ",
            ).concat(m.as_str()),
        }
    }
}

/// The whitespace characters of the title pattern: the characters with
/// the Unicode White_Space property.
pub open spec fn spec_is_space(c: char) -> bool {
    ||| c == ' '
    ||| c == '\t'
    ||| c == '\n'
    ||| (c as u32) == 11
    ||| (c as u32) == 12
    ||| c == '\r'
    ||| (c as u32) == 0x85
    ||| (c as u32) == 0xA0
    ||| (c as u32) == 0x1680
    ||| (0x2000 <= c as u32 && c as u32 <= 0x200A)
    ||| (c as u32) == 0x2028
    ||| (c as u32) == 0x2029
    ||| (c as u32) == 0x202F
    ||| (c as u32) == 0x205F
    ||| (c as u32) == 0x3000
}

/// Length of the sequence once trailing whitespace is dropped.
pub open spec fn spec_trimmed_len(s: Seq<char>) -> int
    decreases s.len(),
{
    if s.len() == 0 {
        0
    } else if spec_is_space(s.last()) {
        spec_trimmed_len(s.drop_last())
    } else {
        s.len() as int
    }
}

/// A title matches the year pattern when, after trailing whitespace, it
/// ends in a parenthesized four-digit year preceded by a non-empty
/// prefix. The prefix, without the whitespace that separated it from
/// the parenthesis, is the bare title — except that a prefix of
/// whitespace alone keeps its first character, since the bare title may
/// not be empty.
pub open spec fn spec_title_year_split(s: Seq<char>) -> Option<(Seq<char>, int)> {
    let t = spec_trimmed_len(s);
    if t >= 7 && s[t - 1] == ')' && is_digit_char(s[t - 5]) && is_digit_char(s[t - 4])
        && is_digit_char(s[t - 3]) && is_digit_char(s[t - 2]) && s[t - 6] == '(' {
        let region = s.take(t - 6);
        let k = spec_trimmed_len(region);
        let title = if k == 0 {
            region.take(1)
        } else {
            region.take(k)
        };
        let year = digit_val(s[t - 5]) * 1000 + digit_val(s[t - 4]) * 100 + digit_val(s[t - 3]) * 10
            + digit_val(s[t - 2]);
        Some((title, year))
    } else {
        None
    }
}

/// What parsing a stored title yields: the bare title and the year when
/// the pattern matches, the unchanged title otherwise.
pub open spec fn spec_parse_title_year(s: Seq<char>) -> (Seq<char>, Option<int>) {
    match spec_title_year_split(s) {
        Some((title, year)) => (title, Some(year)),
        None => (s, None),
    }
}

/// Trailing whitespace ends where a non-space character stands.
proof fn lemma_trimmed_len_at(s: Seq<char>, i: int)
    requires
        0 <= i <= s.len(),
        forall|j: int| i <= j < s.len() ==> spec_is_space(#[trigger] s[j]),
        i == 0 || !spec_is_space(s[i - 1]),
    ensures
        spec_trimmed_len(s) == i,
    decreases s.len(),
{
    if s.len() == 0 {
    } else if i == s.len() {
        if i > 0 && !spec_is_space(s[i - 1]) {
        }
    } else {
        assert(spec_is_space(s.last()));
        assert(forall|j: int|
            i <= j < s.drop_last().len() ==> spec_is_space(#[trigger] s.drop_last()[j]));
        lemma_trimmed_len_at(s.drop_last(), i);
    }
}

/// Position after the trailing whitespace of the string.
#[verifier::loop_isolation(false)]
fn trimmed_len(s: &str) -> (r: usize)
    ensures
        r == spec_trimmed_len(s@),
        r <= s@.len(),
{
    let len = s.unicode_len();
    let mut i: usize = len;
    while i > 0
        invariant
            0 <= i <= len,
            forall|j: int| i <= j < len ==> spec_is_space(#[trigger] s@[j]),
        decreases i,
    {
        let c = s.get_char(i - 1);
        let is_sp = c == ' ' || c == '\t' || c == '\n' || (c as u32) == 11 || (c as u32) == 12 || c
            == '\r' || (c as u32) == 0x85 || (c as u32) == 0xA0 || (c as u32) == 0x1680 || ((c
            as u32) >= 0x2000 && (c as u32) <= 0x200A) || (c as u32) == 0x2028 || (c as u32)
            == 0x2029 || (c as u32) == 0x202F || (c as u32) == 0x205F || (c as u32) == 0x3000;
        if !is_sp {
            proof {
                lemma_trimmed_len_at(s@, i as int);
            }
            return i;
        }
        i = i - 1;
    }
    proof {
        lemma_trimmed_len_at(s@, 0);
    }
    0
}

/// The metadata agent service.
pub struct MetadataAgent {}

impl MetadataAgent {
    /// Create a new metadata agent.
    pub fn new() -> (r: MetadataAgent) {
        MetadataAgent {  }
    }

    /// Split a stored title such as `"Arrival (2016)"` into the bare
    /// title and the year. A title without a trailing parenthesized
    /// four-digit year passes through unchanged, with no year.
    #[verifier::loop_isolation(false)]
    pub fn parse_title_and_year(&self, title: &str) -> (r: (String, Option<i32>))
        ensures
            r.0@ == spec_parse_title_year(title@).0,
            match r.1 {
                Some(y) => spec_parse_title_year(title@).1 == Some(y as int),
                None => spec_parse_title_year(title@).1 is None,
            },
    {
        let t = trimmed_len(title);
        if t >= 7 {
            let close = title.get_char(t - 1);
            let d3 = title.get_char(t - 5);
            let d2 = title.get_char(t - 4);
            let d1 = title.get_char(t - 3);
            let d0 = title.get_char(t - 2);
            let open_paren = title.get_char(t - 6);
            let digits_ok = d3 >= '0' && d3 <= '9' && d2 >= '0' && d2 <= '9' && d1 >= '0' && d1
                <= '9' && d0 >= '0' && d0 <= '9';
            if close == ')' && digits_ok && open_paren == '(' {
                let region = title.substring_char(0, t - 6);
                proof {
                    assert(region@ =~= title@.take(t - 6));
                }
                let k = trimmed_len(region);
                let bare = if k == 0 {
                    title.substring_char(0, 1)
                } else {
                    title.substring_char(0, k)
                };
                proof {
                    if k == 0 {
                        assert(bare@ =~= title@.take(t - 6).take(1));
                    } else {
                        assert(region@.take(k as int) =~= title@.take(t - 6).take(k as int));
                        assert(bare@ =~= title@.take(t - 6).take(k as int));
                    }
                }
                let year: i32 = (((d3 as u32) - 48) * 1000 + ((d2 as u32) - 48) * 100 + ((d1
                    as u32) - 48) * 10 + ((d0 as u32) - 48)) as i32;
                return (bare.to_owned(), Some(year));
            }
        }
        (title.to_owned(), None)
    }

    /// Pick the first search result whose kind equals the item's kind;
    /// a selection never crosses kinds. With no matching result the
    /// item is reported as unmatched.
    #[verifier::loop_isolation(false)]
    pub fn select_matching_result(
        &self,
        media_type: store::MediaType,
        results: Vec<MediaSearchResult>,
    ) -> (r: Result<MediaSearchResult, MetadataAgentError>)
        ensures
            match r {
                Ok(sel) => exists|i: int|
                    {
                        &&& 0 <= i < results@.len()
                        &&& #[trigger] results@[i] == sel
                        &&& kind_matches(media_type, sel.spec_media_type())
                        &&& forall|j: int|
                            0 <= j < i ==> !kind_matches(
                                media_type,
                                (#[trigger] results@[j]).spec_media_type(),
                            )
                    },
                Err(e) => {
                    &&& e is NoMatchingResults
                    &&& forall|j: int|
                        0 <= j < results@.len() ==> !kind_matches(
                            media_type,
                            (#[trigger] results@[j]).spec_media_type(),
                        )
                },
            },
    {
        let mut rest = results;
        let ghost all = rest@;
        while rest.len() > 0
            invariant
                rest@.len() <= all.len(),
                rest@ =~= all.skip(all.len() - rest@.len()),
                forall|j: int|
                    0 <= j < all.len() - rest@.len() ==> !kind_matches(
                        media_type,
                        (#[trigger] all[j]).spec_media_type(),
                    ),
            decreases rest@.len(),
        {
            let ghost i = all.len() - rest@.len();
            let cand = rest.remove(0);
            proof {
                assert(cand == all[i as int]);
                assert(rest@ =~= all.skip(i + 1));
            }
            let matches_kind = match (media_type, cand.media_type()) {
                (store::MediaType::Movie, MediaType::Movie) => true,
                (store::MediaType::Tv, MediaType::Tv) => true,
                _ => false,
            };
            if matches_kind {
                return Ok(cand);
            }
        }
        Err(MetadataAgentError::NoMatchingResults)
    }
}

/// A search result serves a media item only when the kinds agree:
/// movies match movie results and TV folders match TV results; nothing
/// else matches.
pub open spec fn kind_matches(item_kind: store::MediaType, result_kind: MediaType) -> bool {
    ||| (item_kind == store::MediaType::Movie && result_kind == MediaType::Movie)
    ||| (item_kind == store::MediaType::Tv && result_kind == MediaType::Tv)
}

/// Parse an optional catalog id the way the row stores it.
pub open spec fn spec_opt_id(o: Option<String>) -> Option<i64> {
    match o {
        Some(s) => match spec_parse_i64(s@) {
            Some(v) => Some(v as i64),
            None => None,
        },
        None => None,
    }
}

/// The metadata row content that saving these details writes.
pub open spec fn create_request_of(media_item_id: i64, details: MediaDetails) -> CreateVideoMetadata {
    match details {
        MediaDetails::Movie(m) => CreateVideoMetadata {
            media_item_id,
            tmdb_id: spec_opt_id(m.external_ids.tmdb_id),
            tvdb_id: spec_opt_id(m.external_ids.tvdb_id),
            imdb_id: m.external_ids.imdb_id,
            overview: m.overview,
            poster_path: m.poster_path,
            backdrop_path: m.backdrop_path,
            release_date: m.release_date,
            runtime: m.runtime,
            vote_average: m.vote_average,
            vote_count: m.vote_count,
            genres: m.genres,
        },
        MediaDetails::Tv(tv) => CreateVideoMetadata {
            media_item_id,
            tmdb_id: spec_opt_id(tv.external_ids.tmdb_id),
            tvdb_id: spec_opt_id(tv.external_ids.tvdb_id),
            imdb_id: tv.external_ids.imdb_id,
            overview: tv.overview,
            poster_path: tv.poster_path,
            backdrop_path: tv.backdrop_path,
            release_date: tv.first_air_date,
            runtime: if tv.episode_run_time@.len() > 0 {
                Some(tv.episode_run_time@[0])
            } else {
                None
            },
            vote_average: tv.vote_average,
            vote_count: tv.vote_count,
            genres: tv.genres,
        },
        // Anime details are rejected before a row is ever formed.
        MediaDetails::Anime(a) => arbitrary(),
    }
}

/// Parse an optional catalog id.
fn parse_opt_id(o: &Option<String>) -> (r: Option<i64>)
    ensures
        r == spec_opt_id(*o),
{
    match o {
        Some(s) => parse_i64(s.as_str()),
        None => None,
    }
}

impl MetadataAgent {
    /// Convert fetched details into a metadata row and upsert it for
    /// the media item. Anime details have no row shape in the store and
    /// are rejected; an unknown media item is a database error.
    pub fn save_metadata(
        &self,
        db: &mut Store,
        media_item_id: i64,
        details: MediaDetails,
        now: i64,
    ) -> (r: Result<VideoMetadata, MetadataAgentError>)
        requires
            old(db).wf(),
            old(db).next_metadata_id < i64::MAX,
        ensures
            final(db).wf(),
            match r {
                Ok(row) => {
                    &&& !(details is Anime)
                    &&& old(db).has_item(media_item_id)
                    &&& upsert_post(
                        *old(db),
                        *final(db),
                        row,
                        create_request_of(media_item_id, details),
                        now,
                    )
                },
                Err(e) => {
                    &&& *final(db) == *old(db)
                    &&& match e {
                        MetadataAgentError::UnsupportedMediaType(m) => details is Anime && m@
                            == "Anime not yet supported"@,
                        MetadataAgentError::DatabaseError(_) => !(details is Anime) && !old(
                            db,
                        ).has_item(media_item_id),
                        _ => false,
                    }
                },
            },
    {
        let create_metadata = match details {
            MediaDetails::Movie(movie) => CreateVideoMetadata {
                media_item_id,
                tmdb_id: parse_opt_id(&movie.external_ids.tmdb_id),
                tvdb_id: parse_opt_id(&movie.external_ids.tvdb_id),
                imdb_id: movie.external_ids.imdb_id,
                overview: movie.overview,
                poster_path: movie.poster_path,
                backdrop_path: movie.backdrop_path,
                release_date: movie.release_date,
                runtime: movie.runtime,
                vote_average: movie.vote_average,
                vote_count: movie.vote_count,
                genres: movie.genres,
            },
            MediaDetails::Tv(tv) => CreateVideoMetadata {
                media_item_id,
                tmdb_id: parse_opt_id(&tv.external_ids.tmdb_id),
                tvdb_id: parse_opt_id(&tv.external_ids.tvdb_id),
                imdb_id: tv.external_ids.imdb_id,
                overview: tv.overview,
                poster_path: tv.poster_path,
                backdrop_path: tv.backdrop_path,
                release_date: tv.first_air_date,
                runtime: if tv.episode_run_time.len() > 0 {
                    Some(tv.episode_run_time[0])
                } else {
                    None
                },
                vote_average: tv.vote_average,
                vote_count: tv.vote_count,
                genres: tv.genres,
            },
            MediaDetails::Anime(_) => {
                return Err(
                    MetadataAgentError::UnsupportedMediaType(
                        String::from_str("Anime not yet supported"),
                    ),
                );
            },
        };
        match VideoMetadata::upsert(db, create_metadata, now) {
            Ok(row) => Ok(row),
            Err(e) => Err(MetadataAgentError::DatabaseError(e.message().to_owned())),
        }
    }
}

impl MetadataAgent {
    /// Look up the media item a metadata refresh was asked for; an
    /// unknown id has nothing to refresh.
    pub fn refresh_target(&self, db: &Store, media_item_id: i64) -> (r: Result<
        MediaItem,
        MetadataAgentError,
    >)
        ensures
            match r {
                Ok(it) => exists|i: int|
                    0 <= i < db.items@.len() && #[trigger] db.items@[i] == it && it.id
                        == media_item_id,
                Err(e) => e is MediaItemNotFound && !db.has_item(media_item_id),
            },
    {
        match MediaItem::find_by_id(db, media_item_id) {
            Some(it) => Ok(it),
            None => Err(MetadataAgentError::MediaItemNotFound),
        }
    }

    /// The pause between two catalog requests of a batch, milliseconds:
    /// gentler than the rate limits alone require.
    pub fn inter_request_delay_ms(&self) -> (r: u64)
        ensures
            r == 250u64,
    {
        250
    }
}

/// Saving the details of one media item twice leaves the same row
/// content behind; the second save only refreshes `updated_at`, which
/// never moves backwards. Every other row is untouched.
pub proof fn lemma_save_metadata_idempotent(
    s0: Store,
    s1: Store,
    s2: Store,
    r1: VideoMetadata,
    r2: VideoMetadata,
    media_item_id: i64,
    details: MediaDetails,
    now1: i64,
    now2: i64,
)
    requires
        s0.wf(),
        s1.wf(),
        upsert_post(s0, s1, r1, create_request_of(media_item_id, details), now1),
        upsert_post(s1, s2, r2, create_request_of(media_item_id, details), now2),
        now1 <= now2,
    ensures
        r2.same_content(r1),
        r2.id == r1.id,
        r2.created_at == r1.created_at,
        r2.updated_at >= r1.updated_at,
        s2.metadata@.len() == s1.metadata@.len(),
        forall|j: int|
            0 <= j < s1.metadata@.len() ==> (#[trigger] s2.metadata@[j]).same_content(
                s1.metadata@[j],
            ) && s2.metadata@[j].id == s1.metadata@[j].id && s2.metadata@[j].created_at
                == s1.metadata@[j].created_at,
{
    let c = create_request_of(media_item_id, details);
    assert(c.same_request(&c));
    store::lemma_upsert_idempotent(s0, s1, s2, r1, r2, c, c, now1, now2);
}

} // verus!
