//! Core of a personal media server backend: scanning library folders for
//! media files, aggregating metadata from external catalogs under rate
//! limits and caching, and deriving canonical target paths for organizing
//! the files on disk.

use vstd::prelude::*;

pub mod agent;
pub mod anilist;
pub mod bangumi;
pub mod api;
pub mod auth;
pub mod cache;
pub mod config;
pub mod hp;
pub mod organizer;
pub mod provider;
pub mod rate_limiter;
pub mod scraper;
pub mod scanner;
pub mod store;
pub mod strutil;
pub mod tmdb;
pub mod tvdb;
pub mod types;

verus! {

/// Standard response envelope returned by the HTTP surface.
#[derive(Debug, Clone)]
pub struct ApiResponse<T> {
    pub code: u16,
    pub message: String,
    pub data: Option<T>,
}

impl<T> ApiResponse<T> {
    /// Wrap a successful payload in the standard envelope.
    pub fn ok(message: String, data: T) -> (r: ApiResponse<T>)
        ensures
            r.code == 200u16,
            r.message == message,
            r.data == Some(data),
    {
        ApiResponse { code: 200, message, data: Some(data) }
    }
}

} // verus!
