//! Shapes of the HTTP surface and their validation rules. The routing
//! and the JSON mapping live outside the library; the decisions — what
//! counts as a valid request, which status a failure maps to — are
//! made here.

use vstd::prelude::*;
use crate::organizer::OrganizeMethod;
use crate::store::MediaType;

verus! {

/// Errors the HTTP handlers surface directly.
#[derive(Debug, Clone)]
pub enum ApiError {
    BadRequest(String),
    Unauthorized(String),
    Forbidden(String),
    NotFound(String),
    Conflict(String),
    InternalServerError(String),
}

impl ApiError {
    /// The HTTP status and message the error maps to.
    pub fn code(&self) -> (r: (u16, String))
        ensures
            match self {
                ApiError::BadRequest(m) => r.0 == 400u16 && r.1@ == m@,
                ApiError::Unauthorized(m) => r.0 == 401u16 && r.1@ == m@,
                ApiError::Forbidden(m) => r.0 == 403u16 && r.1@ == m@,
                ApiError::NotFound(m) => r.0 == 404u16 && r.1@ == m@,
                ApiError::Conflict(m) => r.0 == 409u16 && r.1@ == m@,
                ApiError::InternalServerError(m) => r.0 == 500u16 && r.1@ == m@,
            },
    {
        match self {
            ApiError::BadRequest(m) => (400, m.clone()),
            ApiError::Unauthorized(m) => (401, m.clone()),
            ApiError::Forbidden(m) => (403, m.clone()),
            ApiError::NotFound(m) => (404, m.clone()),
            ApiError::Conflict(m) => (409, m.clone()),
            ApiError::InternalServerError(m) => (500, m.clone()),
        }
    }
}

/// The health check report.
#[derive(Debug, Clone)]
pub struct HealthResponse {
    pub status: String,
    pub database: String,
}

/// The health report for a database probe outcome.
pub fn health_response(database_connected: bool) -> (r: HealthResponse)
    ensures
        r.status@ == "healthy"@,
        database_connected ==> r.database@ == "connected"@,
        !database_connected ==> r.database@ == "disconnected"@,
{
    HealthResponse {
        status: String::from_str("healthy"),
        database: if database_connected {
            String::from_str("connected")
        } else {
            String::from_str("disconnected")
        },
    }
}

/// Create library folder request.
#[derive(Debug, Clone)]
pub struct CreateLibraryFolderRequest {
    pub name: String,
    pub path: String,
    pub media_type: MediaType,
}

/// Provider connection test request.
#[derive(Debug, Clone)]
pub struct ProviderConnectionTestPayload {
    /// Timeout duration (seconds).
    pub timeout_seconds: Option<u32>,
}

impl ProviderConnectionTestPayload {
    /// The timeout must lie between one and sixty seconds when given.
    pub fn validate(&self) -> (r: bool)
        ensures
            r == (match self.timeout_seconds {
                Some(t) => 1 <= t <= 60,
                None => true,
            }),
    {
        match self.timeout_seconds {
            Some(t) => 1 <= t && t <= 60,
            None => true,
        }
    }
}

/// Providers response.
#[derive(Debug, Clone)]
pub struct ProvidersResponse {
    /// List of available providers.
    pub providers: Vec<ProviderInfo>,
}

/// Provider information.
#[derive(Debug, Clone)]
pub struct ProviderInfo {
    /// Display name.
    pub name: String,
    /// Supported media kinds, as lower-case tags.
    pub supported_media_types: Vec<String>,
    /// Whether an API key is required.
    pub requires_api_key: bool,
    /// Whether the provider is available.
    pub available: bool,
}

/// Get configuration query parameters.
#[derive(Debug, Clone)]
pub struct GetConfigQuery {
    /// Media kind filter.
    pub media_type: Option<MediaType>,
}

/// Scrape target type.
#[derive(Debug, Clone)]
pub struct ScrapeTarget {
    /// Target type: file, batch, directory.
    pub target_type: String,
    /// Single file path (used for a file target).
    pub file_path: Option<String>,
    /// Batch file path list (used for a batch target).
    pub file_paths: Option<Vec<String>>,
    /// Directory path (used for a directory target).
    pub directory_path: Option<String>,
    /// Whether to recursively scan subdirectories.
    pub recursive: Option<bool>,
    /// File extension filter.
    pub file_extensions: Option<Vec<String>>,
}

impl ScrapeTarget {
    /// A present file path may not be empty, a batch must name one to
    /// one hundred files, and a present directory path may not be
    /// empty.
    pub fn validate(&self) -> (r: bool)
        ensures
            r == ({
                &&& (match self.file_path {
                    Some(p) => p@.len() >= 1,
                    None => true,
                })
                &&& (match self.file_paths {
                    Some(ps) => 1 <= ps@.len() <= 100,
                    None => true,
                })
                &&& (match self.directory_path {
                    Some(p) => p@.len() >= 1,
                    None => true,
                })
            }),
    {
        let file_ok = match &self.file_path {
            Some(p) => p.as_str().unicode_len() >= 1,
            None => true,
        };
        let batch_ok = match &self.file_paths {
            Some(ps) => 1 <= ps.len() && ps.len() <= 100,
            None => true,
        };
        let dir_ok = match &self.directory_path {
            Some(p) => p.as_str().unicode_len() >= 1,
            None => true,
        };
        file_ok && batch_ok && dir_ok
    }
}

/// Unified scrape request.
#[derive(Debug, Clone)]
pub struct ScrapePayload {
    /// Scrape target.
    pub target: ScrapeTarget,
    /// Media kind (optional, auto-detect).
    pub media_type: Option<MediaType>,
    /// Provider (optional, use the configured default).
    pub provider: Option<String>,
    /// Whether to auto organize files.
    pub auto_organize: Option<bool>,
    /// Organize method.
    pub organize_method: Option<OrganizeMethod>,
    /// Concurrency limit.
    pub concurrent_limit: Option<u32>,
}

impl ScrapePayload {
    /// The target must be valid and a present concurrency limit must
    /// lie between one and ten.
    pub fn validate(&self) -> (r: bool)
        ensures
            r == ({
                &&& (match self.concurrent_limit {
                    Some(c) => 1 <= c <= 10,
                    None => true,
                })
                &&& (match self.target.file_path {
                    Some(p) => p@.len() >= 1,
                    None => true,
                })
                &&& (match self.target.file_paths {
                    Some(ps) => 1 <= ps@.len() <= 100,
                    None => true,
                })
                &&& (match self.target.directory_path {
                    Some(p) => p@.len() >= 1,
                    None => true,
                })
            }),
    {
        let limit_ok = match self.concurrent_limit {
            Some(c) => 1 <= c && c <= 10,
            None => true,
        };
        limit_ok && self.target.validate()
    }
}

/// Scrape target information of a response.
#[derive(Debug, Clone)]
pub struct ScrapeTargetInfo {
    /// Target type: file, batch, directory.
    pub target_type: String,
    /// Single file path (file target).
    pub file_path: Option<String>,
    /// Batch file processing count (batch target).
    pub processed_files: Option<u32>,
    /// Directory path (directory target).
    pub directory_path: Option<String>,
    /// Discovered file count (directory target).
    pub discovered_files: Option<u32>,
    /// Directory processed file count (directory target).
    pub directory_processed_files: Option<u32>,
}

/// One scraped file of a response.
#[derive(Debug, Clone)]
pub struct ScrapeResult {
    /// File path.
    pub file_path: String,
    /// Media kind.
    pub media_type: MediaType,
    /// Used provider.
    pub provider: String,
    /// Scrape status.
    pub success: bool,
    /// Organized file path.
    pub organized_path: Option<String>,
    /// Processing time in milliseconds.
    pub duration_ms: u64,
}

/// Unified scrape response.
#[derive(Debug, Clone)]
pub struct ScrapeResponse {
    /// Scrape target information.
    pub target_info: ScrapeTargetInfo,
    /// Total file count.
    pub total_files: u32,
    /// Success count.
    pub success_count: u32,
    /// Failed count.
    pub failed_count: u32,
    /// Total duration (milliseconds).
    pub duration_ms: u64,
    /// Detailed results.
    pub results: Vec<ScrapeResult>,
}

/// Manual match request.
#[derive(Debug, Clone)]
pub struct ManualMatchPayload {
    /// File path.
    pub file_path: String,
    /// Media kind.
    pub media_type: MediaType,
    /// Media id (from the provider).
    pub media_id: String,
    /// Provider.
    pub provider: String,
    /// Whether to auto organize files.
    pub auto_organize: Option<bool>,
    /// Organize method.
    pub organize_method: Option<OrganizeMethod>,
}

impl ManualMatchPayload {
    /// The file path and the media id may not be empty.
    pub fn validate(&self) -> (r: bool)
        ensures
            r == (self.file_path@.len() >= 1 && self.media_id@.len() >= 1),
    {
        self.file_path.as_str().unicode_len() >= 1 && self.media_id.as_str().unicode_len() >= 1
    }
}

} // verus!
