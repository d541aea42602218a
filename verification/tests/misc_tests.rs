//! Smaller pieces: number parsing and formatting, the request
//! validations of the HTTP surface, claims, and the probe provider.

use ayiah::api::{
    health_response, ApiError, ManualMatchPayload, ProviderConnectionTestPayload, ScrapePayload,
    ScrapeTarget,
};
use ayiah::auth::{AuthBody, AuthError, JwtClaims, LoginPayload};
use ayiah::config::{AppConfig, ConfigError};
use ayiah::hp::{HPMediaProvider, OptimizationLevel};
use ayiah::strutil::{i64_to_string, parse_i64, u64_to_string};

#[test]
fn numbers_render_and_parse() {
    assert_eq!(u64_to_string(0), "0");
    assert_eq!(u64_to_string(90125), "90125");
    assert_eq!(i64_to_string(-42), "-42");
    assert_eq!(parse_i64("329865"), Some(329865));
    assert_eq!(parse_i64("-7"), Some(-7));
    assert_eq!(parse_i64("+7"), Some(7));
    assert_eq!(parse_i64(""), None);
    assert_eq!(parse_i64("12a"), None);
    assert_eq!(parse_i64("9223372036854775807"), Some(i64::MAX));
    assert_eq!(parse_i64("9223372036854775808"), None);
    assert_eq!(parse_i64("-9223372036854775808"), Some(i64::MIN));
}

#[test]
fn scrape_payload_validation() {
    let target = ScrapeTarget {
        target_type: "file".to_string(),
        file_path: Some("/media/x.mkv".to_string()),
        file_paths: None,
        directory_path: None,
        recursive: None,
        file_extensions: None,
    };
    let mut payload = ScrapePayload {
        target,
        media_type: None,
        provider: None,
        auto_organize: None,
        organize_method: None,
        concurrent_limit: Some(5),
    };
    assert!(payload.validate());
    payload.concurrent_limit = Some(11);
    assert!(!payload.validate());
    payload.concurrent_limit = Some(1);
    payload.target.file_path = Some(String::new());
    assert!(!payload.validate());
    payload.target.file_path = None;
    payload.target.file_paths = Some(vec![]);
    assert!(!payload.validate());
}

#[test]
fn manual_match_and_probe_validation() {
    let payload = ManualMatchPayload {
        file_path: "/media/x.mkv".to_string(),
        media_type: ayiah::store::MediaType::Movie,
        media_id: "329865".to_string(),
        provider: "tmdb".to_string(),
        auto_organize: None,
        organize_method: None,
    };
    assert!(payload.validate());
    let empty = ManualMatchPayload { media_id: String::new(), ..payload };
    assert!(!empty.validate());
    assert!(ProviderConnectionTestPayload { timeout_seconds: Some(60) }.validate());
    assert!(!ProviderConnectionTestPayload { timeout_seconds: Some(0) }.validate());
}

#[test]
fn health_and_error_codes() {
    let healthy = health_response(true);
    assert_eq!(healthy.status, "healthy");
    assert_eq!(healthy.database, "connected");
    assert_eq!(health_response(false).database, "disconnected");
    assert_eq!(ApiError::NotFound("x".to_string()).code().0, 404);
    assert_eq!(ApiError::BadRequest("b".to_string()).code(), (400, "b".to_string()));
    assert_eq!(AuthError::InvalidToken.code().0, 401);
    assert_eq!(ConfigError::NotInitialized.code().1, "Configuration not initialized");
}

#[test]
fn claims_and_login_rules() {
    let claims = JwtClaims::new("user-1".to_string(), 1_000_000, 24);
    assert_eq!(claims.nbf, 1_000_000);
    assert_eq!(claims.exp, 1_000_000 + 24 * 3600);
    assert!(claims.valid_at(1_000_100));
    assert!(!claims.valid_at(claims.exp));
    let body = AuthBody::new("tok".to_string());
    assert_eq!(body.token_type, "Bearer");
    assert!(LoginPayload { username: "abc".to_string(), password: "secret".to_string() }.validate());
    assert!(!LoginPayload { username: "ab".to_string(), password: "secret".to_string() }.validate());
}

#[test]
fn defaults_are_as_documented() {
    let config = AppConfig::default();
    assert_eq!(config.server.port, 7590);
    assert_eq!(config.scrape.default_provider, "tmdb");
    assert_eq!(config.auth.jwt_expiry_hours, 24);
}

#[test]
fn probe_reports_by_level() {
    let probe = HPMediaProvider::new("Dune".to_string(), None);
    assert_eq!(probe.optimization_level, OptimizationLevel::Medium);
    let details = probe.probe_details();
    assert_eq!(details.title, "Standard - Dune");
    assert_eq!(details.resolution.as_deref(), Some("1280x720"));
    let ultra = HPMediaProvider::new("Dune".to_string(), None)
        .with_optimization_level(OptimizationLevel::Ultra);
    let details = ultra.probe_details();
    assert_eq!(details.title, "Ultra HD - Dune");
    assert_eq!(details.frame_rate, Some(60));
    assert_eq!(details.hdr, Some(true));
}
