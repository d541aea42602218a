//! Aggregation across metadata providers: the error taxonomy shared by
//! every catalog adapter, and the manager that registers providers,
//! merges their search results and routes detail lookups back to the
//! provider that produced a result.
//!
//! The HTTP fan-out happens outside the library; the manager receives
//! each provider's outcome as a plain value and combines them here.

use vstd::prelude::*;
use crate::cache::ScraperCache;
use crate::strutil::str_eq;
use crate::types::MediaSearchResult;

verus! {

/// Scraper error types.
#[derive(Debug, Clone)]
pub enum ScraperError {
    /// The HTTP request itself failed.
    Network(String),
    /// The catalog answered with a non-success status.
    Api { status: u16, message: String },
    /// The catalog or the local limiter refused the request; retry
    /// after this many milliseconds.
    RateLimit(u64),
    /// Nothing was found.
    NotFound(String),
    /// The response could not be decoded.
    Parse(String),
    /// The cache refused an operation.
    Cache(String),
    /// The provider cannot serve this kind of request.
    Config(String),
}

impl ScraperError {
    /// Human-readable description of the failure.
    pub fn message(&self) -> (r: String)
        ensures
            match self {
                ScraperError::Network(m) => r@ == "Network error: "@ + m@,
                ScraperError::Api { status, message } => r@ == "API error: "@ + message@,
                ScraperError::RateLimit(_) => r@ == "Rate limit exceeded"@,
                ScraperError::NotFound(m) => r@ == "Not found: "@ + m@,
                ScraperError::Parse(m) => r@ == "Parse error: "@ + m@,
                ScraperError::Cache(m) => r@ == "Cache error: "@ + m@,
                ScraperError::Config(m) => r@ == "Configuration error: "@ + m@,
            },
    {
        match self {
            ScraperError::Network(m) => String::from_str("Network error: ").concat(m.as_str()),
            ScraperError::Api { status, message } => String::from_str("API error: ").concat(
                message.as_str(),
            ),
            ScraperError::RateLimit(_) => String::from_str("Rate limit exceeded"),
            ScraperError::NotFound(m) => String::from_str("Not found: ").concat(m.as_str()),
            ScraperError::Parse(m) => String::from_str("Parse error: ").concat(m.as_str()),
            ScraperError::Cache(m) => String::from_str("Cache error: ").concat(m.as_str()),
            ScraperError::Config(m) => String::from_str("Configuration error: ").concat(
                m.as_str(),
            ),
        }
    }
}

/// A status code in the success range.
pub open spec fn spec_is_success(status: u16) -> bool {
    200 <= status < 300
}

/// Map a response status to the shared error taxonomy: any non-success
/// status becomes an API error carrying the response body.
pub fn api_error_for(status: u16, body: String) -> (r: Result<(), ScraperError>)
    ensures
        match r {
            Ok(_) => spec_is_success(status),
            Err(e) => {
                &&& !spec_is_success(status)
                &&& e matches ScraperError::Api { status: s, message } && s == status && message@
                    == body@
            },
        },
{
    if status >= 200 && status < 300 {
        Ok(())
    } else {
        Err(ScraperError::Api { status, message: body })
    }
}

/// Everything the registered providers found, in registration order;
/// a failed provider contributes nothing.
pub open spec fn merged_results(
    rs: Seq<Result<Vec<MediaSearchResult>, ScraperError>>,
) -> Seq<MediaSearchResult>
    decreases rs.len(),
{
    if rs.len() == 0 {
        Seq::empty()
    } else {
        (match rs[0] {
            Ok(v) => v@,
            Err(_) => Seq::empty(),
        }) + merged_results(rs.drop_first())
    }
}

/// Scraper manager for managing multiple providers: the registration
/// list resolves detail lookups by name, and the shared cache backs
/// every adapter.
pub struct ScraperManager {
    pub providers: Vec<String>,
    pub cache: ScraperCache,
}

impl ScraperManager {
    /// A manager with no providers and a fresh cache.
    pub fn new() -> (r: ScraperManager)
        ensures
            r.providers@.len() == 0,
            r.cache.wf(),
            r.cache.slots@.len() == 0,
    {
        ScraperManager { providers: Vec::new(), cache: ScraperCache::new() }
    }

    /// Register a provider under its stable name, at the end of the
    /// resolution order.
    pub fn add_provider(&mut self, name: String)
        ensures
            final(self).providers@ == old(self).providers@.push(name),
            final(self).cache == old(self).cache,
    {
        self.providers.push(name);
    }

    /// The registered provider names, in resolution order.
    pub fn providers(&self) -> (r: &Vec<String>)
        ensures
            r == self.providers,
    {
        &self.providers
    }

    /// The shared response cache.
    pub fn cache(&self) -> (r: &ScraperCache)
        ensures
            r == self.cache,
    {
        &self.cache
    }

    /// Combine what every registered provider answered, in registration
    /// order, skipping failed providers. When nothing at all was found
    /// the whole search reports the query as not found.
    #[verifier::loop_isolation(false)]
    pub fn merge_search_results(
        &self,
        outcomes: Vec<Result<Vec<MediaSearchResult>, ScraperError>>,
        query: &str,
    ) -> (r: Result<Vec<MediaSearchResult>, ScraperError>)
        ensures
            match r {
                Ok(all) => all@ == merged_results(outcomes@) && all@.len() > 0,
                Err(e) => {
                    &&& merged_results(outcomes@).len() == 0
                    &&& e matches ScraperError::NotFound(m) && m@ == "No provider could find: "@
                        + query@
                },
            },
    {
        let mut all_results: Vec<MediaSearchResult> = Vec::new();
        let mut rest = outcomes;
        let ghost rs = rest@;
        while rest.len() > 0
            invariant
                rest@.len() <= rs.len(),
                rest@ =~= rs.skip(rs.len() - rest@.len()),
                all_results@ + merged_results(rest@) =~= merged_results(rs),
            decreases rest@.len(),
        {
            let ghost pre_rest = rest@;
            let outcome = rest.remove(0);
            proof {
                assert(pre_rest.drop_first() =~= rest@);
                assert(merged_results(pre_rest) == (match pre_rest[0] {
                    Ok(v) => v@,
                    Err(_) => Seq::<MediaSearchResult>::empty(),
                }) + merged_results(rest@));
            }
            match outcome {
                Ok(mut results) => {
                    all_results.append(&mut results);
                },
                Err(_) => {},
            }
        }
        proof {
            assert(merged_results(rest@) =~= Seq::<MediaSearchResult>::empty());
            assert(all_results@ =~= merged_results(rs));
        }
        if all_results.len() == 0 {
            Err(
                ScraperError::NotFound(
                    String::from_str("No provider could find: ").concat(query),
                ),
            )
        } else {
            Ok(all_results)
        }
    }

    /// Resolve a provider by its stable name: the position of the first
    /// registered provider with that name, or a configuration error.
    #[verifier::loop_isolation(false)]
    pub fn find_provider(&self, name: &str) -> (r: Result<usize, ScraperError>)
        ensures
            match r {
                Ok(i) => {
                    &&& i < self.providers@.len()
                    &&& self.providers@[i as int]@ == name@
                    &&& forall|j: int| 0 <= j < i ==> (#[trigger] self.providers@[j])@ != name@
                },
                Err(e) => {
                    &&& forall|j: int|
                        0 <= j < self.providers@.len() ==> (#[trigger] self.providers@[j])@
                            != name@
                    &&& e matches ScraperError::Config(m) && m@ == "Provider not found: "@ + name@
                },
            },
    {
        let mut i: usize = 0;
        while i < self.providers.len()
            invariant
                0 <= i <= self.providers@.len(),
                forall|j: int| 0 <= j < i ==> (#[trigger] self.providers@[j])@ != name@,
            decreases self.providers@.len() - i,
        {
            if str_eq(self.providers[i].as_str(), name) {
                return Ok(i);
            }
            i = i + 1;
        }
        Err(ScraperError::Config(String::from_str("Provider not found: ").concat(name)))
    }
}

} // verus!
