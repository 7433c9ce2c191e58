//! Server configuration: bind address, cache lifetime and the served apps.

use vstd::prelude::*;
use crate::text::text_eq;

verus! {

#[derive(Debug, Clone)]
pub struct Config {
    pub server: ServerConfig,
    pub github: GithubConfig,
    pub apps: Vec<AppConfig>,
}

#[derive(Debug, Clone)]
pub struct ServerConfig {
    pub bind: String,
}

#[derive(Debug, Clone)]
pub struct GithubConfig {
    /// TTL in seconds for the releases list cache.
    pub cache_ttl_seconds: u64,
}

#[derive(Debug, Clone)]
pub struct AppConfig {
    /// URL-safe identifier used in API paths.
    pub slug: String,
    /// GitHub repository in "owner/repo" format.
    pub github_repo: String,
    pub display_name: String,
}

impl Default for ServerConfig {
    fn default() -> (r: Self)
        ensures
            r.bind@ == "0.0.0.0:8080"@,
    {
        ServerConfig { bind: "0.0.0.0:8080".to_string() }
    }
}

impl Default for GithubConfig {
    fn default() -> (r: Self)
        ensures
            r.cache_ttl_seconds == 60,
    {
        GithubConfig { cache_ttl_seconds: 60 }
    }
}

/// The built-in configuration used when no configuration file exists: the
/// default server and cache settings and no apps.
impl Default for Config {
    fn default() -> (r: Self)
        ensures
            r.server.bind@ == "0.0.0.0:8080"@,
            r.github.cache_ttl_seconds == 60,
            r.apps@.len() == 0,
    {
        Config { server: ServerConfig::default(), github: GithubConfig::default(), apps: Vec::new() }
    }
}

/// Position `i` holds the first app with the slug.
pub open spec fn is_first_app(apps: Seq<AppConfig>, slug: Seq<char>, i: int) -> bool {
    &&& 0 <= i < apps.len()
    &&& apps[i].slug@ == slug
    &&& forall|j: int| #![trigger apps[j]] 0 <= j < i ==> apps[j].slug@ != slug
}

/// Some app has the slug.
pub open spec fn has_app(apps: Seq<AppConfig>, slug: Seq<char>) -> bool {
    exists|j: int| 0 <= j < apps.len() && (#[trigger] apps[j]).slug@ == slug
}

impl Config {
    /// The position of the first app with the slug.
    pub fn app_index(&self, slug: &str) -> (r: Option<usize>)
        ensures
            r is None <==> !has_app(self.apps@, slug@),
            r matches Some(i) ==> is_first_app(self.apps@, slug@, i as int),
    {
        let mut k: usize = 0;
        while k < self.apps.len()
            invariant
                k <= self.apps@.len(),
                forall|j: int| #![trigger self.apps@[j]] 0 <= j < k ==> self.apps@[j].slug@ != slug@,
            decreases self.apps@.len() - k,
        {
            if text_eq(self.apps[k].slug.as_str(), slug) {
                return Some(k);
            }
            k = k + 1;
        }
        None
    }

    /// Find an app by slug. Returns `None` when not found.
    pub fn find_app(&self, slug: &str) -> (r: Option<&AppConfig>)
        ensures
            r is None <==> !has_app(self.apps@, slug@),
            r matches Some(a) ==> exists|i: int| is_first_app(self.apps@, slug@, i) && *a == self.apps@[i],
    {
        match self.app_index(slug) {
            Some(i) => Some(&self.apps[i]),
            None => None,
        }
    }
}

} // verus!
