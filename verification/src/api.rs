//! Request-type dispatch and the once-per-process capability configuration.
use vstd::prelude::*;
use vstd::string::StringExecFns;
use crate::categories::is_category_table;
use crate::search_config::is_search_table;
use crate::types::{Caps, Config};

verus! {

/// Whether `info` is the fixed server metadata of this indexer.
pub open spec fn is_default_server_info(info: Seq<(String, String)>) -> bool {
    &&& info.len() == 3
    &&& info[0].0@ == "version"@ && info[0].1@ == "1.0.0"@
    &&& info[1].0@ == "url"@ && info[1].1@ == "https://github.com/ipromknight/orionznab"@
    &&& info[2].0@ == "title"@ && info[2].1@ == "Orionznab by iPromKnight"@
}

/// Whether `c` is the capability document this process serves: the fixed
/// server metadata, the configured limits, the three search-type descriptors
/// and the two-category taxonomy, with no genres and no tags.
pub open spec fn is_default_caps(c: Caps) -> bool {
    &&& c.server_info matches Some(info) && is_default_server_info(info@)
    &&& c.limits.max == 1000 && c.limits.default == 50
    &&& is_search_table(c.searching@)
    &&& is_category_table(c.categories@)
    &&& c.genres is None
    &&& c.tags is None
}

/// Builds the capability configuration served for the process lifetime.
pub fn setup_torznab_config() -> (r: Config)
    ensures
        is_default_caps(r.caps),
{
    let mut info: Vec<(String, String)> = Vec::new();
    info.push((String::from_str("version"), String::from_str("1.0.0")));
    info.push((String::from_str("url"), String::from_str(
        "https://github.com/ipromknight/orionznab",
    )));
    info.push((String::from_str("title"), String::from_str("Orionznab by iPromKnight")));
    let caps = Caps {
        server_info: Some(info),
        limits: crate::limits::search_limits(),
        searching: crate::search_config::search_config(),
        categories: crate::categories::categories(),
        genres: None,
        tags: None,
    };
    Config { caps }
}

/// Everything one process serves with: the outbound client's settings and
/// the capability configuration.
#[derive(Debug, Clone, PartialEq, Eq)]
pub struct Services {
    /// The outbound client's settings.
    pub client: crate::client::ClientSettings,
    /// The capability configuration.
    pub config: Config,
}

/// Prepares everything one process serves with: the outbound client's
/// settings from the configuration, and the capability document. Fails
/// exactly when the configured quota string does not parse.
pub fn initialize_services(app_config: &crate::client::AppConfig) -> (r: Result<
    Services,
    crate::rate_limit::QuotaError,
>)
    ensures
        (r is Ok) <==> (crate::rate_limit::quota_of(app_config.orionoid_rate_limit@) is Some),
        r matches Ok(s) ==> s.client.user_agent == app_config.user_agent
            && crate::rate_limit::quota_of(app_config.orionoid_rate_limit@) == Some(
            s.client.quota,
        ) && s.client.base_url@ == "https://api.orionoid.com"@ && is_default_caps(s.config.caps),
{
    match crate::client::initialize_request_clients(app_config) {
        Ok(client) => Ok(Services { client, config: setup_torznab_config() }),
        Err(e) => Err(e),
    }
}

/// What a request asks for, decided by its `t` query parameter.
#[derive(Debug, Clone, Copy, PartialEq, Eq, Structural)]
pub enum RequestKind {
    /// Serve the capability document.
    Caps,
    /// Run a free-text search.
    Search,
    /// Run a tv search.
    TvSearch,
    /// Run a movie search.
    MovieSearch,
    /// Not a known request type: answered with a plain not-found response.
    Unknown,
}

/// The request kind denoted by the `t` parameter.
pub open spec fn classify_spec(t: Option<Seq<char>>) -> RequestKind {
    match t {
        Some(s) => {
            if s == "caps"@ {
                RequestKind::Caps
            } else if s == "search"@ {
                RequestKind::Search
            } else if s == "tvsearch"@ {
                RequestKind::TvSearch
            } else if s == "movie"@ {
                RequestKind::MovieSearch
            } else {
                RequestKind::Unknown
            }
        },
        None => RequestKind::Unknown,
    }
}

/// Decides what a request asks for from its `t` query parameter.
pub fn classify_request(t: &Option<String>) -> (r: RequestKind)
    ensures
        r == classify_spec(t.deep_view()),
{
    match t {
        Some(s) => {
            if crate::text::str_eq(s.as_str(), "caps") {
                RequestKind::Caps
            } else if crate::text::str_eq(s.as_str(), "search") {
                RequestKind::Search
            } else if crate::text::str_eq(s.as_str(), "tvsearch") {
                RequestKind::TvSearch
            } else if crate::text::str_eq(s.as_str(), "movie") {
                RequestKind::MovieSearch
            } else {
                RequestKind::Unknown
            }
        },
        None => RequestKind::Unknown,
    }
}

} // verus!
