//! The upstream client's verifiable core: the validated configuration, the
//! builder that pairs a base URL with an executor, and the settings the
//! outbound client is constructed from at the edge.
use vstd::prelude::*;
use vstd::string::StringExecFns;
use crate::rate_limit::{quota_of, Quota, QuotaError};

verus! {

/// The validated process configuration: both strings non-empty.
#[derive(Debug, Clone, PartialEq, Eq)]
pub struct AppConfig {
    /// The user-agent header sent with outbound requests.
    pub user_agent: String,
    /// The rate quota of outbound requests, `<positive integer>/<unit>`.
    pub orionoid_rate_limit: String,
}

impl Default for AppConfig {
    /// An empty configuration, to be filled by the loader.
    fn default() -> (r: AppConfig)
        ensures
            r.user_agent@ == Seq::<char>::empty(),
            r.orionoid_rate_limit@ == Seq::<char>::empty(),
    {
        AppConfig { user_agent: String::new(), orionoid_rate_limit: String::new() }
    }
}

/// The loader of the process configuration. Reading the environment happens
/// at the edge; the core receives the loaded `AppConfig` ready-validated.
#[derive(Debug, Clone, Copy, PartialEq, Eq, Structural)]
pub struct ConfigurationProvider;

/// A client under construction: a fixed upstream base URL, and an executor
/// once one is supplied.
#[derive(Debug, Clone, PartialEq, Eq)]
pub struct ClientBuilder<E> {
    /// The upstream base URL.
    pub base_url: String,
    /// The executor that will carry requests, once supplied.
    pub executor: Option<E>,
}

/// An upstream client: an executor together with the base URL it targets.
#[derive(Debug, Clone, PartialEq, Eq)]
pub struct Client<E> {
    /// The executor that carries requests.
    pub executor: E,
    /// The upstream base URL.
    pub base_url: String,
}

impl<E> Default for ClientBuilder<E> {
    /// A builder aimed at the fixed upstream base URL, with no executor yet.
    fn default() -> (r: ClientBuilder<E>)
        ensures
            r.base_url@ == "https://api.orionoid.com"@,
            r.executor is None,
    {
        ClientBuilder { base_url: String::from_str("https://api.orionoid.com"), executor: None }
    }
}

impl<E> ClientBuilder<E> {
    /// Supplies the executor.
    pub fn with_executor(self, executor: E) -> (r: ClientBuilder<E>)
        ensures
            r.base_url == self.base_url,
            r.executor == Some(executor),
    {
        ClientBuilder { base_url: self.base_url, executor: Some(executor) }
    }

    /// Finishes the client. Fails exactly when no executor was supplied.
    pub fn build(self) -> (r: Result<Client<E>, String>)
        ensures
            (r is Ok) <==> (self.executor is Some),
            r matches Ok(c) ==> Some(c.executor) == self.executor && c.base_url == self.base_url,
            r matches Err(m) ==> m@ == "missing executor"@,
    {
        match self.executor {
            Some(executor) => Ok(Client { executor, base_url: self.base_url }),
            None => Err(String::from_str("missing executor")),
        }
    }
}

/// The validated settings the outbound client is built from at the edge.
#[derive(Debug, Clone, PartialEq, Eq)]
pub struct ClientSettings {
    /// The user-agent header of outbound requests.
    pub user_agent: String,
    /// The parsed rate quota gating outbound requests.
    pub quota: Quota,
    /// The upstream base URL.
    pub base_url: String,
}

/// Prepares the upstream client's settings from the configuration: the
/// quota string is parsed, the fixed base URL attached. Fails exactly when
/// the quota string does not parse.
pub fn initialize_orionoid_request_client(app_config: &AppConfig) -> (r: Result<
    ClientSettings,
    QuotaError,
>)
    ensures
        (r is Ok) <==> (quota_of(app_config.orionoid_rate_limit@) is Some),
        r matches Ok(s) ==> s.user_agent == app_config.user_agent && quota_of(
            app_config.orionoid_rate_limit@,
        ) == Some(s.quota) && s.base_url@ == "https://api.orionoid.com"@,
{
    match crate::rate_limit::parse_quota(app_config.orionoid_rate_limit.as_str()) {
        Ok(quota) => Ok(
            ClientSettings {
                user_agent: app_config.user_agent.clone(),
                quota,
                base_url: String::from_str("https://api.orionoid.com"),
            },
        ),
        Err(e) => Err(e),
    }
}

/// Prepares every outbound client this process uses.
pub fn initialize_request_clients(app_config: &AppConfig) -> (r: Result<
    ClientSettings,
    QuotaError,
>)
    ensures
        (r is Ok) <==> (quota_of(app_config.orionoid_rate_limit@) is Some),
        r matches Ok(s) ==> s.user_agent == app_config.user_agent && quota_of(
            app_config.orionoid_rate_limit@,
        ) == Some(s.quota) && s.base_url@ == "https://api.orionoid.com"@,
{
    initialize_orionoid_request_client(app_config)
}

} // verus!
