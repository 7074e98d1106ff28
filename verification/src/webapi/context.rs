//! What the HTTP service is started with.
use crate::config::api::{api_of, ApiConfig};
use crate::config::watcher::DaemonConfig;
use crate::user::ingestor::UserIngestor;
use vstd::prelude::*;

verus! {

/// What the handlers of the HTTP service share.
#[derive(Debug, PartialEq, Eq)]
pub struct ApiContext {
    pub api_config: ApiConfig,
    /// Host of the testnet relay that the Pubky client is to be started with.
    pub testnet_host: Option<String>,
    /// Shared ingestor enforcing the homeserver blacklist on API-triggered ingestion.
    pub ingestor: UserIngestor,
}

/// Collects what an [ApiContext] is built from.
#[derive(Debug, Clone, PartialEq, Eq)]
pub struct ApiContextBuilder {
    pub api_config: Option<ApiConfig>,
    pub config_dir: String,
}

/// Whether a context is that of a configuration.
pub open spec fn context_of(config: ApiConfig, c: ApiContext) -> bool {
    &&& c.api_config == config
    &&& match c.testnet_host {
        Some(host) => config.stack.net.testnet && host@ == config.stack.net.testnet_host@,
        None => !config.stack.net.testnet,
    }
    &&& forall|hs_id: Seq<char>| #[trigger]
        c.ingestor.blacklist().lists(hs_id) <==> config.stack.net.blacklists(hs_id)
}

impl ApiContextBuilder {
    /// A builder that takes its configuration from a file in the given directory.
    pub fn from_config_dir(config_dir: String) -> (r: Self)
        ensures
            r.api_config is None,
            r.config_dir == config_dir,
    {
        ApiContextBuilder { api_config: None, config_dir }
    }

    /// Sets a custom [ApiConfig], overriding the one that may be derived from a config file in the given dir
    pub fn api_config(self, api_config: ApiConfig) -> (r: Self)
        ensures
            r.api_config == Some(api_config),
            r.config_dir == self.config_dir,
    {
        ApiContextBuilder { api_config: Some(api_config), config_dir: self.config_dir }
    }

    /// Whether the config file in the directory has to be read.
    pub fn reads_config_file(&self) -> (r: bool)
        ensures
            r == (self.api_config is None),
    {
        self.api_config.is_none()
    }

    /// Builds the context. What the config file holds, or why it could not be read, only counts
    /// where no configuration was set.
    pub fn try_build(self, file: Result<DaemonConfig, String>) -> (r: Result<ApiContext, String>)
        ensures
            match self.api_config {
                Some(config) => r matches Ok(c) && context_of(config, c),
                None => match file {
                    Ok(daemon_config) => r matches Ok(c) && context_of(api_of(daemon_config), c),
                    Err(e) => r == Err::<ApiContext, String>(e),
                },
            },
    {
        let api_config = match self.api_config {
            Some(config) => config,
            None => match file {
                Ok(daemon_config) => ApiConfig::from(daemon_config),
                Err(e) => {
                    return Err(e);
                },
            },
        };
        let testnet_host = match api_config.stack.net.pubky_client_testnet_host() {
            Some(host) => Some(host.to_owned()),
            None => None,
        };
        let ingestor = UserIngestor::from_config(&api_config.stack);
        Ok(ApiContext { api_config, testnet_host, ingestor })
    }
}

/// A context keeps its configuration, and reaches the testnet exactly where the configuration asks for
/// it, at the host configured.
pub proof fn law_contexts_reach_the_configured_network(config: ApiConfig, c: ApiContext)
    requires
        context_of(config, c),
    ensures
        c.api_config == config,
        c.testnet_host is Some <==> config.stack.net.testnet,
        c.testnet_host matches Some(host) ==> host@ == config.stack.net.testnet_host@,
{
}

} // verus!
