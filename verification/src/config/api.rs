//! Settings of the HTTP service.
use crate::config::stack::StackConfig;
use crate::config::watcher::DaemonConfig;
use crate::webapi::key_republisher::PublicIp;
use vstd::prelude::*;

verus! {

/// Configuration settings for the HTTP service.
#[derive(Debug, Clone, PartialEq, Eq)]
pub struct ApiConfig {
    /// Address under which the service is found in the DHT.
    pub public_ip: PublicIp,
    /// Port under which the service is found in the DHT.
    pub public_pubky_tls_port: u16,
    /// Seconds after which a request is given up.
    pub request_timeout_secs: u64,
    /// Largest request body, in bytes.
    pub max_body_size_bytes: usize,
    pub stack: StackConfig,
}

/// The settings of the HTTP service on the stack of the daemon.
pub open spec fn api_of(daemon_config: DaemonConfig) -> ApiConfig {
    ApiConfig { stack: daemon_config.stack, ..daemon_config.api }
}

/// Extracts [`ApiConfig`] from [`DaemonConfig`]
impl From<DaemonConfig> for ApiConfig {
    fn from(daemon_config: DaemonConfig) -> (r: Self) {
        ApiConfig { stack: daemon_config.stack, ..daemon_config.api }
    }
}

impl vstd::std_specs::convert::FromSpecImpl<DaemonConfig> for ApiConfig {
    open spec fn obeys_from_spec() -> bool {
        true
    }

    open spec fn from_spec(daemon_config: DaemonConfig) -> ApiConfig {
        api_of(daemon_config)
    }
}

/// The HTTP service takes the stack of the daemon, and all else from its own settings.
pub proof fn law_api_takes_the_stack_of_the_daemon(daemon_config: DaemonConfig)
    ensures
        ({
            let api = api_of(daemon_config);
            &&& api.stack == daemon_config.stack
            &&& api.public_ip == daemon_config.api.public_ip
            &&& api.public_pubky_tls_port == daemon_config.api.public_pubky_tls_port
            &&& api.request_timeout_secs == daemon_config.api.request_timeout_secs
            &&& api.max_body_size_bytes == daemon_config.api.max_body_size_bytes
        }),
{
}

} // verus!
