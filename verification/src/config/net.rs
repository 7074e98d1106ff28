//! Settings of the Pubky network.
use crate::uri::PubkyId;
use vstd::prelude::*;

verus! {

/// Host of the testnet relay where none is configured.
pub const DEFAULT_TESTNET_HOST: &'static str = "localhost";

/// Shared Pubky network settings for the Nexus stack (`[stack.net]`).
#[derive(Debug, Clone, PartialEq, Eq)]
pub struct NetConfig {
    /// When true, the Pubky client targets a local testnet relay at [Self::testnet_host].
    pub testnet: bool,
    /// Testnet relay hostname (e.g. `"localhost"` or a Docker service name).
    /// Only used when [Self::testnet] is true.
    pub testnet_host: String,
    /// External HS PKs which are forbidden from being indexed.
    pub external_hs_pk_blacklist: Vec<PubkyId>,
}

impl Default for NetConfig {
    fn default() -> (r: Self)
        ensures
            !r.testnet,
            r.testnet_host@ == DEFAULT_TESTNET_HOST@,
            r.external_hs_pk_blacklist@.len() == 0,
    {
        NetConfig {
            testnet: false,
            testnet_host: Self::default_testnet_host(),
            external_hs_pk_blacklist: Vec::new(),
        }
    }
}

impl NetConfig {
    /// Whether a homeserver is forbidden from being indexed.
    pub open spec fn blacklists(self, hs_id: Seq<char>) -> bool {
        exists|i: int|
            0 <= i < self.external_hs_pk_blacklist@.len() && #[trigger]
            self.external_hs_pk_blacklist@[i]@ == hs_id
    }

    /// Host of the testnet relay where none is configured.
    pub fn default_testnet_host() -> (r: String)
        ensures
            r@ == DEFAULT_TESTNET_HOST@,
    {
        DEFAULT_TESTNET_HOST.to_owned()
    }

    /// Returns the testnet relay hostname that the Pubky client is to be started with
    pub fn pubky_client_testnet_host(&self) -> (r: Option<&str>)
        ensures
            match r {
                Some(host) => self.testnet && host@ == self.testnet_host@,
                None => !self.testnet,
            },
    {
        if self.testnet {
            Some(self.testnet_host.as_str())
        } else {
            None
        }
    }
}

/// A homeserver is forbidden exactly where its key stands on the list, wherever it stands.
pub proof fn law_listed_homeservers_are_forbidden(net: NetConfig, hs_id: Seq<char>, i: int)
    ensures
        net.external_hs_pk_blacklist@.len() == 0 ==> !net.blacklists(hs_id),
        0 <= i < net.external_hs_pk_blacklist@.len() ==> net.blacklists(
            net.external_hs_pk_blacklist@[i]@,
        ),
        net.blacklists(hs_id) ==> net.external_hs_pk_blacklist@.map_values(|k: PubkyId| k@).contains(
            hs_id,
        ),
{
    if net.blacklists(hs_id) {
        let k = choose|k: int|
            0 <= k < net.external_hs_pk_blacklist@.len() && #[trigger]
            net.external_hs_pk_blacklist@[k]@ == hs_id;
        assert(net.external_hs_pk_blacklist@.map_values(|p: PubkyId| p@)[k] == hs_id);
    }
}

} // verus!
