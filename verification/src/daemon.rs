//! Start of all services.
use crate::config::net::NetConfig;
use vstd::prelude::*;

verus! {

/// The network that the Pubky client talks to.
#[derive(Debug, Clone, PartialEq, Eq)]
pub enum ClientNetwork {
    Mainnet,
    /// A local testnet with its relay at the given host.
    Testnet(String),
}

/// How far the start has come. Each state names what is to be done next.
#[derive(Debug, Clone, PartialEq, Eq)]
pub enum LaunchState {
    /// Read the config file, creating it if it does not exist.
    ReadConfig,
    /// Resolve and validate the scheduled jobs.
    ScheduleJobs,
    /// Start the Pubky client.
    StartClient,
    /// Build the context of the HTTP service.
    BuildContext,
    /// Run the HTTP service, the watcher and the jobs until all have shut down or one fails.
    RunServices,
    /// The daemon has shut down, or has failed with the given error.
    Stopped(Option<String>),
}

/// Starts a daemon: the HTTP service, the watcher and the scheduled jobs.
#[derive(Debug, Clone, Copy, PartialEq, Eq, Structural)]
pub struct DaemonLauncher {}

/// The state after what was to be done in `state` came to `result`.
pub open spec fn launched(state: LaunchState, result: Result<(), String>) -> LaunchState {
    if state is Stopped {
        state
    } else {
        match result {
            Err(e) => LaunchState::Stopped(Some(e)),
            Ok(_) => match state {
                LaunchState::ReadConfig => LaunchState::ScheduleJobs,
                LaunchState::ScheduleJobs => LaunchState::StartClient,
                LaunchState::StartClient => LaunchState::BuildContext,
                LaunchState::BuildContext => LaunchState::RunServices,
                _ => LaunchState::Stopped(None),
            },
        }
    }
}

/// The state after a series of results.
pub open spec fn launched_all(results: Seq<Result<(), String>>) -> LaunchState
    decreases results.len(),
{
    if results.len() == 0 {
        LaunchState::ReadConfig
    } else {
        launched(launched_all(results.drop_last()), results.last())
    }
}

impl DaemonLauncher {
    /// The first thing to be done.
    pub fn start() -> (r: LaunchState)
        ensures
            r == launched_all(Seq::empty()),
    {
        LaunchState::ReadConfig
    }

    /// What is to be done next, after what was to be done in `state` came to `result`.
    pub fn advance(state: LaunchState, result: Result<(), String>) -> (r: LaunchState)
        ensures
            r == launched(state, result),
    {
        match state {
            LaunchState::Stopped(e) => LaunchState::Stopped(e),
            _ => match result {
                Err(e) => LaunchState::Stopped(Some(e)),
                Ok(_) => match state {
                    LaunchState::ReadConfig => LaunchState::ScheduleJobs,
                    LaunchState::ScheduleJobs => LaunchState::StartClient,
                    LaunchState::StartClient => LaunchState::BuildContext,
                    LaunchState::BuildContext => LaunchState::RunServices,
                    _ => LaunchState::Stopped(None),
                },
            },
        }
    }

    /// The network that the Pubky client is to talk to.
    pub fn client_network(net: &NetConfig) -> (r: ClientNetwork)
        ensures
            match r {
                ClientNetwork::Testnet(host) => net.testnet && host@ == net.testnet_host@,
                ClientNetwork::Mainnet => !net.testnet,
            },
    {
        match net.pubky_client_testnet_host() {
            Some(host) => ClientNetwork::Testnet(host.to_owned()),
            None => ClientNetwork::Mainnet,
        }
    }
}

/// Services only run once the config was read, the jobs were validated, the client was started
/// and the context was built: a bad schedule fails before any service starts.
pub proof fn law_services_run_last(results: Seq<Result<(), String>>)
    ensures
        launched_all(results) is RunServices <==> results.len() == 4 && forall|i: int|
            0 <= i < 4 ==> (#[trigger] results[i]) is Ok,
{
    reveal_with_fuel(launched_all, 6);
    if results.len() >= 5 {
        lemma_stopped_after_five(results);
    }
    if results.len() == 4 {
        let r3 = results.drop_last();
        let r2 = r3.drop_last();
        let r1 = r2.drop_last();
        assert(r1[0] == results[0] && r2[1] == results[1] && r3[2] == results[2]);
        assert(r1.drop_last().len() == 0);
    }
}

/// Nothing is left to be done after five results.
proof fn lemma_stopped_after_five(results: Seq<Result<(), String>>)
    requires
        results.len() >= 5,
    ensures
        launched_all(results) is Stopped,
    decreases results.len(),
{
    if results.len() > 5 {
        lemma_stopped_after_five(results.drop_last());
    } else {
        reveal_with_fuel(launched_all, 6);
        let r4 = results.drop_last();
        let r3 = r4.drop_last();
        let r2 = r3.drop_last();
        let r1 = r2.drop_last();
        assert(r1.drop_last().len() == 0);
        assert(r1.len() == 1 && r2.len() == 2 && r3.len() == 3);
    }
}

/// A failure ends the start, and what ended it stays known.
pub proof fn law_failure_stops_the_start(
    results: Seq<Result<(), String>>,
    e: String,
    later: Result<(), String>,
)
    requires
        !(launched_all(results) is Stopped),
    ensures
        launched(launched_all(results), Err(e)) == LaunchState::Stopped(Some(e)),
        launched(launched(launched_all(results), Err(e)), later) == LaunchState::Stopped(Some(e)),
{
}

} // verus!
