use vstd::prelude::*;

use crate::containers::bitcoin_container::{self, BitcoinContainerConfig};
use crate::containers::local_validator_container::{self, LocalValidatorContainerConfig};
use crate::containers::titan_container::{self, TitanContainerConfig};
use crate::containers::{instance_name, make_instance_name};

verus! {

/// Hard ceiling on the setup budget (two minutes).
pub const MAX_SETUP_TIMEOUT_MS: u64 = 120_000;
/// Hard ceiling on the test budget (five minutes).
pub const MAX_TEST_TIMEOUT_MS: u64 = 300_000;
/// Default budget for starting and syncing all services.
pub const DEFAULT_SETUP_TIMEOUT_MS: u64 = 15_000;
/// Default budget for the test routine.
pub const DEFAULT_TEST_TIMEOUT_MS: u64 = 30_000;

/// A caller-requested budget after it has been held to its ceiling.
#[derive(Debug, Clone, Copy, PartialEq, Eq, Structural)]
pub struct Clamped {
    /// The budget that is actually used, in milliseconds.
    pub effective_ms: u64,
    /// Whether the request exceeded the ceiling (and a warning is due).
    pub clamped: bool,
}

/// The budget used for a request: the request itself, or the ceiling when it is exceeded.
pub open spec fn clamp_spec(requested_ms: u64, ceiling_ms: u64) -> Clamped {
    if requested_ms > ceiling_ms {
        Clamped { effective_ms: ceiling_ms, clamped: true }
    } else {
        Clamped { effective_ms: requested_ms, clamped: false }
    }
}

/// Holds a requested budget to its ceiling.
pub fn effective_timeout(requested_ms: u64, ceiling_ms: u64) -> (r: Clamped)
    ensures
        r == clamp_spec(requested_ms, ceiling_ms),
{
    if requested_ms > ceiling_ms {
        Clamped { effective_ms: ceiling_ms, clamped: true }
    } else {
        Clamped { effective_ms: requested_ms, clamped: false }
    }
}

/// A budget above its ceiling is replaced by the ceiling, never used as requested,
/// and the replacement is flagged; a budget within it is used unchanged, unflagged.
pub proof fn lemma_clamp_never_exceeds_ceiling(requested_ms: u64, ceiling_ms: u64)
    ensures
        clamp_spec(requested_ms, ceiling_ms).effective_ms <= ceiling_ms,
        requested_ms > ceiling_ms ==> clamp_spec(requested_ms, ceiling_ms).effective_ms
            == ceiling_ms && clamp_spec(requested_ms, ceiling_ms).clamped,
        requested_ms <= ceiling_ms ==> clamp_spec(requested_ms, ceiling_ms).effective_ms
            == requested_ms && !clamp_spec(requested_ms, ceiling_ms).clamped,
{
}

/// Configuration of one harness run: images, ports and the two budgets.
#[derive(Debug, Clone)]
pub struct TestRunnerConfig {
    pub bitcoin_image_name: String,
    pub bitcoin_image_tag: String,
    pub titan_image_name: String,
    pub titan_image_tag: String,
    pub validator_image_name: String,
    pub validator_image_tag: String,
    /// Requested setup budget, in milliseconds; held to `MAX_SETUP_TIMEOUT_MS`.
    pub setup_timeout_ms: u64,
    /// Requested test budget, in milliseconds; held to `MAX_TEST_TIMEOUT_MS`.
    pub test_timeout_ms: u64,
    pub bitcoin_rpc_port: u16,
    pub titan_http_port: u16,
    pub titan_tcp_port: u16,
    pub validator_rpc_port: u16,
    pub validator_websocket_port: u16,
    /// Identity of this run, appended to every container name; empty keeps the
    /// fixed default names.
    pub run_id: String,
}

impl TestRunnerConfig {
    /// The default configuration: every service's default image and ports, and the
    /// default budgets.
    pub fn new() -> (r: Self)
        ensures
            r.bitcoin_image_name@ == bitcoin_container::DEFAULT_IMAGE_NAME@,
            r.bitcoin_image_tag@ == bitcoin_container::DEFAULT_IMAGE_TAG@,
            r.bitcoin_rpc_port == bitcoin_container::DEFAULT_RPC_PORT,
            r.titan_image_name@ == titan_container::DEFAULT_IMAGE_NAME@,
            r.titan_image_tag@ == titan_container::DEFAULT_IMAGE_TAG@,
            r.titan_http_port == titan_container::DEFAULT_HTTP_PORT,
            r.titan_tcp_port == titan_container::DEFAULT_TCP_PORT,
            r.validator_image_name@ == local_validator_container::DEFAULT_IMAGE_NAME@,
            r.validator_image_tag@ == local_validator_container::DEFAULT_IMAGE_TAG@,
            r.validator_rpc_port == local_validator_container::DEFAULT_RPC_PORT,
            r.validator_websocket_port == local_validator_container::DEFAULT_WEBSOCKET_PORT,
            r.setup_timeout_ms == DEFAULT_SETUP_TIMEOUT_MS,
            r.test_timeout_ms == DEFAULT_TEST_TIMEOUT_MS,
            r.run_id@ == Seq::<char>::empty(),
    {
        let default_bitcoin_config = BitcoinContainerConfig::default();
        let default_titan_config = TitanContainerConfig::default();
        let default_validator_config = LocalValidatorContainerConfig::default();
        TestRunnerConfig {
            bitcoin_image_name: default_bitcoin_config.image_name,
            bitcoin_image_tag: default_bitcoin_config.image_tag,
            bitcoin_rpc_port: default_bitcoin_config.rpc_port,
            titan_http_port: default_titan_config.http_port,
            titan_image_name: default_titan_config.image_name,
            titan_image_tag: default_titan_config.image_tag,
            titan_tcp_port: default_titan_config.tcp_port,
            validator_image_name: default_validator_config.image_name,
            validator_image_tag: default_validator_config.image_tag,
            validator_rpc_port: default_validator_config.rpc_port,
            validator_websocket_port: default_validator_config.websocket_port,
            setup_timeout_ms: DEFAULT_SETUP_TIMEOUT_MS,
            test_timeout_ms: DEFAULT_TEST_TIMEOUT_MS,
            run_id: String::new(),
        }
    }

    /// The setup budget actually used.
    pub fn effective_setup_timeout(&self) -> (r: Clamped)
        ensures
            r == clamp_spec(self.setup_timeout_ms, MAX_SETUP_TIMEOUT_MS),
    {
        effective_timeout(self.setup_timeout_ms, MAX_SETUP_TIMEOUT_MS)
    }

    /// The test budget actually used.
    pub fn effective_test_timeout(&self) -> (r: Clamped)
        ensures
            r == clamp_spec(self.test_timeout_ms, MAX_TEST_TIMEOUT_MS),
    {
        effective_timeout(self.test_timeout_ms, MAX_TEST_TIMEOUT_MS)
    }
}

impl BitcoinContainerConfig {
    /// The ledger-source configuration of a run: the run's image and RPC port, the
    /// default credentials and P2P port, and the run's setup budget as startup budget.
    pub fn from_runner_config(config: &TestRunnerConfig) -> (r: Self)
        ensures
            r.container_name@ == instance_name(
                bitcoin_container::DEFAULT_CONTAINER_NAME@,
                config.run_id@,
            ),
            r.image_name@ == config.bitcoin_image_name@,
            r.image_tag@ == config.bitcoin_image_tag@,
            r.rpc_port == config.bitcoin_rpc_port,
            r.rpc_user@ == bitcoin_container::DEFAULT_RPC_USER@,
            r.rpc_password@ == bitcoin_container::DEFAULT_RPC_PASSWORD@,
            r.tcp_port == bitcoin_container::DEFAULT_TCP_PORT,
            r.startup_timeout_ms == config.setup_timeout_ms,
    {
        let default_bitcoin_config = BitcoinContainerConfig::default();
        BitcoinContainerConfig {
            container_name: make_instance_name(bitcoin_container::DEFAULT_CONTAINER_NAME, &config.run_id),
            image_name: config.bitcoin_image_name.clone(),
            image_tag: config.bitcoin_image_tag.clone(),
            rpc_port: config.bitcoin_rpc_port,
            rpc_user: default_bitcoin_config.rpc_user,
            rpc_password: default_bitcoin_config.rpc_password,
            tcp_port: default_bitcoin_config.tcp_port,
            startup_timeout_ms: config.setup_timeout_ms,
        }
    }
}

impl TitanContainerConfig {
    /// The indexer configuration of a run: the run's image and ports, and the run's
    /// setup budget as startup budget.
    pub fn from_runner_config(config: &TestRunnerConfig) -> (r: Self)
        ensures
            r.container_name@ == instance_name(
                titan_container::DEFAULT_CONTAINER_NAME@,
                config.run_id@,
            ),
            r.image_name@ == config.titan_image_name@,
            r.image_tag@ == config.titan_image_tag@,
            r.http_port == config.titan_http_port,
            r.tcp_port == config.titan_tcp_port,
            r.startup_timeout_ms == config.setup_timeout_ms,
    {
        TitanContainerConfig {
            container_name: make_instance_name(titan_container::DEFAULT_CONTAINER_NAME, &config.run_id),
            image_name: config.titan_image_name.clone(),
            image_tag: config.titan_image_tag.clone(),
            http_port: config.titan_http_port,
            tcp_port: config.titan_tcp_port,
            startup_timeout_ms: config.setup_timeout_ms,
        }
    }
}

impl LocalValidatorContainerConfig {
    /// The validator configuration of a run: the run's image and ports, and the run's
    /// setup budget as startup budget.
    pub fn from_runner_config(config: &TestRunnerConfig) -> (r: Self)
        ensures
            r.container_name@ == instance_name(
                local_validator_container::DEFAULT_CONTAINER_NAME@,
                config.run_id@,
            ),
            r.image_name@ == config.validator_image_name@,
            r.image_tag@ == config.validator_image_tag@,
            r.rpc_port == config.validator_rpc_port,
            r.websocket_port == config.validator_websocket_port,
            r.startup_timeout_ms == config.setup_timeout_ms,
    {
        LocalValidatorContainerConfig {
            container_name: make_instance_name(
                local_validator_container::DEFAULT_CONTAINER_NAME,
                &config.run_id,
            ),
            image_name: config.validator_image_name.clone(),
            image_tag: config.validator_image_tag.clone(),
            rpc_port: config.validator_rpc_port,
            websocket_port: config.validator_websocket_port,
            startup_timeout_ms: config.setup_timeout_ms,
        }
    }
}

} // verus!
