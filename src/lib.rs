//! Provisioning harness for an ephemeral ledger-source / indexer / validator fleet.
//!
//! The library holds the configuration values, the launch plans of the three
//! services, the readiness-probe decisions and the lifecycle state machine that
//! sequences setup, test and teardown. Performing the actions it asks for (starting
//! containers, probing clients, sleeping) is left to the caller.
pub mod containers;
pub mod endpoint;
pub mod lifecycle;
pub mod readiness;
pub mod test_config;

pub use containers::bitcoin_container::BitcoinContainerConfig;
pub use containers::local_validator_container::LocalValidatorContainerConfig;
pub use containers::titan_container::TitanContainerConfig;
pub use containers::{bitcoin_container, local_validator_container, titan_container, LaunchPlan};
pub use lifecycle::{Action, Event, Failure, Lifecycle, Phase, ServiceKind, TeardownError};
pub use readiness::{next_probe_step, ProbeStep, ReadinessProber, ReadinessTimeout};
pub use test_config::{
    effective_timeout, Clamped, TestRunnerConfig, DEFAULT_SETUP_TIMEOUT_MS,
    DEFAULT_TEST_TIMEOUT_MS, MAX_SETUP_TIMEOUT_MS, MAX_TEST_TIMEOUT_MS,
};
