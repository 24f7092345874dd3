use arch_testing::{
    bitcoin_container, effective_timeout, local_validator_container, titan_container,
    BitcoinContainerConfig, Clamped, LocalValidatorContainerConfig, TestRunnerConfig,
    TitanContainerConfig, MAX_SETUP_TIMEOUT_MS, MAX_TEST_TIMEOUT_MS,
};

#[test]
fn clamp_within_ceiling_is_unchanged() {
    assert_eq!(effective_timeout(1, 2), Clamped { effective_ms: 1, clamped: false });
    assert_eq!(effective_timeout(2, 2), Clamped { effective_ms: 2, clamped: false });
}

#[test]
fn clamp_above_ceiling_uses_ceiling() {
    assert_eq!(effective_timeout(5, 2), Clamped { effective_ms: 2, clamped: true });
    assert_eq!(effective_timeout(u64::MAX, 0), Clamped { effective_ms: 0, clamped: true });
}

#[test]
fn runner_budgets_are_held_to_their_ceilings() {
    let mut config = TestRunnerConfig::new();
    assert_eq!(config.effective_setup_timeout(), Clamped { effective_ms: 15_000, clamped: false });
    assert_eq!(config.effective_test_timeout(), Clamped { effective_ms: 30_000, clamped: false });
    config.setup_timeout_ms = 600_000;
    config.test_timeout_ms = 600_000;
    assert_eq!(
        config.effective_setup_timeout(),
        Clamped { effective_ms: MAX_SETUP_TIMEOUT_MS, clamped: true }
    );
    assert_eq!(
        config.effective_test_timeout(),
        Clamped { effective_ms: MAX_TEST_TIMEOUT_MS, clamped: true }
    );
    assert_eq!(MAX_SETUP_TIMEOUT_MS, 120_000);
    assert_eq!(MAX_TEST_TIMEOUT_MS, 300_000);
}

#[test]
fn runner_defaults() {
    let c = TestRunnerConfig::new();
    assert_eq!(c.bitcoin_image_name, "bitcoin/bitcoin");
    assert_eq!(c.bitcoin_image_tag, "29.0");
    assert_eq!(c.bitcoin_rpc_port, 18443);
    assert_eq!(c.titan_image_name, "ghcr.io/saturnbtc/titan");
    assert_eq!(c.titan_image_tag, "latest");
    assert_eq!(c.titan_http_port, 3030);
    assert_eq!(c.titan_tcp_port, 8080);
    assert_eq!(c.validator_image_name, "ghcr.io/arch-network/local_validator");
    assert_eq!(c.validator_image_tag, "0.5.8");
    assert_eq!(c.validator_rpc_port, 9002);
    assert_eq!(c.validator_websocket_port, 29002);
    assert_eq!(c.setup_timeout_ms, 15_000);
    assert_eq!(c.test_timeout_ms, 30_000);
    assert_eq!(c.run_id, "");
}

#[test]
fn service_configs_from_runner_config() {
    let mut c = TestRunnerConfig::new();
    c.bitcoin_image_tag = String::from("28.1");
    c.setup_timeout_ms = 7;
    let b = BitcoinContainerConfig::from_runner_config(&c);
    assert_eq!(b.container_name, bitcoin_container::DEFAULT_CONTAINER_NAME);
    assert_eq!(b.image_tag, "28.1");
    assert_eq!(b.rpc_user, "bitcoind_username");
    assert_eq!(b.rpc_password, "bitcoind_password");
    assert_eq!(b.tcp_port, 18444);
    assert_eq!(b.startup_timeout_ms, 7);
    let t = TitanContainerConfig::from_runner_config(&c);
    assert_eq!(t.container_name, titan_container::DEFAULT_CONTAINER_NAME);
    assert_eq!(t.startup_timeout_ms, 7);
    let v = LocalValidatorContainerConfig::from_runner_config(&c);
    assert_eq!(v.container_name, local_validator_container::DEFAULT_CONTAINER_NAME);
    assert_eq!(v.startup_timeout_ms, 7);
}

#[test]
fn run_id_makes_container_names_unique() {
    let mut c = TestRunnerConfig::new();
    c.run_id = String::from("r42");
    assert_eq!(
        BitcoinContainerConfig::from_runner_config(&c).container_name,
        "arch-testing-bitcoin-container-r42"
    );
    assert_eq!(
        TitanContainerConfig::from_runner_config(&c).container_name,
        "arch-testing-titan-container-r42"
    );
    assert_eq!(
        LocalValidatorContainerConfig::from_runner_config(&c).container_name,
        "arch-testing-local-validator-container-r42"
    );
}
