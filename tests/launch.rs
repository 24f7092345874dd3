use arch_testing::{BitcoinContainerConfig, LocalValidatorContainerConfig, TitanContainerConfig};

fn pairs(env: &[(String, String)]) -> Vec<(&str, &str)> {
    env.iter().map(|(a, b)| (a.as_str(), b.as_str())).collect()
}

#[test]
fn bitcoin_launch_plan() {
    let c = BitcoinContainerConfig::default();
    let p = c.launch_plan();
    assert_eq!(p.container_name, "arch-testing-bitcoin-container");
    assert_eq!(p.image_name, "bitcoin/bitcoin");
    assert_eq!(p.image_tag, "29.0");
    assert_eq!(p.ports, vec![18443]);
    assert_eq!(pairs(&p.env), vec![("BITCOIN_DATA", "/var/lib/bitcoin-core")]);
    assert_eq!(
        p.cmd,
        vec![
            "bitcoind",
            "-datadir=/var/lib/bitcoin-core",
            "-fallbackfee=0.00000001",
            "-printtoconsole",
            "-regtest=1",
            "-rpcallowip=0.0.0.0/0",
            "-rpcbind=0.0.0.0",
            "-rpcport=18443",
            "-rpcuser=bitcoind_username",
            "-rpcpassword=bitcoind_password",
        ]
    );
    assert!(p.wait_for_stdout.is_none());
    assert_eq!(p.startup_timeout_ms, 60_000);
}

#[test]
fn titan_launch_plan_points_at_ledger_source() {
    let b = BitcoinContainerConfig::default();
    let t = TitanContainerConfig::default();
    let p = t.launch_plan(&b);
    assert_eq!(p.ports, vec![8080, 3030]);
    assert_eq!(
        pairs(&p.env),
        vec![
            ("BITCOIN_RPC_PASSWORD", "bitcoind_password"),
            ("BITCOIN_RPC_URL", "http://host.docker.internal:18443"),
            ("BITCOIN_RPC_USERNAME", "bitcoind_username"),
            ("CHAIN", "regtest"),
            ("COMMIT_INTERVAL", "5"),
            ("HTTP_LISTEN", "0.0.0.0:3030"),
            ("RUST_BACKTRACE", "full"),
            ("TCP_ADDRESS", "0.0.0.0:8080"),
        ]
    );
    assert!(p.cmd.is_empty());
    assert_eq!(p.wait_for_stdout.as_deref(), Some("Synced to tip"));
    assert_eq!(p.image_name, "ghcr.io/saturnbtc/titan");
}

#[test]
fn validator_launch_plan_points_at_indexer() {
    let t = TitanContainerConfig::default();
    let v = LocalValidatorContainerConfig::default();
    let p = v.launch_plan(&t);
    assert_eq!(p.ports, vec![9002, 29002]);
    assert_eq!(pairs(&p.env), vec![("RUST_BACKTRACE", "full")]);
    assert_eq!(
        p.cmd,
        vec![
            "/bin/local_validator",
            "--network-mode=localnet",
            "--rpc-bind-ip=0.0.0.0",
            "--rpc-bind-port=9002",
            "--titan-endpoint=http://host.docker.internal:3030",
            "--titan-socket-endpoint=host.docker.internal:8080",
        ]
    );
    assert!(p.wait_for_stdout.is_none());
    assert_eq!(p.container_name, "arch-testing-local-validator-container");
}
