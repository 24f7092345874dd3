use arch_testing::endpoint::{append_decimal, text_with_port};
use arch_testing::{
    BitcoinContainerConfig, LocalValidatorContainerConfig, TestRunnerConfig, TitanContainerConfig,
};

#[test]
fn decimal_rendering_edges() {
    let mut s = String::from("p=");
    append_decimal(&mut s, 0);
    assert_eq!(s, "p=0");
    assert_eq!(text_with_port("", 65535), "65535");
    assert_eq!(text_with_port("x:", 10), "x:10");
    assert_eq!(text_with_port("x:", 9), "x:9");
}

#[test]
fn bitcoin_endpoints() {
    let c = BitcoinContainerConfig::default();
    assert_eq!(c.docker_network_rpc_url(), "http://host.docker.internal:18443");
    assert_eq!(c.docker_network_tcp_address(), "host.docker.internal:18444");
    assert_eq!(c.local_network_rpc_url(), "http://127.0.0.1:18443");
    assert_eq!(c.local_network_tcp_address(), "127.0.0.1:18444");
    assert_eq!(c.bitcoin_network_flag(), "-regtest=1");
}

#[test]
fn titan_endpoints() {
    let c = TitanContainerConfig::default();
    assert_eq!(c.local_network_http_url(), "http://127.0.0.1:3030");
    assert_eq!(c.local_network_tcp_address(), "127.0.0.1:8080");
    assert_eq!(c.docker_network_http_url(), "http://host.docker.internal:3030");
    assert_eq!(c.docker_network_tcp_address(), "host.docker.internal:8080");
    assert_eq!(c.docker_network_http_bind(), "0.0.0.0:3030");
    assert_eq!(c.docker_network_tcp_bind(), "0.0.0.0:8080");
    assert_eq!(c.titan_chain(), "regtest");
}

#[test]
fn validator_endpoints() {
    let c = LocalValidatorContainerConfig::default();
    assert_eq!(c.local_network_rpc_url(), "http://127.0.0.1:9002");
    assert_eq!(c.local_network_websocket_url(), "ws://127.0.0.1:29002");
    assert_eq!(c.docker_network_rpc_url(), "http://host.docker.internal:9002");
    assert_eq!(c.docker_network_websocket_url(), "ws://host.docker.internal:29002");
}

#[test]
fn endpoints_follow_configured_ports() {
    let mut config = TestRunnerConfig::new();
    config.bitcoin_rpc_port = 1;
    config.titan_http_port = 20;
    config.titan_tcp_port = 300;
    config.validator_rpc_port = 4000;
    config.validator_websocket_port = 50000;
    let b = BitcoinContainerConfig::from_runner_config(&config);
    let t = TitanContainerConfig::from_runner_config(&config);
    let v = LocalValidatorContainerConfig::from_runner_config(&config);
    assert_eq!(b.local_network_rpc_url(), "http://127.0.0.1:1");
    assert_eq!(t.docker_network_http_url(), "http://host.docker.internal:20");
    assert_eq!(t.docker_network_tcp_address(), "host.docker.internal:300");
    assert_eq!(v.local_network_rpc_url(), "http://127.0.0.1:4000");
    assert_eq!(v.docker_network_websocket_url(), "ws://host.docker.internal:50000");
}
