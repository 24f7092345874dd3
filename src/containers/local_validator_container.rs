use vstd::prelude::*;

use super::titan_container::TitanContainerConfig;
use super::{env_texts, env_var, prefixed, texts, LaunchPlan};
use crate::endpoint::{decimal, text_with_port};

verus! {

pub const DEFAULT_CONTAINER_NAME: &'static str = "arch-testing-local-validator-container";
pub const DEFAULT_IMAGE_NAME: &'static str = "ghcr.io/arch-network/local_validator";
pub const DEFAULT_IMAGE_TAG: &'static str = "0.5.8";
pub const DEFAULT_RPC_PORT: u16 = 9002;
pub const DEFAULT_WEBSOCKET_PORT: u16 = 29002;
pub const DEFAULT_STARTUP_TIMEOUT_MS: u64 = 60_000;

/// Configuration of the validator service.
#[derive(Debug, Clone)]
pub struct LocalValidatorContainerConfig {
    pub container_name: String,
    pub image_name: String,
    pub image_tag: String,
    pub rpc_port: u16,
    pub websocket_port: u16,
    pub startup_timeout_ms: u64,
}

/// The validator's command line: its RPC binding and the indexer's peer-visible
/// HTTP and socket endpoints.
pub open spec fn validator_cmd(rpc_port: u16, titan: TitanContainerConfig) -> Seq<Seq<char>> {
    seq![
        "/bin/local_validator"@,
        "--network-mode=localnet"@,
        "--rpc-bind-ip=0.0.0.0"@,
        "--rpc-bind-port="@ + decimal(rpc_port as nat),
        "--titan-endpoint="@ + ("http://host.docker.internal:"@ + decimal(titan.http_port as nat)),
        "--titan-socket-endpoint="@ + ("host.docker.internal:"@ + decimal(titan.tcp_port as nat)),
    ]
}

impl LocalValidatorContainerConfig {
    /// RPC endpoint as seen from the harness process.
    pub fn local_network_rpc_url(&self) -> (r: String)
        ensures
            r@ == "http://127.0.0.1:"@ + decimal(self.rpc_port as nat),
    {
        text_with_port("http://127.0.0.1:", self.rpc_port)
    }

    /// Websocket endpoint as seen from the harness process.
    pub fn local_network_websocket_url(&self) -> (r: String)
        ensures
            r@ == "ws://127.0.0.1:"@ + decimal(self.websocket_port as nat),
    {
        text_with_port("ws://127.0.0.1:", self.websocket_port)
    }

    /// RPC endpoint as seen from sibling containers.
    pub fn docker_network_rpc_url(&self) -> (r: String)
        ensures
            r@ == "http://host.docker.internal:"@ + decimal(self.rpc_port as nat),
    {
        text_with_port("http://host.docker.internal:", self.rpc_port)
    }

    /// Websocket endpoint as seen from sibling containers.
    pub fn docker_network_websocket_url(&self) -> (r: String)
        ensures
            r@ == "ws://host.docker.internal:"@ + decimal(self.websocket_port as nat),
    {
        text_with_port("ws://host.docker.internal:", self.websocket_port)
    }

    /// What the launcher needs to start the validator against the given indexer.
    pub fn launch_plan(&self, titan: &TitanContainerConfig) -> (r: LaunchPlan)
        ensures
            r.container_name@ == self.container_name@,
            r.image_name@ == self.image_name@,
            r.image_tag@ == self.image_tag@,
            r.ports@ == seq![self.rpc_port, self.websocket_port],
            env_texts(r.env@) == seq![("RUST_BACKTRACE"@, "full"@)],
            texts(r.cmd@) == validator_cmd(self.rpc_port, *titan),
            r.wait_for_stdout.is_none(),
            r.startup_timeout_ms == self.startup_timeout_ms,
    {
        let titan_endpoint = titan.docker_network_http_url();
        let titan_socket_endpoint = titan.docker_network_tcp_address();
        let cmd: Vec<String> = vec![
            String::from_str("/bin/local_validator"),
            String::from_str("--network-mode=localnet"),
            String::from_str("--rpc-bind-ip=0.0.0.0"),
            text_with_port("--rpc-bind-port=", self.rpc_port),
            prefixed("--titan-endpoint=", &titan_endpoint),
            prefixed("--titan-socket-endpoint=", &titan_socket_endpoint),
        ];
        let r = LaunchPlan {
            container_name: self.container_name.clone(),
            image_name: self.image_name.clone(),
            image_tag: self.image_tag.clone(),
            ports: vec![self.rpc_port, self.websocket_port],
            env: vec![env_var("RUST_BACKTRACE", "full")],
            cmd,
            wait_for_stdout: None,
            startup_timeout_ms: self.startup_timeout_ms,
        };
        assert(r.ports@ =~= seq![self.rpc_port, self.websocket_port]);
        assert(env_texts(r.env@) =~= seq![("RUST_BACKTRACE"@, "full"@)]);
        assert(texts(r.cmd@) =~= validator_cmd(self.rpc_port, *titan));
        r
    }
}

impl Default for LocalValidatorContainerConfig {
    fn default() -> (r: Self)
        ensures
            r.container_name@ == DEFAULT_CONTAINER_NAME@,
            r.image_name@ == DEFAULT_IMAGE_NAME@,
            r.image_tag@ == DEFAULT_IMAGE_TAG@,
            r.rpc_port == DEFAULT_RPC_PORT,
            r.websocket_port == DEFAULT_WEBSOCKET_PORT,
            r.startup_timeout_ms == DEFAULT_STARTUP_TIMEOUT_MS,
    {
        LocalValidatorContainerConfig {
            container_name: String::from_str(DEFAULT_CONTAINER_NAME),
            image_name: String::from_str(DEFAULT_IMAGE_NAME),
            image_tag: String::from_str(DEFAULT_IMAGE_TAG),
            rpc_port: DEFAULT_RPC_PORT,
            websocket_port: DEFAULT_WEBSOCKET_PORT,
            startup_timeout_ms: DEFAULT_STARTUP_TIMEOUT_MS,
        }
    }
}

} // verus!
