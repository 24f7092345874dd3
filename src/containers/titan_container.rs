use vstd::prelude::*;

use super::bitcoin_container::BitcoinContainerConfig;
use super::{env_texts, env_var, texts, LaunchPlan};
use crate::endpoint::{decimal, text_with_port};

verus! {

pub const DEFAULT_CONTAINER_NAME: &'static str = "arch-testing-titan-container";
pub const DEFAULT_IMAGE_NAME: &'static str = "ghcr.io/saturnbtc/titan";
pub const DEFAULT_IMAGE_TAG: &'static str = "latest";
/// HTTP API port.
pub const DEFAULT_HTTP_PORT: u16 = 3030;
/// TCP subscription port.
pub const DEFAULT_TCP_PORT: u16 = 8080;
pub const DEFAULT_STARTUP_TIMEOUT_MS: u64 = 60_000;
/// Printed by the indexer once it has caught up with the ledger source's tip.
pub const SYNCED_TO_TIP: &'static str = "Synced to tip";

/// Configuration of the indexer (titan) service.
#[derive(Debug, Clone)]
pub struct TitanContainerConfig {
    pub container_name: String,
    pub image_name: String,
    pub image_tag: String,
    pub http_port: u16,
    pub tcp_port: u16,
    pub startup_timeout_ms: u64,
}

/// The environment of the indexer: the ledger source's peer-visible RPC endpoint and
/// credentials, the chain, and the indexer's own listening addresses.
pub open spec fn titan_env(bitcoin: BitcoinContainerConfig, titan: TitanContainerConfig) -> Seq<
    (Seq<char>, Seq<char>),
> {
    seq![
        ("BITCOIN_RPC_PASSWORD"@, bitcoin.rpc_password@),
        ("BITCOIN_RPC_URL"@, "http://host.docker.internal:"@ + decimal(bitcoin.rpc_port as nat)),
        ("BITCOIN_RPC_USERNAME"@, bitcoin.rpc_user@),
        ("CHAIN"@, "regtest"@),
        ("COMMIT_INTERVAL"@, "5"@),
        ("HTTP_LISTEN"@, "0.0.0.0:"@ + decimal(titan.http_port as nat)),
        ("RUST_BACKTRACE"@, "full"@),
        ("TCP_ADDRESS"@, "0.0.0.0:"@ + decimal(titan.tcp_port as nat)),
    ]
}

impl TitanContainerConfig {
    /// HTTP API endpoint as seen from the harness process.
    pub fn local_network_http_url(&self) -> (r: String)
        ensures
            r@ == "http://127.0.0.1:"@ + decimal(self.http_port as nat),
    {
        text_with_port("http://127.0.0.1:", self.http_port)
    }

    /// TCP subscription endpoint as seen from the harness process.
    pub fn local_network_tcp_address(&self) -> (r: String)
        ensures
            r@ == "127.0.0.1:"@ + decimal(self.tcp_port as nat),
    {
        text_with_port("127.0.0.1:", self.tcp_port)
    }

    /// HTTP API endpoint as seen from sibling containers.
    pub fn docker_network_http_url(&self) -> (r: String)
        ensures
            r@ == "http://host.docker.internal:"@ + decimal(self.http_port as nat),
    {
        text_with_port("http://host.docker.internal:", self.http_port)
    }

    /// TCP subscription endpoint as seen from sibling containers.
    pub fn docker_network_tcp_address(&self) -> (r: String)
        ensures
            r@ == "host.docker.internal:"@ + decimal(self.tcp_port as nat),
    {
        text_with_port("host.docker.internal:", self.tcp_port)
    }

    /// Address the HTTP API binds to inside its container.
    pub fn docker_network_http_bind(&self) -> (r: String)
        ensures
            r@ == "0.0.0.0:"@ + decimal(self.http_port as nat),
    {
        text_with_port("0.0.0.0:", self.http_port)
    }

    /// Address the TCP subscription server binds to inside its container.
    pub fn docker_network_tcp_bind(&self) -> (r: String)
        ensures
            r@ == "0.0.0.0:"@ + decimal(self.tcp_port as nat),
    {
        text_with_port("0.0.0.0:", self.tcp_port)
    }

    /// The chain name the indexer follows: the harness always runs regtest.
    pub fn titan_chain(&self) -> (r: &'static str)
        ensures
            r@ == "regtest"@,
    {
        "regtest"
    }

    /// What the launcher needs to start the indexer against the given ledger source.
    pub fn launch_plan(&self, bitcoin: &BitcoinContainerConfig) -> (r: LaunchPlan)
        ensures
            r.container_name@ == self.container_name@,
            r.image_name@ == self.image_name@,
            r.image_tag@ == self.image_tag@,
            r.ports@ == seq![self.tcp_port, self.http_port],
            env_texts(r.env@) == titan_env(*bitcoin, *self),
            texts(r.cmd@) == Seq::<Seq<char>>::empty(),
            r.wait_for_stdout.is_some(),
            r.wait_for_stdout.unwrap()@ == SYNCED_TO_TIP@,
            r.startup_timeout_ms == self.startup_timeout_ms,
    {
        let env: Vec<(String, String)> = vec![
            (String::from_str("BITCOIN_RPC_PASSWORD"), bitcoin.rpc_password.clone()),
            (String::from_str("BITCOIN_RPC_URL"), bitcoin.docker_network_rpc_url()),
            (String::from_str("BITCOIN_RPC_USERNAME"), bitcoin.rpc_user.clone()),
            env_var("CHAIN", self.titan_chain()),
            env_var("COMMIT_INTERVAL", "5"),
            (String::from_str("HTTP_LISTEN"), self.docker_network_http_bind()),
            env_var("RUST_BACKTRACE", "full"),
            (String::from_str("TCP_ADDRESS"), self.docker_network_tcp_bind()),
        ];
        let r = LaunchPlan {
            container_name: self.container_name.clone(),
            image_name: self.image_name.clone(),
            image_tag: self.image_tag.clone(),
            ports: vec![self.tcp_port, self.http_port],
            env,
            cmd: Vec::new(),
            wait_for_stdout: Some(String::from_str(SYNCED_TO_TIP)),
            startup_timeout_ms: self.startup_timeout_ms,
        };
        assert(r.ports@ =~= seq![self.tcp_port, self.http_port]);
        assert(env_texts(r.env@) =~= titan_env(*bitcoin, *self));
        assert(texts(r.cmd@) =~= Seq::<Seq<char>>::empty());
        r
    }
}

impl Default for TitanContainerConfig {
    fn default() -> (r: Self)
        ensures
            r.container_name@ == DEFAULT_CONTAINER_NAME@,
            r.image_name@ == DEFAULT_IMAGE_NAME@,
            r.image_tag@ == DEFAULT_IMAGE_TAG@,
            r.http_port == DEFAULT_HTTP_PORT,
            r.tcp_port == DEFAULT_TCP_PORT,
            r.startup_timeout_ms == DEFAULT_STARTUP_TIMEOUT_MS,
    {
        TitanContainerConfig {
            container_name: String::from_str(DEFAULT_CONTAINER_NAME),
            image_name: String::from_str(DEFAULT_IMAGE_NAME),
            image_tag: String::from_str(DEFAULT_IMAGE_TAG),
            http_port: DEFAULT_HTTP_PORT,
            tcp_port: DEFAULT_TCP_PORT,
            startup_timeout_ms: DEFAULT_STARTUP_TIMEOUT_MS,
        }
    }
}

} // verus!
