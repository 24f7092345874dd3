use vstd::prelude::*;

use super::{env_texts, env_var, prefixed, texts, LaunchPlan};
use crate::endpoint::{decimal, text_with_port};

verus! {

pub const DEFAULT_CONTAINER_NAME: &'static str = "arch-testing-bitcoin-container";
pub const DEFAULT_IMAGE_NAME: &'static str = "bitcoin/bitcoin";
pub const DEFAULT_IMAGE_TAG: &'static str = "29.0";
pub const DEFAULT_RPC_PORT: u16 = 18443;
pub const DEFAULT_STARTUP_TIMEOUT_MS: u64 = 60_000;
pub const DEFAULT_TCP_PORT: u16 = 18444;
pub const DEFAULT_RPC_USER: &'static str = "bitcoind_username";
pub const DEFAULT_RPC_PASSWORD: &'static str = "bitcoind_password";

/// Name of the wallet created and funded once the node is ready.
pub const FIXTURE_WALLET_NAME: &'static str = "testwallet";
/// Number of blocks mined to the fixture wallet, so that its first coinbase matures.
pub const FIXTURE_BLOCKS: u64 = 100;

/// Configuration of the ledger-source (bitcoind) service.
#[derive(Debug, Clone)]
pub struct BitcoinContainerConfig {
    pub container_name: String,
    pub image_name: String,
    pub image_tag: String,
    pub rpc_port: u16,
    pub rpc_user: String,
    pub rpc_password: String,
    pub tcp_port: u16,
    pub startup_timeout_ms: u64,
}

/// The command line that starts bitcoind for the given RPC port and credentials.
pub open spec fn bitcoin_cmd(rpc_port: u16, user: Seq<char>, password: Seq<char>) -> Seq<Seq<char>> {
    seq![
        "bitcoind"@,
        "-datadir=/var/lib/bitcoin-core"@,
        "-fallbackfee=0.00000001"@,
        "-printtoconsole"@,
        "-regtest=1"@,
        "-rpcallowip=0.0.0.0/0"@,
        "-rpcbind=0.0.0.0"@,
        "-rpcport="@ + decimal(rpc_port as nat),
        "-rpcuser="@ + user,
        "-rpcpassword="@ + password,
    ]
}

impl BitcoinContainerConfig {
    /// RPC endpoint as seen from sibling containers.
    pub fn docker_network_rpc_url(&self) -> (r: String)
        ensures
            r@ == "http://host.docker.internal:"@ + decimal(self.rpc_port as nat),
    {
        text_with_port("http://host.docker.internal:", self.rpc_port)
    }

    /// P2P endpoint as seen from sibling containers.
    pub fn docker_network_tcp_address(&self) -> (r: String)
        ensures
            r@ == "host.docker.internal:"@ + decimal(self.tcp_port as nat),
    {
        text_with_port("host.docker.internal:", self.tcp_port)
    }

    /// RPC endpoint as seen from the harness process.
    pub fn local_network_rpc_url(&self) -> (r: String)
        ensures
            r@ == "http://127.0.0.1:"@ + decimal(self.rpc_port as nat),
    {
        text_with_port("http://127.0.0.1:", self.rpc_port)
    }

    /// P2P endpoint as seen from the harness process.
    pub fn local_network_tcp_address(&self) -> (r: String)
        ensures
            r@ == "127.0.0.1:"@ + decimal(self.tcp_port as nat),
    {
        text_with_port("127.0.0.1:", self.tcp_port)
    }

    /// The bitcoind flag selecting the network: the harness always runs regtest.
    pub fn bitcoin_network_flag(&self) -> (r: &'static str)
        ensures
            r@ == "-regtest=1"@,
    {
        "-regtest=1"
    }

    /// What the launcher needs to start bitcoind for this configuration.
    pub fn launch_plan(&self) -> (r: LaunchPlan)
        ensures
            r.container_name@ == self.container_name@,
            r.image_name@ == self.image_name@,
            r.image_tag@ == self.image_tag@,
            r.ports@ == seq![self.rpc_port],
            env_texts(r.env@) == seq![("BITCOIN_DATA"@, "/var/lib/bitcoin-core"@)],
            texts(r.cmd@) == bitcoin_cmd(self.rpc_port, self.rpc_user@, self.rpc_password@),
            r.wait_for_stdout.is_none(),
            r.startup_timeout_ms == self.startup_timeout_ms,
    {
        let cmd: Vec<String> = vec![
            String::from_str("bitcoind"),
            String::from_str("-datadir=/var/lib/bitcoin-core"),
            String::from_str("-fallbackfee=0.00000001"),
            String::from_str("-printtoconsole"),
            String::from_str(self.bitcoin_network_flag()),
            String::from_str("-rpcallowip=0.0.0.0/0"),
            String::from_str("-rpcbind=0.0.0.0"),
            text_with_port("-rpcport=", self.rpc_port),
            prefixed("-rpcuser=", &self.rpc_user),
            prefixed("-rpcpassword=", &self.rpc_password),
        ];
        let env: Vec<(String, String)> = vec![env_var("BITCOIN_DATA", "/var/lib/bitcoin-core")];
        let r = LaunchPlan {
            container_name: self.container_name.clone(),
            image_name: self.image_name.clone(),
            image_tag: self.image_tag.clone(),
            ports: vec![self.rpc_port],
            env,
            cmd,
            wait_for_stdout: None,
            startup_timeout_ms: self.startup_timeout_ms,
        };
        assert(r.ports@ =~= seq![self.rpc_port]);
        assert(env_texts(r.env@) =~= seq![("BITCOIN_DATA"@, "/var/lib/bitcoin-core"@)]);
        assert(texts(r.cmd@) =~= bitcoin_cmd(self.rpc_port, self.rpc_user@, self.rpc_password@));
        r
    }
}

impl Default for BitcoinContainerConfig {
    fn default() -> (r: Self)
        ensures
            r.container_name@ == DEFAULT_CONTAINER_NAME@,
            r.image_name@ == DEFAULT_IMAGE_NAME@,
            r.image_tag@ == DEFAULT_IMAGE_TAG@,
            r.rpc_port == DEFAULT_RPC_PORT,
            r.rpc_user@ == DEFAULT_RPC_USER@,
            r.rpc_password@ == DEFAULT_RPC_PASSWORD@,
            r.tcp_port == DEFAULT_TCP_PORT,
            r.startup_timeout_ms == DEFAULT_STARTUP_TIMEOUT_MS,
    {
        BitcoinContainerConfig {
            container_name: String::from_str(DEFAULT_CONTAINER_NAME),
            image_name: String::from_str(DEFAULT_IMAGE_NAME),
            image_tag: String::from_str(DEFAULT_IMAGE_TAG),
            rpc_port: DEFAULT_RPC_PORT,
            rpc_user: String::from_str(DEFAULT_RPC_USER),
            rpc_password: String::from_str(DEFAULT_RPC_PASSWORD),
            tcp_port: DEFAULT_TCP_PORT,
            startup_timeout_ms: DEFAULT_STARTUP_TIMEOUT_MS,
        }
    }
}

} // verus!
