//! Endpoints and the proof backend of a benchmark run.

use crate::outside;
use vstd::prelude::*;

verus! {

/// An absolute URL, held as its serialization.
#[derive(Debug, PartialEq, Eq)]
pub struct RpcUrl {
    text: String,
}

impl RpcUrl {
    /// The serialization of the URL.
    pub closed spec fn view(&self) -> Seq<char> {
        self.text@
    }

    /// The URL is what some input parses to.
    #[verifier::type_invariant]
    spec fn parsed(self) -> bool {
        exists|input: Seq<char>| #[trigger]
            outside::parsed_url(input) == Ok::<Seq<char>, Seq<char>>(self.text@)
    }

    /// Parses an absolute URL. On failure the text says what is wrong with it.
    pub fn parse(input: &str) -> (r: Result<RpcUrl, String>)
        ensures
            match r {
                Ok(url) => outside::parsed_url(input@) == Ok::<Seq<char>, Seq<char>>(url@),
                Err(reason) => outside::parsed_url(input@) == Err::<Seq<char>, Seq<char>>(reason@),
            },
    {
        match outside::parse_url(input) {
            Ok(text) => Ok(RpcUrl { text }),
            Err(reason) => Err(reason),
        }
    }

    /// The serialization of the URL.
    pub fn as_str(&self) -> (r: &str)
        ensures
            r@ == self@,
    {
        self.text.as_str()
    }
}

impl Clone for RpcUrl {
    fn clone(&self) -> (r: Self)
        ensures
            r == *self,
    {
        proof {
            use_type_invariant(self);
        }
        RpcUrl { text: self.text.clone() }
    }
}

/// ZK proof backend mode.
#[derive(Clone, Copy, Debug, PartialEq, Eq, Structural)]
pub enum ZkBenchMode {
    /// Dry-run local proof backend.
    DryRun,
    /// Cluster proof backend.
    Cluster,
}

impl ZkBenchMode {
    /// The mode where none is named.
    pub open spec fn unnamed() -> Self {
        ZkBenchMode::DryRun
    }
}

impl Default for ZkBenchMode {
    /// The dry-run backend.
    fn default() -> (r: Self)
        ensures
            r == ZkBenchMode::unnamed(),
    {
        ZkBenchMode::DryRun
    }
}

/// Runtime configuration for proving a completed load-test run.
#[derive(Debug, PartialEq, Eq)]
pub struct ZkBenchConfig {
    /// Proof backend mode.
    pub mode: ZkBenchMode,
    /// Rollup node RPC URL.
    pub rollup_rpc_url: RpcUrl,
    /// ZK prover RPC URL.
    pub prover_url: RpcUrl,
}

impl ZkBenchConfig {
    /// The config of endpoint URLs and proof mode.
    pub open spec fn made(rollup_rpc_url: RpcUrl, prover_url: RpcUrl, mode: ZkBenchMode) -> Self {
        ZkBenchConfig { mode, rollup_rpc_url, prover_url }
    }

    /// Builds ZK bench config from endpoint URLs and proof mode.
    pub fn new(rollup_rpc_url: RpcUrl, prover_url: RpcUrl, mode: ZkBenchMode) -> (r: Self)
        ensures
            r == Self::made(rollup_rpc_url, prover_url, mode),
    {
        ZkBenchConfig { mode, rollup_rpc_url, prover_url }
    }
}

impl Clone for ZkBenchConfig {
    fn clone(&self) -> (r: Self)
        ensures
            r == *self,
    {
        ZkBenchConfig {
            mode: self.mode,
            rollup_rpc_url: self.rollup_rpc_url.clone(),
            prover_url: self.prover_url.clone(),
        }
    }
}

} // verus!
