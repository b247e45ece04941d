//! The execution environment record handed through verbatim to the
//! engine: protocol ruleset, chain parameters, and block context.

use vstd::prelude::*;

verus! {

/// The protocol ruleset the engine applies.
#[derive(Clone, Copy, PartialEq, Eq, Structural, Debug)]
pub enum SpecId {
    Frontier,
    Homestead,
    Byzantium,
    Istanbul,
    Berlin,
    London,
    Latest,
}

impl SpecId {
    /// The default ruleset: the newest one.
    pub open spec fn default_spec() -> SpecId {
        SpecId::Latest
    }
}

impl Default for SpecId {
    /// The newest ruleset.
    fn default() -> (r: SpecId)
        ensures
            r == SpecId::default_spec(),
    {
        SpecId::Latest
    }
}

/// Chain-wide configuration.
#[derive(Clone, Copy, PartialEq, Eq, Structural, Debug)]
pub struct CfgEnv {
    pub chain_id: u64,
    pub spec_id: SpecId,
}

impl CfgEnv {
    /// The default chain configuration: mainnet chain id, newest ruleset.
    pub open spec fn default_spec() -> CfgEnv {
        CfgEnv { chain_id: 1, spec_id: SpecId::default_spec() }
    }
}

impl Default for CfgEnv {
    /// Mainnet chain id, newest ruleset.
    fn default() -> (r: CfgEnv)
        ensures
            r == CfgEnv::default_spec(),
    {
        CfgEnv { chain_id: 1, spec_id: SpecId::Latest }
    }
}

/// The block context a simulation runs under.
#[derive(Clone, Copy, PartialEq, Eq, Structural, Debug)]
pub struct BlockEnv {
    pub number: u64,
    pub timestamp: u64,
    pub gas_limit: u64,
}

impl BlockEnv {
    /// The default block context: block zero with an unbounded gas limit.
    pub open spec fn default_spec() -> BlockEnv {
        BlockEnv { number: 0, timestamp: 0, gas_limit: 0xffff_ffff_ffff_ffff }
    }
}

impl Default for BlockEnv {
    /// Block zero with an unbounded gas limit.
    fn default() -> (r: BlockEnv)
        ensures
            r == BlockEnv::default_spec(),
    {
        BlockEnv { number: 0, timestamp: 0, gas_limit: 0xffff_ffff_ffff_ffff }
    }
}

/// The execution environment configuration.
#[derive(Clone, Copy, PartialEq, Eq, Structural, Debug)]
pub struct Env {
    pub cfg: CfgEnv,
    pub block: BlockEnv,
}

impl Env {
    /// The default environment.
    pub open spec fn default_spec() -> Env {
        Env { cfg: CfgEnv::default_spec(), block: BlockEnv::default_spec() }
    }
}

impl Default for Env {
    /// The default chain configuration and block context.
    fn default() -> (r: Env)
        ensures
            r == Env::default_spec(),
    {
        Env { cfg: CfgEnv::default(), block: BlockEnv::default() }
    }
}

} // verus!
