//! The executor builder: accumulates optional configuration, then
//! finalizes it into a backend and a ready executor. Finalization
//! consumes the builder, so a builder cannot be reused.

use vstd::prelude::*;

use crate::backend::{pin_model, Backend, ConfigError};
use crate::environment::{CfgEnv, Env, SpecId};
use crate::fork::Fork;
use crate::mem_cache::CacheModel;
use crate::remote::endpoint_accepted;

verus! {

/// The configuration a builder has accumulated.
pub struct BuilderModel {
    pub cheatcodes: bool,
    pub ffi: bool,
    pub config: Env,
    pub fork: Option<Fork>,
}

/// The configuration a fresh builder starts from: no fork, cheatcodes
/// disabled, default environment.
pub open spec fn spec_new() -> BuilderModel {
    BuilderModel { cheatcodes: false, ffi: false, config: Env::default_spec(), fork: None }
}

/// What enabling cheatcodes does: turns them on and sets the FFI toggle
/// alongside them.
pub open spec fn spec_with_cheatcodes(m: BuilderModel, ffi: bool) -> BuilderModel {
    BuilderModel { cheatcodes: true, ffi: ffi, config: m.config, fork: m.fork }
}

/// What selecting a ruleset does: replaces the ruleset inside the
/// environment and nothing else.
pub open spec fn spec_with_spec(m: BuilderModel, spec_id: SpecId) -> BuilderModel {
    BuilderModel {
        cheatcodes: m.cheatcodes,
        ffi: m.ffi,
        config: Env {
            cfg: CfgEnv { chain_id: m.config.cfg.chain_id, spec_id: spec_id },
            block: m.config.block,
        },
        fork: m.fork,
    }
}

/// What configuring the environment does: replaces the whole record.
pub open spec fn spec_with_config(m: BuilderModel, config: Env) -> BuilderModel {
    BuilderModel { cheatcodes: m.cheatcodes, ffi: m.ffi, config: config, fork: m.fork }
}

/// What attaching a fork descriptor does: selects forked mode.
pub open spec fn spec_with_fork(m: BuilderModel, fork: Fork) -> BuilderModel {
    BuilderModel { cheatcodes: m.cheatcodes, ffi: m.ffi, config: m.config, fork: Some(fork) }
}

/// Staged configuration for an executor. Each operation consumes the
/// builder and hands it back with exactly one field changed; `build`
/// consumes it for good.
pub struct ExecutorBuilder {
    /// Whether or not cheatcodes are enabled
    cheatcodes: bool,
    /// Whether or not the FFI cheatcode is enabled
    ffi: bool,
    /// The execution environment configuration.
    config: Env,
    fork: Option<Fork>,
}

impl View for ExecutorBuilder {
    type V = BuilderModel;

    closed spec fn view(&self) -> BuilderModel {
        BuilderModel {
            cheatcodes: self.cheatcodes,
            ffi: self.ffi,
            config: self.config,
            fork: self.fork,
        }
    }
}

impl ExecutorBuilder {
    /// A builder with everything at its default.
    #[must_use]
    pub fn new() -> (r: Self)
        ensures
            r@ == spec_new(),
    {
        ExecutorBuilder { cheatcodes: false, ffi: false, config: Env::default(), fork: None }
    }

    /// Enables cheatcodes on the executor, setting the FFI toggle
    /// alongside them. This is the only operation that touches either
    /// toggle, and it always enables cheatcodes, so FFI cannot be
    /// enabled on its own.
    #[must_use]
    pub fn with_cheatcodes(self, ffi: bool) -> (r: Self)
        ensures
            r@ == spec_with_cheatcodes(self@, ffi),
    {
        ExecutorBuilder { cheatcodes: true, ffi: ffi, config: self.config, fork: self.fork }
    }

    /// Selects the protocol ruleset the engine should apply.
    #[must_use]
    pub fn with_spec(self, spec: SpecId) -> (r: Self)
        ensures
            r@ == spec_with_spec(self@, spec),
    {
        ExecutorBuilder {
            cheatcodes: self.cheatcodes,
            ffi: self.ffi,
            config: Env {
                cfg: CfgEnv { chain_id: self.config.cfg.chain_id, spec_id: spec },
                block: self.config.block,
            },
            fork: self.fork,
        }
    }

    /// Configure the execution environment (gas limit, chain spec, ...)
    #[must_use]
    pub fn with_config(self, config: Env) -> (r: Self)
        ensures
            r@ == spec_with_config(self@, config),
    {
        ExecutorBuilder { cheatcodes: self.cheatcodes, ffi: self.ffi, config: config, fork: self.fork }
    }

    /// Configure the executor's forking mode.
    #[must_use]
    pub fn with_fork(self, fork: Fork) -> (r: Self)
        ensures
            r@ == spec_with_fork(self@, fork),
    {
        ExecutorBuilder {
            cheatcodes: self.cheatcodes,
            ffi: self.ffi,
            config: self.config,
            fork: Some(fork),
        }
    }

    /// Whether cheatcodes are enabled.
    pub fn cheatcodes(&self) -> (r: bool)
        ensures
            r == self@.cheatcodes,
    {
        self.cheatcodes
    }

    /// Whether the FFI cheatcode is enabled.
    pub fn ffi(&self) -> (r: bool)
        ensures
            r == self@.ffi,
    {
        self.ffi
    }

    /// The accumulated environment record.
    pub fn config(&self) -> (r: Env)
        ensures
            r == self@.config,
    {
        self.config
    }

    /// The attached fork descriptor, if any.
    pub fn fork(&self) -> (r: &Option<Fork>)
        ensures
            *r == self@.fork,
    {
        &self.fork
    }

    /// Builds the executor as configured: decides the backend variant
    /// from the fork descriptor, wires it, and injects it with the
    /// environment. A refused fork endpoint is reported as a
    /// configuration error and no executor is produced — never a
    /// silently blank backend in place of the requested fork.
    pub fn build(self) -> (r: Result<Executor, ConfigError>)
        ensures
            (match self@.fork {
                Option::None => {
                    &&& r matches Ok(e)
                    &&& e.spec_backend() is Simple
                    &&& e.spec_config() == self@.config
                },
                Option::Some(f) => {
                    if endpoint_accepted(f.url@) {
                        &&& r matches Ok(e)
                        &&& e.spec_backend() matches Backend::Forked(inner)
                        &&& inner@.cache == CacheModel::empty_spec()
                        &&& inner@.pin_block == pin_model(f.pin_block)
                        &&& e.spec_config() == self@.config
                    } else {
                        r == Err::<Executor, ConfigError>(ConfigError::InvalidEndpoint)
                    }
                },
            }),
            r matches Ok(e) ==> e.wf(),
    {
        let db = match Backend::new(self.fork) {
            Ok(db) => db,
            Err(e) => {
                return Err(e);
            },
        };
        Ok(Executor::new(db, self.config))
    }
}

/// The ready execution engine value: the finalized backend injected
/// together with the accumulated environment. The engine owns both; the
/// builder's state has moved here and the builder is gone.
pub struct Executor {
    backend: Backend,
    config: Env,
}

impl Executor {
    /// The backend the engine queries.
    pub closed spec fn spec_backend(&self) -> Backend {
        self.backend
    }

    /// The environment the engine runs under.
    pub closed spec fn spec_config(&self) -> Env {
        self.config
    }

    /// The owned backend is well formed.
    pub open spec fn wf(&self) -> bool {
        self.spec_backend().wf()
    }

    /// Accepts the finalized backend and the environment record.
    pub fn new(db: Backend, config: Env) -> (r: Executor)
        requires
            db.wf(),
        ensures
            r.spec_backend() == db,
            r.spec_config() == config,
            r.wf(),
    {
        Executor { backend: db, config: config }
    }

    /// The backend, for issuing state queries.
    pub fn backend(&self) -> (r: &Backend)
        ensures
            *r == self.spec_backend(),
    {
        &self.backend
    }

    /// The environment record.
    pub fn config(&self) -> (r: Env)
        ensures
            r == self.spec_config(),
    {
        self.config
    }
}

/// Independent configuration operations commute: two operations that
/// touch different fields yield the same final configuration in either
/// order. (Selecting a ruleset and replacing the whole environment both
/// touch the environment, so that pair is not independent.)
pub proof fn lemma_independent_ops_commute(
    m: BuilderModel,
    ffi: bool,
    spec_id: SpecId,
    config: Env,
    fork: Fork,
)
    ensures
        spec_with_cheatcodes(spec_with_spec(m, spec_id), ffi) == spec_with_spec(
            spec_with_cheatcodes(m, ffi),
            spec_id,
        ),
        spec_with_cheatcodes(spec_with_config(m, config), ffi) == spec_with_config(
            spec_with_cheatcodes(m, ffi),
            config,
        ),
        spec_with_cheatcodes(spec_with_fork(m, fork), ffi) == spec_with_fork(
            spec_with_cheatcodes(m, ffi),
            fork,
        ),
        spec_with_spec(spec_with_fork(m, fork), spec_id) == spec_with_fork(
            spec_with_spec(m, spec_id),
            fork,
        ),
        spec_with_config(spec_with_fork(m, fork), config) == spec_with_fork(
            spec_with_config(m, config),
            fork,
        ),
{
}

/// The FFI toggle never outruns the cheatcodes toggle: it holds of the
/// default configuration, and every operation keeps it, so no chain of
/// builder operations reaches FFI enabled with cheatcodes disabled —
/// the meaningless combination is unreachable rather than merely
/// documented away.
pub proof fn lemma_ffi_implies_cheatcodes(
    m: BuilderModel,
    ffi: bool,
    spec_id: SpecId,
    config: Env,
    fork: Fork,
)
    requires
        m.ffi ==> m.cheatcodes,
    ensures
        spec_new().ffi ==> spec_new().cheatcodes,
        spec_with_cheatcodes(m, ffi).ffi ==> spec_with_cheatcodes(m, ffi).cheatcodes,
        spec_with_spec(m, spec_id).ffi ==> spec_with_spec(m, spec_id).cheatcodes,
        spec_with_config(m, config).ffi ==> spec_with_config(m, config).cheatcodes,
        spec_with_fork(m, fork).ffi ==> spec_with_fork(m, fork).cheatcodes,
{
}

} // verus!
