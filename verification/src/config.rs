//! The configuration of a pool: the cluster's seed nodes and, optionally, the
//! pool's sizing.

use vstd::prelude::*;

use deadpool::managed::{BuildError, PoolConfig};
use deadpool::Runtime;
use redis::RedisError;

use crate::error::{ConfigError, CreatePoolError};
use crate::manager::{seeds_accepted, Manager};
use crate::node::{node_views, NodeAddress};

verus! {

/// The pool engine's sizing of a pool: its capacity and its timeouts.
#[verifier::external_type_specification]
#[verifier::external_body]
pub struct ExPoolConfig(PoolConfig);

/// The pool engine's choice of a concurrency runtime.
#[verifier::external_type_specification]
#[verifier::external_body]
pub struct ExRuntime(Runtime);

/// `deadpool::managed::PoolConfig::default()`. The capacity it picks goes by
/// the number of processors of the machine, so nothing is claimed of it.
#[verifier::external_body]
fn default_pool_config() -> PoolConfig {
    PoolConfig::default()
}

/// What a pool is built from.
pub struct PoolPlan {
    pub manager: Manager,
    pub config: PoolConfig,
    pub runtime: Option<Runtime>,
}

impl PoolPlan {
    /// The same plan, bound to `runtime`.
    pub fn runtime(self, runtime: Runtime) -> (plan: PoolPlan)
        ensures
            plan.manager == self.manager,
            plan.config == self.config,
            plan.runtime == Some(runtime),
    {
        PoolPlan { manager: self.manager, config: self.config, runtime: Some(runtime) }
    }
}

/// The seed nodes of a cluster and the sizing of the pool of connections to it.
#[derive(Debug)]
pub struct Config {
    /// The seed nodes, in the order in which the client takes them.
    pub nodes: Vec<NodeAddress>,
    /// The pool's sizing; the pool engine's default where there is none.
    pub pool: Option<PoolConfig>,
}

impl Clone for Config {
    fn clone(&self) -> (copy: Self)
        ensures
            node_views(copy.nodes@) == node_views(self.nodes@),
            copy.pool == self.pool,
    {
        let nodes = self.nodes.clone();
        assert(node_views(nodes@) =~= node_views(self.nodes@));
        Config { nodes, pool: self.pool }
    }
}

impl Config {
    /// A configuration of `nodes`, with no sizing of its own.
    #[must_use]
    pub fn from_nodes(nodes: Vec<NodeAddress>) -> (config: Config)
        ensures
            config.nodes == nodes,
            config.pool is None,
    {
        Config { nodes, pool: None }
    }

    /// The pool's sizing: the configured one, else `fallback`.
    pub fn pool_config_or(&self, fallback: PoolConfig) -> (sizing: PoolConfig)
        ensures
            sizing == match self.pool {
                Some(given) => given,
                None => fallback,
            },
    {
        match self.pool {
            Some(given) => given,
            None => fallback,
        }
    }

    /// The pool's sizing: the configured one, else the pool engine's default.
    pub fn get_pool_config(&self) -> (sizing: PoolConfig)
        ensures
            self.pool matches Some(given) ==> sizing == given,
    {
        self.pool_config_or(default_pool_config())
    }

    /// A plan of the pool, with a new manager for the seed nodes and bound to no runtime.
    /// It fails exactly when the store's client refuses the seed nodes.
    pub fn builder(&self) -> (plan: Result<PoolPlan, ConfigError>)
        ensures
            plan is Ok <==> seeds_accepted(node_views(self.nodes@)),
            plan matches Ok(made) ==> {
                &&& made.manager.seeds() == node_views(self.nodes@)
                &&& made.runtime is None
                &&& self.pool matches Some(given) ==> made.config == given
            },
    {
        let nodes = self.nodes.clone();
        assert(node_views(nodes@) =~= node_views(self.nodes@));
        match Manager::new(nodes) {
            Ok(manager) => Ok(PoolPlan { manager, config: self.get_pool_config(), runtime: None }),
            Err(cause) => Err(ConfigError::from(cause)),
        }
    }

    /// A plan of the pool, bound to `runtime` where one is given. It fails
    /// exactly when the store's client refuses the seed nodes, whatever the
    /// sizing, and then with a configuration error.
    pub fn create_pool(&self, runtime: Option<Runtime>) -> (plan: Result<PoolPlan, CreatePoolError>)
        ensures
            plan is Ok <==> seeds_accepted(node_views(self.nodes@)),
            plan matches Ok(made) ==> {
                &&& made.manager.seeds() == node_views(self.nodes@)
                &&& made.runtime == runtime
                &&& self.pool matches Some(given) ==> made.config == given
            },
            plan matches Err(error) ==> error is Config,
    {
        match self.builder() {
            Ok(made) => match runtime {
                Some(chosen) => Ok(made.runtime(chosen)),
                None => Ok(made),
            },
            Err(error) => Err(CreatePoolError::Config(error)),
        }
    }
}

/// What the caller gets once the pool engine has built, or refused to build,
/// the pool of a plan: the pool, or the engine's refusal as a build error.
pub fn build_outcome<P>(built: Result<P, BuildError<RedisError>>) -> (pool: Result<P, CreatePoolError>)
    ensures
        match built {
            Ok(made) => pool == Ok::<P, CreatePoolError>(made),
            Err(refusal) => pool == Err::<P, CreatePoolError>(CreatePoolError::Build(refusal)),
        },
{
    match built {
        Ok(made) => Ok(made),
        Err(refusal) => Err(CreatePoolError::Build(refusal)),
    }
}

} // verus!
