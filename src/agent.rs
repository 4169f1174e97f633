use std::sync::Arc;
use vstd::prelude::*;
use crate::config::AgentConfig;
use crate::cookie::{without_cookie, CookieJar, CookieView};
use crate::engine::{
    finish, finish_spec, initial_state, next, Action, ActionSpec, AgentError, BodyMode, Completed,
    Event, RunState,
};
use crate::pool::{acquire_spec, ConnectionPool, IdleView, PoolKey};

verus! {

/// How the caller names a connection it keeps: the pool hands these back.
pub type ConnectionId = u64;

/// State kept between requests: the settings, the idle connections and the
/// cookies. Each call runs its own [`RunState`] against it. The settings sit
/// behind an `Arc` and never change; the pool and the jar change only through
/// `&mut self`, so callers on several threads share one agent behind a lock.
pub struct Agent {
    config: Arc<AgentConfig>,
    pool: ConnectionPool<ConnectionId>,
    jar: CookieJar,
}

impl Agent {
    pub closed spec fn spec_config(&self) -> AgentConfig {
        *self.config
    }

    pub closed spec fn spec_pool(&self) -> Seq<IdleView<ConnectionId>> {
        self.pool@
    }

    pub closed spec fn spec_jar(&self) -> Seq<CookieView> {
        self.jar@
    }

    /// An agent with default settings, no idle connections and no cookies.
    pub fn new_with_defaults() -> (r: Agent)
        ensures
            r.spec_config().is_default(),
            r.spec_pool().len() == 0,
            r.spec_jar().len() == 0,
    {
        Self::with_parts(AgentConfig::default_config(), ConnectionPool::new(), CookieJar::new())
    }

    /// An agent with the given settings, no idle connections and no cookies.
    pub fn new_with_config(config: AgentConfig) -> (r: Agent)
        ensures
            r.spec_config() == config,
            r.spec_pool().len() == 0,
            r.spec_jar().len() == 0,
    {
        Self::with_parts(config, ConnectionPool::new(), CookieJar::new())
    }

    /// An agent built from its parts.
    pub fn with_parts(config: AgentConfig, pool: ConnectionPool<ConnectionId>, jar: CookieJar) -> (r: Agent)
        ensures
            r.spec_config() == config,
            r.spec_pool() == pool@,
            r.spec_jar() == jar@,
    {
        Agent { config: Arc::new(config), pool, jar }
    }

    pub fn config(&self) -> (r: &AgentConfig)
        ensures
            *r == self.spec_config(),
    {
        &self.config
    }

    /// The cookies kept between requests.
    pub fn cookie_jar(&self) -> (r: &CookieJar)
        ensures
            r@ == self.spec_jar(),
    {
        &self.jar
    }

    /// Stores a cookie that a response from `origin` set.
    pub fn store_cookie(&mut self, origin: &str, name: &str, value: &str)
        ensures
            final(self).spec_jar() == without_cookie(old(self).spec_jar(), origin@, name@).push(
                (origin@, name@, value@),
            ),
            final(self).spec_config() == old(self).spec_config(),
            final(self).spec_pool() == old(self).spec_pool(),
    {
        self.jar.set_cookie(origin, name, value);
    }

    /// The state a new call starts in.
    pub fn start(&self, headers_set_mode: bool, body_mode: BodyMode) -> (r: RunState)
        ensures
            r == initial_state(headers_set_mode, body_mode),
    {
        RunState::new(headers_set_mode, body_mode)
    }

    /// Handles one event of a call under this agent's settings and cookies.
    pub fn handle(&self, state: &mut RunState, event: Event) -> (r: Result<Action, AgentError>)
        ensures
            match r {
                Ok(a) => next(self.spec_config(), self.spec_jar(), *old(state), event) == Ok::<
                    (RunState, ActionSpec),
                    AgentError,
                >((*final(state), a@)),
                Err(err) => next(self.spec_config(), self.spec_jar(), *old(state), event) == Err::<
                    (RunState, ActionSpec),
                    AgentError,
                >(err),
            },
            r is Err ==> *final(state) == *old(state),
    {
        state.step(&self.config, &self.jar, event)
    }

    /// The outcome of a call whose loop has ended in `state`.
    pub fn complete(&self, state: &RunState) -> (r: Result<Completed, AgentError>)
        ensures
            r == finish_spec(self.spec_config(), *state),
    {
        finish(&self.config, state)
    }

    /// Takes an idle connection to `key` out of the pool, if there is one.
    pub fn acquire_connection(&mut self, key: &PoolKey) -> (r: Option<ConnectionId>)
        ensures
            (r, final(self).spec_pool()) == acquire_spec(old(self).spec_pool(), key@),
            final(self).spec_config() == old(self).spec_config(),
            final(self).spec_jar() == old(self).spec_jar(),
    {
        self.pool.acquire(key)
    }

    /// Returns a connection that may be reused to the pool.
    pub fn release_connection(&mut self, key: PoolKey, id: ConnectionId, now: u64)
        ensures
            final(self).spec_pool() == old(self).spec_pool().push((key@, id, now)),
            final(self).spec_config() == old(self).spec_config(),
            final(self).spec_jar() == old(self).spec_jar(),
    {
        self.pool.release(key, id, now)
    }
}

impl From<AgentConfig> for Agent {
    fn from(value: AgentConfig) -> (r: Agent)
        ensures
            r.spec_config() == value,
            r.spec_pool().len() == 0,
            r.spec_jar().len() == 0,
    {
        Agent::new_with_config(value)
    }
}

impl vstd::std_specs::convert::FromSpecImpl<AgentConfig> for Agent {
    open spec fn obeys_from_spec() -> bool {
        false
    }

    closed spec fn from_spec(v: AgentConfig) -> Agent {
        arbitrary()
    }
}

} // verus!
