//! Application-health aggregation engine.
//!
//! A configured set of independent health probes is run by the caller; this
//! library combines their outcomes into a single pass/fail verdict plus
//! per-probe detail, and caches that snapshot for a configurable interval so
//! repeated health queries do not re-run expensive probes on every call.
//!
//! The caller owns everything the engine deliberately does not: the clock
//! (times are handed in as milliseconds), the probe callables and their
//! concurrent execution with per-probe timeout (their outcomes are handed in
//! as [`health::ProbeOutcome`] values), and any transport that exposes the
//! snapshot.

use vstd::prelude::*;

pub mod config;
pub mod health;
pub mod info;

pub use config::Config;
pub use config::ConfigError;
pub use config::Endpoint;
pub use config::HealthChecker;
pub use config::HealthConfig;
pub use health::Health;
pub use health::HealthInfo;
pub use health::InnerHealth;
pub use health::ProbeOutcome;
pub use info::ApplicationInfo;
pub use info::GITInfo;
pub use info::Info;
pub use info::RuntimeInfo;

use crate::health::aggregate_model;
use crate::health::cache_lookup;
use crate::health::engine_wf;
use crate::health::is_fresh;
use crate::health::outcome_models;
use crate::health::overall_of;

verus! {

/// The single public entry point the surrounding application talks to:
/// the configuration, the health engine, the metadata record, and the
/// environment snapshot taken at startup.
#[derive(Debug)]
pub struct Actuator {
    pub cfg: Config,
    pub health: InnerHealth,
    pub info: Info,
    pub envs: Vec<(String, String)>,
}

impl Actuator {
    /// Builds the facade from the configuration, the metadata record and
    /// the environment snapshot the caller gathered. The health cache
    /// starts empty: the first health query always runs the probes.
    pub fn new(cfg: &Config, info: Info, envs: Vec<(String, String)>) -> (r: Actuator)
        ensures
            r.cfg@ == cfg@,
            r.health@.cfg == cfg@.health,
            r.health@.cached is None,
            engine_wf(r.health@),
            r.info == info,
            r.envs == envs,
    {
        Actuator { cfg: cfg.clone(), health: InnerHealth::new(cfg), info, envs }
    }

    /// Liveness: always answers `true`.
    pub fn ping(&self) -> (r: bool)
        ensures
            r,
    {
        true
    }

    /// The metadata record, exactly as assembled at startup.
    pub fn info(&self) -> (r: &Info)
        ensures
            r == &self.info,
    {
        &self.info
    }

    /// The environment snapshot, exactly as handed in at startup.
    pub fn env(&self) -> (r: &Vec<(String, String)>)
        ensures
            r == &self.envs,
    {
        &self.envs
    }

    /// The fast path of a health query: the cached snapshot iff it is
    /// still fresh at `now`; `None` tells the caller to run the probes and
    /// record their outcomes.
    pub fn health_from_cache(&self, now: u64) -> (r: Option<Health>)
        ensures
            r is Some <==> is_fresh(self.health@, now),
            r matches Some(h) ==> self.health@.cached == Some(h@),
            r is Some ==> cache_lookup(self.health@, now) == Some(r->0@),
            r is None ==> cache_lookup(self.health@, now) is None,
    {
        self.health.get_from_cache(now)
    }

    /// The slow path of a health query: turns the collected probe outcomes
    /// into a snapshot stamped `now`, publishes it, and returns it.
    pub fn record_health(&mut self, outcomes: &Vec<ProbeOutcome>, now: u64) -> (r: Health)
        requires
            outcomes@.len() == old(self).health@.cfg.checkers.len(),
        ensures
            final(self).cfg == old(self).cfg,
            final(self).info == old(self).info,
            final(self).envs == old(self).envs,
            final(self).health@.cfg == old(self).health@.cfg,
            final(self).health@.cached == Some(r@),
            r@.last_check_stamp == now,
            r@.data == aggregate_model(
                old(self).health@.cfg.checkers,
                outcome_models(outcomes@),
            ),
            r@.overall == overall_of(r@.data),
            engine_wf(final(self).health@),
    {
        self.health.record_results(outcomes, now)
    }

    /// A textual dump of the calling thread's stack.
    ///
    /// Relies on `backtrace::Backtrace::new`, which captures and resolves
    /// the stack of the running thread; the text depends on the machine
    /// state of the moment, so nothing is promised of it.
    #[verifier::external_body]
    pub fn thread_dump(&self) -> String {
        format!("{:?}", backtrace::Backtrace::new())
    }
}

} // verus!
