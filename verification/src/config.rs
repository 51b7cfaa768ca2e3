//! Configuration of the health engine: the probe descriptions, the cache
//! time-to-live and the per-probe timeout, and the application-level
//! configuration record that owns them.
//!
//! Durations are carried as whole milliseconds. A configuration is validated
//! once, when it is built: duplicate probe keys and zero durations are
//! rejected there, never at query time.

use vstd::prelude::*;

verus! {

/// The endpoints the surrounding application may expose.
#[derive(Clone, Copy, Debug, PartialEq, Eq, Structural)]
pub enum Endpoint {
    Ping,
    Info,
    Health,
    Env,
    Metrics,
    Shutdown,
    ThreadDump,
}

/// Description of one health probe: a key, unique within a configuration,
/// and whether a failure of this probe makes the whole application
/// unhealthy. The callable that actually performs the check stays with the
/// caller, which hands its outcome to the engine as a plain value.
#[derive(Debug)]
pub struct HealthChecker {
    pub key: String,
    pub is_mandatory: bool,
}

/// Mathematical model of a [`HealthChecker`].
#[verifier::ext_equal]
pub ghost struct CheckerModel {
    pub key: Seq<char>,
    pub is_mandatory: bool,
}

impl View for HealthChecker {
    type V = CheckerModel;

    open spec fn view(&self) -> CheckerModel {
        CheckerModel { key: self.key@, is_mandatory: self.is_mandatory }
    }
}

impl HealthChecker {
    pub fn new(key: String, is_mandatory: bool) -> (r: HealthChecker)
        ensures
            r.key == key,
            r.is_mandatory == is_mandatory,
    {
        HealthChecker { key, is_mandatory }
    }
}

impl Clone for HealthChecker {
    fn clone(&self) -> (r: Self)
        ensures
            r == *self,
    {
        HealthChecker { key: self.key.clone(), is_mandatory: self.is_mandatory }
    }
}

/// The models of a sequence of probe descriptions.
pub open spec fn checker_models(cs: Seq<HealthChecker>) -> Seq<CheckerModel> {
    cs.map_values(|c: HealthChecker| c@)
}

/// No two probes of the configuration share a key.
pub open spec fn keys_unique(cs: Seq<CheckerModel>) -> bool {
    forall|i: int, j: int| 0 <= i < j < cs.len() ==> cs[i].key != cs[j].key
}

/// Why a configuration was rejected at construction time.
#[derive(Clone, Copy, Debug, PartialEq, Eq, Structural)]
pub enum ConfigError {
    /// The cache time-to-live or the per-probe timeout was zero.
    NonPositiveDuration,
    /// Two probes of the configuration share a key.
    DuplicateKey,
}

/// Cache time-to-live, per-probe timeout, and the ordered probe list.
/// Built once at startup and read-only thereafter.
#[derive(Debug)]
pub struct HealthConfig {
    pub cache_duration: u64,
    pub timeout: u64,
    pub checkers: Vec<HealthChecker>,
}

/// Mathematical model of a [`HealthConfig`].
#[verifier::ext_equal]
pub ghost struct HealthConfigModel {
    pub cache_duration: u64,
    pub timeout: u64,
    pub checkers: Seq<CheckerModel>,
}

impl View for HealthConfig {
    type V = HealthConfigModel;

    open spec fn view(&self) -> HealthConfigModel {
        HealthConfigModel {
            cache_duration: self.cache_duration,
            timeout: self.timeout,
            checkers: checker_models(self.checkers@),
        }
    }
}

/// A configuration is valid when both durations are positive and the probe
/// keys are pairwise distinct.
pub open spec fn config_valid(m: HealthConfigModel) -> bool {
    &&& m.cache_duration > 0
    &&& m.timeout > 0
    &&& keys_unique(m.checkers)
}

impl HealthConfig {
    /// Validates and assembles a health configuration. Zero durations and
    /// duplicate probe keys are configuration errors, reported here and
    /// never at query time; durations are checked first.
    pub fn new(cache_duration: u64, timeout: u64, checkers: Vec<HealthChecker>) -> (r: Result<
        HealthConfig,
        ConfigError,
    >)
        ensures
            r is Ok <==> config_valid(
                (HealthConfigModel {
                    cache_duration,
                    timeout,
                    checkers: checker_models(checkers@),
                }),
            ),
            r is Ok ==> r->Ok_0.cache_duration == cache_duration && r->Ok_0.timeout == timeout
                && r->Ok_0.checkers == checkers,
            r == Result::<HealthConfig, ConfigError>::Err(ConfigError::NonPositiveDuration) <==> (
            cache_duration == 0 || timeout == 0),
            r == Result::<HealthConfig, ConfigError>::Err(ConfigError::DuplicateKey) <==> (
            cache_duration > 0 && timeout > 0 && !keys_unique(checker_models(checkers@))),
    {
        if cache_duration == 0 || timeout == 0 {
            return Err(ConfigError::NonPositiveDuration);
        }
        let n = checkers.len();
        let mut i: usize = 0;
        while i < n
            invariant
                cache_duration > 0,
                timeout > 0,
                n == checkers@.len(),
                i <= n,
                forall|a: int, b: int|
                    0 <= a < b < n && a < i ==> checkers@[a]@.key != checkers@[b]@.key,
            decreases n - i,
        {
            let mut j: usize = i + 1;
            while j < n
                invariant
                    cache_duration > 0,
                    timeout > 0,
                    n == checkers@.len(),
                    i < n,
                    i < j <= n,
                    forall|a: int, b: int|
                        0 <= a < b < n && a < i ==> checkers@[a]@.key != checkers@[b]@.key,
                    forall|b: int| i < b < j ==> checkers@[i as int]@.key != checkers@[b]@.key,
                decreases n - j,
            {
                if checkers[i].key == checkers[j].key {
                    proof {
                        let cs = checker_models(checkers@);
                        assert(cs[i as int].key == checkers@[i as int]@.key);
                        assert(cs[j as int].key == checkers@[j as int]@.key);
                        assert(cs[i as int].key == cs[j as int].key);
                        assert(!keys_unique(cs));
                    }
                    return Err(ConfigError::DuplicateKey);
                }
                j += 1;
            }
            i += 1;
        }
        proof {
            let cs = checker_models(checkers@);
            assert forall|a: int, b: int| 0 <= a < b < cs.len() implies cs[a].key != cs[b].key by {
                assert(cs[a].key == checkers@[a]@.key);
                assert(cs[b].key == checkers@[b]@.key);
            }
        }
        Ok(HealthConfig { cache_duration, timeout, checkers })
    }
}

impl Clone for HealthConfig {
    fn clone(&self) -> (r: Self)
        ensures
            r@ == self@,
    {
        HealthConfig {
            cache_duration: self.cache_duration,
            timeout: self.timeout,
            checkers: clone_checkers(&self.checkers),
        }
    }
}

/// Element-by-element copy of a probe list; the copy models the original
/// exactly.
fn clone_checkers(cs: &Vec<HealthChecker>) -> (r: Vec<HealthChecker>)
    ensures
        r@ == cs@,
{
    let mut r: Vec<HealthChecker> = Vec::new();
    let mut i: usize = 0;
    while i < cs.len()
        invariant
            i <= cs@.len(),
            r@.len() == i,
            forall|k: int| 0 <= k < i ==> r@[k] == cs@[k],
        decreases cs@.len() - i,
    {
        r.push(cs[i].clone());
        i += 1;
    }
    assert(r@ =~= cs@);
    r
}

/// The application-level configuration record: exposed endpoints, identity
/// strings, the port, and the health configuration.
#[derive(Debug)]
pub struct Config {
    pub endpoints: Vec<Endpoint>,
    pub env: String,
    pub name: String,
    pub port: u16,
    pub version: String,
    pub health: HealthConfig,
}

/// Mathematical model of a [`Config`].
#[verifier::ext_equal]
pub ghost struct ConfigModel {
    pub endpoints: Seq<Endpoint>,
    pub env: Seq<char>,
    pub name: Seq<char>,
    pub port: u16,
    pub version: Seq<char>,
    pub health: HealthConfigModel,
}

impl View for Config {
    type V = ConfigModel;

    open spec fn view(&self) -> ConfigModel {
        ConfigModel {
            endpoints: self.endpoints@,
            env: self.env@,
            name: self.name@,
            port: self.port,
            version: self.version@,
            health: self.health@,
        }
    }
}

impl Config {
    /// Assembles the application configuration from already-validated parts.
    pub fn new(
        endpoints: Vec<Endpoint>,
        env: String,
        name: String,
        port: u16,
        version: String,
        health: HealthConfig,
    ) -> (r: Config)
        ensures
            r.endpoints == endpoints,
            r.env == env,
            r.name == name,
            r.port == port,
            r.version == version,
            r.health == health,
    {
        Config { endpoints, env, name, port, version, health }
    }
}

impl Clone for Config {
    fn clone(&self) -> (r: Self)
        ensures
            r@ == self@,
    {
        Config {
            endpoints: clone_endpoints(&self.endpoints),
            env: self.env.clone(),
            name: self.name.clone(),
            port: self.port,
            version: self.version.clone(),
            health: self.health.clone(),
        }
    }
}

/// Element-by-element copy of an endpoint list.
fn clone_endpoints(es: &Vec<Endpoint>) -> (r: Vec<Endpoint>)
    ensures
        r@ == es@,
{
    let mut r: Vec<Endpoint> = Vec::new();
    let mut i: usize = 0;
    while i < es.len()
        invariant
            i <= es@.len(),
            r@.len() == i,
            forall|k: int| 0 <= k < i ==> r@[k] == es@[k],
        decreases es@.len() - i,
    {
        r.push(es[i]);
        i += 1;
    }
    assert(r@ =~= es@);
    r
}

} // verus!
