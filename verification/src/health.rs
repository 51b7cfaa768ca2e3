//! The health aggregation and caching engine.
//!
//! The caller runs the configured probes (concurrently, with a per-probe
//! timeout) and hands the engine one [`ProbeOutcome`] per probe. The engine
//! turns them into a [`Health`] snapshot — one [`HealthInfo`] per probe plus
//! the overall verdict — and caches the snapshot so that lookups within the
//! cache time-to-live are answered without running any probe.

use vstd::prelude::*;

use crate::config::CheckerModel;
use crate::config::Config;
use crate::config::HealthChecker;
use crate::config::HealthConfig;
use crate::config::HealthConfigModel;
use crate::config::checker_models;

verus! {

/// How one probe invocation ended: it completed successfully, it reported a
/// failure with a message, or it did not complete within the per-probe
/// timeout and its in-flight work was abandoned.
#[derive(Debug)]
pub enum ProbeOutcome {
    Success,
    Failure(String),
    Timeout,
}

/// Mathematical model of a [`ProbeOutcome`].
pub ghost enum OutcomeModel {
    Success,
    Failure(Seq<char>),
    Timeout,
}

impl View for ProbeOutcome {
    type V = OutcomeModel;

    open spec fn view(&self) -> OutcomeModel {
        match self {
            ProbeOutcome::Success => OutcomeModel::Success,
            ProbeOutcome::Failure(msg) => OutcomeModel::Failure(msg@),
            ProbeOutcome::Timeout => OutcomeModel::Timeout,
        }
    }
}

/// The models of a sequence of probe outcomes.
pub open spec fn outcome_models(os: Seq<ProbeOutcome>) -> Seq<OutcomeModel> {
    os.map_values(|o: ProbeOutcome| o@)
}

/// The recorded result of one probe within a snapshot. The error message is
/// empty on success, the probe's own message on a reported failure, and the
/// synthesized timeout message when the probe did not finish in time.
#[derive(Debug)]
pub struct HealthInfo {
    pub key: String,
    pub is_mandatory: bool,
    pub success: bool,
    pub error: String,
}

/// Mathematical model of a [`HealthInfo`].
#[verifier::ext_equal]
pub ghost struct ProbeResultModel {
    pub key: Seq<char>,
    pub is_mandatory: bool,
    pub success: bool,
    pub error: Seq<char>,
}

impl View for HealthInfo {
    type V = ProbeResultModel;

    open spec fn view(&self) -> ProbeResultModel {
        ProbeResultModel {
            key: self.key@,
            is_mandatory: self.is_mandatory,
            success: self.success,
            error: self.error@,
        }
    }
}

impl Clone for HealthInfo {
    fn clone(&self) -> (r: Self)
        ensures
            r == *self,
    {
        HealthInfo {
            key: self.key.clone(),
            is_mandatory: self.is_mandatory,
            success: self.success,
            error: self.error.clone(),
        }
    }
}

/// The models of a sequence of recorded probe results.
pub open spec fn results_model(data: Seq<HealthInfo>) -> Seq<ProbeResultModel> {
    data.map_values(|h: HealthInfo| h@)
}

/// The message recorded for a probe that did not complete within its
/// timeout; distinct from any reported failure being propagated verbatim.
pub open spec fn timeout_message() -> Seq<char> {
    "probe timed out"@
}

/// The synthesized error message of a timed-out probe.
pub fn timeout_error() -> (r: String)
    ensures
        r@ == timeout_message(),
{
    String::from_str("probe timed out")
}

/// The error message a probe outcome is recorded with.
pub open spec fn outcome_error(o: OutcomeModel) -> Seq<char> {
    match o {
        OutcomeModel::Success => Seq::<char>::empty(),
        OutcomeModel::Failure(msg) => msg,
        OutcomeModel::Timeout => timeout_message(),
    }
}

/// The recorded result of one probe: key and mandatory flag come from the
/// probe's description, success and error message from its outcome.
pub open spec fn probe_result_model(c: CheckerModel, o: OutcomeModel) -> ProbeResultModel {
    ProbeResultModel {
        key: c.key,
        is_mandatory: c.is_mandatory,
        success: o is Success,
        error: outcome_error(o),
    }
}

/// The results of one aggregation run: one entry per probe, each determined
/// by that probe's description and outcome alone.
pub open spec fn aggregate_model(cs: Seq<CheckerModel>, os: Seq<OutcomeModel>) -> Seq<
    ProbeResultModel,
> {
    Seq::new(cs.len(), |i: int| probe_result_model(cs[i], os[i]))
}

/// The overall verdict of a run: every mandatory result succeeded.
/// Vacuously true when no mandatory probe exists.
pub open spec fn overall_of(rs: Seq<ProbeResultModel>) -> bool {
    forall|i: int| 0 <= i < rs.len() ==> (rs[i].is_mandatory ==> rs[i].success)
}

/// The complete result of one aggregation run, cached as a unit: the time
/// the run was recorded, one result per probe, and the overall verdict.
#[derive(Debug)]
pub struct Health {
    pub last_check_stamp: u64,
    pub data: Vec<HealthInfo>,
    pub overall: bool,
}

/// Mathematical model of a [`Health`] snapshot.
#[verifier::ext_equal]
pub ghost struct HealthModel {
    pub last_check_stamp: u64,
    pub data: Seq<ProbeResultModel>,
    pub overall: bool,
}

impl View for Health {
    type V = HealthModel;

    open spec fn view(&self) -> HealthModel {
        HealthModel {
            last_check_stamp: self.last_check_stamp,
            data: results_model(self.data@),
            overall: self.overall,
        }
    }
}

impl Clone for Health {
    fn clone(&self) -> (r: Self)
        ensures
            r@ == self@,
    {
        Health {
            last_check_stamp: self.last_check_stamp,
            data: clone_results(&self.data),
            overall: self.overall,
        }
    }
}

/// Element-by-element copy of a result list; the copy equals the original.
fn clone_results(v: &Vec<HealthInfo>) -> (r: Vec<HealthInfo>)
    ensures
        r@ == v@,
{
    let mut r: Vec<HealthInfo> = Vec::new();
    let mut i: usize = 0;
    while i < v.len()
        invariant
            i <= v@.len(),
            r@.len() == i,
            forall|k: int| 0 <= k < i ==> r@[k] == v@[k],
        decreases v@.len() - i,
    {
        r.push(v[i].clone());
        i += 1;
    }
    assert(r@ =~= v@);
    r
}

/// Computes the overall verdict of a result list: the logical AND of
/// `success` over all entries with `is_mandatory` set.
pub fn compute_overall(data: &Vec<HealthInfo>) -> (r: bool)
    ensures
        r == overall_of(results_model(data@)),
{
    let mut ok = true;
    let mut i: usize = 0;
    while i < data.len()
        invariant
            i <= data@.len(),
            ok <==> forall|k: int|
                0 <= k < i ==> (data@[k].is_mandatory ==> data@[k].success),
        decreases data@.len() - i,
    {
        if data[i].is_mandatory && !data[i].success {
            ok = false;
        }
        i += 1;
    }
    proof {
        let rs = results_model(data@);
        if ok {
            assert forall|k: int| 0 <= k < rs.len() implies (rs[k].is_mandatory
                ==> rs[k].success) by {
                assert(rs[k] == data@[k]@);
            }
        } else {
            assert(exists|k: int|
                0 <= k < data@.len() && data@[k].is_mandatory && !data@[k].success);
            let k = choose|k: int|
                0 <= k < data@.len() && data@[k].is_mandatory && !data@[k].success;
            assert(rs[k] == data@[k]@);
            assert(!overall_of(rs));
        }
    }
    ok
}

/// One aggregation run over already-collected outcomes: builds one result
/// per probe — in order, each from its own outcome alone — and computes the
/// overall verdict. One probe's failure or timeout never short-circuits the
/// entries of its siblings.
pub fn aggregate(checkers: &Vec<HealthChecker>, outcomes: &Vec<ProbeOutcome>, now: u64) -> (r:
    Health)
    requires
        outcomes@.len() == checkers@.len(),
    ensures
        r@.last_check_stamp == now,
        r@.data == aggregate_model(checker_models(checkers@), outcome_models(outcomes@)),
        r@.overall == overall_of(r@.data),
{
    let ghost cs = checker_models(checkers@);
    let ghost os = outcome_models(outcomes@);
    let mut data: Vec<HealthInfo> = Vec::new();
    let mut i: usize = 0;
    while i < checkers.len()
        invariant
            checkers@.len() == outcomes@.len(),
            cs == checker_models(checkers@),
            os == outcome_models(outcomes@),
            i <= checkers@.len(),
            data@.len() == i,
            forall|k: int| 0 <= k < i ==> data@[k]@ == probe_result_model(cs[k], os[k]),
        decreases checkers@.len() - i,
    {
        let c = &checkers[i];
        let info = match &outcomes[i] {
            ProbeOutcome::Success => HealthInfo {
                key: c.key.clone(),
                is_mandatory: c.is_mandatory,
                success: true,
                error: String::new(),
            },
            ProbeOutcome::Failure(msg) => HealthInfo {
                key: c.key.clone(),
                is_mandatory: c.is_mandatory,
                success: false,
                error: msg.clone(),
            },
            ProbeOutcome::Timeout => HealthInfo {
                key: c.key.clone(),
                is_mandatory: c.is_mandatory,
                success: false,
                error: timeout_error(),
            },
        };
        data.push(info);
        i += 1;
    }
    let overall = compute_overall(&data);
    proof {
        assert(results_model(data@) =~= aggregate_model(cs, os));
    }
    Health { last_check_stamp: now, data, overall }
}

/// The engine's state: the health configuration and the most recently
/// published snapshot, if any. Created with an empty cache, so the first
/// lookup always misses.
#[derive(Debug)]
pub struct InnerHealth {
    pub cfg: HealthConfig,
    pub cached: Option<Health>,
}

/// Mathematical model of the engine's state.
#[verifier::ext_equal]
pub ghost struct EngineModel {
    pub cfg: HealthConfigModel,
    pub cached: Option<HealthModel>,
}

impl View for InnerHealth {
    type V = EngineModel;

    open spec fn view(&self) -> EngineModel {
        EngineModel {
            cfg: self.cfg@,
            cached: match self.cached {
                Some(h) => Some(h@),
                None => None,
            },
        }
    }
}

/// The cached snapshot is still valid at `now`: a snapshot exists and its
/// age is at most the cache time-to-live. An empty cache is never fresh —
/// its age is taken as infinite — and neither is a snapshot stamped in the
/// future.
pub open spec fn is_fresh(s: EngineModel, now: u64) -> bool {
    match s.cached {
        Some(h) => h.last_check_stamp <= now && now - h.last_check_stamp <= s.cfg.cache_duration,
        None => false,
    }
}

/// What a cache lookup at `now` yields: the stored snapshot — verdict
/// included, verbatim — when it is fresh, and nothing otherwise.
pub open spec fn cache_lookup(s: EngineModel, now: u64) -> Option<HealthModel> {
    if is_fresh(s, now) {
        s.cached
    } else {
        None
    }
}

/// A snapshot is a complete, consistent run for a configuration: one result
/// per configured probe, in configuration order, each carrying its probe's
/// key and mandatory flag, with the verdict derived from the results.
pub open spec fn snapshot_for(cfg: HealthConfigModel, h: HealthModel) -> bool {
    &&& h.overall == overall_of(h.data)
    &&& h.data.len() == cfg.checkers.len()
    &&& forall|i: int|
        0 <= i < h.data.len() ==> h.data[i].key == cfg.checkers[i].key
            && h.data[i].is_mandatory == cfg.checkers[i].is_mandatory
}

/// The engine never caches a partial run: whatever snapshot is stored is a
/// complete, consistent run for the engine's own configuration.
pub open spec fn engine_wf(s: EngineModel) -> bool {
    s.cached matches Some(h) ==> snapshot_for(s.cfg, h)
}

impl InnerHealth {
    /// A fresh engine for a configuration: the cache starts empty, so the
    /// first lookup misses and forces an aggregation run.
    pub fn new(cfg: &Config) -> (r: InnerHealth)
        ensures
            r@.cfg == cfg@.health,
            r@.cached is None,
            engine_wf(r@),
    {
        InnerHealth { cfg: cfg.health.clone(), cached: None }
    }

    /// Serves the cached snapshot — per-probe results and verdict, exactly
    /// as published — iff it is still fresh at `now`. Runs no probe; a miss
    /// tells the caller to run an aggregation and publish its result.
    pub fn get_from_cache(&self, now: u64) -> (r: Option<Health>)
        ensures
            r is Some <==> is_fresh(self@, now),
            r matches Some(h) ==> self@.cached == Some(h@),
            r is Some ==> cache_lookup(self@, now) == Some(r->0@),
            r is None ==> cache_lookup(self@, now) is None,
    {
        match &self.cached {
            Some(h) => {
                if h.last_check_stamp <= now && now - h.last_check_stamp <= self.cfg.cache_duration
                {
                    Some(h.clone())
                } else {
                    None
                }
            },
            None => None,
        }
    }

    /// Atomically replaces the stored snapshot with a complete run; the
    /// previous snapshot, if any, is discarded (last writer wins).
    pub fn publish(&mut self, snapshot: Health)
        ensures
            final(self)@.cfg == old(self)@.cfg,
            final(self)@.cached == Some(snapshot@),
    {
        self.cached = Some(snapshot);
    }

    /// Records the outcomes of one aggregation run: assembles the snapshot
    /// for `now`, publishes it as a unit, and returns it.
    pub fn record_results(&mut self, outcomes: &Vec<ProbeOutcome>, now: u64) -> (r: Health)
        requires
            outcomes@.len() == old(self)@.cfg.checkers.len(),
        ensures
            final(self)@.cfg == old(self)@.cfg,
            final(self)@.cached == Some(r@),
            r@.last_check_stamp == now,
            r@.data == aggregate_model(old(self)@.cfg.checkers, outcome_models(outcomes@)),
            r@.overall == overall_of(r@.data),
            engine_wf(final(self)@),
    {
        let h = aggregate(&self.cfg.checkers, outcomes, now);
        let out = h.clone();
        self.publish(h);
        out
    }
}

/// When a run has at least one mandatory probe, its verdict is `false`
/// exactly when some mandatory result reports failure — a timed-out
/// mandatory probe counts as such a failure, since its result's `success`
/// is `false`.
pub proof fn lemma_overall_verdict(rs: Seq<ProbeResultModel>)
    requires
        exists|i: int| 0 <= i < rs.len() && #[trigger] rs[i].is_mandatory,
    ensures
        !overall_of(rs) <==> exists|i: int|
            0 <= i < rs.len() && #[trigger] rs[i].is_mandatory && !rs[i].success,
{
}

/// When every probe of a run is optional, the verdict is `true` no matter
/// how each probe ended.
pub proof fn lemma_all_optional_overall_true(cs: Seq<CheckerModel>, os: Seq<OutcomeModel>)
    requires
        os.len() == cs.len(),
        forall|i: int| 0 <= i < cs.len() ==> !(#[trigger] cs[i].is_mandatory),
    ensures
        overall_of(aggregate_model(cs, os)),
{
    let rs = aggregate_model(cs, os);
    assert forall|i: int| 0 <= i < rs.len() implies (rs[i].is_mandatory ==> rs[i].success) by {
        assert(rs[i] == probe_result_model(cs[i], os[i]));
    }
}

/// Cache freshness: a snapshot stamped `t0` is served from the cache at any
/// time `t` with `t0 <= t` and `t - t0` at most the time-to-live — verdict
/// and results verbatim, no probe re-invoked — while past that window the
/// lookup misses, which makes the caller run a new aggregation.
pub proof fn lemma_cache_freshness(s: EngineModel, h: HealthModel, t: u64)
    requires
        s.cached == Some(h),
    ensures
        h.last_check_stamp <= t && t - h.last_check_stamp <= s.cfg.cache_duration
            ==> cache_lookup(s, t) == Some(h),
        t < h.last_check_stamp || t - h.last_check_stamp > s.cfg.cache_duration
            ==> cache_lookup(s, t) is None,
{
}

/// A probe that never completes is recorded as a timeout failure, and its
/// siblings' entries in the same run are untouched by it: every other entry
/// is determined by its own probe's description and outcome alone.
pub proof fn lemma_timeout_isolation(cs: Seq<CheckerModel>, os: Seq<OutcomeModel>, i: int)
    requires
        os.len() == cs.len(),
        0 <= i < os.len(),
        os[i] is Timeout,
    ensures
        !aggregate_model(cs, os)[i].success,
        aggregate_model(cs, os)[i].error == timeout_message(),
        aggregate_model(cs, os)[i].key == cs[i].key,
        forall|j: int|
            0 <= j < os.len() && j != i ==> #[trigger] aggregate_model(cs, os)[j]
                == probe_result_model(cs[j], os[j]),
{
}

/// Because duplicate probe keys are rejected when a configuration is
/// built, every snapshot a well-formed engine holds carries pairwise
/// distinct keys: a mapping keyed by probe key loses no result.
pub proof fn lemma_snapshot_keys_unique(s: EngineModel, h: HealthModel)
    requires
        crate::config::keys_unique(s.cfg.checkers),
        engine_wf(s),
        s.cached == Some(h),
    ensures
        forall|i: int, j: int| 0 <= i < j < h.data.len() ==> h.data[i].key != h.data[j].key,
{
    assert forall|i: int, j: int| 0 <= i < j < h.data.len() implies h.data[i].key
        != h.data[j].key by {
        assert(h.data[i].key == s.cfg.checkers[i].key);
        assert(h.data[j].key == s.cfg.checkers[j].key);
    }
}

/// Idempotence of lookups: any two cache hits within the time-to-live
/// window yield the same snapshot — equal per-probe results and equal
/// verdict — even though the two query times differ.
pub proof fn lemma_cache_idempotent(s: EngineModel, t1: u64, t2: u64)
    requires
        is_fresh(s, t1),
        is_fresh(s, t2),
    ensures
        cache_lookup(s, t1) == cache_lookup(s, t2),
        cache_lookup(s, t1) is Some,
{
}

} // verus!
