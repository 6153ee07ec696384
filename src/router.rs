//! The router: a registry of providers, each with its own token bucket, and
//! the choice of a provider for a task.
//!
//! Scores are kept in units of 1/5000 point, so that every term of the
//! scoring rule is an integer: capability weights are given in tenths, and
//! costs in millionths of a currency unit per thousand tokens.

use vstd::prelude::*;
use crate::limiter::{TokenBucket, new_bucket, take_permit};
use crate::json::{json_quoted, json_string_literal};
use crate::schemas::{PlanPacket, TaskEdge, TaskGraph, TaskNode};
use crate::text::{contains_text, same_text, text_contains};

verus! {

/// Permits each provider's bucket grants per second.
pub const REQUESTS_PER_SECOND: u32 = 10;

/// Score units in one point.
pub const UNITS_PER_POINT: i128 = 5000;

pub const PRIVACY_FIRST: &'static str = "privacy_first";

pub const PERFORMANCE: &'static str = "performance";

pub const COST_EFFICIENT: &'static str = "cost_efficient";

/// A cost of one currency unit, in the millionths costs are given in.
pub const COST_ONE: u128 = 1_000_000;

/// Where a provider runs.
#[derive(Debug, PartialEq, Eq, Structural, Clone, Copy)]
pub enum PrivacyLevel {
    Local,
    Shielded,
    Cloud,
}

/// What a provider can do, and how well.
pub struct Capability {
    pub name: String,
    /// 0 to 100.
    pub score: u8,
    /// Millionths of a currency unit per thousand tokens.
    pub cost_micros_per_1k_tokens: u32,
}

/// A provider as the router sees it.
pub struct ProviderInfo {
    pub id: String,
    pub name: String,
    pub capabilities: Vec<Capability>,
    pub latency_ms: u32,
    pub privacy_level: PrivacyLevel,
}

/// Something that can describe itself to the router.
pub trait Provider {
    fn info(&self) -> ProviderInfo;
}

/// The provider chosen for a task, and why.
pub struct RouteDecision {
    pub provider_id: String,
    pub explanation: String,
    pub strategy_used: String,
}

/// Why routing, or a provider call, failed.
#[derive(Debug)]
pub enum RouterError {
    /// No provider could take the task; carries the requirements.
    NoProviderFound(Vec<String>),
    RateLimitExceeded(String),
    /// The chosen provider failed while running the task.
    ExecutionError(String),
    DecompositionError(String),
}

/// Weights of capability names, in tenths; a name not listed weighs 10.
pub struct CapabilityGraph {
    pub weights: Vec<(String, u32)>,
}

/// Providers, in registration order, each with its token bucket.
pub struct Router {
    providers: Vec<ProviderInfo>,
    limiters: Vec<TokenBucket>,
    graph: CapabilityGraph,
}

/// The score of the first capability named `name`, or 0 if there is none.
pub open spec fn capability_score(caps: Seq<Capability>, name: Seq<char>) -> int
    decreases caps.len(),
{
    if caps.len() == 0 {
        0
    } else if caps[0].name@ == name {
        caps[0].score as int
    } else {
        capability_score(caps.drop_first(), name)
    }
}

/// The weight of `name` in tenths: the first listed, or 10.
pub open spec fn weight_tenths(weights: Seq<(String, u32)>, name: Seq<char>) -> int
    decreases weights.len(),
{
    if weights.len() == 0 {
        10
    } else if weights[0].0@ == name {
        weights[0].1 as int
    } else {
        weight_tenths(weights.drop_first(), name)
    }
}

/// The weighted match of a provider's capabilities against the
/// requirements: the sum, over the requirements, of capability score times
/// weight.
pub open spec fn match_score(caps: Seq<Capability>, weights: Seq<(String, u32)>, reqs: Seq<String>) -> int
    decreases reqs.len(),
{
    if reqs.len() == 0 {
        0
    } else {
        match_score(caps, weights, reqs.drop_last()) + capability_score(caps, reqs.last()@)
            * weight_tenths(weights, reqs.last()@) * (UNITS_PER_POINT / 10)
    }
}

pub open spec fn total_cost(caps: Seq<Capability>) -> int
    decreases caps.len(),
{
    if caps.len() == 0 {
        0
    } else {
        total_cost(caps.drop_last()) + caps.last().cost_micros_per_1k_tokens
    }
}

/// The mean cost of the capabilities, rounded down to a millionth; 0 when
/// there are none.
pub open spec fn mean_cost(caps: Seq<Capability>) -> int {
    if caps.len() == 0 {
        0
    } else {
        total_cost(caps) / (caps.len() as int)
    }
}

/// What the strategy adds to a provider's score: 500, 100 or -500 points
/// for a local, shielded or cloud provider under `privacy_first`; half of
/// what latency falls short of 1000 ms under `performance`; 200 points
/// times what the mean cost falls short of 1 under `cost_efficient`;
/// nothing under any other strategy.
pub open spec fn strategy_bonus(p: ProviderInfo, strategy: Seq<char>) -> int {
    if strategy == PRIVACY_FIRST@ {
        match p.privacy_level {
            PrivacyLevel::Local => 500 * UNITS_PER_POINT,
            PrivacyLevel::Shielded => 100 * UNITS_PER_POINT,
            PrivacyLevel::Cloud => -500 * UNITS_PER_POINT,
        }
    } else if strategy == PERFORMANCE@ {
        if p.latency_ms < 1000 {
            (1000 - p.latency_ms) * (UNITS_PER_POINT / 2)
        } else {
            0
        }
    } else if strategy == COST_EFFICIENT@ {
        if mean_cost(p.capabilities@) < COST_ONE {
            COST_ONE - mean_cost(p.capabilities@)
        } else {
            0
        }
    } else {
        0
    }
}

/// A provider's score for a task.
pub open spec fn provider_score(p: ProviderInfo, weights: Seq<(String, u32)>, reqs: Seq<String>, strategy: Seq<char>) -> int {
    match_score(p.capabilities@, weights, reqs) + strategy_bonus(p, strategy)
}

/// `k` is the provider chosen among the available ones: it has the highest
/// score, and none before it has as high a score (ties go to the earlier
/// registration).
pub open spec fn first_best(
    ps: Seq<ProviderInfo>,
    weights: Seq<(String, u32)>,
    available: Seq<bool>,
    reqs: Seq<String>,
    strategy: Seq<char>,
    k: int,
) -> bool {
    &&& 0 <= k < ps.len()
    &&& available[k]
    &&& forall|j: int| 0 <= j < ps.len() && available[j] ==> provider_score(ps[j], weights, reqs, strategy)
        <= provider_score(ps[k], weights, reqs, strategy)
    &&& forall|j: int| 0 <= j < k && available[j] ==> provider_score(ps[j], weights, reqs, strategy)
        < provider_score(ps[k], weights, reqs, strategy)
}

pub open spec fn privacy_name(l: PrivacyLevel) -> Seq<char> {
    match l {
        PrivacyLevel::Local => "Local"@,
        PrivacyLevel::Shielded => "Shielded"@,
        PrivacyLevel::Cloud => "Cloud"@,
    }
}

/// The requirement names, separated by ", ".
pub open spec fn joined(reqs: Seq<String>) -> Seq<char>
    decreases reqs.len(),
{
    if reqs.len() == 0 {
        Seq::empty()
    } else if reqs.len() == 1 {
        reqs[0]@
    } else {
        joined(reqs.drop_last()) + ", "@ + reqs.last()@
    }
}

/// The rationale given for choosing `p`.
pub open spec fn rationale(p: ProviderInfo, reqs: Seq<String>, strategy: Seq<char>) -> Seq<char> {
    "Selected "@ + p.name@ + " (privacy: "@ + privacy_name(p.privacy_level) + ") for requirements ["@
        + joined(reqs) + "] using strategy '"@ + strategy + "'"@
}

/// `r` is what routing gives when `available` tells which providers had a
/// permit.
pub open spec fn routed(
    ps: Seq<ProviderInfo>,
    weights: Seq<(String, u32)>,
    available: Seq<bool>,
    reqs: Seq<String>,
    strategy: Seq<char>,
    r: Result<RouteDecision, RouterError>,
) -> bool {
    match r {
        Ok(d) => exists|k: int|
            first_best(ps, weights, available, reqs, strategy, k) && d.provider_id@ == ps[k].id@
                && d.explanation@ == rationale(ps[k], reqs, strategy) && d.strategy_used@ == strategy,
        Err(e) => {
            &&& forall|j: int| 0 <= j < ps.len() ==> !available[j]
            &&& (e matches RouterError::NoProviderFound(v) && v@ == reqs)
        },
    }
}

pub open spec fn ids_unique(ps: Seq<ProviderInfo>) -> bool {
    forall|i: int, j: int| 0 <= i < ps.len() && 0 <= j < ps.len() && i != j ==> ps[i].id@ != ps[j].id@
}

pub open spec fn position_of(ps: Seq<ProviderInfo>, id: Seq<char>) -> int {
    choose|k: int| 0 <= k < ps.len() && ps[k].id@ == id
}

/// The registry after registering `p`: a provider with the same id is
/// replaced in place, otherwise `p` comes last.
pub open spec fn registered(ps: Seq<ProviderInfo>, p: ProviderInfo) -> Seq<ProviderInfo> {
    if exists|k: int| 0 <= k < ps.len() && ps[k].id@ == p.id@ {
        ps.update(position_of(ps, p.id@), p)
    } else {
        ps.push(p)
    }
}

/// The largest term a single requirement adds to a match score.
const MAX_TERM: i128 = 562_949_953_421_312;

fn find_capability_score(caps: &Vec<Capability>, name: &String) -> (r: u8)
    ensures
        r as int == capability_score(caps@, name@),
{
    let mut i: usize = 0;
    assert(caps@.subrange(0, caps@.len() as int) =~= caps@);
    while i < caps.len()
        invariant
            i <= caps@.len(),
            capability_score(caps@, name@) == capability_score(caps@.subrange(i as int, caps@.len() as int), name@),
        decreases caps@.len() - i,
    {
        assert(caps@.subrange(i as int, caps@.len() as int).drop_first() =~= caps@.subrange(i + 1, caps@.len() as int));
        assert(caps@.subrange(i as int, caps@.len() as int)[0] == caps@[i as int]);
        if caps[i].name == *name {
            return caps[i].score;
        }
        i = i + 1;
    }
    0
}

/// The default weights: `code-editing` 1.5, `reasoning` 2.0, `speed` 1.0.
pub open spec fn default_weights(ws: Seq<(String, u32)>) -> bool {
    &&& ws.len() == 3
    &&& ws[0].0@ == "code-editing"@ && ws[0].1 == 15
    &&& ws[1].0@ == "reasoning"@ && ws[1].1 == 20
    &&& ws[2].0@ == "speed"@ && ws[2].1 == 10
}

impl Default for CapabilityGraph {
    fn default() -> (r: CapabilityGraph)
        ensures
            default_weights(r.weights@),
    {
        let mut weights: Vec<(String, u32)> = Vec::new();
        weights.push((String::from_str("code-editing"), 15));
        weights.push((String::from_str("reasoning"), 20));
        weights.push((String::from_str("speed"), 10));
        CapabilityGraph { weights }
    }
}

impl CapabilityGraph {
    /// The weight of `name`, in tenths.
    pub fn weight_of(&self, name: &String) -> (r: u32)
        ensures
            r as int == weight_tenths(self.weights@, name@),
    {
        let mut i: usize = 0;
        assert(self.weights@.subrange(0, self.weights@.len() as int) =~= self.weights@);
        while i < self.weights.len()
            invariant
                i <= self.weights@.len(),
                weight_tenths(self.weights@, name@) == weight_tenths(
                    self.weights@.subrange(i as int, self.weights@.len() as int),
                    name@,
                ),
            decreases self.weights@.len() - i,
        {
            let ghost rest = self.weights@.subrange(i as int, self.weights@.len() as int);
            assert(rest.drop_first() =~= self.weights@.subrange(i + 1, self.weights@.len() as int));
            assert(rest[0] == self.weights@[i as int]);
            let entry = &self.weights[i];
            if entry.0 == *name {
                return entry.1;
            }
            i = i + 1;
        }
        10
    }
}

fn mean_cost_of(caps: &Vec<Capability>) -> (r: u128)
    ensures
        r as int == mean_cost(caps@),
{
    let mut sum: u128 = 0;
    let mut i: usize = 0;
    while i < caps.len()
        invariant
            i <= caps@.len(),
            sum as int == total_cost(caps@.take(i as int)),
            sum <= i * 0xffff_ffffu128,
        decreases caps@.len() - i,
    {
        assert(caps@.take(i + 1).drop_last() =~= caps@.take(i as int));
        sum = sum + caps[i].cost_micros_per_1k_tokens as u128;
        i = i + 1;
    }
    assert(caps@.take(caps@.len() as int) =~= caps@);
    if caps.len() == 0 {
        0
    } else {
        sum / (caps.len() as u128)
    }
}

proof fn lemma_term_bound(score: u8, weight: u32)
    ensures
        0 <= (score as int) * (weight as int) * 500 <= MAX_TERM,
{
    assert(0 <= (score as int) * (weight as int)) by (nonlinear_arith);
    assert((score as int) * (weight as int) <= 255 * 0xffff_ffff) by (nonlinear_arith)
        requires score <= 255, weight <= 0xffff_ffff;
}

impl Router {
    /// The registered providers, in registration order.
    pub closed spec fn view(&self) -> Seq<ProviderInfo> {
        self.providers@
    }

    /// The capability weights scoring uses.
    pub closed spec fn weights(&self) -> Seq<(String, u32)> {
        self.graph.weights@
    }

    /// One bucket per provider, and ids are unique.
    pub closed spec fn wf(&self) -> bool {
        &&& self.limiters@.len() == self.providers@.len()
        &&& ids_unique(self.providers@)
    }

    /// A provider's score for a task (see `provider_score`).
    pub fn score_provider(&self, p: &ProviderInfo, requirements: &Vec<String>, strategy: &str) -> (r: i128)
        ensures
            r as int == provider_score(*p, self.weights(), requirements@, strategy@),
    {
        let mut score: i128 = 0;
        let mut i: usize = 0;
        while i < requirements.len()
            invariant
                i <= requirements@.len(),
                score as int == match_score(p.capabilities@, self.graph.weights@, requirements@.take(i as int)),
                0 <= score <= i * MAX_TERM,
            decreases requirements@.len() - i,
        {
            let req = &requirements[i];
            let c = find_capability_score(&p.capabilities, req);
            let w = self.graph.weight_of(req);
            proof {
                lemma_term_bound(c, w);
                assert(requirements@.take(i + 1).drop_last() =~= requirements@.take(i as int));
                assert(requirements@.take(i + 1).last() == requirements@[i as int]);
            }
            score = score + (c as i128) * (w as i128) * 500;
            i = i + 1;
        }
        assert(requirements@.take(requirements@.len() as int) =~= requirements@);
        assert(score <= 0xffff_ffff_ffff_ffff * MAX_TERM) by (nonlinear_arith)
            requires
                score <= i * MAX_TERM,
                i <= 0xffff_ffff_ffff_ffff,
                MAX_TERM == 562_949_953_421_312,
        ;
        assert(UNITS_PER_POINT == 5000 && UNITS_PER_POINT / 2 == 2500);
        let bonus: i128 = if same_text(strategy, PRIVACY_FIRST) {
            match p.privacy_level {
                PrivacyLevel::Local => 500 * UNITS_PER_POINT,
                PrivacyLevel::Shielded => 100 * UNITS_PER_POINT,
                PrivacyLevel::Cloud => -500 * UNITS_PER_POINT,
            }
        } else if same_text(strategy, PERFORMANCE) {
            if p.latency_ms < 1000 {
                (1000 - p.latency_ms as i128) * 2500
            } else {
                0
            }
        } else if same_text(strategy, COST_EFFICIENT) {
            let mean = mean_cost_of(&p.capabilities);
            if mean < COST_ONE {
                (COST_ONE - mean) as i128
            } else {
                0
            }
        } else {
            0
        };
        assert(-2_500_000 <= bonus <= 2_500_000);
        score + bonus
    }
}

fn privacy_label(l: PrivacyLevel) -> (r: &'static str)
    ensures
        r@ == privacy_name(l),
{
    match l {
        PrivacyLevel::Local => "Local",
        PrivacyLevel::Shielded => "Shielded",
        PrivacyLevel::Cloud => "Cloud",
    }
}

/// Builds `rationale`.
pub fn rationale_text(p: &ProviderInfo, requirements: &Vec<String>, strategy: &str) -> (r: String)
    ensures
        r@ == rationale(*p, requirements@, strategy@),
{
    let mut names = String::new();
    let mut i: usize = 0;
    while i < requirements.len()
        invariant
            i <= requirements@.len(),
            names@ == joined(requirements@.take(i as int)),
        decreases requirements@.len() - i,
    {
        let ghost pre = requirements@.take(i + 1);
        assert(pre.drop_last() =~= requirements@.take(i as int));
        if i > 0 {
            names.append(", ");
        }
        names.append(requirements[i].as_str());
        i = i + 1;
    }
    assert(requirements@.take(requirements@.len() as int) =~= requirements@);
    let mut r = String::from_str("Selected ");
    r.append(p.name.as_str());
    r.append(" (privacy: ");
    r.append(privacy_label(p.privacy_level));
    r.append(") for requirements [");
    r.append(names.as_str());
    r.append("] using strategy '");
    r.append(strategy);
    r.append("'");
    r
}

impl Router {
    /// An empty registry, with the default capability weights.
    pub fn new() -> (r: Router)
        ensures
            r.wf(),
            r.view() == Seq::<ProviderInfo>::empty(),
            default_weights(r.weights()),
    {
        let graph = CapabilityGraph::default();
        Router { providers: Vec::new(), limiters: Vec::new(), graph }
    }

    /// Registers `info` with a fresh token bucket. A provider with the same
    /// id is replaced, bucket included, and keeps its place.
    pub fn add_provider(&mut self, info: ProviderInfo)
        requires
            old(self).wf(),
        ensures
            final(self).wf(),
            final(self).view() == registered(old(self).view(), info),
            final(self).weights() == old(self).weights(),
    {
        let n = self.providers.len();
        let mut i: usize = 0;
        while i < n
            invariant
                n == self.providers@.len(),
                i <= n,
                self.wf(),
                *self == *old(self),
                forall|j: int| 0 <= j < i ==> self.providers@[j].id@ != info.id@,
            decreases n - i,
        {
            if self.providers[i].id == info.id {
                let ghost old_ps = self.providers@;
                proof {
                    let k = position_of(old_ps, info.id@);
                    assert(0 <= k < old_ps.len() && old_ps[k].id@ == info.id@);
                    assert(k == i as int);
                }
                self.providers[i] = info;
                self.limiters[i] = new_bucket(REQUESTS_PER_SECOND);
                assert(ids_unique(self.providers@)) by {
                    assert forall|a: int, b: int| 0 <= a < self.providers@.len() && 0 <= b < self.providers@.len()
                        && a != b implies self.providers@[a].id@ != self.providers@[b].id@ by {
                        if a != i as int && b != i as int {
                            assert(old_ps[a] == self.providers@[a] && old_ps[b] == self.providers@[b]);
                        } else if a == i as int {
                            assert(old_ps[b] == self.providers@[b]);
                        } else {
                            assert(old_ps[a] == self.providers@[a]);
                        }
                    }
                }
                assert(self.providers@ =~= old_ps.update(i as int, info));
                return;
            }
            i = i + 1;
        }
        let ghost old_ps = self.providers@;
        self.providers.push(info);
        self.limiters.push(new_bucket(REQUESTS_PER_SECOND));
        assert(ids_unique(self.providers@)) by {
            assert forall|a: int, b: int| 0 <= a < self.providers@.len() && 0 <= b < self.providers@.len()
                && a != b implies self.providers@[a].id@ != self.providers@[b].id@ by {
                if a < n && b < n {
                    assert(old_ps[a] == self.providers@[a] && old_ps[b] == self.providers@[b]);
                }
            }
        }
    }

    /// The registered providers, in registration order.
    pub fn providers(&self) -> (r: &Vec<ProviderInfo>)
        ensures
            r@ == self.view(),
    {
        &self.providers
    }

    /// Takes a permit from every provider's bucket, in registration order;
    /// entry `i` tells whether provider `i` had one.
    fn take_permits(&self) -> (r: Vec<bool>)
        requires
            self.wf(),
        ensures
            r@.len() == self.view().len(),
    {
        let mut r: Vec<bool> = Vec::new();
        let mut i: usize = 0;
        while i < self.limiters.len()
            invariant
                i <= self.limiters@.len(),
                r@.len() == i,
            decreases self.limiters@.len() - i,
        {
            r.push(take_permit(&self.limiters[i]));
            i = i + 1;
        }
        r
    }

    /// Chooses among the providers that `available` marks: the one with the
    /// highest score, the earliest registered on a tie. With none available
    /// it fails with `NoProviderFound`, carrying the requirements.
    pub fn route_among(&self, available: &Vec<bool>, requirements: Vec<String>, strategy: &str) -> (r: Result<RouteDecision, RouterError>)
        requires
            self.wf(),
            available@.len() == self.view().len(),
        ensures
            routed(self.view(), self.weights(), available@, requirements@, strategy@, r),
            r is Ok <==> exists|j: int| 0 <= j < self.view().len() && available@[j],
    {
        let n = self.providers.len();
        let ghost ps = self.providers@;
        let ghost ws = self.weights();
        let mut best: Option<usize> = None;
        let mut best_score: i128 = 0;
        let mut i: usize = 0;
        while i < n
            invariant
                n == ps.len(),
                ps == self.providers@,
                ws == self.weights(),
                available@.len() == n,
                i <= n,
                match best {
                    None => forall|j: int| 0 <= j < i ==> !available@[j],
                    Some(k) => {
                        &&& k < i
                        &&& available@[k as int]
                        &&& best_score as int == provider_score(ps[k as int], ws, requirements@, strategy@)
                        &&& forall|j: int| 0 <= j < i && available@[j] ==> provider_score(ps[j], ws, requirements@, strategy@) <= best_score
                        &&& forall|j: int| 0 <= j < k && available@[j] ==> provider_score(ps[j], ws, requirements@, strategy@) < best_score
                    },
                },
            decreases n - i,
        {
            if available[i] {
                let sc = self.score_provider(&self.providers[i], &requirements, strategy);
                match best {
                    None => {
                        best = Some(i);
                        best_score = sc;
                    },
                    Some(_) => {
                        if sc > best_score {
                            best = Some(i);
                            best_score = sc;
                        }
                    },
                }
            }
            i = i + 1;
        }
        match best {
            None => Err(RouterError::NoProviderFound(requirements)),
            Some(k) => {
                assert(first_best(ps, ws, available@, requirements@, strategy@, k as int));
                let p = &self.providers[k];
                let explanation = rationale_text(p, &requirements, strategy);
                Ok(RouteDecision {
                    provider_id: p.id.clone(),
                    explanation,
                    strategy_used: String::from_str(strategy),
                })
            },
        }
    }

    /// Takes a permit from every provider's bucket, then chooses among
    /// those that had one (see `route_among`). Whatever the buckets held,
    /// the result is what `route_among` gives for some such outcome.
    pub fn route(&self, requirements: Vec<String>, strategy: &str) -> (r: Result<RouteDecision, RouterError>)
        requires
            self.wf(),
        ensures
            exists|available: Seq<bool>| available.len() == self.view().len() && routed(
                self.view(),
                self.weights(),
                available,
                requirements@,
                strategy@,
                r,
            ),
    {
        let available = self.take_permits();
        self.route_among(&available, requirements, strategy)
    }
}

/// Under `privacy_first`, of two providers with the same capabilities, one
/// local and one in the cloud, the local one is chosen whenever it has a
/// permit.
pub proof fn law_privacy_first_prefers_local(
    ps: Seq<ProviderInfo>,
    weights: Seq<(String, u32)>,
    available: Seq<bool>,
    reqs: Seq<String>,
    k: int,
    local: int,
    cloud: int,
)
    requires
        ps.len() == 2,
        available.len() == 2,
        0 <= local < 2,
        0 <= cloud < 2,
        local != cloud,
        ps[local].capabilities@ == ps[cloud].capabilities@,
        ps[local].privacy_level == PrivacyLevel::Local,
        ps[cloud].privacy_level == PrivacyLevel::Cloud,
        available[local],
        first_best(ps, weights, available, reqs, PRIVACY_FIRST@, k),
    ensures
        k == local,
{
    assert(provider_score(ps[cloud], weights, reqs, PRIVACY_FIRST@) < provider_score(
        ps[local],
        weights,
        reqs,
        PRIVACY_FIRST@,
    ));
}

/// A provider whose bucket had no permit is never chosen while another had
/// one; when none had one, routing fails with `NoProviderFound`.
pub proof fn law_exhausted_never_chosen(
    ps: Seq<ProviderInfo>,
    weights: Seq<(String, u32)>,
    available: Seq<bool>,
    reqs: Seq<String>,
    strategy: Seq<char>,
    r: Result<RouteDecision, RouterError>,
)
    requires
        ids_unique(ps),
        available.len() == ps.len(),
        routed(ps, weights, available, reqs, strategy, r),
    ensures
        r matches Ok(d) ==> forall|j: int| 0 <= j < ps.len() && !available[j] ==> d.provider_id@ != ps[j].id@,
        (forall|j: int| 0 <= j < ps.len() ==> !available[j]) ==> r matches Err(RouterError::NoProviderFound(_)),
{
    if let Ok(d) = r {
        let k = choose|k: int|
            first_best(ps, weights, available, reqs, strategy, k) && d.provider_id@ == ps[k].id@
                && d.explanation@ == rationale(ps[k], reqs, strategy) && d.strategy_used@ == strategy;
        assert forall|j: int| 0 <= j < ps.len() && !available[j] implies d.provider_id@ != ps[j].id@ by {
            assert(j != k);
        }
    }
}

pub const ANALYZE_PARAMS: &'static str = "{\"goal\":\"Analyze codebase for refactoring targets\"}";

pub const EDIT_PARAMS: &'static str = "{\"goal\":\"Apply refactoring changes\"}";

pub const TEST_PARAMS: &'static str = "{\"goal\":\"Verify changes with tests\"}";

/// Opening of a generic task's parameters; the goal's JSON literal and a
/// closing brace follow.
pub const GOAL_PARAMS_HEAD: &'static str = "{\"goal\":";

pub open spec fn node_is(n: TaskNode, id: Seq<char>, task_type: Seq<char>, params: Seq<char>) -> bool {
    &&& n.id@ == id
    &&& n.task_type@ == task_type
    &&& n.params@ == params
    &&& n.invariants@.len() == 0
    &&& n.approval_gate is None
}

pub open spec fn edge_is(e: TaskEdge, from: Seq<char>, to: Seq<char>) -> bool {
    e.from@ == from && e.to@ == to && e.condition is None
}

/// The task graph planned for `goal`: analyze, edit, test in a chain when
/// the goal mentions "refactor"; one generic task otherwise.
pub open spec fn planned(goal: Seq<char>, g: TaskGraph) -> bool {
    if contains_text(goal, "refactor"@) {
        &&& g.nodes@.len() == 3
        &&& node_is(g.nodes@[0], "analyze"@, "research"@, ANALYZE_PARAMS@)
        &&& node_is(g.nodes@[1], "edit"@, "coding"@, EDIT_PARAMS@)
        &&& node_is(g.nodes@[2], "test"@, "verification"@, TEST_PARAMS@)
        &&& g.edges@.len() == 2
        &&& edge_is(g.edges@[0], "analyze"@, "edit"@)
        &&& edge_is(g.edges@[1], "edit"@, "test"@)
    } else {
        &&& g.nodes@.len() == 1
        &&& node_is(g.nodes@[0], "generic-task"@, "nlp"@, GOAL_PARAMS_HEAD@ + json_quoted(goal) + "}"@)
        &&& g.edges@.len() == 0
    }
}

/// Relies on uuid's `Uuid::new_v4`: a random identifier. Nothing is
/// promised of its value.
#[verifier::external_body]
fn random_plan_id() -> (r: u128) {
    uuid::Uuid::new_v4().as_u128()
}

fn task_node(id: &str, task_type: &str, params: String) -> (n: TaskNode)
    ensures
        node_is(n, id@, task_type@, params@),
{
    TaskNode {
        id: String::from_str(id),
        task_type: String::from_str(task_type),
        params,
        invariants: Vec::new(),
        approval_gate: None,
    }
}

fn task_edge(from: &str, to: &str) -> (e: TaskEdge)
    ensures
        edge_is(e, from@, to@),
{
    TaskEdge { from: String::from_str(from), to: String::from_str(to), condition: None }
}

impl Router {
    /// Breaks `goal` into a task graph by a fixed rule (see `planned`).
    pub fn decompose(&self, goal: &str) -> (r: PlanPacket)
        ensures
            planned(goal@, r.graph),
            r.title@ == "Plan for: "@ + goal@,
            r.version@ == "1.0"@,
            r.metadata@.len() == 0,
    {
        let mut nodes: Vec<TaskNode> = Vec::new();
        let mut edges: Vec<TaskEdge> = Vec::new();
        if text_contains(goal, "refactor") {
            nodes.push(task_node("analyze", "research", String::from_str(ANALYZE_PARAMS)));
            nodes.push(task_node("edit", "coding", String::from_str(EDIT_PARAMS)));
            nodes.push(task_node("test", "verification", String::from_str(TEST_PARAMS)));
            edges.push(task_edge("analyze", "edit"));
            edges.push(task_edge("edit", "test"));
        } else {
            let mut params = String::from_str(GOAL_PARAMS_HEAD);
            let quoted = json_string_literal(goal);
            params.append(quoted.as_str());
            params.append("}");
            nodes.push(task_node("generic-task", "nlp", params));
        }
        let mut title = String::from_str("Plan for: ");
        title.append(goal);
        PlanPacket {
            id: random_plan_id(),
            title,
            version: String::from_str("1.0"),
            graph: TaskGraph { nodes, edges },
            metadata: Vec::new(),
        }
    }
}

} // verus!
