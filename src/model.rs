use vstd::prelude::*;

verus! {

/// A score at or above this (in hundredths) makes an update high-risk.
pub const HIGH_RISK_MIN: u32 = 75;

/// A score at or above this (in hundredths), and below [`HIGH_RISK_MIN`], makes an
/// update medium-risk.
pub const MEDIUM_RISK_MIN: u32 = 40;

/// One package that the upgrade would change.
#[derive(Clone, Debug)]
pub struct PackageUpdate {
    pub name: String,
    /// The installed version, or `unknown`.
    pub current: String,
    /// The version after the upgrade.
    pub new: String,
    /// Why the score is what it is, in the order the rules fired.
    pub risks: Vec<String>,
    /// The risk score in hundredths (`90` stands for 0.9); `None` until classified.
    pub risk_score: Option<u32>,
}

pub struct PackageUpdateView {
    pub name: Seq<char>,
    pub current: Seq<char>,
    pub new: Seq<char>,
    pub risks: Seq<Seq<char>>,
    pub risk_score: Option<u32>,
}

/// The texts of a sequence of strings.
pub open spec fn texts(v: Seq<String>) -> Seq<Seq<char>> {
    v.map_values(|s: String| s@)
}

impl View for PackageUpdate {
    type V = PackageUpdateView;

    open spec fn view(&self) -> PackageUpdateView {
        PackageUpdateView {
            name: self.name@,
            current: self.current@,
            new: self.new@,
            risks: texts(self.risks@),
            risk_score: self.risk_score,
        }
    }
}

/// Counts over the updates of one simulation.
#[derive(Clone, Copy, Debug, PartialEq, Eq, Structural)]
pub struct Summary {
    pub total: usize,
    pub high_risk: usize,
    pub medium_risk: usize,
}

/// The updates that one simulated upgrade would make, and their counts.
#[derive(Clone, Debug)]
pub struct Simulation {
    pub updates: Vec<PackageUpdate>,
    pub summary: Summary,
}

pub struct SimulationView {
    pub updates: Seq<PackageUpdateView>,
    pub summary: Summary,
}

/// The views of a sequence of updates.
pub open spec fn update_views(v: Seq<PackageUpdate>) -> Seq<PackageUpdateView> {
    v.map_values(|u: PackageUpdate| u@)
}

impl View for Simulation {
    type V = SimulationView;

    open spec fn view(&self) -> SimulationView {
        SimulationView { updates: update_views(self.updates@), summary: self.summary }
    }
}

impl Simulation {
    /// A simulation with no updates and zero counts.
    pub fn new() -> (r: Simulation)
        ensures
            r@.updates.len() == 0,
            r.summary == (Summary { total: 0, high_risk: 0, medium_risk: 0 }),
    {
        Simulation { updates: Vec::new(), summary: Summary { total: 0, high_risk: 0, medium_risk: 0 } }
    }
}

/// The score of an update, with a missing score read as zero.
pub open spec fn score_value(u: PackageUpdateView) -> u32 {
    match u.risk_score {
        Some(x) => x,
        None => 0,
    }
}

pub open spec fn is_high(u: PackageUpdateView) -> bool {
    score_value(u) >= HIGH_RISK_MIN
}

pub open spec fn is_medium(u: PackageUpdateView) -> bool {
    MEDIUM_RISK_MIN <= score_value(u) < HIGH_RISK_MIN
}

/// How many of `us` are high-risk.
pub open spec fn high_count(us: Seq<PackageUpdateView>) -> nat {
    us.filter(|u: PackageUpdateView| is_high(u)).len()
}

/// How many of `us` are medium-risk.
pub open spec fn medium_count(us: Seq<PackageUpdateView>) -> nat {
    us.filter(|u: PackageUpdateView| is_medium(u)).len()
}

/// No update is counted both high-risk and medium-risk, so the two buckets together
/// never exceed the number of updates.
pub proof fn lemma_buckets_within_total(us: Seq<PackageUpdateView>)
    ensures
        high_count(us) + medium_count(us) <= us.len(),
    decreases us.len(),
{
    reveal(Seq::filter);
    if us.len() > 0 {
        lemma_buckets_within_total(us.drop_last());
    }
}

/// Counts `updates`: all of them, the high-risk ones and the medium-risk ones.
pub fn summarize(updates: &Vec<PackageUpdate>) -> (r: Summary)
    ensures
        r.total == updates.len(),
        r.high_risk == high_count(update_views(updates@)),
        r.medium_risk == medium_count(update_views(updates@)),
        r.high_risk + r.medium_risk <= r.total,
{
    let ghost vs = update_views(updates@);
    let mut high: usize = 0;
    let mut medium: usize = 0;
    let n = updates.len();
    for i in 0..n
        invariant
            n == updates.len(),
            vs == update_views(updates@),
            high == high_count(vs.subrange(0, i as int)),
            medium == medium_count(vs.subrange(0, i as int)),
            high + medium <= i,
    {
        proof {
            reveal(Seq::filter);
            assert(vs.subrange(0, i + 1).drop_last() =~= vs.subrange(0, i as int));
        }
        let s = match updates[i].risk_score {
            Some(x) => x,
            None => 0,
        };
        if s >= HIGH_RISK_MIN {
            high = high + 1;
        } else if s >= MEDIUM_RISK_MIN {
            medium = medium + 1;
        }
    }
    proof {
        assert(vs.subrange(0, n as int) =~= vs);
    }
    Summary { total: n, high_risk: high, medium_risk: medium }
}

} // verus!
