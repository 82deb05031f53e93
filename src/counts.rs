//! How many citizens are in each disease state at a given hour.
use crate::allocation_map::AgentLocationMap;
use crate::citizen::Citizen;
use crate::disease_state_machine::State;
use crate::geography::Point;
use vstd::prelude::*;

verus! {

#[derive(Copy, Clone, Debug, PartialEq, Eq, Structural)]
pub struct Counts {
    pub hour: u32,
    pub susceptible: u32,
    pub exposed: u32,
    pub infected: u32,
    pub hospitalized: u32,
    pub recovered: u32,
    pub deceased: u32,
}

/// The counter a citizen falls under: 0 susceptible, 1 exposed, 2 infected, 3 infected
/// and hospitalized, 4 recovered, 5 deceased.
pub open spec fn category(c: Citizen) -> int {
    match c.state_machine.state {
        State::Susceptible => 0,
        State::Exposed { .. } => 1,
        State::Infected { .. } => if c.hospitalized { 3 } else { 2 },
        State::Recovered => 4,
        State::Deceased => 5,
    }
}

/// How many of the placed citizens fall under counter `cat`.
pub open spec fn count_category(agents: Seq<(Point, Citizen)>, cat: int) -> nat
    decreases agents.len(),
{
    if agents.len() == 0 {
        0
    } else {
        count_category(agents.drop_last(), cat) + if category(agents.last().1) == cat { 1nat } else { 0nat }
    }
}

impl Counts {
    pub open spec fn total(self) -> int {
        self.susceptible + self.exposed + self.infected + self.hospitalized + self.recovered + self.deceased
    }

    /// The counters agree with the citizens of `agents`.
    pub open spec fn tallies(self, agents: Seq<(Point, Citizen)>) -> bool {
        &&& self.susceptible == count_category(agents, 0)
        &&& self.exposed == count_category(agents, 1)
        &&& self.infected == count_category(agents, 2)
        &&& self.hospitalized == count_category(agents, 3)
        &&& self.recovered == count_category(agents, 4)
        &&& self.deceased == count_category(agents, 5)
    }

    pub open spec fn new_spec(susceptible: u32, exposed: u32, infected: u32) -> Counts {
        Counts { hour: 0, susceptible, exposed, infected, hospitalized: 0, recovered: 0, deceased: 0 }
    }

    /// Counts at hour 0 with `susceptible`, `exposed` and `infected` citizens.
    pub fn new(susceptible: u32, exposed: u32, infected: u32) -> (r: Counts)
        ensures
            r == Counts::new_spec(susceptible, exposed, infected),
    {
        Counts { hour: 0, susceptible, exposed, infected, hospitalized: 0, recovered: 0, deceased: 0 }
    }

    pub fn get_hour(&self) -> (r: u32)
        ensures
            r == self.hour,
    {
        self.hour
    }

    pub fn get_susceptible(&self) -> (r: u32)
        ensures
            r == self.susceptible,
    {
        self.susceptible
    }

    pub fn get_exposed(&self) -> (r: u32)
        ensures
            r == self.exposed,
    {
        self.exposed
    }

    pub fn get_infected(&self) -> (r: u32)
        ensures
            r == self.infected,
    {
        self.infected
    }

    pub fn get_hospitalized(&self) -> (r: u32)
        ensures
            r == self.hospitalized,
    {
        self.hospitalized
    }

    pub fn get_recovered(&self) -> (r: u32)
        ensures
            r == self.recovered,
    {
        self.recovered
    }

    pub fn get_deceased(&self) -> (r: u32)
        ensures
            r == self.deceased,
    {
        self.deceased
    }

    pub fn increment_hour(&mut self)
        requires
            old(self).hour < u32::MAX,
        ensures
            *final(self) == (Counts { hour: (old(self).hour + 1) as u32, ..*old(self) }),
    {
        self.hour = self.hour + 1;
    }

    /// Sets every counter to the number of citizens of `map` in its state.
    pub fn recount(&mut self, map: &AgentLocationMap)
        requires
            map.agents@.len() < u32::MAX,
        ensures
            final(self).hour == old(self).hour,
            final(self).tallies(map.agents@),
    {
        self.susceptible = 0;
        self.exposed = 0;
        self.infected = 0;
        self.hospitalized = 0;
        self.recovered = 0;
        self.deceased = 0;
        let mut k: usize = 0;
        while k < map.agents.len()
            invariant
                k <= map.agents@.len() < u32::MAX,
                self.hour == old(self).hour,
                self.tallies(map.agents@.subrange(0, k as int)),
            decreases map.agents@.len() - k,
        {
            proof {
                lemma_counts_bounded(map.agents@.subrange(0, k as int));
                assert(map.agents@.subrange(0, k as int + 1).drop_last() =~= map.agents@.subrange(0, k as int));
            }
            Self::update_counts(self, &map.agents[k].1);
            k = k + 1;
        }
        assert(map.agents@.subrange(0, map.agents@.len() as int) =~= map.agents@);
    }

    /// Adds one citizen to the counter of its state.
    pub fn update_counts(counts: &mut Counts, citizen: &Citizen)
        requires
            old(counts).total() < u32::MAX,
        ensures
            final(counts).hour == old(counts).hour,
            final(counts).total() == old(counts).total() + 1,
            final(counts).susceptible == old(counts).susceptible + if category(*citizen) == 0 { 1int } else { 0 },
            final(counts).exposed == old(counts).exposed + if category(*citizen) == 1 { 1int } else { 0 },
            final(counts).infected == old(counts).infected + if category(*citizen) == 2 { 1int } else { 0 },
            final(counts).hospitalized == old(counts).hospitalized + if category(*citizen) == 3 { 1int } else { 0 },
            final(counts).recovered == old(counts).recovered + if category(*citizen) == 4 { 1int } else { 0 },
            final(counts).deceased == old(counts).deceased + if category(*citizen) == 5 { 1int } else { 0 },
    {
        match citizen.state_machine.state {
            State::Susceptible => counts.susceptible = counts.susceptible + 1,
            State::Exposed { .. } => counts.exposed = counts.exposed + 1,
            State::Infected { .. } => {
                if citizen.hospitalized {
                    counts.hospitalized = counts.hospitalized + 1;
                } else {
                    counts.infected = counts.infected + 1;
                }
            },
            State::Recovered => counts.recovered = counts.recovered + 1,
            State::Deceased => counts.deceased = counts.deceased + 1,
        }
    }
}

/// Every citizen falls under exactly one counter, so the counters of a tally add up to
/// the number of citizens.
pub proof fn lemma_counts_bounded(agents: Seq<(Point, Citizen)>)
    ensures
        count_category(agents, 0) + count_category(agents, 1) + count_category(agents, 2)
            + count_category(agents, 3) + count_category(agents, 4) + count_category(agents, 5)
            == agents.len(),
    decreases agents.len(),
{
    if agents.len() > 0 {
        lemma_counts_bounded(agents.drop_last());
    }
}

/// The counters of a tally sum to the population of the map.
pub proof fn lemma_tally_total(c: Counts, agents: Seq<(Point, Citizen)>)
    requires
        c.tallies(agents),
    ensures
        c.total() == agents.len(),
{
    lemma_counts_bounded(agents);
}

/// Citizens none of whom is exposed or infected count no active case.
pub proof fn lemma_no_active_cases_counted(agents: Seq<(Point, Citizen)>)
    requires
        forall|k: int| 0 <= k < agents.len() ==> !(#[trigger] agents[k]).1.state_machine.state.is_active(),
    ensures
        count_category(agents, 1) == 0,
        count_category(agents, 2) == 0,
        count_category(agents, 3) == 0,
    decreases agents.len(),
{
    if agents.len() > 0 {
        let rest = agents.drop_last();
        assert forall|k: int| 0 <= k < rest.len() implies !(#[trigger] rest[k]).1.state_machine.state.is_active() by {
            assert(rest[k] == agents[k]);
        }
        lemma_no_active_cases_counted(rest);
        assert(!agents[agents.len() - 1].1.state_machine.state.is_active());
    }
}

/// The counters of a map with no exposure or infection under way show no active case, so
/// a standalone run stops there.
pub proof fn lemma_no_active_cases_counts_zero(map: AgentLocationMap, counts: Counts)
    requires
        map.no_active_cases(),
        counts.tallies(map.agents@),
    ensures
        counts.exposed == 0 && counts.infected == 0 && counts.hospitalized == 0,
{
    lemma_no_active_cases_counted(map.agents@);
}

/// Two lists of placed citizens, position by position under the same counters.
pub open spec fn same_categories(a: Seq<(Point, Citizen)>, b: Seq<(Point, Citizen)>) -> bool {
    a.len() == b.len() && forall|k: int| 0 <= k < a.len() ==> category((#[trigger] a[k]).1) == category(b[k].1)
}

/// Lists under the same counters position by position have the same tally.
pub proof fn lemma_same_categories_tally(a: Seq<(Point, Citizen)>, b: Seq<(Point, Citizen)>, c: Counts)
    requires
        same_categories(a, b),
        c.tallies(a),
    ensures
        c.tallies(b),
{
    assert forall|cat: int| count_category(a, cat) == count_category(b, cat) by {
        lemma_same_categories_count(a, b, cat);
    }
}

proof fn lemma_same_categories_count(a: Seq<(Point, Citizen)>, b: Seq<(Point, Citizen)>, cat: int)
    requires
        same_categories(a, b),
    ensures
        count_category(a, cat) == count_category(b, cat),
    decreases a.len(),
{
    if a.len() > 0 {
        assert(same_categories(a.drop_last(), b.drop_last())) by {
            assert forall|k: int| 0 <= k < a.drop_last().len() implies category((#[trigger] a.drop_last()[k]).1)
                == category(b.drop_last()[k].1) by {
                assert(a.drop_last()[k] == a[k]);
                assert(b.drop_last()[k] == b[k]);
            }
        }
        lemma_same_categories_count(a.drop_last(), b.drop_last(), cat);
        assert(category(a.last().1) == category(b.last().1)) by {
            assert(category(a[a.len() - 1].1) == category(b[a.len() - 1].1));
        }
    }
}

} // verus!
