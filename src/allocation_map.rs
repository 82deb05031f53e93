//! The authoritative placement of a region's citizens on its grid: at most one citizen
//! per cell, every citizen inside one of the grid's areas.
use crate::citizen::{
    advanced_day, citizen_from_commuter, citizen_from_migrator, commuter_of, legal_step, migrator_of, Citizen,
};
use crate::disease_state_machine::DiseaseStateMachine;
use crate::constants::{
    IMMUNITY_MAX, IMMUNITY_MIN, PPM, ROUTINE_TRAVEL_END_TIME, ROUTINE_TRAVEL_START_TIME,
};
use crate::counts::Counts;
use crate::disease::Disease;
use crate::geography::{Area, Grid, Point};
use crate::random_wrapper::RandomWrapper;
use crate::travel::{Commuter, Migrator};
use vstd::prelude::*;

verus! {

pub struct AgentLocationMap {
    pub grid: Grid,
    /// Each citizen with its cell.
    pub agents: Vec<(Point, Citizen)>,
}

impl Grid {
    /// `p` lies in one of the four areas.
    pub open spec fn spec_in_grid(self, p: Point) -> bool {
        self.housing_area.spec_contains(p) || self.transport_area.spec_contains(p)
            || self.work_area.spec_contains(p) || self.hospital_area.spec_contains(p)
    }

    pub fn is_point_in_grid(&self, p: &Point) -> (r: bool)
        ensures
            r == self.spec_in_grid(*p),
    {
        self.housing_area.contains(p) || self.transport_area.contains(p) || self.work_area.contains(p)
            || self.hospital_area.contains(p)
    }
}

/// The cells of a list of placed citizens.
pub open spec fn cells_of(agents: Seq<(Point, Citizen)>) -> Seq<Point> {
    agents.map_values(|a: (Point, Citizen)| a.0)
}

/// No two citizens share a cell.
pub open spec fn distinct_cells(agents: Seq<(Point, Citizen)>) -> bool {
    forall|i: int, j: int|
        0 <= i < agents.len() && 0 <= j < agents.len() && i != j ==> (#[trigger] agents[i]).0 != (
        #[trigger] agents[j]).0
}

/// Why arriving citizens could not be taken in.
#[derive(Copy, Clone, Debug, PartialEq, Eq, Structural)]
pub enum AssimilationError {
    /// An arriving citizen's immunity lies outside the immunity range.
    InvalidImmunity,
    /// Every cell of the area that should receive a citizen is taken.
    NoVacantCell,
}

/// A placed citizen stays unless its cell is among `cells`.
pub open spec fn stays(cells: Seq<Point>) -> spec_fn((Point, Citizen)) -> bool {
    |a: (Point, Citizen)| !cells.contains(a.0)
}

/// A placed citizen leaves when its cell is among `cells`.
pub open spec fn leaves(cells: Seq<Point>) -> spec_fn((Point, Citizen)) -> bool {
    |a: (Point, Citizen)| cells.contains(a.0)
}

/// Every placed citizen either stays or leaves.
pub proof fn lemma_stay_or_leave(agents: Seq<(Point, Citizen)>, cells: Seq<Point>)
    ensures
        agents.filter(stays(cells)).len() + agents.filter(leaves(cells)).len() == agents.len(),
    decreases agents.len(),
{
    reveal(Seq::filter);
    if agents.len() > 0 {
        lemma_stay_or_leave(agents.drop_last(), cells);
    }
}

/// Counters that tally the map after an exchange (the citizens on `leaving` cells taken
/// out, `arrived` taken in) add up to the population before it, less those who left, plus
/// those who arrived.
pub proof fn lemma_population_balance(
    before: Seq<(Point, Citizen)>,
    leaving: Seq<Point>,
    arrived: Seq<(Point, Citizen)>,
    counts: Counts,
)
    requires
        counts.tallies(before.filter(stays(leaving)) + arrived),
    ensures
        counts.total() == before.len() - before.filter(leaves(leaving)).len() + arrived.len(),
{
    crate::counts::lemma_tally_total(counts, before.filter(stays(leaving)) + arrived);
    lemma_stay_or_leave(before, leaving);
}

/// The citizen leaves as a commuter at `hour` from the region named `region`: a mobile
/// local worker employed elsewhere when the working day starts, a mobile visitor from
/// another region when it ends.
pub open spec fn commutes_now(c: Citizen, region: Seq<char>, hour: u32) -> bool {
    &&& c.spec_can_move()
    &&& {
        ||| (hour % 24 == ROUTINE_TRAVEL_START_TIME && c.working && c.home_location.location_id@ == region
            && c.work_location.location_id@ != region)
        ||| (hour % 24 == ROUTINE_TRAVEL_END_TIME && c.home_location.location_id@ != region)
    }
}

/// The commuters leaving from `agents`, in map order, each with its cell.
pub open spec fn commuters_leaving(agents: Seq<(Point, Citizen)>, region: Seq<char>, hour: u32) -> Seq<(Point, Commuter)>
    decreases agents.len(),
{
    if agents.len() == 0 {
        Seq::empty()
    } else {
        let rest = commuters_leaving(agents.drop_last(), region, hour);
        if commutes_now(agents.last().1, region, hour) {
            rest.push((agents.last().0, commuter_of(agents.last().1)))
        } else {
            rest
        }
    }
}

/// The cells, at the start of the hour, of the citizens who were not infected in `before`
/// and are in `after` (the same citizens, position by position), in map order.
pub open spec fn newly_infected(before: Seq<(Point, Citizen)>, after: Seq<(Point, Citizen)>) -> Seq<Point>
    decreases after.len(),
{
    if after.len() == 0 {
        Seq::empty()
    } else {
        let n = after.len() - 1;
        let rest = newly_infected(before, after.drop_last());
        if !(before[n].1.state_machine.state is Infected) && after[n].1.state_machine.state is Infected {
            rest.push(before[n].0)
        } else {
            rest
        }
    }
}

/// `e` is a migrator made of a citizen placed at the cell `e.0`.
pub open spec fn migrates_from(agents: Seq<(Point, Citizen)>, e: (Point, Migrator)) -> bool {
    exists|k: int| 0 <= k < agents.len() && (#[trigger] agents[k]).0 == e.0 && e.1 == migrator_of(agents[k].1)
}

impl AgentLocationMap {
    pub open spec fn spec_vacant(&self, p: Point) -> bool {
        forall|k: int| 0 <= k < self.agents@.len() ==> (#[trigger] self.agents@[k]).0 != p
    }

    /// A citizen at `cell` may end the hour at `r`: it stays, or `r` is a free cell of the grid.
    pub open spec fn lands(&self, cell: Point, r: Point) -> bool {
        r == cell || (self.spec_vacant(r) && self.grid.spec_in_grid(r))
    }

    pub open spec fn wf(&self) -> bool {
        &&& self.grid.wf()
        &&& self.agents@.len() < u32::MAX
        &&& distinct_cells(self.agents@)
        &&& forall|k: int| 0 <= k < self.agents@.len() ==> self.grid.spec_in_grid(#[trigger] self.agents@[k].0)
        &&& forall|k: int| 0 <= k < self.agents@.len() ==> (#[trigger] self.agents@[k]).1.immunity_in_range()
    }

    pub fn current_population(&self) -> (r: u32)
        requires
            self.wf(),
        ensures
            r == self.agents@.len(),
    {
        self.agents.len() as u32
    }

    pub fn is_cell_vacant(&self, p: &Point) -> (r: bool)
        ensures
            r == self.spec_vacant(*p),
    {
        let mut k: usize = 0;
        while k < self.agents.len()
            invariant
                k <= self.agents@.len(),
                forall|k2: int| 0 <= k2 < k ==> (#[trigger] self.agents@[k2]).0 != *p,
            decreases self.agents@.len() - k,
        {
            if self.agents[k].0 == *p {
                return false;
            }
            k = k + 1;
        }
        true
    }

    /// The citizen at `p`, if any.
    pub fn get_agent_for(&self, p: &Point) -> (r: Option<&Citizen>)
        ensures
            r is None <==> self.spec_vacant(*p),
            r is Some ==> exists|k: int|
                0 <= k < self.agents@.len() && (#[trigger] self.agents@[k]).0 == *p && self.agents@[k].1
                    == *r->0,
    {
        let mut k: usize = 0;
        while k < self.agents.len()
            invariant
                k <= self.agents@.len(),
                forall|k2: int| 0 <= k2 < k ==> (#[trigger] self.agents@[k2]).0 != *p,
            decreases self.agents@.len() - k,
        {
            if self.agents[k].0 == *p {
                return Some(&self.agents[k].1);
            }
            k = k + 1;
        }
        None
    }

    /// `to` when it is a free cell of the grid, else `from`.
    pub fn move_agent(&self, from: Point, to: Point) -> (r: Point)
        ensures
            r == if self.spec_vacant(to) && self.grid.spec_in_grid(to) { to } else { from },
            self.lands(from, r),
    {
        if self.grid.is_point_in_grid(&to) && self.is_cell_vacant(&to) {
            to
        } else {
            from
        }
    }

    /// A free cell of the grid: the citizen there could be placed at `p`.
    pub open spec fn spec_free(&self, p: Point) -> bool {
        self.spec_vacant(p) && self.grid.spec_in_grid(p)
    }

    /// The first free cell of the grid in `area`, row by row, if there is one.
    pub fn first_vacant_in(&self, area: &Area) -> (r: Option<Point>)
        ensures
            r is Some ==> area.spec_contains(r->0) && self.spec_free(r->0),
            r is None ==> forall|p: Point| area.spec_contains(p) ==> !self.spec_free(p),
    {
        if area.start_offset.x > area.end_offset.x || area.start_offset.y > area.end_offset.y {
            return None;
        }
        let mut y: i32 = area.start_offset.y;
        loop
            invariant
                area.start_offset.x <= area.end_offset.x,
                area.start_offset.y <= y <= area.end_offset.y,
                forall|p: Point| area.spec_contains(p) && p.y < y ==> !self.spec_free(p),
            decreases area.end_offset.y - y,
        {
            let mut x: i32 = area.start_offset.x;
            loop
                invariant
                    area.start_offset.x <= x <= area.end_offset.x,
                    area.start_offset.y <= y <= area.end_offset.y,
                    forall|p: Point| area.spec_contains(p) && (p.y < y || (p.y == y && p.x < x)) ==> !self.spec_free(p),
                ensures
                    forall|p: Point| area.spec_contains(p) && p.y <= y ==> !self.spec_free(p),
                decreases area.end_offset.x - x,
            {
                let p = Point { x, y };
                if self.grid.is_point_in_grid(&p) && self.is_cell_vacant(&p) {
                    return Some(p);
                }
                if x == area.end_offset.x {
                    break;
                }
                x = x + 1;
            }
            if y == area.end_offset.y {
                return None;
            }
            y = y + 1;
        }
    }

    /// Moves a citizen at `from` to the first free hospital cell: (true, that cell), or
    /// (false, `from`) when the hospital is full.
    pub fn goto_hospital(&self, from: Point) -> (r: (bool, Point))
        ensures
            r.0 ==> self.grid.hospital_area.spec_contains(r.1) && self.spec_free(r.1),
            !r.0 ==> r.1 == from && forall|p: Point|
                self.grid.hospital_area.spec_contains(p) ==> !self.spec_free(p),
            self.lands(from, r.1),
    {
        match self.first_vacant_in(&self.grid.hospital_area) {
            Some(p) => (true, p),
            None => (false, from),
        }
    }

    /// Every isolated citizen stands in its home area or in the hospital.
    pub open spec fn isolated_at_home_or_hospital(&self) -> bool {
        forall|k: int|
            0 <= k < self.agents@.len() && (#[trigger] self.agents@[k]).1.isolated ==> self.agents@[k].1.home_location.spec_contains(
                self.agents@[k].0,
            ) || self.grid.hospital_area.spec_contains(self.agents@[k].0)
    }

    pub open spec fn no_active_cases(&self) -> bool {
        forall|k: int| 0 <= k < self.agents@.len() ==> !(#[trigger] self.agents@[k]).1.state_machine.state.is_active()
    }

    /// A map over `grid` holding `agents` at their cells; `None` when two citizens share a
    /// cell, a cell lies outside the grid's areas, or an immunity is out of range.
    pub fn new(grid: Grid, agents: Vec<(Point, Citizen)>) -> (r: Option<AgentLocationMap>)
        requires
            grid.wf(),
            agents@.len() < u32::MAX,
        ensures
            r is Some <==> {
                &&& distinct_cells(agents@)
                &&& forall|k: int| 0 <= k < agents@.len() ==> grid.spec_in_grid(#[trigger] agents@[k].0)
                &&& forall|k: int| 0 <= k < agents@.len() ==> (#[trigger] agents@[k]).1.immunity_in_range()
            },
            r is Some ==> r->0.wf() && r->0.grid == grid && r->0.agents == agents,
    {
        let mut k: usize = 0;
        while k < agents.len()
            invariant
                k <= agents@.len(),
                distinct_cells(agents@.subrange(0, k as int)),
                forall|i: int| 0 <= i < k ==> grid.spec_in_grid(#[trigger] agents@[i].0),
                forall|i: int| 0 <= i < k ==> (#[trigger] agents@[i]).1.immunity_in_range(),
            decreases agents@.len() - k,
        {
            let p = agents[k].0;
            let immunity = agents[k].1.immunity;
            if !grid.is_point_in_grid(&p) || immunity < IMMUNITY_MIN || immunity > IMMUNITY_MAX {
                return None;
            }
            let mut i: usize = 0;
            while i < k
                invariant
                    i <= k < agents@.len(),
                    p == agents@[k as int].0,
                    forall|i2: int| 0 <= i2 < i ==> (#[trigger] agents@[i2]).0 != agents@[k as int].0,
                decreases k - i,
            {
                if agents[i].0 == p {
                    proof {
                        assert(!distinct_cells(agents@)) by {
                            assert(agents@[i as int].0 == agents@[k as int].0);
                        }
                    }
                    return None;
                }
                i = i + 1;
            }
            proof {
                let s = agents@.subrange(0, k as int + 1);
                assert forall|a: int, b: int| 0 <= a < s.len() && 0 <= b < s.len() && a != b implies (#[trigger] s[a]).0 != (#[trigger] s[b]).0 by {
                    if a < k && b < k {
                        assert(agents@.subrange(0, k as int)[a] == s[a]);
                        assert(agents@.subrange(0, k as int)[b] == s[b]);
                    }
                }
            }
            k = k + 1;
        }
        assert(agents@.subrange(0, agents@.len() as int) =~= agents@);
        Some(AgentLocationMap { grid, agents })
    }

    fn vacant_among(placed: &Vec<(Point, Citizen)>, p: Point) -> (r: bool)
        ensures
            r == forall|i: int| 0 <= i < placed@.len() ==> (#[trigger] placed@[i]).0 != p,
    {
        let mut i: usize = 0;
        while i < placed.len()
            invariant
                i <= placed@.len(),
                forall|i2: int| 0 <= i2 < i ==> (#[trigger] placed@[i2]).0 != p,
            decreases placed@.len() - i,
        {
            if placed[i].0 == p {
                return false;
            }
            i = i + 1;
        }
        true
    }

    /// Runs one hour: each citizen, in the map's order, decides on its routine against the
    /// map as it stood at the start of the hour and then takes the cell it chose, or keeps
    /// its own when a citizen before it took that cell this hour. Recounts the disease
    /// states, returns the cells of citizens newly infected, and appends the citizens who
    /// leave: at the first hour of a day each mobile citizen who is not hospital staff with
    /// `percent_outgoing` (parts per million) as a migrator; when the working day starts,
    /// the mobile local workers employed in another region, and when it ends, the mobile
    /// visitors from another region, as commuters.
    pub fn simulate(
        &mut self,
        counts: &mut Counts,
        simulation_hour: u32,
        rng: &mut RandomWrapper,
        disease: &Disease,
        percent_outgoing: u32,
        outgoing_migrators: &mut Vec<(Point, Migrator)>,
        outgoing_commuters: &mut Vec<(Point, Commuter)>,
        region_id: &String,
    ) -> (infected_cells: Vec<Point>)
        requires
            old(self).wf(),
            disease.wf(),
            percent_outgoing <= PPM,
        ensures
            final(self).wf(),
            final(self).grid == old(self).grid,
            final(self).agents@.len() == old(self).agents@.len(),
            final(counts).hour == old(counts).hour,
            final(counts).tallies(final(self).agents@),
            forall|k: int|
                0 <= k < old(self).agents@.len() ==> {
                    &&& (#[trigger] final(self).agents@[k]).1.same_person(&old(self).agents@[k].1)
                    &&& old(self).lands(old(self).agents@[k].0, final(self).agents@[k].0)
                    &&& legal_step(
                        old(self).agents@[k].1.state_machine.state,
                        final(self).agents@[k].1.state_machine.state,
                        old(self),
                        *disease,
                    )
                },
            old(self).no_active_cases() ==> final(self).no_active_cases(),
            forall|k: int|
                0 <= k < old(self).agents@.len() && old(self).agents@[k].1.isolated ==> {
                    let p = (#[trigger] final(self).agents@[k]).0;
                    p == old(self).agents@[k].0 || old(self).agents@[k].1.home_location.spec_contains(p)
                        || old(self).grid.hospital_area.spec_contains(p)
                },
            old(self).isolated_at_home_or_hospital() ==> final(self).isolated_at_home_or_hospital(),
            !old(self).grid.hospital_area.is_nonempty() ==> forall|k: int|
                0 <= k < old(self).agents@.len() && (#[trigger] final(self).agents@[k]).1.hospitalized
                    ==> old(self).agents@[k].1.hospitalized,
            final(outgoing_migrators)@.subrange(0, old(outgoing_migrators)@.len() as int) == old(outgoing_migrators)@,
            final(outgoing_commuters)@ == old(outgoing_commuters)@ + commuters_leaving(final(self).agents@, region_id@, simulation_hour),
            infected_cells@ == newly_infected(old(self).agents@, final(self).agents@),
            simulation_hour % 24 == 0 ==> forall|k: int|
                0 <= k < old(self).agents@.len() ==> (#[trigger] final(self).agents@[k]).1.state_machine == (DiseaseStateMachine {
                    infection_day: advanced_day(old(self).agents@[k].1.state_machine),
                    ..old(self).agents@[k].1.state_machine
                }),
            simulation_hour % 24 != 0 ==> final(outgoing_migrators)@ == old(outgoing_migrators)@,
            simulation_hour % 24 != ROUTINE_TRAVEL_START_TIME && simulation_hour % 24 != ROUTINE_TRAVEL_END_TIME
                ==> final(outgoing_commuters)@ == old(outgoing_commuters)@,
            forall|j: int|
                old(outgoing_migrators)@.len() <= j < final(outgoing_migrators)@.len() ==> migrates_from(
                    final(self).agents@,
                    #[trigger] final(outgoing_migrators)@[j],
                ),
    {
        let n = self.agents.len();
        let hour_of_day = simulation_hour % 24;
        let mut written: Vec<(Point, Citizen)> = Vec::new();
        let mut infected_cells: Vec<Point> = Vec::new();
        let mut k: usize = 0;
        while k < n
            invariant
                *self == *old(self),
                self.wf(),
                disease.wf(),
                percent_outgoing <= PPM,
                hour_of_day == simulation_hour % 24,
                n == self.agents@.len(),
                k <= n,
                written@.len() == k,
                distinct_cells(written@),
                forall|i: int|
                    0 <= i < k ==> {
                        &&& (#[trigger] written@[i]).1.same_person(&self.agents@[i].1)
                        &&& self.lands(self.agents@[i].0, written@[i].0)
                        &&& self.grid.spec_in_grid(written@[i].0)
                        &&& written@[i].1.immunity_in_range()
                        &&& legal_step(self.agents@[i].1.state_machine.state, written@[i].1.state_machine.state, self, *disease)
                        &&& written@[i].1.hospitalized && !self.agents@[i].1.hospitalized
                            ==> self.grid.hospital_area.is_nonempty()
                        &&& self.agents@[i].1.isolated ==> (written@[i].0 == self.agents@[i].0
                            || self.agents@[i].1.home_location.spec_contains(written@[i].0)
                            || self.grid.hospital_area.spec_contains(written@[i].0))
                    },
                outgoing_migrators@.subrange(0, old(outgoing_migrators)@.len() as int) == old(outgoing_migrators)@,
                outgoing_commuters@ == old(outgoing_commuters)@ + commuters_leaving(written@, region_id@, simulation_hour),
                infected_cells@ == newly_infected(self.agents@, written@),
                hour_of_day == 0 ==> forall|i: int|
                    0 <= i < k ==> (#[trigger] written@[i]).1.state_machine == (DiseaseStateMachine {
                        infection_day: advanced_day(self.agents@[i].1.state_machine),
                        ..self.agents@[i].1.state_machine
                    }),
                old(outgoing_migrators)@.len() <= outgoing_migrators@.len(),
                hour_of_day != 0 ==> outgoing_migrators@ == old(outgoing_migrators)@,
                hour_of_day != ROUTINE_TRAVEL_START_TIME && hour_of_day != ROUTINE_TRAVEL_END_TIME
                    ==> outgoing_commuters@ == old(outgoing_commuters)@,
                forall|j: int|
                    old(outgoing_migrators)@.len() <= j < outgoing_migrators@.len() ==> migrates_from(
                        written@,
                        #[trigger] outgoing_migrators@[j],
                    ),
            decreases n - k,
        {
            let cell = self.agents[k].0;
            let mut current = self.agents[k].1.copy();
            let was_infected = current.state_machine.is_infected();
            let point = current.perform_operation(cell, simulation_hour, &*self, rng, disease);
            if !was_infected && current.state_machine.is_infected() {
                infected_cells.push(cell);
            }
            let land = if point != cell && Self::vacant_among(&written, point) {
                point
            } else {
                cell
            };
            proof {
                assert forall|i: int| 0 <= i < written@.len() implies (#[trigger] written@[i]).0 != land by {
                    if land == cell {
                        assert(self.agents@[i].0 != self.agents@[k as int].0);
                    }
                }
            }
            let ghost before = written@;
            if hour_of_day == 0 && current.can_move() && !current.is_hospital_staff() && rng.gen_ratio(percent_outgoing, PPM) {
                outgoing_migrators.push((land, current.to_migrator()));
            }
            let commutes = current.can_move() && ((hour_of_day == ROUTINE_TRAVEL_START_TIME && current.working
                && current.home_location.location_id == *region_id && current.work_location.location_id != *region_id)
                || (hour_of_day == ROUTINE_TRAVEL_END_TIME && current.home_location.location_id != *region_id));
            if commutes {
                outgoing_commuters.push((land, current.to_commuter()));
            }
            written.push((land, current));
            proof {
                assert forall|j: int|
                    old(outgoing_migrators)@.len() <= j < outgoing_migrators@.len() implies migrates_from(
                        written@,
                        #[trigger] outgoing_migrators@[j],
                    ) by {
                    let e = outgoing_migrators@[j];
                    if e == (land, migrator_of(current)) {
                        assert(written@[k as int] == (land, current));
                    } else {
                        let i = choose|i: int| 0 <= i < before.len() && (#[trigger] before[i]).0 == e.0 && e.1 == migrator_of(before[i].1);
                        assert(written@[i] == before[i]);
                    }
                }
                assert(written@.drop_last() =~= before);
                assert(written@.last() == (land, current));
                if commutes {
                    assert(outgoing_commuters@ =~= old(outgoing_commuters)@ + commuters_leaving(written@, region_id@, simulation_hour));
                }
                if !was_infected && current.state_machine.state is Infected {
                    assert(infected_cells@ =~= newly_infected(self.agents@, written@));
                }
            }
            k = k + 1;
        }
        proof {
            if self.no_active_cases() {
                assert forall|i: int| 0 <= i < n implies !(#[trigger] written@[i]).1.state_machine.state.is_active() by {
                    assert(!self.agents@[i].1.state_machine.state.is_active());
                    if crate::citizen::any_infectious(self, *disease) {
                        let w = choose|w: int| 0 <= w < self.agents@.len() && (#[trigger] self.agents@[w]).1.is_infectious(*disease);
                        assert(!self.agents@[w].1.state_machine.state.is_active());
                    }
                }
            }
        }
        let ghost snapshot = *self;
        self.agents = written;
        proof {
            if snapshot.isolated_at_home_or_hospital() {
                assert forall|k: int|
                    0 <= k < self.agents@.len() && (#[trigger] self.agents@[k]).1.isolated implies self.agents@[k].1.home_location.spec_contains(
                        self.agents@[k].0,
                    ) || self.grid.hospital_area.spec_contains(self.agents@[k].0) by {
                    assert(snapshot.agents@[k].1.isolated);
                    assert(snapshot.agents@[k].1.home_location == self.agents@[k].1.home_location);
                }
            }
        }
        counts.recount(self);
        infected_cells
    }

    /// Takes out the citizens standing on any of `cells`, keeping the others in order.
    pub fn remove_cells(&mut self, cells: &Vec<Point>)
        requires
            old(self).wf(),
        ensures
            final(self).wf(),
            final(self).grid == old(self).grid,
            final(self).agents@ == old(self).agents@.filter(stays(cells@)),
    {
        let n = self.agents.len();
        let ghost pred = stays(cells@);
        let mut kept: Vec<(Point, Citizen)> = Vec::new();
        let ghost mut idx: Seq<int> = Seq::empty();
        let mut k: usize = 0;
        while k < n
            invariant
                *self == *old(self),
                self.wf(),
                n == self.agents@.len(),
                k <= n,
                pred == stays(cells@),
                kept@ == self.agents@.subrange(0, k as int).filter(pred),
                idx.len() == kept@.len(),
                forall|t: int| 0 <= t < idx.len() ==> 0 <= #[trigger] idx[t] < k && kept@[t] == self.agents@[idx[t]],
                forall|a: int, b: int| 0 <= a < b < idx.len() ==> #[trigger] idx[a] < #[trigger] idx[b],
            decreases n - k,
        {
            proof {
                assert(self.agents@.subrange(0, k as int + 1).drop_last() =~= self.agents@.subrange(0, k as int));
                reveal(Seq::filter);
            }
            let p = self.agents[k].0;
            if !Self::contains_point(cells, p) {
                kept.push((p, self.agents[k].1.copy()));
                proof {
                    idx = idx.push(k as int);
                }
            }
            k = k + 1;
        }
        proof {
            assert(self.agents@.subrange(0, n as int) =~= self.agents@);
            assert forall|a: int, b: int| 0 <= a < kept@.len() && 0 <= b < kept@.len() && a != b implies (#[trigger] kept@[a]).0
                != (#[trigger] kept@[b]).0 by {
                if a < b {
                    assert(idx[a] < idx[b]);
                } else {
                    assert(idx[b] < idx[a]);
                }
            }
            assert forall|t: int| 0 <= t < kept@.len() implies self.grid.spec_in_grid(#[trigger] kept@[t].0) by {
                assert(kept@[t] == self.agents@[idx[t]]);
            }
            assert forall|t: int| 0 <= t < kept@.len() implies (#[trigger] kept@[t]).1.immunity_in_range() by {
                assert(kept@[t] == self.agents@[idx[t]]);
            }
            broadcast use vstd::seq_lib::group_filter_ensures;
        }
        self.agents = kept;
    }

    fn contains_point(cells: &Vec<Point>, p: Point) -> (r: bool)
        ensures
            r == cells@.contains(p),
    {
        let mut i: usize = 0;
        while i < cells.len()
            invariant
                i <= cells@.len(),
                forall|i2: int| 0 <= i2 < i ==> cells@[i2] != p,
            decreases cells@.len() - i,
        {
            if cells[i] == p {
                assert(cells@[i as int] == p);
                return true;
            }
            i = i + 1;
        }
        false
    }

    /// Takes out the citizens leaving as `outgoing` migrators and recounts.
    pub fn remove_migrators(&mut self, outgoing: &Vec<(Point, Migrator)>, counts: &mut Counts)
        requires
            old(self).wf(),
        ensures
            final(self).wf(),
            final(self).grid == old(self).grid,
            final(self).agents@ == old(self).agents@.filter(stays(outgoing@.map_values(|e: (Point, Migrator)| e.0))),
            final(counts).hour == old(counts).hour,
            final(counts).tallies(final(self).agents@),
    {
        let mut cells: Vec<Point> = Vec::new();
        let mut i: usize = 0;
        while i < outgoing.len()
            invariant
                i <= outgoing@.len(),
                cells@ == outgoing@.subrange(0, i as int).map_values(|e: (Point, Migrator)| e.0),
            decreases outgoing@.len() - i,
        {
            cells.push(outgoing[i].0);
            i = i + 1;
            assert(cells@ =~= outgoing@.subrange(0, i as int).map_values(|e: (Point, Migrator)| e.0));
        }
        assert(outgoing@.subrange(0, outgoing@.len() as int) =~= outgoing@);
        self.remove_cells(&cells);
        counts.recount(self);
    }

    /// Takes out the citizens leaving as `outgoing` commuters and recounts.
    pub fn remove_commuters(&mut self, outgoing: &Vec<(Point, Commuter)>, counts: &mut Counts)
        requires
            old(self).wf(),
        ensures
            final(self).wf(),
            final(self).grid == old(self).grid,
            final(self).agents@ == old(self).agents@.filter(stays(outgoing@.map_values(|e: (Point, Commuter)| e.0))),
            final(counts).hour == old(counts).hour,
            final(counts).tallies(final(self).agents@),
    {
        let mut cells: Vec<Point> = Vec::new();
        let mut i: usize = 0;
        while i < outgoing.len()
            invariant
                i <= outgoing@.len(),
                cells@ == outgoing@.subrange(0, i as int).map_values(|e: (Point, Commuter)| e.0),
            decreases outgoing@.len() - i,
        {
            cells.push(outgoing[i].0);
            i = i + 1;
            assert(cells@ =~= outgoing@.subrange(0, i as int).map_values(|e: (Point, Commuter)| e.0));
        }
        assert(outgoing@.subrange(0, outgoing@.len() as int) =~= outgoing@);
        self.remove_cells(&cells);
        counts.recount(self);
    }

    /// A free cell of the grid in `area`: a few uniform draws first, then the first free
    /// cell row by row; `None` only when the area has no free cell.
    pub fn find_free_cell(&self, area: &Area, rng: &mut RandomWrapper) -> (r: Option<Point>)
        ensures
            r is Some ==> area.spec_contains(r->0) && self.spec_free(r->0),
            r is None ==> forall|p: Point| area.spec_contains(p) ==> !self.spec_free(p),
    {
        if !area.has_cells() {
            return None;
        }
        let mut tries: u32 = 0;
        while tries < 3
            invariant
                area.is_nonempty(),
            decreases 3 - tries,
        {
            let p = area.get_random_point(rng);
            if self.grid.is_point_in_grid(&p) && self.is_cell_vacant(&p) {
                return Some(p);
            }
            tries = tries + 1;
        }
        self.first_vacant_in(area)
    }

    /// Places `citizen` on the free cell `p`.
    fn place(&mut self, p: Point, citizen: Citizen)
        requires
            old(self).wf(),
            old(self).spec_free(p),
            citizen.immunity_in_range(),
            old(self).agents@.len() + 1 < u32::MAX,
        ensures
            final(self).wf(),
            final(self).grid == old(self).grid,
            final(self).agents@ == old(self).agents@.push((p, citizen)),
    {
        self.agents.push((p, citizen));
    }

    fn immunities_valid(immunities: &Vec<i32>) -> (r: bool)
        ensures
            r == forall|j: int| 0 <= j < immunities@.len() ==> IMMUNITY_MIN <= #[trigger] immunities@[j] <= IMMUNITY_MAX,
    {
        let mut j: usize = 0;
        while j < immunities.len()
            invariant
                j <= immunities@.len(),
                forall|j2: int| 0 <= j2 < j ==> IMMUNITY_MIN <= #[trigger] immunities@[j2] <= IMMUNITY_MAX,
            decreases immunities@.len() - j,
        {
            if immunities[j] < IMMUNITY_MIN || immunities[j] > IMMUNITY_MAX {
                return false;
            }
            j = j + 1;
        }
        true
    }

    /// Takes in arriving migrators, in order, each on a free cell of the housing area, with
    /// the housing area as home, work and current area. Refuses all of them when one has an
    /// immunity out of range; stops at the first that finds the housing area full.
    pub fn assimilate_migrators(
        &mut self,
        incoming: &Vec<Migrator>,
        counts: &mut Counts,
        rng: &mut RandomWrapper,
    ) -> (r: Result<(), AssimilationError>)
        requires
            old(self).wf(),
            old(self).agents@.len() + incoming@.len() + 1 < u32::MAX,
        ensures
            final(self).wf(),
            final(self).grid == old(self).grid,
            final(counts).hour == old(counts).hour,
            final(counts).tallies(final(self).agents@),
            (r == Err::<(), AssimilationError>(AssimilationError::InvalidImmunity)) <==> exists|j: int|
                0 <= j < incoming@.len() && !(IMMUNITY_MIN <= (#[trigger] incoming@[j]).immunity <= IMMUNITY_MAX),
            r == Err::<(), AssimilationError>(AssimilationError::InvalidImmunity) ==> final(self).agents@ == old(self).agents@,
            final(self).agents@.subrange(0, old(self).agents@.len() as int) == old(self).agents@,
            r is Ok ==> final(self).agents@.len() == old(self).agents@.len() + incoming@.len(),
            forall|j: int|
                0 <= j < final(self).agents@.len() - old(self).agents@.len() ==> {
                    let placed = #[trigger] final(self).agents@[old(self).agents@.len() + j];
                    &&& j < incoming@.len()
                    &&& old(self).grid.housing_area.spec_contains(placed.0)
                    &&& placed.1 == citizen_from_migrator(
                        incoming@[j],
                        old(self).grid.housing_area,
                        old(self).grid.housing_area,
                        placed.0,
                        old(self).grid.housing_area,
                    )
                },
            r == Err::<(), AssimilationError>(AssimilationError::NoVacantCell) ==> forall|p: Point|
                old(self).grid.housing_area.spec_contains(p) ==> !final(self).spec_free(p),
    {
        let mut immunities: Vec<i32> = Vec::new();
        let mut j: usize = 0;
        while j < incoming.len()
            invariant
                j <= incoming@.len(),
                immunities@.len() == j,
                *counts == *old(counts),
                forall|j2: int| 0 <= j2 < j ==> #[trigger] immunities@[j2] == incoming@[j2].immunity,
            decreases incoming@.len() - j,
        {
            immunities.push(incoming[j].immunity);
            j = j + 1;
        }
        if !Self::immunities_valid(&immunities) {
            proof {
                let j = choose|j: int| 0 <= j < immunities@.len() && !(IMMUNITY_MIN <= #[trigger] immunities@[j] <= IMMUNITY_MAX);
                assert(!(IMMUNITY_MIN <= incoming@[j].immunity <= IMMUNITY_MAX));
            }
            counts.recount(self);
            return Err(AssimilationError::InvalidImmunity);
        }
        assert forall|j2: int| 0 <= j2 < incoming@.len() implies IMMUNITY_MIN <= (#[trigger] incoming@[j2]).immunity <= IMMUNITY_MAX by {
            assert(immunities@[j2] == incoming@[j2].immunity);
        }
        let ghost start = self.agents@;
        let mut j: usize = 0;
        while j < incoming.len()
            invariant
                self.wf(),
                self.grid == old(self).grid,
                *counts == *old(counts),
                j <= incoming@.len(),
                start == old(self).agents@,
                self.agents@.len() == start.len() + j,
                start.len() + incoming@.len() + 1 < u32::MAX,
                self.agents@.subrange(0, start.len() as int) == start,
                forall|j2: int| 0 <= j2 < incoming@.len() ==> IMMUNITY_MIN <= (#[trigger] incoming@[j2]).immunity <= IMMUNITY_MAX,
                forall|j2: int|
                    0 <= j2 < j ==> {
                        let placed = #[trigger] self.agents@[start.len() + j2];
                        &&& old(self).grid.housing_area.spec_contains(placed.0)
                        &&& placed.1 == citizen_from_migrator(
                            incoming@[j2],
                            old(self).grid.housing_area,
                            old(self).grid.housing_area,
                            placed.0,
                            old(self).grid.housing_area,
                        )
                    },
            decreases incoming@.len() - j,
        {
            assert(IMMUNITY_MIN <= incoming@[j as int].immunity <= IMMUNITY_MAX);
            match self.find_free_cell(&self.grid.housing_area, rng) {
                Some(p) => {
                    let housing = self.grid.housing_area.copy();
                    let citizen = Citizen::from_migrator(&incoming[j], housing.copy(), housing.copy(), p, housing);
                    let ghost before = self.agents@;
                    self.place(p, citizen);
                    proof {
                        assert(self.agents@.subrange(0, start.len() as int) =~= before.subrange(0, start.len() as int));
                        assert forall|j2: int| 0 <= j2 < j implies #[trigger] self.agents@[start.len() + j2] == before[start.len() + j2] by {}
                    }
                },
                None => {
                    counts.recount(self);
                    return Err(AssimilationError::NoVacantCell);
                },
            }
            j = j + 1;
        }
        counts.recount(self);
        Ok(())
    }

    /// Takes in arriving commuters, in order: when the working day starts they arrive for
    /// work on a free cell of the work area, which becomes their current area; otherwise
    /// they come home to a free cell of their home area. Refuses all of them when one has
    /// an immunity out of range; stops at the first that finds its area full.
    pub fn assimilate_commuters(
        &mut self,
        incoming: &Vec<Commuter>,
        counts: &mut Counts,
        rng: &mut RandomWrapper,
        simulation_hour: u32,
    ) -> (r: Result<(), AssimilationError>)
        requires
            old(self).wf(),
            old(self).agents@.len() + incoming@.len() + 1 < u32::MAX,
        ensures
            final(self).wf(),
            final(self).grid == old(self).grid,
            final(counts).hour == old(counts).hour,
            final(counts).tallies(final(self).agents@),
            (r == Err::<(), AssimilationError>(AssimilationError::InvalidImmunity)) <==> exists|j: int|
                0 <= j < incoming@.len() && !(IMMUNITY_MIN <= (#[trigger] incoming@[j]).immunity <= IMMUNITY_MAX),
            r == Err::<(), AssimilationError>(AssimilationError::InvalidImmunity) ==> final(self).agents@ == old(self).agents@,
            final(self).agents@.subrange(0, old(self).agents@.len() as int) == old(self).agents@,
            r is Ok ==> final(self).agents@.len() == old(self).agents@.len() + incoming@.len(),
            forall|j: int|
                0 <= j < final(self).agents@.len() - old(self).agents@.len() ==> {
                    let placed = #[trigger] final(self).agents@[old(self).agents@.len() + j];
                    let area = if simulation_hour % 24 == ROUTINE_TRAVEL_START_TIME {
                        old(self).grid.work_area
                    } else {
                        incoming@[j].home_location
                    };
                    &&& j < incoming@.len()
                    &&& area.spec_contains(placed.0)
                    &&& placed.1 == citizen_from_commuter(incoming@[j], placed.0, area)
                },
            r == Err::<(), AssimilationError>(AssimilationError::NoVacantCell) ==> {
                let j = final(self).agents@.len() - old(self).agents@.len();
                let area = if simulation_hour % 24 == ROUTINE_TRAVEL_START_TIME {
                    old(self).grid.work_area
                } else {
                    incoming@[j].home_location
                };
                &&& 0 <= j < incoming@.len()
                &&& forall|p: Point| area.spec_contains(p) ==> !final(self).spec_free(p)
            },
    {
        let mut immunities: Vec<i32> = Vec::new();
        let mut j: usize = 0;
        while j < incoming.len()
            invariant
                j <= incoming@.len(),
                immunities@.len() == j,
                *counts == *old(counts),
                forall|j2: int| 0 <= j2 < j ==> #[trigger] immunities@[j2] == incoming@[j2].immunity,
            decreases incoming@.len() - j,
        {
            immunities.push(incoming[j].immunity);
            j = j + 1;
        }
        if !Self::immunities_valid(&immunities) {
            proof {
                let j = choose|j: int| 0 <= j < immunities@.len() && !(IMMUNITY_MIN <= #[trigger] immunities@[j] <= IMMUNITY_MAX);
                assert(!(IMMUNITY_MIN <= incoming@[j].immunity <= IMMUNITY_MAX));
            }
            counts.recount(self);
            return Err(AssimilationError::InvalidImmunity);
        }
        let arriving_for_work = simulation_hour % 24 == ROUTINE_TRAVEL_START_TIME;
        assert forall|j2: int| 0 <= j2 < incoming@.len() implies IMMUNITY_MIN <= (#[trigger] incoming@[j2]).immunity <= IMMUNITY_MAX by {
            assert(immunities@[j2] == incoming@[j2].immunity);
        }
        let ghost start = self.agents@;
        let mut j: usize = 0;
        while j < incoming.len()
            invariant
                self.wf(),
                self.grid == old(self).grid,
                *counts == *old(counts),
                arriving_for_work == (simulation_hour % 24 == ROUTINE_TRAVEL_START_TIME),
                j <= incoming@.len(),
                start == old(self).agents@,
                self.agents@.len() == start.len() + j,
                start.len() + incoming@.len() + 1 < u32::MAX,
                self.agents@.subrange(0, start.len() as int) == start,
                forall|j2: int| 0 <= j2 < incoming@.len() ==> IMMUNITY_MIN <= (#[trigger] incoming@[j2]).immunity <= IMMUNITY_MAX,
                forall|j2: int|
                    0 <= j2 < j ==> {
                        let placed = #[trigger] self.agents@[start.len() + j2];
                        let area = if simulation_hour % 24 == ROUTINE_TRAVEL_START_TIME {
                            old(self).grid.work_area
                        } else {
                            incoming@[j2].home_location
                        };
                        &&& area.spec_contains(placed.0)
                        &&& placed.1 == citizen_from_commuter(incoming@[j2], placed.0, area)
                    },
            decreases incoming@.len() - j,
        {
            assert(IMMUNITY_MIN <= incoming@[j as int].immunity <= IMMUNITY_MAX);
            let area = if arriving_for_work {
                self.grid.work_area.copy()
            } else {
                incoming[j].home_location.copy()
            };
            match self.find_free_cell(&area, rng) {
                Some(p) => {
                    let citizen = Citizen::from_commuter(&incoming[j], p, area);
                    let ghost before = self.agents@;
                    self.place(p, citizen);
                    proof {
                        assert(self.agents@.subrange(0, start.len() as int) =~= before.subrange(0, start.len() as int));
                        assert forall|j2: int| 0 <= j2 < j implies #[trigger] self.agents@[start.len() + j2] == before[start.len() + j2] by {}
                    }
                },
                None => {
                    assert(area == (if simulation_hour % 24 == ROUTINE_TRAVEL_START_TIME {
                        old(self).grid.work_area
                    } else {
                        incoming@[j as int].home_location
                    }));
                    counts.recount(self);
                    return Err(AssimilationError::NoVacantCell);
                },
            }
            j = j + 1;
        }
        counts.recount(self);
        Ok(())
    }
}

} // verus!
