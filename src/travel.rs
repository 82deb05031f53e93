//! Citizens in flight between regions, grouped by destination, and the plans that say how
//! many leave for where.
use crate::constants::{PPM, ROUTINE_TRAVEL_END_TIME, ROUTINE_TRAVEL_START_TIME};
use crate::disease_state_machine::DiseaseStateMachine;
use crate::geography::{Area, Point};
use vstd::math::min;
use vstd::prelude::*;

verus! {

/// A citizen moving to another region for good: it carries no geometry, the receiving
/// region gives it a home of its own.
#[derive(Copy, Clone, Debug, PartialEq, Eq, Structural)]
pub struct Migrator {
    pub id: u128,
    pub immunity: i32,
    pub vaccinated: bool,
    pub uses_public_transport: bool,
    pub state_machine: DiseaseStateMachine,
}

/// A citizen travelling to work in another region and back; it keeps its home and work
/// areas, which name the two regions.
#[derive(Clone, Debug)]
pub struct Commuter {
    pub id: u128,
    pub immunity: i32,
    pub home_location: Area,
    pub work_location: Area,
    pub vaccinated: bool,
    pub uses_public_transport: bool,
    pub state_machine: DiseaseStateMachine,
}

impl Commuter {
    pub fn copy(&self) -> (r: Commuter)
        ensures
            r == *self,
    {
        Commuter {
            id: self.id,
            immunity: self.immunity,
            home_location: self.home_location.copy(),
            work_location: self.work_location.copy(),
            vaccinated: self.vaccinated,
            uses_public_transport: self.uses_public_transport,
            state_machine: self.state_machine,
        }
    }
}

/// The migrators bound for one region.
#[derive(Clone, Debug)]
pub struct MigratorsByRegion {
    pub to_engine_id: String,
    pub migrators: Vec<Migrator>,
}

impl MigratorsByRegion {
    pub fn create(to_engine_id: String, migrators: Vec<Migrator>) -> (r: MigratorsByRegion)
        ensures
            r == (MigratorsByRegion { to_engine_id, migrators }),
    {
        MigratorsByRegion { to_engine_id, migrators }
    }

    pub fn to_engine_id(&self) -> (r: &String)
        ensures
            r == &self.to_engine_id,
    {
        &self.to_engine_id
    }

    pub fn get_migrators(self) -> (r: Vec<Migrator>)
        ensures
            r == self.migrators,
    {
        self.migrators
    }
}

/// The commuters bound for one region.
#[derive(Clone, Debug)]
pub struct CommutersByRegion {
    pub to_engine_id: String,
    pub commuters: Vec<Commuter>,
}

/// Whether a commuter travelling at `hour` goes to the region named `region`: to its work
/// region when the working day starts, to its home region when it ends.
pub open spec fn bound_for(c: Commuter, region: Seq<char>, hour: u32) -> bool {
    ||| (hour % 24 == ROUTINE_TRAVEL_START_TIME && c.work_location.location_id@ == region)
    ||| (hour % 24 == ROUTINE_TRAVEL_END_TIME && c.home_location.location_id@ == region)
}

/// The commuters of `commuters` bound for `region` at `hour`, in order.
pub open spec fn commuters_for(commuters: Seq<(Point, Commuter)>, region: Seq<char>, hour: u32) -> Seq<Commuter>
    decreases commuters.len(),
{
    if commuters.len() == 0 {
        Seq::empty()
    } else {
        let rest = commuters_for(commuters.drop_last(), region, hour);
        if bound_for(commuters.last().1, region, hour) {
            rest.push(commuters.last().1)
        } else {
            rest
        }
    }
}

impl CommutersByRegion {
    pub fn new(to_engine_id: String, commuters: Vec<Commuter>) -> (r: CommutersByRegion)
        ensures
            r == (CommutersByRegion { to_engine_id, commuters }),
    {
        CommutersByRegion { to_engine_id, commuters }
    }

    pub fn to_engine_id(&self) -> (r: &String)
        ensures
            r == &self.to_engine_id,
    {
        &self.to_engine_id
    }

    pub fn get_commuters(self) -> (r: Vec<Commuter>)
        ensures
            r == self.commuters,
    {
        self.commuters
    }

    /// One bucket per region, in the order of `regions`, each holding the commuters bound
    /// for that region at `simulation_hour`, in their order.
    pub fn get_commuters_by_region(
        regions: &[String],
        commuters: &Vec<(Point, Commuter)>,
        simulation_hour: u32,
    ) -> (r: Vec<CommutersByRegion>)
        ensures
            r@.len() == regions@.len(),
            forall|i: int|
                0 <= i < regions@.len() ==> {
                    &&& (#[trigger] r@[i]).to_engine_id@ == regions@[i]@
                    &&& r@[i].commuters@ == commuters_for(commuters@, regions@[i]@, simulation_hour)
                },
    {
        let mut buckets: Vec<CommutersByRegion> = Vec::new();
        let mut i: usize = 0;
        while i < regions.len()
            invariant
                i <= regions@.len(),
                buckets@.len() == i,
                forall|i2: int|
                    0 <= i2 < i ==> {
                        &&& (#[trigger] buckets@[i2]).to_engine_id@ == regions@[i2]@
                        &&& buckets@[i2].commuters@ == commuters_for(commuters@, regions@[i2]@, simulation_hour)
                    },
            decreases regions@.len() - i,
        {
            let region = &regions[i];
            let mut for_region: Vec<Commuter> = Vec::new();
            let mut k: usize = 0;
            while k < commuters.len()
                invariant
                    k <= commuters@.len(),
                    for_region@ == commuters_for(commuters@.subrange(0, k as int), region@, simulation_hour),
                decreases commuters@.len() - k,
            {
                let commuter = &commuters[k].1;
                proof {
                    assert(commuters@.subrange(0, k as int + 1).drop_last() =~= commuters@.subrange(0, k as int));
                }
                let hour_of_day = simulation_hour % 24;
                if (hour_of_day == ROUTINE_TRAVEL_START_TIME && commuter.work_location.location_id == *region)
                    || (hour_of_day == ROUTINE_TRAVEL_END_TIME && commuter.home_location.location_id == *region) {
                    for_region.push(commuter.copy());
                }
                k = k + 1;
            }
            assert(commuters@.subrange(0, commuters@.len() as int) =~= commuters@);
            buckets.push(CommutersByRegion { to_engine_id: region.clone(), commuters: for_region });
            i = i + 1;
        }
        buckets
    }
}

/// Sum of `row[j]` over the columns `j < upto` other than `skip`.
pub open spec fn row_sum_except(row: Seq<u32>, skip: int, upto: int) -> int
    decreases upto,
{
    if upto <= 0 {
        0
    } else {
        row_sum_except(row, skip, upto - 1) + if upto - 1 == skip { 0 } else { row[upto - 1] as int }
    }
}

pub proof fn lemma_row_sum_bounds(row: Seq<u32>, skip: int, upto: int)
    requires
        0 <= upto <= row.len(),
    ensures
        0 <= row_sum_except(row, skip, upto) <= upto * 0xffff_ffff,
    decreases upto,
{
    if upto > 0 {
        lemma_row_sum_bounds(row, skip, upto - 1);
    }
}

/// The share of a population of `population` that leaves when `outgoing` citizens do, in
/// parts per million, at most one.
pub open spec fn outgoing_share(outgoing: int, population: int) -> int {
    if population == 0 {
        0
    } else if outgoing * PPM / population > PPM {
        PPM as int
    } else {
        outgoing * PPM / population
    }
}

/// A daily migration matrix over named regions: row `i`, column `j` is how many citizens
/// region `i` sends to region `j` each day.
pub struct MigrationPlan {
    pub regions: Vec<String>,
    pub matrix: Vec<Vec<u32>>,
}

impl MigrationPlan {
    pub open spec fn wf(&self) -> bool {
        &&& self.matrix@.len() == self.regions@.len()
        &&& forall|i: int| 0 <= i < self.matrix@.len() ==> (#[trigger] self.matrix@[i])@.len() == self.regions@.len()
    }

    pub fn new(regions: Vec<String>, matrix: Vec<Vec<u32>>) -> (r: MigrationPlan)
        ensures
            r == (MigrationPlan { regions, matrix }),
    {
        MigrationPlan { regions, matrix }
    }

    /// The position of the region named `name`, if it is one of the plan's.
    pub fn region_index(&self, name: &String) -> (r: Option<usize>)
        ensures
            r is Some ==> r->0 < self.regions@.len() && self.regions@[r->0 as int]@ == name@,
            r is None ==> forall|i: int| 0 <= i < self.regions@.len() ==> (#[trigger] self.regions@[i])@ != name@,
    {
        let mut i: usize = 0;
        while i < self.regions.len()
            invariant
                i <= self.regions@.len(),
                forall|i2: int| 0 <= i2 < i ==> (#[trigger] self.regions@[i2])@ != name@,
            decreases self.regions@.len() - i,
        {
            if self.regions[i] == *name {
                return Some(i);
            }
            i = i + 1;
        }
        None
    }
}

/// How many of the rows `i < upto` other than `me` have a positive entry in column `me`.
pub open spec fn incoming_count(m: Seq<Vec<u32>>, me: int, upto: int) -> int
    decreases upto,
{
    if upto <= 0 {
        0
    } else {
        incoming_count(m, me, upto - 1) + if upto - 1 != me && m[upto - 1]@[me] > 0 { 1int } else { 0 }
    }
}

/// Counts the regions other than `me` that send anyone to `me`.
fn count_incoming(matrix: &Vec<Vec<u32>>, me: usize, n: usize) -> (r: usize)
    requires
        n == matrix@.len(),
        me < n,
        forall|i: int| 0 <= i < n ==> (#[trigger] matrix@[i])@.len() == n,
    ensures
        r == incoming_count(matrix@, me as int, n as int),
{
    let mut count: usize = 0;
    let mut i: usize = 0;
    while i < n
        invariant
            n == matrix@.len(),
            me < n,
            forall|i2: int| 0 <= i2 < n ==> (#[trigger] matrix@[i2])@.len() == n,
            i <= n,
            count == incoming_count(matrix@, me as int, i as int),
            count <= i,
        decreases n - i,
    {
        if i != me && matrix[i][me] > 0 {
            count = count + 1;
        }
        i = i + 1;
    }
    count
}

/// Bucket `t` of the migrators that region `me` sends away holds, for its destination `j`
/// (the regions other than `me`, in order), the pool's migrators from position
/// `row_sum_except(row, me, j)` on, `row[j]` of them, as far as the pool reaches.
pub open spec fn bucket_for(
    b: MigratorsByRegion,
    regions: Seq<String>,
    row: Seq<u32>,
    me: int,
    t: int,
    pool: Seq<(Point, Migrator)>,
) -> bool {
    let j = if t < me { t } else { t + 1 };
    let from = min(row_sum_except(row, me, j), pool.len() as int);
    let to = min(row_sum_except(row, me, j) + row[j], pool.len() as int);
    &&& b.to_engine_id@ == regions[j]@
    &&& b.migrators@ == pool.subrange(from, to).map_values(|e: (Point, Migrator)| e.1)
}

/// One region's view of the migration plan.
pub struct EngineMigrationPlan {
    pub engine_id: String,
    pub migration_plan: Option<MigrationPlan>,
    pub current_population: u32,
}

impl EngineMigrationPlan {
    pub open spec fn wf(&self) -> bool {
        self.migration_plan is Some ==> self.migration_plan->0.wf()
    }

    pub fn new(engine_id: String, migration_plan: Option<MigrationPlan>, current_population: u32) -> (r: EngineMigrationPlan)
        ensures
            r == (EngineMigrationPlan { engine_id, migration_plan, current_population }),
    {
        EngineMigrationPlan { engine_id, migration_plan, current_population }
    }

    pub fn set_current_population(&mut self, current_population: u32)
        ensures
            *final(self) == (EngineMigrationPlan { current_population, ..*old(self) }),
    {
        self.current_population = current_population;
    }

    fn row_total(row: &Vec<u32>, skip: usize) -> (r: u128)
        ensures
            r == row_sum_except(row@, skip as int, row@.len() as int),
    {
        let mut total: u128 = 0;
        let mut j: usize = 0;
        while j < row.len()
            invariant
                j <= row@.len(),
                total == row_sum_except(row@, skip as int, j as int),
            decreases row@.len() - j,
        {
            proof {
                lemma_row_sum_bounds(row@, skip as int, j as int);
                assert(j * 0xffff_ffff <= 0x1_0000_0000_0000_0000 * 0xffff_ffff) by (nonlinear_arith)
                    requires
                        j <= 0x1_0000_0000_0000_0000,
                ;
            }
            if j != skip {
                total = total + row[j] as u128;
            }
            j = j + 1;
        }
        total
    }

    /// The share of the current population (parts per million, at most one) that this
    /// region sends away each day; zero without a plan or when the region is not in it.
    pub fn percent_outgoing(&self) -> (r: u32)
        requires
            self.wf(),
        ensures
            r <= PPM,
            match self.migration_plan {
                Some(plan) => {
                    ||| (exists|i: int| 0 <= i < plan.regions@.len() && (#[trigger] plan.regions@[i])@ == self.engine_id@
                        && r == outgoing_share(row_sum_except(plan.matrix@[i]@, i, plan.regions@.len() as int), self.current_population as int))
                    ||| (r == 0 && forall|i: int| 0 <= i < plan.regions@.len() ==> (#[trigger] plan.regions@[i])@ != self.engine_id@)
                },
                None => r == 0,
            },
    {
        match &self.migration_plan {
            None => 0,
            Some(plan) => {
                match plan.region_index(&self.engine_id) {
                    None => 0,
                    Some(i) => {
                        let total = Self::row_total(&plan.matrix[i], i);
                        proof {
                            lemma_row_sum_bounds(plan.matrix@[i as int]@, i as int, plan.regions@.len() as int);
                        }
                        if self.current_population == 0 {
                            return 0;
                        }
                        let n_regions: usize = plan.regions.len();
                        assert(n_regions <= 0x1_0000_0000_0000_0000);
                        assert(total * 1_000_000 <= 0x1_0000_0000_0000_0000 * 0xffff_ffff * 1_000_000) by (nonlinear_arith)
                            requires
                                total <= plan.regions@.len() * 0xffff_ffff,
                                plan.regions@.len() <= 0x1_0000_0000_0000_0000,
                        ;
                        let share = total * PPM as u128 / self.current_population as u128;
                        if share > PPM as u128 {
                            PPM
                        } else {
                            share as u32
                        }
                    },
                }
            },
        }
    }

    /// How many regions send migrators to this one.
    pub fn incoming_regions_count(&self) -> (r: usize)
        requires
            self.wf(),
        ensures
            match self.migration_plan {
                Some(plan) => {
                    ||| (exists|i: int| 0 <= i < plan.regions@.len() && (#[trigger] plan.regions@[i])@ == self.engine_id@
                        && r == incoming_count(plan.matrix@, i, plan.regions@.len() as int))
                    ||| (r == 0 && forall|i: int| 0 <= i < plan.regions@.len() ==> (#[trigger] plan.regions@[i])@ != self.engine_id@)
                },
                None => r == 0,
            },
    {
        match &self.migration_plan {
            None => 0,
            Some(plan) => {
                match plan.region_index(&self.engine_id) {
                    None => 0,
                    Some(me) => count_incoming(&plan.matrix, me, plan.regions.len()),
                }
            },
        }
    }

    /// Hands the day's outgoing pool to the destinations in the plan's order: each region
    /// other than this one takes as many migrators as its entry in this region's row, in
    /// pool order, until the pool runs out. Returns one bucket per destination and the
    /// migrators that actually leave.
    pub fn alloc_outgoing_to_regions(&self, outgoing: &Vec<(Point, Migrator)>) -> (r: (
        Vec<MigratorsByRegion>,
        Vec<(Point, Migrator)>,
    ))
        requires
            self.wf(),
        ensures
            r.1@.len() <= outgoing@.len(),
            r.1@ == outgoing@.subrange(0, r.1@.len() as int),
            match self.migration_plan {
                Some(plan) => {
                    ||| (exists|i: int|
                        0 <= i < plan.regions@.len() && (#[trigger] plan.regions@[i])@ == self.engine_id@
                            && r.0@.len() + 1 == plan.regions@.len() && r.1@.len() == min(
                            row_sum_except(plan.matrix@[i]@, i, plan.regions@.len() as int),
                            outgoing@.len() as int,
                        ) && forall|t: int|
                            0 <= t < r.0@.len() ==> bucket_for(
                                #[trigger] r.0@[t],
                                plan.regions@,
                                plan.matrix@[i]@,
                                i,
                                t,
                                outgoing@,
                            ))
                    ||| (r.0@.len() == 0 && r.1@.len() == 0 && forall|i: int|
                        0 <= i < plan.regions@.len() ==> (#[trigger] plan.regions@[i])@ != self.engine_id@)
                },
                None => r.0@.len() == 0 && r.1@.len() == 0,
            },
    {
        let mut buckets: Vec<MigratorsByRegion> = Vec::new();
        let mut actual: Vec<(Point, Migrator)> = Vec::new();
        match &self.migration_plan {
            None => (buckets, actual),
            Some(plan) => {
                match plan.region_index(&self.engine_id) {
                    None => (buckets, actual),
                    Some(me) => {
                        let row = &plan.matrix[me];
                        let mut next: usize = 0;
                        let mut j: usize = 0;
                        while j < plan.regions.len()
                            invariant
                                plan.wf(),
                                me < plan.regions@.len(),
                                row@.len() == plan.regions@.len(),
                                j <= plan.regions@.len(),
                                next <= outgoing@.len(),
                                next == min(row_sum_except(row@, me as int, j as int), outgoing@.len() as int),
                                actual@ == outgoing@.subrange(0, next as int),
                                buckets@.len() == if j > me { j - 1 } else { j as int },
                                forall|t: int|
                                    0 <= t < buckets@.len() ==> bucket_for(
                                        #[trigger] buckets@[t],
                                        plan.regions@,
                                        row@,
                                        me as int,
                                        t,
                                        outgoing@,
                                    ),
                            decreases plan.regions@.len() - j,
                        {
                            let ghost start = next;
                            if j != me {
                                let mut migrators: Vec<Migrator> = Vec::new();
                                let mut c: u32 = 0;
                                while c < row[j] && next < outgoing.len()
                                    invariant
                                        j < row@.len(),
                                        next <= outgoing@.len(),
                                        next == start + c,
                                        c <= row@[j as int],
                                        actual@ == outgoing@.subrange(0, next as int),
                                        migrators@ == outgoing@.subrange(start as int, next as int).map_values(|e: (Point, Migrator)| e.1),
                                    decreases outgoing@.len() - next,
                                {
                                    migrators.push(outgoing[next].1);
                                    assert(migrators@ =~= outgoing@.subrange(start as int, next as int + 1).map_values(|e: (Point, Migrator)| e.1));
                                    actual.push(outgoing[next]);
                                    next = next + 1;
                                    assert(actual@ =~= outgoing@.subrange(0, next as int));
                                    c = c + 1;
                                }
                                let ghost before = buckets@;
                                buckets.push(MigratorsByRegion::create(plan.regions[j].clone(), migrators));
                                proof {
                                    let t_new = buckets@.len() - 1;
                                    assert(t_new == if j > me { j - 1 } else { j as int });
                                    assert forall|t: int| 0 <= t < buckets@.len() implies bucket_for(
                                        #[trigger] buckets@[t],
                                        plan.regions@,
                                        row@,
                                        me as int,
                                        t,
                                        outgoing@,
                                    ) by {
                                        if t < t_new {
                                            assert(buckets@[t] == before[t]);
                                        }
                                    }
                                }
                            }
                            j = j + 1;
                        }
                        (buckets, actual)
                    },
                }
            },
        }
    }
}

/// A commute matrix over named regions: row `i`, column `j` is how many citizens of region
/// `i` work in region `j`.
pub struct CommutePlan {
    pub regions: Vec<String>,
    pub matrix: Vec<Vec<u32>>,
}

impl CommutePlan {
    pub open spec fn wf(&self) -> bool {
        &&& self.matrix@.len() == self.regions@.len()
        &&& forall|i: int| 0 <= i < self.matrix@.len() ==> (#[trigger] self.matrix@[i])@.len() == self.regions@.len()
    }

    fn region_index(&self, name: &String) -> (r: Option<usize>)
        ensures
            r is Some ==> r->0 < self.regions@.len() && self.regions@[r->0 as int]@ == name@,
            r is None ==> forall|i: int| 0 <= i < self.regions@.len() ==> (#[trigger] self.regions@[i])@ != name@,
    {
        let mut i: usize = 0;
        while i < self.regions.len()
            invariant
                i <= self.regions@.len(),
                forall|i2: int| 0 <= i2 < i ==> (#[trigger] self.regions@[i2])@ != name@,
            decreases self.regions@.len() - i,
        {
            if self.regions[i] == *name {
                return Some(i);
            }
            i = i + 1;
        }
        None
    }

    /// For the region named `region`, every region of the plan with the number of
    /// citizens of `region` who work there, in the plan's order; empty when `region` is not
    /// in the plan.
    pub fn get_total_commuters_by_region(&self, region: &String) -> (r: Vec<(String, u32)>)
        requires
            self.wf(),
        ensures
            (exists|i: int|
                0 <= i < self.regions@.len() && (#[trigger] self.regions@[i])@ == region@ && r@.len() == self.regions@.len()
                    && forall|j: int| 0 <= j < r@.len() ==> (#[trigger] r@[j]).0@ == self.regions@[j]@ && r@[j].1 == self.matrix@[i]@[j])
            || (r@.len() == 0 && forall|i: int| 0 <= i < self.regions@.len() ==> (#[trigger] self.regions@[i])@ != region@),
    {
        let mut totals: Vec<(String, u32)> = Vec::new();
        match self.region_index(region) {
            None => totals,
            Some(me) => {
                let mut j: usize = 0;
                while j < self.regions.len()
                    invariant
                        self.wf(),
                        me < self.regions@.len(),
                        j <= self.regions@.len(),
                        totals@.len() == j,
                        forall|j2: int| 0 <= j2 < j ==> (#[trigger] totals@[j2]).0@ == self.regions@[j2]@ && totals@[j2].1 == self.matrix@[me as int]@[j2],
                    decreases self.regions@.len() - j,
                {
                    totals.push((self.regions[j].clone(), self.matrix[me][j]));
                    j = j + 1;
                }
                totals
            },
        }
    }

    /// How many regions send commuters to the region named `engine_id`.
    pub fn incoming_regions_count(&self, engine_id: &String) -> (r: usize)
        requires
            self.wf(),
        ensures
            (exists|i: int| 0 <= i < self.regions@.len() && (#[trigger] self.regions@[i])@ == engine_id@
                && r == incoming_count(self.matrix@, i, self.regions@.len() as int))
            || (r == 0 && forall|i: int| 0 <= i < self.regions@.len() ==> (#[trigger] self.regions@[i])@ != engine_id@),
    {
        match self.region_index(engine_id) {
            None => 0,
            Some(me) => count_incoming(&self.matrix, me, self.regions.len()),
        }
    }

    /// The outgoing commuters bucketed by destination, one bucket per region of the plan.
    pub fn get_commuters_by_region(&self, commuters: &Vec<(Point, Commuter)>, simulation_hour: u32) -> (r: Vec<
        CommutersByRegion,
    >)
        ensures
            r@.len() == self.regions@.len(),
            forall|i: int|
                0 <= i < self.regions@.len() ==> {
                    &&& (#[trigger] r@[i]).to_engine_id@ == self.regions@[i]@
                    &&& r@[i].commuters@ == commuters_for(commuters@, self.regions@[i]@, simulation_hour)
                },
    {
        CommutersByRegion::get_commuters_by_region(self.regions.as_slice(), commuters, simulation_hour)
    }
}

} // verus!
