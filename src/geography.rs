//! The region's square grid, split into housing, transport, work and hospital areas.
use crate::constants::{
    HOSPITAL_AREA_RELATIVE_SIZE, HOUSE_AREA_RELATIVE_SIZE, PPM, TRANSPORT_AREA_RELATIVE_SIZE,
    WORK_AREA_RELATIVE_SIZE,
};
use crate::random_wrapper::RandomWrapper;
use vstd::prelude::*;

verus! {

/// Largest grid size whose area offsets fit the coordinate type.
pub const MAX_GRID_SIZE: i32 = 20_000_000;

#[derive(Copy, Clone, Debug, PartialEq, Eq, Hash, Structural)]
pub struct Point {
    pub x: i32,
    pub y: i32,
}

impl Point {
    pub fn new(x: i32, y: i32) -> (r: Point)
        ensures
            r == (Point { x, y }),
    {
        Point { x, y }
    }
}

/// Two distinct cells that touch by a side or a corner.
pub open spec fn adjacent(p: Point, q: Point) -> bool {
    &&& p != q
    &&& -1 <= q.x - p.x <= 1
    &&& -1 <= q.y - p.y <= 1
}

/// A named rectangle of the region `location_id`, with inclusive corners.
#[derive(Clone, Debug)]
pub struct Area {
    pub location_id: String,
    pub start_offset: Point,
    pub end_offset: Point,
}

impl PartialEq for Area {
    fn eq(&self, other: &Area) -> (r: bool) {
        self.location_id == other.location_id && self.start_offset == other.start_offset
            && self.end_offset == other.end_offset
    }
}

impl vstd::std_specs::cmp::PartialEqSpecImpl for Area {
    open spec fn obeys_eq_spec() -> bool {
        true
    }

    open spec fn eq_spec(&self, other: &Area) -> bool {
        self.same(*other)
    }
}

impl Area {
    /// The same region name and the same corners.
    pub open spec fn same(self, other: Area) -> bool {
        &&& self.location_id@ == other.location_id@
        &&& self.start_offset == other.start_offset
        &&& self.end_offset == other.end_offset
    }

    pub open spec fn spec_contains(self, p: Point) -> bool {
        &&& self.start_offset.x <= p.x <= self.end_offset.x
        &&& self.start_offset.y <= p.y <= self.end_offset.y
    }

    pub open spec fn is_nonempty(self) -> bool {
        self.start_offset.x <= self.end_offset.x && self.start_offset.y <= self.end_offset.y
    }

    pub open spec fn width(self) -> int {
        self.end_offset.x - self.start_offset.x + 1
    }

    pub open spec fn height(self) -> int {
        self.end_offset.y - self.start_offset.y + 1
    }

    pub fn new(location_id: String, start_offset: Point, end_offset: Point) -> (r: Area)
        ensures
            r == (Area { location_id, start_offset, end_offset }),
    {
        Area { location_id, start_offset, end_offset }
    }

    /// A copy equal to this area.
    pub fn copy(&self) -> (r: Area)
        ensures
            r == *self,
    {
        Area {
            location_id: self.location_id.clone(),
            start_offset: self.start_offset,
            end_offset: self.end_offset,
        }
    }

    pub fn same_area(&self, other: &Area) -> (r: bool)
        ensures
            r == self.same(*other),
    {
        self.location_id == other.location_id && self.start_offset == other.start_offset
            && self.end_offset == other.end_offset
    }

    pub fn contains(&self, p: &Point) -> (r: bool)
        ensures
            r == self.spec_contains(*p),
    {
        self.start_offset.x <= p.x && p.x <= self.end_offset.x && self.start_offset.y <= p.y
            && p.y <= self.end_offset.y
    }

    pub fn has_cells(&self) -> (r: bool)
        ensures
            r == self.is_nonempty(),
    {
        self.start_offset.x <= self.end_offset.x && self.start_offset.y <= self.end_offset.y
    }

    /// The number of cells of the area (0 when it is empty).
    pub fn get_number_of_cells(&self) -> (r: i128)
        ensures
            r == if self.is_nonempty() { self.width() * self.height() } else { 0 },
    {
        if self.start_offset.x <= self.end_offset.x && self.start_offset.y <= self.end_offset.y {
            let w = self.end_offset.x as i128 - self.start_offset.x as i128 + 1;
            let h = self.end_offset.y as i128 - self.start_offset.y as i128 + 1;
            assert(0 < w <= 0x1_0000_0000 && 0 < h <= 0x1_0000_0000);
            assert(w * h <= 0x1_0000_0000 * 0x1_0000_0000) by (nonlinear_arith)
                requires
                    0 < w <= 0x1_0000_0000,
                    0 < h <= 0x1_0000_0000,
            ;
            w * h
        } else {
            0
        }
    }

    /// The cells adjacent to `p` (by side or corner) that lie in the area, row by row.
    pub fn get_neighbors_of(&self, p: Point) -> (r: Vec<Point>)
        ensures
            r@.no_duplicates(),
            forall|q: Point| r@.contains(q) <==> (adjacent(p, q) && self.spec_contains(q)),
    {
        let mut r: Vec<Point> = Vec::new();
        let mut dy: i64 = -1;
        while dy <= 1
            invariant
                -1 <= dy <= 2,
                r@.no_duplicates(),
                forall|q: Point|
                    #[trigger] r@.contains(q) <==> (adjacent(p, q) && self.spec_contains(q) && q.y - p.y < dy),
            decreases 2 - dy,
        {
            let mut dx: i64 = -1;
            while dx <= 1
                invariant
                    -1 <= dy <= 1,
                    -1 <= dx <= 2,
                    r@.no_duplicates(),
                    forall|q: Point|
                        #[trigger] r@.contains(q) <==> (adjacent(p, q) && self.spec_contains(q) && (q.y - p.y
                            < dy || (q.y - p.y == dy && q.x - p.x < dx))),
                decreases 2 - dx,
            {
                let x = p.x as i64 + dx;
                let y = p.y as i64 + dy;
                if (dx != 0 || dy != 0) && self.start_offset.x as i64 <= x && x
                    <= self.end_offset.x as i64 && self.start_offset.y as i64 <= y && y
                    <= self.end_offset.y as i64 {
                    let q = Point { x: x as i32, y: y as i32 };
                    let ghost before = r@;
                    proof {
                        assert(q.x - p.x == dx && q.y - p.y == dy);
                        assert(!r@.contains(q));
                    }
                    r.push(q);
                    proof {
                        assert(r@ == before.push(q));
                        assert forall|q2: Point|
                            #[trigger] r@.contains(q2) <==> (adjacent(p, q2) && self.spec_contains(q2) && (q2.y
                                - p.y < dy || (q2.y - p.y == dy && q2.x - p.x < dx + 1))) by {
                            if r@.contains(q2) && q2 != q {
                                assert(before.contains(q2)) by {
                                    let k = r@.index_of(q2);
                                    assert(r@[k] == q2);
                                    assert(k < before.len());
                                    assert(before[k] == q2);
                                };
                            }
                            if before.contains(q2) {
                                let k = before.index_of(q2);
                                assert(r@[k] == q2);
                            }
                            if q2 == q {
                                assert(r@[r@.len() - 1] == q);
                            }
                        }
                    }
                }
                dx = dx + 1;
            }
            dy = dy + 1;
        }
        r
    }

    /// Cell number `i` of the area, counting row by row from the start corner.
    pub open spec fn cell_of(self, i: int) -> Point {
        Point { x: (self.start_offset.x + i % self.width()) as i32, y: (self.start_offset.y + i / self.width()) as i32 }
    }

    /// Cell number `i` of the area, counting row by row from the start corner.
    pub fn cell_at(&self, i: u64) -> (r: Point)
        requires
            self.is_nonempty(),
            i < self.width() * self.height(),
        ensures
            r == self.cell_of(i as int),
            self.spec_contains(r),
    {
        let w: u64 = (self.end_offset.x as i64 - self.start_offset.x as i64 + 1) as u64;
        proof {
            lemma_cell_in_area(*self, i as int);
        }
        let dx: u64 = i % w;
        let dy: u64 = i / w;
        Point { x: (self.start_offset.x as i64 + dx as i64) as i32, y: (self.start_offset.y as i64 + dy as i64) as i32 }
    }

    /// A uniformly drawn cell of the area.
    pub fn get_random_point(&self, rng: &mut RandomWrapper) -> (r: Point)
        requires
            self.is_nonempty(),
        ensures
            self.spec_contains(r),
    {
        let w = (self.end_offset.x as i64 - self.start_offset.x as i64 + 1) as u64;
        let h = (self.end_offset.y as i64 - self.start_offset.y as i64 + 1) as u64;
        let dx = rng.gen_index(w);
        let dy = rng.gen_index(h);
        Point { x: (self.start_offset.x as i64 + dx as i64) as i32, y: (self.start_offset.y as i64 + dy as i64) as i32 }
    }
}

/// Cell number `i` of a nonempty area lies in it.
pub proof fn lemma_cell_in_area(a: Area, i: int)
    requires
        a.is_nonempty(),
        0 <= i < a.width() * a.height(),
    ensures
        0 <= i % a.width() < a.width(),
        0 <= i / a.width() < a.height(),
        a.spec_contains(a.cell_of(i)),
{
    let w = a.width();
    let h = a.height();
    vstd::arithmetic::div_mod::lemma_fundamental_div_mod(i, w);
    vstd::arithmetic::div_mod::lemma_mod_pos_bound(i, w);
    assert(0 <= i / w) by {
        vstd::arithmetic::div_mod::lemma_div_pos_is_pos(i, w);
    }
    assert(i / w < h) by (nonlinear_arith)
        requires
            i == w * (i / w) + i % w,
            0 <= i % w,
            i < w * h,
            0 < w,
    ;
}

/// Distinct cell numbers of an area are distinct cells.
pub proof fn lemma_cells_distinct(a: Area, i: int, j: int)
    requires
        a.is_nonempty(),
        0 <= i < a.width() * a.height(),
        0 <= j < a.width() * a.height(),
        i != j,
    ensures
        a.cell_of(i) != a.cell_of(j),
{
    let w = a.width();
    lemma_cell_in_area(a, i);
    lemma_cell_in_area(a, j);
    vstd::arithmetic::div_mod::lemma_fundamental_div_mod(i, w);
    vstd::arithmetic::div_mod::lemma_fundamental_div_mod(j, w);
    if a.cell_of(i) == a.cell_of(j) {
        assert(i % w == j % w && i / w == j / w);
    }
}

/// The four areas of a region.
#[derive(Clone, Debug)]
pub struct Grid {
    pub grid_size: i32,
    pub housing_area: Area,
    pub work_area: Area,
    pub transport_area: Area,
    pub hospital_area: Area,
}

impl Grid {
    /// `p` lies in at most one of the four areas.
    pub open spec fn in_at_most_one_area(self, p: Point) -> bool {
        let h = self.housing_area.spec_contains(p);
        let t = self.transport_area.spec_contains(p);
        let w = self.work_area.spec_contains(p);
        let s = self.hospital_area.spec_contains(p);
        &&& !(h && t) &&& !(h && w) &&& !(h && s)
        &&& !(t && w) &&& !(t && s) &&& !(w && s)
    }

    /// No cell lies in two of the four areas.
    pub open spec fn areas_disjoint(self) -> bool {
        forall|p: Point| #[trigger] self.in_at_most_one_area(p)
    }

    /// Columns of the four areas are consecutive bands from x = 0, in the order housing,
    /// transport, work, hospital; that keeps them disjoint.
    pub open spec fn banded(self) -> bool {
        &&& self.housing_area.start_offset.x == 0
        &&& self.transport_area.start_offset.x == self.housing_area.end_offset.x + 1
        &&& self.work_area.start_offset.x == self.transport_area.end_offset.x + 1
        &&& self.hospital_area.start_offset.x == self.work_area.end_offset.x + 1
        &&& self.housing_area.end_offset.x + 1 >= 0
        &&& self.transport_area.end_offset.x + 1 >= self.transport_area.start_offset.x
        &&& self.work_area.end_offset.x + 1 >= self.work_area.start_offset.x
    }

    pub open spec fn wf(self) -> bool {
        &&& 0 < self.grid_size <= MAX_GRID_SIZE
        &&& self.banded()
    }
}

pub proof fn lemma_banded_disjoint(g: Grid)
    requires
        g.banded(),
    ensures
        g.areas_disjoint(),
{
}

/// Splits a square of side `grid_size` into housing, transport, work and hospital bands of
/// 40%, 20%, 20% and 10% of its width; every area spans the rows `0..=grid_size`.
pub fn define_geography(grid_size: i32, sim_id: String) -> (r: Grid)
    requires
        0 < grid_size <= MAX_GRID_SIZE,
    ensures
        r.wf(),
        r.areas_disjoint(),
        r.grid_size == grid_size,
        ({
            let home = grid_size * HOUSE_AREA_RELATIVE_SIZE / 100;
            let transport = home + grid_size * TRANSPORT_AREA_RELATIVE_SIZE / 100;
            let work = transport + grid_size * WORK_AREA_RELATIVE_SIZE / 100;
            let hospital = work + grid_size * HOSPITAL_AREA_RELATIVE_SIZE / 100;
            &&& r.housing_area == (Area { location_id: sim_id, start_offset: Point { x: 0, y: 0 }, end_offset: Point { x: (home - 1) as i32, y: grid_size } })
            &&& r.transport_area.same(Area { location_id: sim_id, start_offset: Point { x: home as i32, y: 0 }, end_offset: Point { x: (transport - 1) as i32, y: grid_size } })
            &&& r.work_area.same(Area { location_id: sim_id, start_offset: Point { x: transport as i32, y: 0 }, end_offset: Point { x: (work - 1) as i32, y: grid_size } })
            &&& r.hospital_area.same(Area { location_id: sim_id, start_offset: Point { x: work as i32, y: 0 }, end_offset: Point { x: (hospital - 1) as i32, y: grid_size } })
        }),
{
    let home = grid_size * HOUSE_AREA_RELATIVE_SIZE / 100;
    let transport = home + grid_size * TRANSPORT_AREA_RELATIVE_SIZE / 100;
    let work = transport + grid_size * WORK_AREA_RELATIVE_SIZE / 100;
    let hospital = work + grid_size * HOSPITAL_AREA_RELATIVE_SIZE / 100;
    let transport_area = Area::new(sim_id.clone(), Point::new(home, 0), Point::new(transport - 1, grid_size));
    let work_area = Area::new(sim_id.clone(), Point::new(transport, 0), Point::new(work - 1, grid_size));
    let hospital_area = Area::new(sim_id.clone(), Point::new(work, 0), Point::new(hospital - 1, grid_size));
    let housing_area = Area::new(sim_id, Point::new(0, 0), Point::new(home - 1, grid_size));
    let r = Grid { grid_size, housing_area, work_area, transport_area, hospital_area };
    proof {
        lemma_banded_disjoint(r);
    }
    r
}

/// Beds needed for `number_of_agents` citizens: the beds share (parts per million) of the
/// population, rounded up.
pub open spec fn hospital_places(number_of_agents: u32, beds_ppm: u32) -> int {
    (number_of_agents * beds_ppm + PPM - 1) / PPM as int
}

/// The hospital `h` cut down to the fewest full rows that hold `places` beds, named
/// `sim_id`, when it holds that many; else `h` as it is.
pub open spec fn resized_hospital(h: Area, places: int, sim_id: String) -> Area {
    let w = h.width();
    if places <= w * h.height() {
        let rows = (places + w - 1) / w;
        Area {
            location_id: sim_id,
            start_offset: h.start_offset,
            end_offset: Point { x: h.end_offset.x, y: (h.start_offset.y + rows - 1) as i32 },
        }
    } else {
        h
    }
}

impl Grid {
    /// Shrinks the hospital to the fewest full rows that hold a bed for the beds share of
    /// the citizens, when the current hospital holds that many; else leaves it as it is.
    /// With no beds the hospital has no cell left.
    pub fn resize_hospital(&mut self, number_of_agents: u32, hospital_beds_ppm: u32, sim_id: String)
        requires
            old(self).wf(),
            old(self).hospital_area.is_nonempty(),
            0 <= old(self).hospital_area.start_offset.y,
            hospital_beds_ppm <= PPM,
        ensures
            final(self).wf(),
            final(self).areas_disjoint(),
            final(self).grid_size == old(self).grid_size,
            final(self).housing_area == old(self).housing_area,
            final(self).transport_area == old(self).transport_area,
            final(self).work_area == old(self).work_area,
            final(self).hospital_area == resized_hospital(
                old(self).hospital_area,
                hospital_places(number_of_agents, hospital_beds_ppm),
                sim_id,
            ),
            hospital_beds_ppm == 0 ==> !final(self).hospital_area.is_nonempty(),
    {
        assert(number_of_agents as u64 * hospital_beds_ppm as u64 <= 0xffff_ffff * 1_000_000) by (nonlinear_arith)
            requires
                hospital_beds_ppm <= 1_000_000,
        ;
        let places: i64 = ((number_of_agents as u64 * hospital_beds_ppm as u64 + PPM as u64 - 1) / PPM as u64) as i64;
        let w: i64 = self.hospital_area.end_offset.x as i64 - self.hospital_area.start_offset.x as i64 + 1;
        let cells = self.hospital_area.get_number_of_cells();
        if places as i128 <= cells {
            let rows: i64 = (places + w - 1) / w;
            let h: i64 = self.hospital_area.end_offset.y as i64 - self.hospital_area.start_offset.y as i64 + 1;
            assert(rows <= h) by (nonlinear_arith)
                requires
                    places <= w * h,
                    0 < w,
                    0 <= places,
                    rows as int == (places as int + w as int - 1) / (w as int),
            ;
            let end_y: i32 = (self.hospital_area.start_offset.y as i64 + rows - 1) as i32;
            self.hospital_area = Area::new(sim_id, self.hospital_area.start_offset, Point::new(self.hospital_area.end_offset.x, end_y));
            proof {
                if hospital_beds_ppm == 0 {
                    assert(number_of_agents as u64 * hospital_beds_ppm as u64 == 0) by (nonlinear_arith)
                        requires
                            hospital_beds_ppm == 0,
                    ;
                    assert(places == 0);
                    assert(rows == 0) by (nonlinear_arith)
                        requires
                            0 < w,
                            rows as int == (0 + w as int - 1) / (w as int),
                    ;
                }
            }
        } else {
            proof {
                if hospital_beds_ppm == 0 {
                    assert(number_of_agents as u64 * hospital_beds_ppm as u64 == 0) by (nonlinear_arith)
                        requires
                            hospital_beds_ppm == 0,
                    ;
                    assert(places == 0);
                    assert(cells >= 0) by (nonlinear_arith)
                        requires
                            cells == self.hospital_area.width() * self.hospital_area.height(),
                            self.hospital_area.width() > 0,
                            self.hospital_area.height() > 0,
                    ;
                }
            }
        }
        proof {
            lemma_banded_disjoint(*self);
        }
    }
}

} // verus!
