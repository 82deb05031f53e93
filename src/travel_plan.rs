//! The inter-region travel matrix, and how lockdowns thin it.
use vstd::prelude::*;

verus! {

/// Region names and a square matrix: row `i`, column `j` is how many citizens region `i`
/// sends to region `j`. When a region is locked down, each positive entry of its row and
/// column drops to `lockdown_travellers`.
#[derive(Clone, Debug, PartialEq)]
pub struct TravelPlan {
    pub regions: Vec<String>,
    pub matrix: Vec<Vec<i32>>,
    pub lockdown_travellers: i32,
}

/// The region named `name` is marked as locked down in `status`.
pub open spec fn is_locked(status: Seq<(String, bool)>, name: Seq<char>) -> bool {
    exists|k: int| 0 <= k < status.len() && (#[trigger] status[k]).1 && status[k].0@ == name
}

/// The names of a list of strings.
pub open spec fn names(v: Seq<String>) -> Seq<Seq<char>> {
    v.map_values(|s: String| s@)
}

/// The entries of a matrix.
pub open spec fn entries(m: Seq<Vec<i32>>) -> Seq<Seq<i32>> {
    m.map_values(|row: Vec<i32>| row@)
}

/// `m` is an `n` by `n` matrix.
pub open spec fn is_square(m: Seq<Seq<i32>>, n: int) -> bool {
    m.len() == n && forall|i: int| 0 <= i < n ==> (#[trigger] m[i]).len() == n
}

/// The matrix after the lockdowns in `status`: an entry whose row or column belongs to a
/// locked region and that is positive becomes `floor`; every other entry stays.
pub open spec fn locked_down_matrix(
    regions: Seq<Seq<char>>,
    m: Seq<Seq<i32>>,
    floor: i32,
    status: Seq<(String, bool)>,
) -> Seq<Seq<i32>> {
    Seq::new(
        m.len(),
        |i: int|
            Seq::new(
                m[i].len(),
                |j: int|
                    if (is_locked(status, regions[i]) || is_locked(status, regions[j])) && m[i][j] > 0 {
                        floor
                    } else {
                        m[i][j]
                    },
            ),
    )
}

impl TravelPlan {
    pub open spec fn wf(&self) -> bool {
        is_square(entries(self.matrix@), self.regions@.len() as int)
    }

    /// A plan over `regions`; `None` unless `matrix` is square of that size.
    pub fn new(regions: Vec<String>, matrix: Vec<Vec<i32>>, lockdown_travellers: i32) -> (r: Option<TravelPlan>)
        ensures
            r is Some <==> is_square(entries(matrix@), regions@.len() as int),
            r is Some ==> r->0 == (TravelPlan { regions, matrix, lockdown_travellers }),
    {
        if matrix.len() != regions.len() {
            return None;
        }
        let mut i: usize = 0;
        while i < matrix.len()
            invariant
                i <= matrix@.len(),
                matrix@.len() == regions@.len(),
                forall|k: int| 0 <= k < i ==> (#[trigger] matrix@[k])@.len() == regions@.len(),
            decreases matrix@.len() - i,
        {
            if matrix[i].len() != regions.len() {
                assert(entries(matrix@)[i as int].len() != regions@.len());
                return None;
            }
            i = i + 1;
        }
        assert forall|k: int| 0 <= k < regions@.len() implies (#[trigger] entries(matrix@)[k]).len()
            == regions@.len() by {
            assert(entries(matrix@)[k] == matrix@[k]@);
        }
        Some(TravelPlan { regions, matrix, lockdown_travellers })
    }

    /// Whether `regions` has as many names as the plan and each of them is a region of the plan.
    pub fn validate_regions(&self, regions: &[String]) -> (r: bool)
        ensures
            r == (regions@.len() == self.regions@.len() && forall|k: int|
                0 <= k < regions@.len() ==> names(self.regions@).contains(#[trigger] regions@[k]@)),
    {
        if regions.len() != self.regions.len() {
            return false;
        }
        let mut k: usize = 0;
        while k < regions.len()
            invariant
                k <= regions@.len(),
                forall|k2: int| 0 <= k2 < k ==> names(self.regions@).contains(#[trigger] regions@[k2]@),
            decreases regions@.len() - k,
        {
            if !self.contains_region(&regions[k]) {
                return false;
            }
            k = k + 1;
        }
        true
    }

    fn contains_region(&self, name: &String) -> (r: bool)
        ensures
            r == names(self.regions@).contains(name@),
    {
        let mut m: usize = 0;
        while m < self.regions.len()
            invariant
                m <= self.regions@.len(),
                forall|m2: int| 0 <= m2 < m ==> self.regions@[m2]@ != name@,
            decreases self.regions@.len() - m,
        {
            if self.regions[m] == *name {
                assert(names(self.regions@)[m as int] == name@);
                return true;
            }
            m = m + 1;
        }
        proof {
            if names(self.regions@).contains(name@) {
                let w = names(self.regions@).index_of(name@);
                assert(self.regions@[w]@ == name@);
            }
        }
        false
    }

    pub fn get_regions(&self) -> (r: &Vec<String>)
        ensures
            r == &self.regions,
    {
        &self.regions
    }

    pub fn get_matrix(&self) -> (r: &Vec<Vec<i32>>)
        ensures
            r == &self.matrix,
    {
        &self.matrix
    }

    /// The plan with every region that `lockdown_status` marks `true` locked down.
    pub fn update_with_lockdowns(&self, lockdown_status: &Vec<(String, bool)>) -> (r: TravelPlan)
        requires
            self.wf(),
        ensures
            r.wf(),
            names(r.regions@) == names(self.regions@),
            r.lockdown_travellers == self.lockdown_travellers,
            entries(r.matrix@) == locked_down_matrix(
                names(self.regions@),
                entries(self.matrix@),
                self.lockdown_travellers,
                lockdown_status@,
            ),
    {
        let n = self.regions.len();
        let mut locked: Vec<bool> = Vec::new();
        let mut regions: Vec<String> = Vec::new();
        let mut i: usize = 0;
        while i < n
            invariant
                n == self.regions@.len(),
                i <= n,
                locked@.len() == i,
                regions@.len() == i,
                forall|k: int| 0 <= k < i ==> #[trigger] locked@[k] == is_locked(lockdown_status@, self.regions@[k]@),
                forall|k: int| 0 <= k < i ==> (#[trigger] regions@[k])@ == self.regions@[k]@,
            decreases n - i,
        {
            locked.push(Self::locked_in(lockdown_status, &self.regions[i]));
            regions.push(self.regions[i].clone());
            i = i + 1;
        }
        let ghost target = locked_down_matrix(
            names(self.regions@),
            entries(self.matrix@),
            self.lockdown_travellers,
            lockdown_status@,
        );
        let mut matrix: Vec<Vec<i32>> = Vec::new();
        let mut i: usize = 0;
        while i < n
            invariant
                self.wf(),
                n == self.regions@.len(),
                i <= n,
                locked@.len() == n,
                forall|k: int| 0 <= k < n ==> #[trigger] locked@[k] == is_locked(lockdown_status@, self.regions@[k]@),
                target == locked_down_matrix(names(self.regions@), entries(self.matrix@), self.lockdown_travellers, lockdown_status@),
                matrix@.len() == i,
                forall|k: int| 0 <= k < i ==> (#[trigger] matrix@[k])@ == target[k],
            decreases n - i,
        {
            let ghost row_target = target[i as int];
            assert(self.matrix@[i as int]@.len() == n) by {
                assert(entries(self.matrix@)[i as int] == self.matrix@[i as int]@);
            }
            let mut row: Vec<i32> = Vec::new();
            let mut j: usize = 0;
            while j < n
                invariant
                    self.wf(),
                    n == self.regions@.len(),
                    i < n,
                    j <= n,
                    locked@.len() == n,
                    forall|k: int| 0 <= k < n ==> #[trigger] locked@[k] == is_locked(lockdown_status@, self.regions@[k]@),
                    self.matrix@[i as int]@.len() == n,
                    row_target == target[i as int],
                    target == locked_down_matrix(names(self.regions@), entries(self.matrix@), self.lockdown_travellers, lockdown_status@),
                    row@.len() == j,
                    forall|k: int| 0 <= k < j ==> #[trigger] row@[k] == row_target[k],
                decreases n - j,
            {
                let val = self.matrix[i][j];
                let v = if (locked[i] || locked[j]) && val > 0 {
                    self.lockdown_travellers
                } else {
                    val
                };
                proof {
                    assert(entries(self.matrix@)[i as int] == self.matrix@[i as int]@);
                    assert(names(self.regions@)[i as int] == self.regions@[i as int]@);
                    assert(names(self.regions@)[j as int] == self.regions@[j as int]@);
                }
                row.push(v);
                j = j + 1;
            }
            assert(row@ =~= row_target);
            matrix.push(row);
            i = i + 1;
        }
        let r = TravelPlan { regions, matrix, lockdown_travellers: self.lockdown_travellers };
        assert(names(r.regions@) =~= names(self.regions@));
        assert(entries(r.matrix@) =~= target);
        r
    }

    fn locked_in(status: &Vec<(String, bool)>, name: &String) -> (r: bool)
        ensures
            r == is_locked(status@, name@),
    {
        let mut k: usize = 0;
        while k < status.len()
            invariant
                k <= status@.len(),
                forall|k2: int| 0 <= k2 < k ==> !((#[trigger] status@[k2]).1 && status@[k2].0@ == name@),
            decreases status@.len() - k,
        {
            if status[k].1 && status[k].0 == *name {
                assert(status@[k as int].1 && status@[k as int].0@ == name@);
                return true;
            }
            k = k + 1;
        }
        false
    }
}

/// Locking down the same regions a second time changes nothing.
pub proof fn lemma_lockdown_idempotent(
    regions: Seq<Seq<char>>,
    m: Seq<Seq<i32>>,
    floor: i32,
    status: Seq<(String, bool)>,
)
    requires
        is_square(m, regions.len() as int),
    ensures
        locked_down_matrix(regions, locked_down_matrix(regions, m, floor, status), floor, status)
            == locked_down_matrix(regions, m, floor, status),
{
    let once = locked_down_matrix(regions, m, floor, status);
    let twice = locked_down_matrix(regions, once, floor, status);
    assert forall|i: int| 0 <= i < m.len() implies #[trigger] twice[i] =~= once[i] by {}
    assert(twice =~= once);
}

} // verus!
