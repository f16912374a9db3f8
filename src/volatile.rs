//! Volatile entities: two volatile solids that meet on one cell both sublimate.
use vstd::prelude::*;

use crate::grid::GridCoords;

verus! {

/// The volatility state of an entity. Sublimation is one-way.
#[derive(Clone, Copy, Debug, PartialEq, Eq, Hash, Structural)]
pub enum Volatile {
    /// The entity is still a volatile solid.
    Solid,
    /// The entity has collided with another volatile solid and has been sublimated.
    Sublimated,
}

impl Volatile {
    pub fn is_solid(&self) -> (r: bool)
        ensures
            r == (*self == Volatile::Solid),
    {
        matches!(self, Volatile::Solid)
    }

    pub fn sublimate(&mut self)
        ensures
            *final(self) == Volatile::Sublimated,
    {
        *self = Volatile::Sublimated;
    }
}

/// A volatile entity as the sublimation step sees it: where it is, whether it moved this
/// tick, and its state.
#[derive(Clone, Copy, Debug, PartialEq, Eq, Hash, Structural)]
pub struct VolatileEntity {
    pub coords: GridCoords,
    pub moved: bool,
    pub state: Volatile,
}

/// Entity `j` is a solid that moved this tick and stands at `c`.
pub open spec fn moved_solid_at(s: Seq<VolatileEntity>, j: int, c: GridCoords) -> bool {
    &&& s[j].moved
    &&& s[j].state == Volatile::Solid
    &&& s[j].coords == c
}

/// Another solid that moved this tick stands on the cell of entity `i`.
pub open spec fn meets_moved_solid(s: Seq<VolatileEntity>, i: int) -> bool {
    exists|j: int| 0 <= j < s.len() && j != i && #[trigger] moved_solid_at(s, j, s[i].coords)
}

/// A solid that did not move this tick stands on the cell of entity `i`.
pub open spec fn meets_stationary_solid(s: Seq<VolatileEntity>, i: int) -> bool {
    exists|j: int| 0 <= j < s.len() && #[trigger] stationary_solid_at(s, j, s[i].coords)
}

pub open spec fn stationary_solid_at(s: Seq<VolatileEntity>, j: int, c: GridCoords) -> bool {
    &&& !s[j].moved
    &&& s[j].state == Volatile::Solid
    &&& s[j].coords == c
}

/// A moved solid on the cell of entity `i` that met no other moved solid.
pub open spec fn meets_lone_moved_solid(s: Seq<VolatileEntity>, i: int) -> bool {
    exists|j: int| 0 <= j < s.len() && #[trigger] moved_solid_at(s, j, s[i].coords) && !meets_moved_solid(s, j)
}

/// The state of entity `i` after sublimation: moved solids that share a cell all sublimate;
/// a moved solid alone among the moved ones on its cell sublimates together with every
/// stationary solid there; stationary solids never react to each other.
pub open spec fn sublimation_outcome(s: Seq<VolatileEntity>, i: int) -> Volatile {
    if s[i].state == Volatile::Sublimated {
        Volatile::Sublimated
    } else if s[i].moved {
        if meets_moved_solid(s, i) || meets_stationary_solid(s, i) {
            Volatile::Sublimated
        } else {
            Volatile::Solid
        }
    } else if meets_lone_moved_solid(s, i) {
        Volatile::Sublimated
    } else {
        Volatile::Solid
    }
}

fn meets_moved_solid_exec(s: &Vec<VolatileEntity>, i: usize) -> (r: bool)
    requires
        i < s@.len(),
    ensures
        r == meets_moved_solid(s@, i as int),
{
    let c = s[i].coords;
    let mut j: usize = 0;
    while j < s.len()
        invariant
            i < s@.len(),
            j <= s@.len(),
            c == s@[i as int].coords,
            forall|k: int| 0 <= k < j && k != i ==> !moved_solid_at(s@, k, c),
        decreases s@.len() - j,
    {
        if j != i && s[j].moved && s[j].state.is_solid() && s[j].coords == c {
            assert(moved_solid_at(s@, j as int, c));
            return true;
        }
        j = j + 1;
    }
    false
}

/// Applies the sublimation rule to the volatile entities of one tick.
pub fn sublimation(entities: &mut Vec<VolatileEntity>)
    ensures
        final(entities)@.len() == old(entities)@.len(),
        forall|i: int|
            0 <= i < old(entities)@.len() ==> #[trigger] final(entities)@[i] == (VolatileEntity {
                state: sublimation_outcome(old(entities)@, i),
                ..old(entities)@[i]
            }),
{
    let n = entities.len();
    let mut paired: Vec<bool> = Vec::new();
    let mut i: usize = 0;
    while i < n
        invariant
            n == entities@.len(),
            i <= n,
            paired@.len() == i,
            forall|k: int| 0 <= k < i ==> paired@[k] == meets_moved_solid(entities@, k),
        decreases n - i,
    {
        let p = meets_moved_solid_exec(entities, i);
        paired.push(p);
        i = i + 1;
    }
    let mut outcome: Vec<Volatile> = Vec::new();
    let mut i: usize = 0;
    while i < n
        invariant
            n == entities@.len(),
            i <= n,
            paired@.len() == n,
            forall|k: int| 0 <= k < n ==> paired@[k] == meets_moved_solid(entities@, k),
            outcome@.len() == i,
            forall|k: int| 0 <= k < i ==> outcome@[k] == sublimation_outcome(entities@, k),
        decreases n - i,
    {
        let e = entities[i];
        let mut hit = false;
        let mut j: usize = 0;
        while j < n
            invariant
                n == entities@.len(),
                i < n,
                j <= n,
                e == entities@[i as int],
                paired@.len() == n,
                forall|k: int| 0 <= k < n ==> paired@[k] == meets_moved_solid(entities@, k),
                e.moved ==> (hit <==> exists|k: int| 0 <= k < j && #[trigger] stationary_solid_at(entities@, k, e.coords)),
                !e.moved ==> (hit <==> exists|k: int|
                    0 <= k < j && #[trigger] moved_solid_at(entities@, k, e.coords) && !meets_moved_solid(entities@, k)),
            decreases n - j,
        {
            let f = entities[j];
            if f.state.is_solid() && f.coords == e.coords {
                if e.moved && !f.moved {
                    assert(stationary_solid_at(entities@, j as int, e.coords));
                    hit = true;
                } else if !e.moved && f.moved && !paired[j] {
                    assert(moved_solid_at(entities@, j as int, e.coords));
                    hit = true;
                }
            }
            j = j + 1;
        }
        let v = if !e.state.is_solid() {
            Volatile::Sublimated
        } else if e.moved {
            if paired[i] || hit {
                Volatile::Sublimated
            } else {
                Volatile::Solid
            }
        } else if hit {
            Volatile::Sublimated
        } else {
            Volatile::Solid
        };
        outcome.push(v);
        i = i + 1;
    }
    let ghost before = entities@;
    let mut i: usize = 0;
    while i < n
        invariant
            n == entities@.len(),
            n == before.len(),
            i <= n,
            outcome@.len() == n,
            forall|k: int| 0 <= k < n ==> outcome@[k] == sublimation_outcome(before, k),
            forall|k: int| 0 <= k < i ==> entities@[k] == (VolatileEntity { state: outcome@[k], ..before[k] }),
            forall|k: int| i <= k < n ==> entities@[k] == before[k],
        decreases n - i,
    {
        let e = entities[i];
        entities.set(i, VolatileEntity { state: outcome[i], ..e });
        i = i + 1;
    }
}

/// `p` maps each index of `s1` to the index that holds the same entity in `s2`, and `q`
/// maps back: `s2` is `s1` in another order.
pub open spec fn is_reordering(s1: Seq<VolatileEntity>, s2: Seq<VolatileEntity>, p: Seq<int>, q: Seq<int>) -> bool {
    &&& s1.len() == s2.len()
    &&& p.len() == s1.len()
    &&& q.len() == s1.len()
    &&& forall|i: int| 0 <= i < s1.len() ==> 0 <= #[trigger] p[i] < s1.len() && q[p[i]] == i && s2[p[i]] == s1[i]
    &&& forall|k: int| 0 <= k < s1.len() ==> 0 <= #[trigger] q[k] < s1.len() && p[q[k]] == k
}

/// The order in which the volatile entities are visited does not change which of them
/// sublimate.
pub proof fn lemma_sublimation_order_independent(s1: Seq<VolatileEntity>, s2: Seq<VolatileEntity>, p: Seq<int>, q: Seq<int>)
    requires
        is_reordering(s1, s2, p, q),
    ensures
        forall|i: int| 0 <= i < s1.len() ==> sublimation_outcome(s2, #[trigger] p[i]) == sublimation_outcome(s1, i),
{
    assert forall|i: int| 0 <= i < s1.len() implies meets_moved_solid(s2, #[trigger] p[i]) == meets_moved_solid(s1, i) by {
        lemma_meets_moved_solid_reordered(s1, s2, p, q, i);
    }
    assert forall|i: int| 0 <= i < s1.len() implies sublimation_outcome(s2, #[trigger] p[i]) == sublimation_outcome(s1, i) by {
        let c = s1[i].coords;
        assert(s2[p[i]] == s1[i]);
        if meets_stationary_solid(s1, i) {
            let j = choose|j: int| 0 <= j < s1.len() && #[trigger] stationary_solid_at(s1, j, c);
            assert(stationary_solid_at(s2, p[j], c));
        }
        if meets_stationary_solid(s2, p[i]) {
            let k = choose|k: int| 0 <= k < s2.len() && #[trigger] stationary_solid_at(s2, k, c);
            assert(stationary_solid_at(s1, q[k], c));
        }
        if meets_lone_moved_solid(s1, i) {
            let j = choose|j: int| 0 <= j < s1.len() && #[trigger] moved_solid_at(s1, j, c) && !meets_moved_solid(s1, j);
            assert(moved_solid_at(s2, p[j], c) && !meets_moved_solid(s2, p[j]));
        }
        if meets_lone_moved_solid(s2, p[i]) {
            let k = choose|k: int| 0 <= k < s2.len() && #[trigger] moved_solid_at(s2, k, c) && !meets_moved_solid(s2, k);
            assert(p[q[k]] == k);
            assert(moved_solid_at(s1, q[k], c) && !meets_moved_solid(s1, q[k]));
        }
    }
}

proof fn lemma_meets_moved_solid_reordered(s1: Seq<VolatileEntity>, s2: Seq<VolatileEntity>, p: Seq<int>, q: Seq<int>, i: int)
    requires
        is_reordering(s1, s2, p, q),
        0 <= i < s1.len(),
    ensures
        meets_moved_solid(s2, p[i]) == meets_moved_solid(s1, i),
{
    let c = s1[i].coords;
    assert(s2[p[i]] == s1[i]);
    if meets_moved_solid(s1, i) {
        let j = choose|j: int| 0 <= j < s1.len() && j != i && #[trigger] moved_solid_at(s1, j, c);
        assert(q[p[j]] == j);
        assert(moved_solid_at(s2, p[j], c));
    }
    if meets_moved_solid(s2, p[i]) {
        let k = choose|k: int| 0 <= k < s2.len() && k != p[i] && #[trigger] moved_solid_at(s2, k, c);
        assert(p[q[k]] == k);
        assert(moved_solid_at(s1, q[k], c));
    }
}

/// The entities after one sublimation step.
pub open spec fn after_sublimation(s: Seq<VolatileEntity>) -> Seq<VolatileEntity> {
    Seq::new(s.len(), |i: int| VolatileEntity { state: sublimation_outcome(s, i), ..s[i] })
}

/// Sublimation never turns a sublimated entity back into a solid, and running it a second
/// time on its own result changes nothing.
pub proof fn lemma_sublimation_monotonic_idempotent(s: Seq<VolatileEntity>)
    ensures
        forall|i: int|
            0 <= i < s.len() && s[i].state == Volatile::Sublimated ==> #[trigger] after_sublimation(s)[i].state == Volatile::Sublimated,
        after_sublimation(after_sublimation(s)) == after_sublimation(s),
{
    let t = after_sublimation(s);
    assert forall|i: int| 0 <= i < s.len() implies #[trigger] sublimation_outcome(t, i) == t[i].state by {
        let c = s[i].coords;
        if t[i].state == Volatile::Solid {
            assert(s[i].state == Volatile::Solid);
            if s[i].moved {
                if meets_moved_solid(t, i) {
                    let j = choose|j: int| 0 <= j < t.len() && j != i && #[trigger] moved_solid_at(t, j, c);
                    assert(moved_solid_at(s, j, c));
                }
                if meets_stationary_solid(t, i) {
                    let j = choose|j: int| 0 <= j < t.len() && #[trigger] stationary_solid_at(t, j, c);
                    assert(stationary_solid_at(s, j, c));
                }
            } else if meets_lone_moved_solid(t, i) {
                let j = choose|j: int| 0 <= j < t.len() && #[trigger] moved_solid_at(t, j, c) && !meets_moved_solid(t, j);
                assert(moved_solid_at(s, j, c));
                assert(stationary_solid_at(s, i, s[j].coords));
            }
        }
    }
    assert(after_sublimation(t) =~= t);
}

} // verus!
