//! The collision grid and the sokoban push rule.
use vstd::prelude::*;

use crate::grid::{Direction, GridCoords};

verus! {

/// How an entity on the grid reacts to being pushed.
#[derive(Clone, Copy, Debug, PartialEq, Eq, Hash, Structural)]
pub enum RigidBody {
    /// Never moves and always blocks (walls).
    Static,
    /// Can be pushed (gravestones, blocks, actors).
    Dynamic,
}

/// An entity that occupies a cell of the grid.
#[derive(Clone, Copy, Debug, PartialEq, Eq, Hash, Structural)]
pub struct Body {
    pub entity: u64,
    pub coords: GridCoords,
    pub rigid_body: RigidBody,
}

pub open spec fn in_bounds(width: int, height: int, x: int, y: int) -> bool {
    0 <= x < width && 0 <= y < height
}

/// The body that the collision grid holds at `(x, y)`: the last body placed there.
pub open spec fn occupant(bodies: Seq<Body>, x: int, y: int) -> Option<Body>
    decreases bodies.len(),
{
    if bodies.len() == 0 {
        None
    } else if bodies.last().coords.x == x && bodies.last().coords.y == y {
        Some(bodies.last())
    } else {
        occupant(bodies.drop_last(), x, y)
    }
}

/// Number of cells from `(x, y)` to the edge of the grid, walking in direction `d`.
pub open spec fn steps_to_edge(width: int, height: int, x: int, y: int, d: Direction) -> int {
    match d {
        Direction::Right => width - x,
        Direction::Left => x + 1,
        Direction::Up => height - y,
        Direction::Down => y + 1,
    }
}

/// The entities that move when the occupant of `(x, y)` moves one step in direction `d`,
/// farthest first and the mover last; empty when the chain is blocked by a static body or by
/// the edge of the grid, or when nothing stands at `(x, y)`.
pub open spec fn push_chain(bodies: Seq<Body>, width: int, height: int, x: int, y: int, d: Direction) -> Seq<u64>
    decreases steps_to_edge(width, height, x, y, d),
{
    match occupant(bodies, x, y) {
        None => seq![],
        Some(mover) => {
            let nx = x + d.dx();
            let ny = y + d.dy();
            if !in_bounds(width, height, nx, ny) {
                seq![]
            } else {
                match occupant(bodies, nx, ny) {
                    None => seq![mover.entity],
                    Some(next) => {
                        if next.rigid_body == RigidBody::Static {
                            seq![]
                        } else {
                            let rest = push_chain(bodies, width, height, nx, ny, d);
                            if rest.len() == 0 {
                                seq![]
                            } else {
                                rest.push(mover.entity)
                            }
                        }
                    }
                }
            }
        }
    }
}

/// A body moved one step in direction `d`.
pub open spec fn shifted(b: Body, d: Direction) -> Body {
    Body {
        coords: GridCoords { x: (b.coords.x + d.dx()) as i32, y: (b.coords.y + d.dy()) as i32 },
        ..b
    }
}

/// Every body whose entity is in `moved` shifted one step in direction `d`, the others kept.
pub open spec fn shift_entities(bodies: Seq<Body>, moved: Seq<u64>, d: Direction) -> Seq<Body> {
    bodies.map_values(|b: Body| if moved.contains(b.entity) { shifted(b, d) } else { b })
}

/// The bodies lie inside the grid, no two share a cell and no two share an entity.
pub open spec fn well_placed(bodies: Seq<Body>, width: int, height: int) -> bool {
    &&& forall|i: int| 0 <= i < bodies.len() ==> in_bounds(width, height, bodies[i].coords.x as int, bodies[i].coords.y as int)
    &&& forall|i: int, j: int| 0 <= i < j < bodies.len() ==> bodies[i].coords != bodies[j].coords
    &&& forall|i: int, j: int| 0 <= i < j < bodies.len() ==> bodies[i].entity != bodies[j].entity
}

/// The collision grid of a level: its size and the bodies that occupy its cells.
pub struct GridMap {
    width: i32,
    height: i32,
    bodies: Vec<Body>,
}

impl GridMap {
    pub closed spec fn spec_width(&self) -> int {
        self.width as int
    }

    pub closed spec fn spec_height(&self) -> int {
        self.height as int
    }

    pub closed spec fn spec_bodies(&self) -> Seq<Body> {
        self.bodies@
    }

    pub open spec fn wf(&self) -> bool {
        &&& 0 <= self.spec_width()
        &&& 0 <= self.spec_height()
        &&& well_placed(self.spec_bodies(), self.spec_width(), self.spec_height())
    }

    pub fn width(&self) -> (r: i32)
        ensures
            r == self.spec_width(),
    {
        self.width
    }

    pub fn height(&self) -> (r: i32)
        ensures
            r == self.spec_height(),
    {
        self.height
    }

    pub fn bodies(&self) -> (r: &Vec<Body>)
        ensures
            r@ == self.spec_bodies(),
    {
        &self.bodies
    }

    /// Builds the collision grid of a `width` by `height` level; `None` when a body lies
    /// outside the grid, or two bodies share a cell or an entity.
    pub fn from_bodies(width: i32, height: i32, bodies: Vec<Body>) -> (r: Option<GridMap>)
        ensures
            r.is_some() <==> (0 <= width && 0 <= height && well_placed(bodies@, width as int, height as int)),
            r matches Some(g) ==> g.spec_width() == width && g.spec_height() == height && g.spec_bodies() == bodies@,
    {
        if width < 0 || height < 0 || !check_well_placed(&bodies, width, height) {
            None
        } else {
            Some(GridMap { width, height, bodies })
        }
    }

    /// The body that the grid holds at `(x, y)`.
    pub fn occupant_at(&self, x: i32, y: i32) -> (r: Option<Body>)
        ensures
            r == occupant(self.spec_bodies(), x as int, y as int),
    {
        let mut found: Option<Body> = None;
        let mut i: usize = 0;
        while i < self.bodies.len()
            invariant
                i <= self.bodies@.len(),
                found == occupant(self.bodies@.take(i as int), x as int, y as int),
            decreases self.bodies@.len() - i,
        {
            let b = self.bodies[i];
            proof {
                assert(self.bodies@.take(i + 1).drop_last() =~= self.bodies@.take(i as int));
            }
            if b.coords.x == x && b.coords.y == y {
                found = Some(b);
            }
            i = i + 1;
        }
        proof {
            assert(self.bodies@.take(i as int) =~= self.bodies@);
        }
        found
    }

    fn chain_from(&self, x: i32, y: i32, direction: Direction) -> (r: Vec<u64>)
        requires
            0 <= self.spec_width(),
            0 <= self.spec_height(),
        ensures
            r@ == push_chain(self.spec_bodies(), self.spec_width(), self.spec_height(), x as int, y as int, direction),
        decreases steps_to_edge(self.spec_width(), self.spec_height(), x as int, y as int, direction),
    {
        match self.occupant_at(x, y) {
            None => Vec::new(),
            Some(mover) => {
                let unit = direction.unit_vector();
                let nx: i64 = x as i64 + unit.x as i64;
                let ny: i64 = y as i64 + unit.y as i64;
                if nx < 0 || nx >= self.width as i64 || ny < 0 || ny >= self.height as i64 {
                    Vec::new()
                } else {
                    match self.occupant_at(nx as i32, ny as i32) {
                        None => {
                            let mut r: Vec<u64> = Vec::new();
                            r.push(mover.entity);
                            r
                        },
                        Some(next) => {
                            if next.rigid_body == RigidBody::Static {
                                Vec::new()
                            } else {
                                let mut rest = self.chain_from(nx as i32, ny as i32, direction);
                                if rest.len() == 0 {
                                    Vec::new()
                                } else {
                                    rest.push(mover.entity);
                                    rest
                                }
                            }
                        },
                    }
                }
            },
        }
    }

    /// The entities that move when the body at `mover` is moved one step in `direction`,
    /// by the sokoban rule: farthest first and the mover last, or none at all when the chain
    /// of bodies ahead runs into a static body or the edge of the grid.
    pub fn resolve(&self, mover: GridCoords, direction: Direction) -> (r: Vec<u64>)
        requires
            self.wf(),
        ensures
            r@ == push_chain(self.spec_bodies(), self.spec_width(), self.spec_height(), mover.x as int, mover.y as int, direction),
    {
        self.chain_from(mover.x, mover.y, direction)
    }

    /// Moves the body at `mover` one step in `direction`, pushing the bodies ahead of it as
    /// `resolve` decides, and returns the entities that moved.
    pub fn push(&mut self, mover: GridCoords, direction: Direction) -> (moved: Vec<u64>)
        requires
            old(self).wf(),
        ensures
            moved@ == push_chain(old(self).spec_bodies(), old(self).spec_width(), old(self).spec_height(), mover.x as int, mover.y as int, direction),
            final(self).spec_bodies() == shift_entities(old(self).spec_bodies(), moved@, direction),
            final(self).spec_width() == old(self).spec_width(),
            final(self).spec_height() == old(self).spec_height(),
            final(self).wf(),
    {
        let moved = self.resolve(mover, direction);
        let ghost before = self.bodies@;
        proof {
            lemma_push_keeps_well_placed(before, self.width as int, self.height as int, mover.x as int, mover.y as int, direction);
        }
        let unit = direction.unit_vector();
        let mut i: usize = 0;
        while i < self.bodies.len()
            invariant
                self.bodies@.len() == before.len(),
                self.width == old(self).width,
                self.height == old(self).height,
                i <= before.len(),
                well_placed(before, self.width as int, self.height as int),
                unit.x == direction.dx(),
                unit.y == direction.dy(),
                forall|k: int| 0 <= k < i ==> self.bodies@[k] == shift_entities(before, moved@, direction)[k],
                forall|k: int| i <= k < before.len() ==> self.bodies@[k] == before[k],
            decreases before.len() - i,
        {
            let b = self.bodies[i];
            if contains_entity(&moved, b.entity) {
                assert(in_bounds(self.width as int, self.height as int, before[i as int].coords.x as int, before[i as int].coords.y as int));
                let c = GridCoords { x: b.coords.x + unit.x, y: b.coords.y + unit.y };
                self.bodies.set(i, Body { coords: c, ..b });
            }
            i = i + 1;
        }
        proof {
            assert(self.bodies@ =~= shift_entities(before, moved@, direction));
        }
        moved
    }
}

/// Whether `v` holds entity `e`.
fn contains_entity(v: &Vec<u64>, e: u64) -> (r: bool)
    ensures
        r == v@.contains(e),
{
    let mut i: usize = 0;
    while i < v.len()
        invariant
            i <= v@.len(),
            forall|k: int| 0 <= k < i ==> v@[k] != e,
        decreases v@.len() - i,
    {
        if v[i] == e {
            return true;
        }
        i = i + 1;
    }
    false
}

fn check_well_placed(bodies: &Vec<Body>, width: i32, height: i32) -> (r: bool)
    ensures
        r == well_placed(bodies@, width as int, height as int),
{
    let n = bodies.len();
    let mut i: usize = 0;
    while i < n
        invariant
            n == bodies@.len(),
            i <= n,
            forall|k: int| 0 <= k < i ==> in_bounds(width as int, height as int, bodies@[k].coords.x as int, bodies@[k].coords.y as int),
            forall|a: int, b: int| 0 <= a < b < n && a < i ==> bodies@[a].coords != bodies@[b].coords,
            forall|a: int, b: int| 0 <= a < b < n && a < i ==> bodies@[a].entity != bodies@[b].entity,
        decreases n - i,
    {
        let bi = bodies[i];
        if bi.coords.x < 0 || bi.coords.x >= width || bi.coords.y < 0 || bi.coords.y >= height {
            return false;
        }
        let mut j: usize = i + 1;
        while j < n
            invariant
                n == bodies@.len(),
                i < j <= n,
                bi == bodies@[i as int],
                forall|b: int| i < b < j ==> bodies@[i as int].coords != bodies@[b].coords,
                forall|b: int| i < b < j ==> bodies@[i as int].entity != bodies@[b].entity,
            decreases n - j,
        {
            let bj = bodies[j];
            if bj.coords == bi.coords || bj.entity == bi.entity {
                return false;
            }
            j = j + 1;
        }
        i = i + 1;
    }
    true
}

/// The index of the body that `occupant` finds.
proof fn lemma_occupant_index(bodies: Seq<Body>, x: int, y: int) -> (k: int)
    requires
        occupant(bodies, x, y).is_some(),
    ensures
        0 <= k < bodies.len(),
        occupant(bodies, x, y) == Some(bodies[k]),
        bodies[k].coords.x == x,
        bodies[k].coords.y == y,
    decreases bodies.len(),
{
    if bodies.last().coords.x == x && bodies.last().coords.y == y {
        bodies.len() - 1
    } else {
        lemma_occupant_index(bodies.drop_last(), x, y)
    }
}

/// Where no two bodies share a cell, `occupant` finds the body that stands there.
proof fn lemma_occupant_of_body(bodies: Seq<Body>, k: int)
    requires
        0 <= k < bodies.len(),
        forall|i: int, j: int| 0 <= i < j < bodies.len() ==> bodies[i].coords != bodies[j].coords,
    ensures
        occupant(bodies, bodies[k].coords.x as int, bodies[k].coords.y as int) == Some(bodies[k]),
    decreases bodies.len(),
{
    if k < bodies.len() - 1 {
        assert(bodies.last() == bodies[bodies.len() - 1]);
        assert(bodies[k].coords != bodies[bodies.len() - 1].coords);
        lemma_occupant_of_body(bodies.drop_last(), k);
    }
}

/// A nonempty chain ends with the entity of the mover.
proof fn lemma_chain_ends_with_mover(bodies: Seq<Body>, width: int, height: int, x: int, y: int, d: Direction)
    requires
        push_chain(bodies, width, height, x, y, d).len() > 0,
    ensures
        occupant(bodies, x, y).is_some(),
        push_chain(bodies, width, height, x, y, d).last() == occupant(bodies, x, y).unwrap().entity,
{
}

/// Entity `e` of the chain started at `(x, y)` stands at `(cx, cy)`, its step lands inside
/// the grid on a free cell or on a body of the chain, and it is dynamic unless it is the
/// mover.
spec fn chain_cell(bodies: Seq<Body>, width: int, height: int, x: int, y: int, d: Direction, chain: Seq<u64>, e: u64, cx: int, cy: int) -> bool {
    &&& occupant(bodies, cx, cy) matches Some(b) && b.entity == e
    &&& in_bounds(width, height, cx + d.dx(), cy + d.dy())
    &&& (occupant(bodies, cx + d.dx(), cy + d.dy()) matches Some(n) ==> chain.contains(n.entity))
    &&& (occupant(bodies, cx, cy).unwrap().rigid_body == RigidBody::Dynamic || (cx == x && cy == y))
}

proof fn lemma_chain_cells(bodies: Seq<Body>, width: int, height: int, x: int, y: int, d: Direction)
    ensures
        forall|e: u64|
            #[trigger] push_chain(bodies, width, height, x, y, d).contains(e) ==> exists|cx: int, cy: int|
                chain_cell(bodies, width, height, x, y, d, push_chain(bodies, width, height, x, y, d), e, cx, cy),
    decreases steps_to_edge(width, height, x, y, d),
{
    let chain = push_chain(bodies, width, height, x, y, d);
    if chain.len() > 0 {
        let mover = occupant(bodies, x, y).unwrap();
        let nx = x + d.dx();
        let ny = y + d.dy();
        assert(in_bounds(width, height, nx, ny));
        match occupant(bodies, nx, ny) {
            None => {
                assert forall|e: u64| chain.contains(e) implies exists|cx: int, cy: int|
                    chain_cell(bodies, width, height, x, y, d, chain, e, cx, cy) by {
                    assert(chain =~= seq![mover.entity]);
                    assert(e == mover.entity);
                    assert(chain_cell(bodies, width, height, x, y, d, chain, e, x, y));
                }
            },
            Some(next) => {
                let rest = push_chain(bodies, width, height, nx, ny, d);
                assert(chain == rest.push(mover.entity));
                lemma_chain_cells(bodies, width, height, nx, ny, d);
                lemma_chain_ends_with_mover(bodies, width, height, nx, ny, d);
                assert(rest.contains(next.entity)) by {
                    assert(rest[rest.len() - 1] == next.entity);
                }
                assert forall|e: u64| chain.contains(e) implies exists|cx: int, cy: int|
                    chain_cell(bodies, width, height, x, y, d, chain, e, cx, cy) by {
                    if e == mover.entity {
                        assert(chain.contains(next.entity)) by {
                            let k = choose|k: int| 0 <= k < rest.len() && rest[k] == next.entity;
                            assert(chain[k] == next.entity);
                        }
                        assert(chain_cell(bodies, width, height, x, y, d, chain, e, x, y));
                    } else {
                        assert(rest.contains(e)) by {
                            let k = choose|k: int| 0 <= k < chain.len() && chain[k] == e;
                            assert(k < rest.len());
                            assert(rest[k] == e);
                        }
                        let (cx, cy) = choose|cx: int, cy: int| chain_cell(bodies, width, height, nx, ny, d, rest, e, cx, cy);
                        if let Some(n) = occupant(bodies, cx + d.dx(), cy + d.dy()) {
                            let k = choose|k: int| 0 <= k < rest.len() && rest[k] == n.entity;
                            assert(chain[k] == n.entity);
                        }
                        assert(chain_cell(bodies, width, height, x, y, d, chain, e, cx, cy));
                    }
                }
            },
        }
    }
}

/// A body whose entity is in the chain stands where the chain walks, and its step lands
/// inside the grid on a free cell or on a body of the chain.
proof fn lemma_chain_member(bodies: Seq<Body>, width: int, height: int, x: int, y: int, d: Direction, i: int)
    requires
        well_placed(bodies, width, height),
        0 <= i < bodies.len(),
        push_chain(bodies, width, height, x, y, d).contains(bodies[i].entity),
    ensures
        in_bounds(width, height, bodies[i].coords.x + d.dx(), bodies[i].coords.y + d.dy()),
        occupant(bodies, bodies[i].coords.x + d.dx(), bodies[i].coords.y + d.dy()) matches Some(n)
            ==> push_chain(bodies, width, height, x, y, d).contains(n.entity),
        bodies[i].rigid_body == RigidBody::Dynamic || (bodies[i].coords.x == x && bodies[i].coords.y == y),
{
    let chain = push_chain(bodies, width, height, x, y, d);
    let e = bodies[i].entity;
    lemma_chain_cells(bodies, width, height, x, y, d);
    assert(chain.contains(e));
    let (cx, cy) = choose|cx: int, cy: int| chain_cell(bodies, width, height, x, y, d, chain, e, cx, cy);
    let k = lemma_occupant_index(bodies, cx, cy);
    if k != i {
        if k < i {
            assert(bodies[k].entity != bodies[i].entity);
        } else {
            assert(bodies[i].entity != bodies[k].entity);
        }
    }
}

/// One push keeps the bodies inside the grid, one to a cell.
pub proof fn lemma_push_keeps_well_placed(bodies: Seq<Body>, width: int, height: int, x: int, y: int, d: Direction)
    requires
        width <= i32::MAX,
        height <= i32::MAX,
        well_placed(bodies, width, height),
    ensures
        well_placed(shift_entities(bodies, push_chain(bodies, width, height, x, y, d), d), width, height),
{
    let chain = push_chain(bodies, width, height, x, y, d);
    let after = shift_entities(bodies, chain, d);
    assert forall|i: int| 0 <= i < after.len() implies in_bounds(width, height, after[i].coords.x as int, after[i].coords.y as int) by {
        if chain.contains(bodies[i].entity) {
            lemma_chain_member(bodies, width, height, x, y, d, i);
            assert(after[i] == shifted(bodies[i], d));
        } else {
            assert(after[i] == bodies[i]);
        }
    }
    assert forall|i: int, j: int| 0 <= i < j < after.len() implies after[i].coords != after[j].coords by {
        let mi = chain.contains(bodies[i].entity);
        let mj = chain.contains(bodies[j].entity);
        if mi {
            lemma_chain_member(bodies, width, height, x, y, d, i);
            assert(after[i] == shifted(bodies[i], d));
        } else {
            assert(after[i] == bodies[i]);
        }
        if mj {
            lemma_chain_member(bodies, width, height, x, y, d, j);
            assert(after[j] == shifted(bodies[j], d));
        } else {
            assert(after[j] == bodies[j]);
        }
        if mi && !mj && after[i].coords == after[j].coords {
            lemma_occupant_of_body(bodies, j);
        }
        if !mi && mj && after[i].coords == after[j].coords {
            lemma_occupant_of_body(bodies, i);
        }
    }
}

/// A push started by anything but a static body never moves a static body.
pub proof fn lemma_push_keeps_statics(bodies: Seq<Body>, width: int, height: int, x: int, y: int, d: Direction)
    requires
        well_placed(bodies, width, height),
        !(occupant(bodies, x, y) matches Some(m) && m.rigid_body == RigidBody::Static),
    ensures
        forall|i: int|
            0 <= i < bodies.len() && bodies[i].rigid_body == RigidBody::Static
                ==> #[trigger] shift_entities(bodies, push_chain(bodies, width, height, x, y, d), d)[i] == bodies[i],
{
    let chain = push_chain(bodies, width, height, x, y, d);
    assert forall|i: int|
        0 <= i < bodies.len() && bodies[i].rigid_body == RigidBody::Static
            implies #[trigger] shift_entities(bodies, chain, d)[i] == bodies[i] by {
        if chain.contains(bodies[i].entity) {
            lemma_chain_member(bodies, width, height, x, y, d, i);
            lemma_occupant_of_body(bodies, i);
        }
    }
}

/// The bodies after each push of `pushes` in turn; a push is the cell of its mover and its
/// direction.
pub open spec fn after_pushes(bodies: Seq<Body>, width: int, height: int, pushes: Seq<(GridCoords, Direction)>) -> Seq<Body>
    decreases pushes.len(),
{
    if pushes.len() == 0 {
        bodies
    } else {
        let (m, d) = pushes[0];
        after_pushes(
            shift_entities(bodies, push_chain(bodies, width, height, m.x as int, m.y as int, d), d),
            width,
            height,
            pushes.drop_first(),
        )
    }
}

/// No push of `pushes` starts at a static body, each judged on the bodies it meets.
pub open spec fn pushers_not_static(bodies: Seq<Body>, width: int, height: int, pushes: Seq<(GridCoords, Direction)>) -> bool
    decreases pushes.len(),
{
    if pushes.len() == 0 {
        true
    } else {
        let (m, d) = pushes[0];
        &&& !(occupant(bodies, m.x as int, m.y as int) matches Some(b) && b.rigid_body == RigidBody::Static)
        &&& pushers_not_static(
            shift_entities(bodies, push_chain(bodies, width, height, m.x as int, m.y as int, d), d),
            width,
            height,
            pushes.drop_first(),
        )
    }
}

/// Over any sequence of pushes, the bodies stay inside the grid with no two in one cell, and,
/// where no push starts at a static body, every static body stays where it was.
pub proof fn lemma_pushes_keep_cells_exclusive(bodies: Seq<Body>, width: int, height: int, pushes: Seq<(GridCoords, Direction)>)
    requires
        width <= i32::MAX,
        height <= i32::MAX,
        well_placed(bodies, width, height),
    ensures
        well_placed(after_pushes(bodies, width, height, pushes), width, height),
        after_pushes(bodies, width, height, pushes).len() == bodies.len(),
        pushers_not_static(bodies, width, height, pushes) ==> forall|i: int|
            0 <= i < bodies.len() && bodies[i].rigid_body == RigidBody::Static
                ==> #[trigger] after_pushes(bodies, width, height, pushes)[i] == bodies[i],
    decreases pushes.len(),
{
    if pushes.len() > 0 {
        let (m, d) = pushes[0];
        let next = shift_entities(bodies, push_chain(bodies, width, height, m.x as int, m.y as int, d), d);
        lemma_push_keeps_well_placed(bodies, width, height, m.x as int, m.y as int, d);
        lemma_pushes_keep_cells_exclusive(next, width, height, pushes.drop_first());
        if pushers_not_static(bodies, width, height, pushes) {
            lemma_push_keeps_statics(bodies, width, height, m.x as int, m.y as int, d);
            assert forall|i: int|
                0 <= i < bodies.len() && bodies[i].rigid_body == RigidBody::Static
                    implies #[trigger] after_pushes(bodies, width, height, pushes)[i] == bodies[i] by {
                assert(next[i] == bodies[i]);
                assert(after_pushes(next, width, height, pushes.drop_first())[i] == next[i]);
            }
        }
    }
}

/// A mover facing `n` dynamic bodies in a row, the row ending at a static body or at the edge
/// of the grid, moves nothing, for every `n`.
pub proof fn lemma_blocked_chain_moves_nothing(bodies: Seq<Body>, width: int, height: int, x: int, y: int, d: Direction, n: nat)
    requires
        forall|i: int|
            1 <= i <= n ==> in_bounds(width, height, x + i * d.dx(), y + i * d.dy())
                && (#[trigger] occupant(bodies, x + i * d.dx(), y + i * d.dy()) matches Some(b) && b.rigid_body == RigidBody::Dynamic),
        !in_bounds(width, height, x + (n + 1) * d.dx(), y + (n + 1) * d.dy())
            || (occupant(bodies, x + (n + 1) * d.dx(), y + (n + 1) * d.dy()) matches Some(b) && b.rigid_body == RigidBody::Static),
    ensures
        push_chain(bodies, width, height, x, y, d) == Seq::<u64>::empty(),
    decreases n,
{
    let nx = x + d.dx();
    let ny = y + d.dy();
    if n > 0 {
        assert(occupant(bodies, x + 1 * d.dx(), y + 1 * d.dy()) matches Some(b) && b.rigid_body == RigidBody::Dynamic);
        assert forall|i: int|
            1 <= i <= (n - 1) as nat implies in_bounds(width, height, nx + i * d.dx(), ny + i * d.dy())
                && (#[trigger] occupant(bodies, nx + i * d.dx(), ny + i * d.dy()) matches Some(b) && b.rigid_body == RigidBody::Dynamic) by {
            let (dx, dy) = (d.dx(), d.dy());
            assert(nx + i * dx == x + (i + 1) * dx) by (nonlinear_arith)
                requires
                    nx == x + dx,
            ;
            assert(ny + i * dy == y + (i + 1) * dy) by (nonlinear_arith)
                requires
                    ny == y + dy,
            ;
            assert(1 <= i + 1 <= n);
        }
        let (dx, dy) = (d.dx(), d.dy());
        let m = (n - 1) as nat;
        assert(nx + (m + 1) * dx == x + (n + 1) * dx) by (nonlinear_arith)
            requires
                nx == x + dx,
                m + 1 == n,
        ;
        assert(ny + (m + 1) * dy == y + (n + 1) * dy) by (nonlinear_arith)
            requires
                ny == y + dy,
                m + 1 == n,
        ;
        lemma_blocked_chain_moves_nothing(bodies, width, height, nx, ny, d, (n - 1) as nat);
    } else {
        assert(x + (n + 1) * d.dx() == nx);
        assert(y + (n + 1) * d.dy() == ny);
    }
}

} // verus!
