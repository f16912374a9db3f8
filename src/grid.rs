//! Grid coordinates and the four directions of movement.
use vstd::prelude::*;

verus! {

/// An integer position on the level grid.
#[derive(Clone, Copy, Debug, PartialEq, Eq, Hash, Structural)]
pub struct GridCoords {
    pub x: i32,
    pub y: i32,
}

impl GridCoords {
    pub fn new(x: i32, y: i32) -> (r: GridCoords)
        ensures
            r.x == x,
            r.y == y,
    {
        GridCoords { x, y }
    }
}

/// One of the four grid directions; `Up` is towards larger `y`.
#[derive(Clone, Copy, Debug, PartialEq, Eq, Hash, Structural)]
pub enum Direction {
    Up,
    Left,
    Down,
    Right,
}

impl Direction {
    /// Horizontal component of the unit step in this direction.
    pub open spec fn dx(self) -> int {
        match self {
            Direction::Left => -1,
            Direction::Right => 1,
            _ => 0,
        }
    }

    /// Vertical component of the unit step in this direction.
    pub open spec fn dy(self) -> int {
        match self {
            Direction::Up => 1,
            Direction::Down => -1,
            _ => 0,
        }
    }

    /// The unit vector of this direction.
    pub fn unit_vector(self) -> (r: GridCoords)
        ensures
            r.x == self.dx(),
            r.y == self.dy(),
    {
        match self {
            Direction::Up => GridCoords { x: 0, y: 1 },
            Direction::Left => GridCoords { x: -1, y: 0 },
            Direction::Down => GridCoords { x: 0, y: -1 },
            Direction::Right => GridCoords { x: 1, y: 0 },
        }
    }
}

/// The fixed order that gives each rank and each file of a movement table its direction.
pub open spec fn spec_direction_order(i: int) -> Direction {
    if i == 0 {
        Direction::Up
    } else if i == 1 {
        Direction::Left
    } else if i == 2 {
        Direction::Down
    } else {
        Direction::Right
    }
}

/// The direction at position `i` of the order Up, Left, Down, Right.
pub fn direction_order(i: usize) -> (r: Direction)
    requires
        i < 4,
    ensures
        r == spec_direction_order(i as int),
{
    if i == 0 {
        Direction::Up
    } else if i == 1 {
        Direction::Left
    } else if i == 2 {
        Direction::Down
    } else {
        Direction::Right
    }
}

/// Converts line `i`, column `j` of a level file with `height` lines into grid coordinates:
/// the first line of the file is the top row of the grid.
pub fn file_to_tile_coords(i: usize, j: usize, height: usize) -> (r: GridCoords)
    requires
        i < height,
        height <= i32::MAX,
        j <= i32::MAX,
    ensures
        r.x == j,
        r.y == height - i - 1,
{
    GridCoords { x: j as i32, y: (height - i - 1) as i32 }
}

/// The label tiles to spawn around a movement table: for each direction `d` at
/// position `i` of the direction order, the cell `i + 1` steps right of the table (labelling
/// file `i`) and the cell `i + 1` steps below it (labelling rank `i`).
pub fn spawn_table_edges(table: GridCoords) -> (r: Vec<(Direction, GridCoords)>)
    requires
        table.x + 4 <= i32::MAX,
        table.y - 4 >= i32::MIN,
    ensures
        r@.len() == 8,
        forall|i: int|
            0 <= i < 4 ==> {
                &&& r@[2 * i] == (spec_direction_order(i), GridCoords { x: (table.x + i + 1) as i32, y: table.y })
                &&& r@[2 * i + 1] == (spec_direction_order(i), GridCoords { x: table.x, y: (table.y - i - 1) as i32 })
            },
{
    let mut r: Vec<(Direction, GridCoords)> = Vec::new();
    let mut i: usize = 0;
    while i < 4
        invariant
            i <= 4,
            r@.len() == 2 * i,
            table.x + 4 <= i32::MAX,
            table.y - 4 >= i32::MIN,
            forall|k: int|
                0 <= k < i ==> {
                    &&& r@[2 * k] == (spec_direction_order(k), GridCoords { x: (table.x + k + 1) as i32, y: table.y })
                    &&& r@[2 * k + 1] == (spec_direction_order(k), GridCoords { x: table.x, y: (table.y - k - 1) as i32 })
                },
        decreases 4 - i,
    {
        let d = direction_order(i);
        let step = (i + 1) as i32;
        r.push((d, GridCoords { x: table.x + step, y: table.y }));
        r.push((d, GridCoords { x: table.x, y: table.y - step }));
        i = i + 1;
    }
    r
}

} // verus!
