//! The movement table: which control sits in which cell of the 4x4 window beside the table.
use vstd::prelude::*;

use crate::grid::{direction_order, spec_direction_order, Direction, GridCoords};
use crate::gravestone::{spec_grave_order, GraveId};

verus! {

/// Rank `r` (row) and file `f` (column) of the table hold the control of the gravestone at
/// `f + 1` cells right of and `r + 1` cells below the table's anchor cell.
#[derive(Clone, Copy, Debug, PartialEq, Eq, Hash)]
pub struct MovementTable {
    pub table: [[Option<GraveId>; 4]; 4],
}

/// The control of the last gravestone of `blocks` that stands at `(x, y)`.
pub open spec fn last_control_at(blocks: Seq<(GridCoords, GraveId)>, x: int, y: int) -> Option<GraveId>
    decreases blocks.len(),
{
    if blocks.len() == 0 {
        None
    } else if blocks.last().0.x == x && blocks.last().0.y == y {
        Some(blocks.last().1)
    } else {
        last_control_at(blocks.drop_last(), x, y)
    }
}

/// The control in rank `r`, file `f` of a table anchored at `anchor`.
pub open spec fn table_cell(blocks: Seq<(GridCoords, GraveId)>, anchor: GridCoords, r: int, f: int) -> Option<GraveId> {
    last_control_at(blocks, anchor.x + f + 1, anchor.y - r - 1)
}

/// Rank `r` of `t` holds control `key`.
pub open spec fn rank_holds(t: MovementTable, key: GraveId, r: int) -> bool {
    exists|f: int| 0 <= f < 4 && t.table[r][f] == Some(key)
}

/// The directions of the first `n` ranks that hold `key`, in rank order.
pub open spec fn rank_moves(t: MovementTable, key: GraveId, n: int) -> Seq<Direction>
    decreases n,
{
    if n <= 0 {
        Seq::empty()
    } else if rank_holds(t, key, n - 1) {
        rank_moves(t, key, n - 1).push(spec_direction_order(n - 1))
    } else {
        rank_moves(t, key, n - 1)
    }
}

/// The directions of the files of the first `n` cells of rank `r` that hold `key`.
pub open spec fn file_moves_in_rank(t: MovementTable, key: GraveId, r: int, n: int) -> Seq<Direction>
    decreases n,
{
    if n <= 0 {
        Seq::empty()
    } else if t.table[r][n - 1] == Some(key) {
        file_moves_in_rank(t, key, r, n - 1).push(spec_direction_order(n - 1))
    } else {
        file_moves_in_rank(t, key, r, n - 1)
    }
}

/// The directions of the files of all cells of the first `n` ranks that hold `key`, rank
/// by rank.
pub open spec fn file_moves(t: MovementTable, key: GraveId, n: int) -> Seq<Direction>
    decreases n,
{
    if n <= 0 {
        Seq::empty()
    } else {
        file_moves(t, key, n - 1) + file_moves_in_rank(t, key, n - 1, 4)
    }
}

impl MovementTable {
    pub fn empty() -> (r: MovementTable)
        ensures
            forall|i: int, j: int| 0 <= i < 4 && 0 <= j < 4 ==> r.table[i][j].is_none(),
    {
        MovementTable { table: [[None; 4]; 4] }
    }

    /// The control in rank `r`, file `f`.
    pub fn get(&self, r: usize, f: usize) -> (c: Option<GraveId>)
        requires
            r < 4,
            f < 4,
        ensures
            c == self.table[r as int][f as int],
    {
        self.table[r][f]
    }

    /// The directions of the ranks that hold `key`, in rank order.
    pub fn rank_directions(&self, key: GraveId) -> (r: Vec<Direction>)
        ensures
            r@ == rank_moves(*self, key, 4),
    {
        let mut out: Vec<Direction> = Vec::new();
        let mut i: usize = 0;
        while i < 4
            invariant
                i <= 4,
                out@ == rank_moves(*self, key, i as int),
            decreases 4 - i,
        {
            let mut holds = false;
            let mut j: usize = 0;
            while j < 4
                invariant
                    i < 4,
                    j <= 4,
                    holds == exists|f: int| 0 <= f < j && self.table[i as int][f] == Some(key),
                decreases 4 - j,
            {
                if self.table[i][j] == Some(key) {
                    holds = true;
                }
                j = j + 1;
            }
            if holds {
                out.push(direction_order(i));
            }
            i = i + 1;
        }
        out
    }

    /// The directions of the files of the cells that hold `key`, rank by rank.
    pub fn file_directions(&self, key: GraveId) -> (r: Vec<Direction>)
        ensures
            r@ == file_moves(*self, key, 4),
    {
        let mut out: Vec<Direction> = Vec::new();
        let mut i: usize = 0;
        while i < 4
            invariant
                i <= 4,
                out@ == file_moves(*self, key, i as int),
            decreases 4 - i,
        {
            let ghost start = out@;
            let mut j: usize = 0;
            while j < 4
                invariant
                    i < 4,
                    j <= 4,
                    start == file_moves(*self, key, i as int),
                    out@ == start + file_moves_in_rank(*self, key, i as int, j as int),
                decreases 4 - j,
            {
                if self.table[i][j] == Some(key) {
                    out.push(direction_order(j));
                    assert(out@ =~= start + file_moves_in_rank(*self, key, i as int, j + 1));
                } else {
                    assert(out@ =~= start + file_moves_in_rank(*self, key, i as int, j + 1));
                }
                j = j + 1;
            }
            i = i + 1;
        }
        out
    }
}

/// Rebuilds the table anchored at `anchor` from the gravestones on the grid: each gravestone
/// within the window right of and below the anchor puts its control in its cell (the last
/// one wins where two share a cell).
pub fn movement_table_update(anchor: GridCoords, blocks: &Vec<(GridCoords, GraveId)>) -> (r: MovementTable)
    ensures
        forall|i: int, j: int| 0 <= i < 4 && 0 <= j < 4 ==> #[trigger] r.table[i][j] == table_cell(blocks@, anchor, i, j),
{
    let mut t = MovementTable::empty();
    let mut k: usize = 0;
    while k < blocks.len()
        invariant
            k <= blocks@.len(),
            forall|i: int, j: int| 0 <= i < 4 && 0 <= j < 4 ==> #[trigger] t.table[i][j] == table_cell(blocks@.take(k as int), anchor, i, j),
        decreases blocks@.len() - k,
    {
        let (coords, key) = blocks[k];
        proof {
            assert(blocks@.take(k + 1).drop_last() =~= blocks@.take(k as int));
            assert(blocks@.take(k + 1).last() == blocks@[k as int]);
        }
        let x_index: i64 = coords.x as i64 - anchor.x as i64 - 1;
        let y_index: i64 = -1 - (coords.y as i64 - anchor.y as i64);
        if 0 <= x_index && x_index < 4 && 0 <= y_index && y_index < 4 {
            t.table[y_index as usize][x_index as usize] = Some(key);
        }
        k = k + 1;
    }
    proof {
        assert(blocks@.take(k as int) =~= blocks@);
    }
    t
}

/// The direction pairs shown for `key`: for each cell among the first `n` of rank `r` that
/// holds it, the rank's direction and then the file's.
pub open spec fn control_pairs_in_rank(t: MovementTable, key: GraveId, r: int, n: int) -> Seq<(Direction, Direction)>
    decreases n,
{
    if n <= 0 {
        Seq::empty()
    } else if t.table[r][n - 1] == Some(key) {
        control_pairs_in_rank(t, key, r, n - 1).push((spec_direction_order(r), spec_direction_order(n - 1)))
    } else {
        control_pairs_in_rank(t, key, r, n - 1)
    }
}

/// The direction pairs shown for `key` over the first `n` ranks, rank by rank.
pub open spec fn control_pairs(t: MovementTable, key: GraveId, n: int) -> Seq<(Direction, Direction)>
    decreases n,
{
    if n <= 0 {
        Seq::empty()
    } else {
        control_pairs(t, key, n - 1) + control_pairs_in_rank(t, key, n - 1, 4)
    }
}

fn control_row(t: &MovementTable, key: GraveId) -> (r: Vec<(Direction, Direction)>)
    ensures
        r@ == control_pairs(*t, key, 4),
{
    let mut out: Vec<(Direction, Direction)> = Vec::new();
    let mut i: usize = 0;
    while i < 4
        invariant
            i <= 4,
            out@ == control_pairs(*t, key, i as int),
        decreases 4 - i,
    {
        let ghost start = out@;
        let mut j: usize = 0;
        while j < 4
            invariant
                i < 4,
                j <= 4,
                start == control_pairs(*t, key, i as int),
                out@ == start + control_pairs_in_rank(*t, key, i as int, j as int),
            decreases 4 - j,
        {
            if t.table[i][j] == Some(key) {
                out.push((direction_order(i), direction_order(j)));
            }
            assert(out@ =~= start + control_pairs_in_rank(*t, key, i as int, j + 1));
            j = j + 1;
        }
        i = i + 1;
    }
    out
}

/// What the control display shows for a table: one row per control, in the order North,
/// West, South, East, each listing the (rank, file) direction pair of every cell that holds
/// the control.
pub fn update_control_display(table: &MovementTable) -> (rows: Vec<Vec<(Direction, Direction)>>)
    ensures
        rows@.len() == 4,
        forall|k: int| 0 <= k < 4 ==> #[trigger] rows@[k]@ == control_pairs(*table, spec_grave_order(k), 4),
{
    let mut rows: Vec<Vec<(Direction, Direction)>> = Vec::new();
    rows.push(control_row(table, GraveId::North));
    rows.push(control_row(table, GraveId::West));
    rows.push(control_row(table, GraveId::South));
    rows.push(control_row(table, GraveId::East));
    rows
}

} // verus!
