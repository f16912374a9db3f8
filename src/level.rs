//! Level files: a grid of characters, one per tile, the first line at the top.
use vstd::prelude::*;

use crate::grid::{file_to_tile_coords, Direction, GridCoords};

verus! {

/// What a tile character places on the grid, other than the players.
#[derive(Clone, Copy, Debug, PartialEq, Eq, Hash, Structural)]
pub enum TileKind {
    Wall,
    /// A control block whose control moves in the given direction.
    InputBlock(Direction),
    Goal,
    /// Willo's movement table.
    WilloTable,
    /// Chester's movement table.
    ChesterTable,
}

/// Why a level cannot be loaded.
#[derive(Clone, Copy, Debug, PartialEq, Eq, Hash, Structural)]
pub enum LevelError {
    /// The level has a table for Willo but no Willo.
    TableWithoutWillo,
    /// The level has a table for Chester but no Chester.
    TableWithoutChester,
}

/// The contents of a level file.
#[derive(Clone, Debug, PartialEq, Eq)]
pub struct LevelLayout {
    pub willo: Option<GridCoords>,
    pub chester: Option<GridCoords>,
    /// The tiles in file order, line by line.
    pub tiles: Vec<(TileKind, GridCoords)>,
    /// The length of the longest line.
    pub width: usize,
    /// The number of lines.
    pub height: usize,
}

pub open spec fn tile_of(c: char) -> Option<TileKind> {
    match c {
        'f' | 'F' | 'b' | 'B' | 't' | 'T' => Some(TileKind::Wall),
        'w' | 'W' => Some(TileKind::InputBlock(Direction::Up)),
        'a' | 'A' => Some(TileKind::InputBlock(Direction::Left)),
        's' | 'S' => Some(TileKind::InputBlock(Direction::Down)),
        'd' | 'D' => Some(TileKind::InputBlock(Direction::Right)),
        'g' | 'G' => Some(TileKind::Goal),
        'i' => Some(TileKind::WilloTable),
        'c' => Some(TileKind::ChesterTable),
        _ => None,
    }
}

fn tile_of_exec(c: char) -> (r: Option<TileKind>)
    ensures
        r == tile_of(c),
{
    match c {
        'f' | 'F' | 'b' | 'B' | 't' | 'T' => Some(TileKind::Wall),
        'w' | 'W' => Some(TileKind::InputBlock(Direction::Up)),
        'a' | 'A' => Some(TileKind::InputBlock(Direction::Left)),
        's' | 'S' => Some(TileKind::InputBlock(Direction::Down)),
        'd' | 'D' => Some(TileKind::InputBlock(Direction::Right)),
        'g' | 'G' => Some(TileKind::Goal),
        'i' => Some(TileKind::WilloTable),
        'c' => Some(TileKind::ChesterTable),
        _ => None,
    }
}

pub open spec fn tile_coords(i: int, j: int, height: int) -> GridCoords {
    GridCoords { x: j as i32, y: (height - i - 1) as i32 }
}

/// The column of the last `c` among the first `m` characters of `line`.
pub open spec fn last_in_line(line: Seq<char>, c: char, m: int) -> Option<int>
    decreases m,
{
    if m <= 0 {
        None
    } else if line[m - 1] == c {
        Some(m - 1)
    } else {
        last_in_line(line, c, m - 1)
    }
}

/// The line and column of the last `c` in the first `n` lines.
pub open spec fn last_in_lines(lines: Seq<Seq<char>>, c: char, n: int) -> Option<(int, int)>
    decreases n,
{
    if n <= 0 {
        None
    } else {
        match last_in_line(lines[n - 1], c, lines[n - 1].len() as int) {
            Some(j) => Some((n - 1, j)),
            None => last_in_lines(lines, c, n - 1),
        }
    }
}

/// Where the last `c` of the file stands on the grid.
pub open spec fn player_at(lines: Seq<Seq<char>>, c: char) -> Option<GridCoords> {
    match last_in_lines(lines, c, lines.len() as int) {
        Some((i, j)) => Some(tile_coords(i, j, lines.len() as int)),
        None => None,
    }
}

/// The length of the longest of the first `n` lines.
pub open spec fn max_width(lines: Seq<Seq<char>>, n: int) -> int
    decreases n,
{
    if n <= 0 {
        0
    } else {
        let w = max_width(lines, n - 1);
        if lines[n - 1].len() > w {
            lines[n - 1].len() as int
        } else {
            w
        }
    }
}

/// The tiles of the first `m` characters of line `i`.
pub open spec fn line_tiles(lines: Seq<Seq<char>>, i: int, m: int) -> Seq<(TileKind, GridCoords)>
    decreases m,
{
    if m <= 0 {
        Seq::empty()
    } else {
        let prev = line_tiles(lines, i, m - 1);
        match tile_of(lines[i][m - 1]) {
            Some(k) => prev.push((k, tile_coords(i, m - 1, lines.len() as int))),
            None => prev,
        }
    }
}

/// The tiles of the first `n` lines, in file order.
pub open spec fn file_tiles(lines: Seq<Seq<char>>, n: int) -> Seq<(TileKind, GridCoords)>
    decreases n,
{
    if n <= 0 {
        Seq::empty()
    } else {
        file_tiles(lines, n - 1) + line_tiles(lines, n - 1, lines[n - 1].len() as int)
    }
}

/// The error of the first table of `tiles` whose player is missing.
pub open spec fn orphan_table(tiles: Seq<(TileKind, GridCoords)>, has_willo: bool, has_chester: bool) -> Option<LevelError>
    decreases tiles.len(),
{
    if tiles.len() == 0 {
        None
    } else if tiles[0].0 == TileKind::WilloTable && !has_willo {
        Some(LevelError::TableWithoutWillo)
    } else if tiles[0].0 == TileKind::ChesterTable && !has_chester {
        Some(LevelError::TableWithoutChester)
    } else {
        orphan_table(tiles.drop_first(), has_willo, has_chester)
    }
}

fn find_orphan_table(tiles: &Vec<(TileKind, GridCoords)>, has_willo: bool, has_chester: bool) -> (r: Option<LevelError>)
    ensures
        r == orphan_table(tiles@, has_willo, has_chester),
{
    let mut i: usize = 0;
    assert(tiles@.skip(0) =~= tiles@);
    while i < tiles.len()
        invariant
            i <= tiles@.len(),
            orphan_table(tiles@, has_willo, has_chester) == orphan_table(tiles@.skip(i as int), has_willo, has_chester),
        decreases tiles@.len() - i,
    {
        assert(tiles@.skip(i as int).drop_first() =~= tiles@.skip(i + 1));
        let k = tiles[i].0;
        if k == TileKind::WilloTable && !has_willo {
            return Some(LevelError::TableWithoutWillo);
        }
        if k == TileKind::ChesterTable && !has_chester {
            return Some(LevelError::TableWithoutChester);
        }
        i = i + 1;
    }
    None
}

/// Reads a level from its lines: `I` and `C` place Willo and Chester (the last of each
/// wins), and every other tile character places its tile; a movement table whose player is
/// missing is an error.
pub fn load_level(lines: &Vec<Vec<char>>) -> (r: Result<LevelLayout, LevelError>)
    requires
        lines@.len() <= i32::MAX,
        forall|i: int| 0 <= i < lines@.len() ==> #[trigger] lines@[i]@.len() <= i32::MAX,
    ensures
        ({
            let ls = lines@.map_values(|l: Vec<char>| l@);
            let willo = player_at(ls, 'I');
            let chester = player_at(ls, 'C');
            let tiles = file_tiles(ls, ls.len() as int);
            match r {
                Ok(layout) => {
                    &&& orphan_table(tiles, willo.is_some(), chester.is_some()).is_none()
                    &&& layout.willo == willo
                    &&& layout.chester == chester
                    &&& layout.tiles@ == tiles
                    &&& layout.width == max_width(ls, ls.len() as int)
                    &&& layout.height == ls.len()
                },
                Err(e) => orphan_table(tiles, willo.is_some(), chester.is_some()) == Some(e),
            }
        }),
{
    let ghost ls = lines@.map_values(|l: Vec<char>| l@);
    let height = lines.len();
    let mut willo_at: Option<(usize, usize)> = None;
    let mut chester_at: Option<(usize, usize)> = None;
    let mut width: usize = 0;
    let mut tiles: Vec<(TileKind, GridCoords)> = Vec::new();
    let mut i: usize = 0;
    while i < height
        invariant
            height == lines@.len(),
            height <= i32::MAX,
            forall|k: int| 0 <= k < lines@.len() ==> #[trigger] lines@[k]@.len() <= i32::MAX,
            ls == lines@.map_values(|l: Vec<char>| l@),
            i <= height,
            width == max_width(ls, i as int),
            tiles@ == file_tiles(ls, i as int),
            match willo_at {
                Some((a, b)) => last_in_lines(ls, 'I', i as int) == Some((a as int, b as int)) && a < i && b <= i32::MAX,
                None => last_in_lines(ls, 'I', i as int).is_none(),
            },
            match chester_at {
                Some((a, b)) => last_in_lines(ls, 'C', i as int) == Some((a as int, b as int)) && a < i && b <= i32::MAX,
                None => last_in_lines(ls, 'C', i as int).is_none(),
            },
        decreases height - i,
    {
        let line = &lines[i];
        assert(ls[i as int] == line@);
        let ghost start = tiles@;
        let mut willo_col: Option<usize> = None;
        let mut chester_col: Option<usize> = None;
        let mut j: usize = 0;
        while j < line.len()
            invariant
                i < height,
                height == lines@.len(),
                height <= i32::MAX,
                line@.len() <= i32::MAX,
                ls == lines@.map_values(|l: Vec<char>| l@),
                ls[i as int] == line@,
                j <= line@.len(),
                start == file_tiles(ls, i as int),
                tiles@ == start + line_tiles(ls, i as int, j as int),
                match willo_col {
                    Some(b) => last_in_line(line@, 'I', j as int) == Some(b as int) && b < j,
                    None => last_in_line(line@, 'I', j as int).is_none(),
                },
                match chester_col {
                    Some(b) => last_in_line(line@, 'C', j as int) == Some(b as int) && b < j,
                    None => last_in_line(line@, 'C', j as int).is_none(),
                },
            decreases line@.len() - j,
        {
            let ch = line[j];
            if ch == 'I' {
                willo_col = Some(j);
            } else if ch == 'C' {
                chester_col = Some(j);
            }
            match tile_of_exec(ch) {
                Some(k) => {
                    let coords = file_to_tile_coords(i, j, height);
                    tiles.push((k, coords));
                },
                None => {},
            }
            assert(tiles@ =~= start + line_tiles(ls, i as int, j + 1));
            j = j + 1;
        }
        if let Some(b) = willo_col {
            willo_at = Some((i, b));
        }
        if let Some(b) = chester_col {
            chester_at = Some((i, b));
        }
        if line.len() > width {
            width = line.len();
        }
        i = i + 1;
    }
    let willo = match willo_at {
        Some((a, b)) => Some(file_to_tile_coords(a, b, height)),
        None => None,
    };
    let chester = match chester_at {
        Some((a, b)) => Some(file_to_tile_coords(a, b, height)),
        None => None,
    };
    match find_orphan_table(&tiles, willo.is_some(), chester.is_some()) {
        Some(e) => Err(e),
        None => Ok(LevelLayout { willo, chester, tiles, width, height }),
    }
}

} // verus!
