//! Wall presets of a cell, derived from which of its neighbours exist.

use vstd::prelude::*;
use crate::direction::GridDirection;

verus! {

/// Which planar faces of a cell are walled. `Empty` is the preset of a cell
/// that does not exist; `Closed` that of a cell without any neighbour.
#[derive(Clone, Copy, Debug, PartialEq, Eq, Hash, Structural)]
pub enum TileBundlePreset {
    Empty,
    Open,
    Closed,
    ForwardWall,
    RightWall,
    BackWall,
    LeftWall,
    ForwardLeftCorner,
    ForwardRightCorner,
    BackRightCorner,
    BackLeftCorner,
    ForwardBackHallway,
    LeftRightHallway,
    ForwardHallwayEnd,
    RightHallwayEnd,
    BackHallwayEnd,
    LeftHallwayEnd,
}

impl TileBundlePreset {
    /// The preset of an existing cell whose neighbours to the right, left,
    /// forward and back exist as the four flags say.
    pub open spec fn spec_from_neighbors(
        right: bool,
        left: bool,
        forward: bool,
        back: bool,
    ) -> TileBundlePreset {
        match (right, left, forward, back) {
            (true, true, true, true) => TileBundlePreset::Open,
            (true, true, false, true) => TileBundlePreset::ForwardWall,
            (false, true, true, true) => TileBundlePreset::RightWall,
            (true, true, true, false) => TileBundlePreset::BackWall,
            (true, false, true, true) => TileBundlePreset::LeftWall,
            (true, false, false, true) => TileBundlePreset::ForwardLeftCorner,
            (false, true, false, true) => TileBundlePreset::ForwardRightCorner,
            (false, true, true, false) => TileBundlePreset::BackRightCorner,
            (true, false, true, false) => TileBundlePreset::BackLeftCorner,
            (false, false, true, true) => TileBundlePreset::ForwardBackHallway,
            (true, true, false, false) => TileBundlePreset::LeftRightHallway,
            (false, false, false, true) => TileBundlePreset::ForwardHallwayEnd,
            (false, true, false, false) => TileBundlePreset::RightHallwayEnd,
            (false, false, true, false) => TileBundlePreset::BackHallwayEnd,
            (true, false, false, false) => TileBundlePreset::LeftHallwayEnd,
            (false, false, false, false) => TileBundlePreset::Closed,
        }
    }

    /// Whether the preset puts a wall on the planar face `direction`. No
    /// preset walls `Top` or `Bottom`: those faces hold ceiling and floor.
    pub open spec fn has_wall(self, direction: GridDirection) -> bool {
        match direction {
            GridDirection::Left => {
                self == TileBundlePreset::Closed || self == TileBundlePreset::LeftWall || self
                    == TileBundlePreset::ForwardLeftCorner || self
                    == TileBundlePreset::BackLeftCorner || self
                    == TileBundlePreset::ForwardBackHallway || self
                    == TileBundlePreset::ForwardHallwayEnd || self
                    == TileBundlePreset::BackHallwayEnd || self == TileBundlePreset::LeftHallwayEnd
            },
            GridDirection::Forward => {
                self == TileBundlePreset::Closed || self == TileBundlePreset::ForwardWall || self
                    == TileBundlePreset::ForwardLeftCorner || self
                    == TileBundlePreset::ForwardRightCorner || self
                    == TileBundlePreset::LeftRightHallway || self
                    == TileBundlePreset::ForwardHallwayEnd || self
                    == TileBundlePreset::RightHallwayEnd || self
                    == TileBundlePreset::LeftHallwayEnd
            },
            GridDirection::Right => {
                self == TileBundlePreset::Closed || self == TileBundlePreset::RightWall || self
                    == TileBundlePreset::ForwardRightCorner || self
                    == TileBundlePreset::BackRightCorner || self
                    == TileBundlePreset::ForwardBackHallway || self
                    == TileBundlePreset::ForwardHallwayEnd || self
                    == TileBundlePreset::RightHallwayEnd || self
                    == TileBundlePreset::BackHallwayEnd
            },
            GridDirection::Back => {
                self == TileBundlePreset::Closed || self == TileBundlePreset::BackWall || self
                    == TileBundlePreset::BackRightCorner || self
                    == TileBundlePreset::BackLeftCorner || self
                    == TileBundlePreset::LeftRightHallway || self
                    == TileBundlePreset::RightHallwayEnd || self
                    == TileBundlePreset::BackHallwayEnd || self == TileBundlePreset::LeftHallwayEnd
            },
            _ => false,
        }
    }

    /// The preset of an existing cell, from the existence of its four
    /// neighbours. Every combination of the flags has its own preset.
    pub fn from_neighbors(right: bool, left: bool, forward: bool, back: bool) -> (preset: Self)
        ensures
            preset == Self::spec_from_neighbors(right, left, forward, back),
            preset != TileBundlePreset::Empty,
            preset.has_wall(GridDirection::Right) == !right,
            preset.has_wall(GridDirection::Left) == !left,
            preset.has_wall(GridDirection::Forward) == !forward,
            preset.has_wall(GridDirection::Back) == !back,
    {
        match (right, left, forward, back) {
            (true, true, true, true) => TileBundlePreset::Open,
            (true, true, false, true) => TileBundlePreset::ForwardWall,
            (false, true, true, true) => TileBundlePreset::RightWall,
            (true, true, true, false) => TileBundlePreset::BackWall,
            (true, false, true, true) => TileBundlePreset::LeftWall,
            (true, false, false, true) => TileBundlePreset::ForwardLeftCorner,
            (false, true, false, true) => TileBundlePreset::ForwardRightCorner,
            (false, true, true, false) => TileBundlePreset::BackRightCorner,
            (true, false, true, false) => TileBundlePreset::BackLeftCorner,
            (false, false, true, true) => TileBundlePreset::ForwardBackHallway,
            (true, true, false, false) => TileBundlePreset::LeftRightHallway,
            (false, false, false, true) => TileBundlePreset::ForwardHallwayEnd,
            (false, true, false, false) => TileBundlePreset::RightHallwayEnd,
            (false, false, true, false) => TileBundlePreset::BackHallwayEnd,
            (true, false, false, false) => TileBundlePreset::LeftHallwayEnd,
            (false, false, false, false) => TileBundlePreset::Closed,
        }
    }
}

/// Whether the occupancy grid has an open cell at row `i`, column `j`.
/// Indices outside the grid, negative ones among them, name no cell.
pub open spec fn grid_cell_exists(grid: Seq<Vec<u8>>, i: int, j: int) -> bool {
    0 <= i < grid.len() && 0 <= j < grid[i]@.len() && grid[i]@[j] > 0
}

/// The preset of the cell at row `i`, column `j` of an occupancy grid.
pub open spec fn grid_preset(grid: Seq<Vec<u8>>, i: int, j: int) -> TileBundlePreset {
    if !grid_cell_exists(grid, i, j) {
        TileBundlePreset::Empty
    } else {
        TileBundlePreset::spec_from_neighbors(
            grid_cell_exists(grid, i, j + 1),
            grid_cell_exists(grid, i, j - 1),
            grid_cell_exists(grid, i - 1, j),
            grid_cell_exists(grid, i + 1, j),
        )
    }
}

/// Whether the occupancy grid has an open cell at row `row`, column `col`.
pub fn open_at(grid: &Vec<Vec<u8>>, row: usize, col: usize) -> (exists: bool)
    ensures
        exists == grid_cell_exists(grid@, row as int, col as int),
{
    if row >= grid.len() {
        return false;
    }
    let cells = &grid[row];
    if col >= cells.len() {
        return false;
    }
    cells[col] > 0u8
}

/// The preset of the cell at row `row`, column `col`: `Empty` where the grid
/// has no open cell there, else the table entry for its four neighbours.
pub fn preset_of_cell(grid: &Vec<Vec<u8>>, row: usize, col: usize) -> (preset: TileBundlePreset)
    ensures
        preset == grid_preset(grid@, row as int, col as int),
{
    if !open_at(grid, row, col) {
        return TileBundlePreset::Empty;
    }
    let height = grid.len();
    let width = grid[row].len();
    let right = col + 1 < width && open_at(grid, row, col + 1);
    let left = col > 0 && open_at(grid, row, col - 1);
    let forward = row > 0 && open_at(grid, row - 1, col);
    let back = row + 1 < height && open_at(grid, row + 1, col);
    TileBundlePreset::from_neighbors(right, left, forward, back)
}

/// Distinct neighbourhoods have distinct presets, none of them `Empty`: the
/// table assigns each of the sixteen combinations a preset of its own.
pub proof fn lemma_preset_table_is_one_to_one(
    a: (bool, bool, bool, bool),
    b: (bool, bool, bool, bool),
)
    ensures
        TileBundlePreset::spec_from_neighbors(a.0, a.1, a.2, a.3) != TileBundlePreset::Empty,
        TileBundlePreset::spec_from_neighbors(a.0, a.1, a.2, a.3)
            == TileBundlePreset::spec_from_neighbors(b.0, b.1, b.2, b.3) ==> a == b,
{
}

/// A preset from the table walls exactly the faces whose neighbour is missing.
pub proof fn lemma_preset_walls_missing_neighbors(
    right: bool,
    left: bool,
    forward: bool,
    back: bool,
)
    ensures
        ({
            let preset = TileBundlePreset::spec_from_neighbors(right, left, forward, back);
            &&& preset.has_wall(GridDirection::Right) == !right
            &&& preset.has_wall(GridDirection::Left) == !left
            &&& preset.has_wall(GridDirection::Forward) == !forward
            &&& preset.has_wall(GridDirection::Back) == !back
            &&& !preset.has_wall(GridDirection::Top)
            &&& !preset.has_wall(GridDirection::Bottom)
        }),
{
}

/// The preset of a cell depends on the grid only through the cell and its
/// four neighbours.
pub proof fn lemma_preset_is_local(a: Seq<Vec<u8>>, b: Seq<Vec<u8>>, i: int, j: int)
    requires
        grid_cell_exists(a, i, j) == grid_cell_exists(b, i, j),
        grid_cell_exists(a, i, j + 1) == grid_cell_exists(b, i, j + 1),
        grid_cell_exists(a, i, j - 1) == grid_cell_exists(b, i, j - 1),
        grid_cell_exists(a, i - 1, j) == grid_cell_exists(b, i - 1, j),
        grid_cell_exists(a, i + 1, j) == grid_cell_exists(b, i + 1, j),
    ensures
        grid_preset(a, i, j) == grid_preset(b, i, j),
{
}

} // verus!
