//! The dungeon as it is loaded, and the grid of cells built from it.

use vstd::prelude::*;
use crate::cell::{DungeonCell, DungeonCellType};
use crate::direction::GridDirection;
use crate::items::RawDungeonItemData;
use crate::position::GridPosition;
use crate::preset::{grid_cell_exists, grid_preset, open_at, preset_of_cell, TileBundlePreset};
use crate::tile::{PurpleTileTextureMap, TileBundle, TileBundlePresetMap};

verus! {

/// A dungeon as its file describes it: a square grid of small integers, a
/// cell being open where its integer is above zero, the row and column where
/// the player starts, the direction faced there, and the items.
pub struct RawDungeonData {
    pub dungeon_grid: Vec<Vec<u8>>,
    pub player_start_position: [u8; 2],
    pub player_start_direction: GridDirection,
    pub items: Vec<RawDungeonItemData>,
}

/// Whether every row of the grid is as long as the grid has rows.
pub open spec fn grid_is_square(grid: Seq<Vec<u8>>) -> bool {
    forall|i: int| 0 <= i < grid.len() ==> (#[trigger] grid[i])@.len() == grid.len()
}

/// Whether `row` is the first row whose length differs from the number of
/// rows.
pub open spec fn first_ragged_row(grid: Seq<Vec<u8>>, row: int) -> bool {
    &&& 0 <= row < grid.len()
    &&& grid[row]@.len() != grid.len()
    &&& forall|i: int| 0 <= i < row ==> (#[trigger] grid[i])@.len() == grid.len()
}

impl RawDungeonData {
    /// Whether the grid has an open cell at row `i`, column `j`. Negative
    /// indices and indices beyond the grid name no cell.
    pub fn cell_exists(&self, i: i32, j: i32) -> (exists: bool)
        ensures
            exists == grid_cell_exists(self.dungeon_grid@, i as int, j as int),
    {
        if i < 0 || j < 0 {
            return false;
        }
        open_at(&self.dungeon_grid, i as usize, j as usize)
    }

    /// The preset of the cell at row `i`, column `j`, from the existence of
    /// its neighbours to the right, left, forward and back. A place without
    /// an open cell has the preset `Empty`; an open cell without neighbours
    /// is `Closed`.
    pub fn determine_preset(&self, i: i32, j: i32) -> (preset: TileBundlePreset)
        ensures
            preset == grid_preset(self.dungeon_grid@, i as int, j as int),
    {
        if i < 0 || j < 0 {
            return TileBundlePreset::Empty;
        }
        preset_of_cell(&self.dungeon_grid, i as usize, j as usize)
    }
}

/// Why a dungeon could not be built.
#[derive(Clone, Copy, Debug, PartialEq, Eq, Structural)]
pub enum DungeonLoadError {
    /// The grid is not square: `row` is its first row of another length
    /// than the number of rows.
    NotSquare { row: usize },
}

/// The cells of a dungeon, row by row.
#[derive(Debug)]
pub struct DungeonGrid {
    pub grid: Vec<Vec<DungeonCell>>,
}

impl DungeonGrid {
    /// Whether the grid has a cell at `position`.
    pub open spec fn has_cell(&self, position: GridPosition) -> bool {
        position.row < self.grid@.len() && position.col < self.grid@[position.row as int]@.len()
    }

    /// The cell at `position`.
    pub open spec fn cell(&self, position: GridPosition) -> DungeonCell {
        self.grid@[position.row as int]@[position.col as int]
    }

    /// Whether a step from `position` in `direction` is blocked: by a solid
    /// tile on that face, because the direction is vertical, or because the
    /// step would leave the range of the coordinates.
    pub open spec fn blocks(&self, position: GridPosition, direction: GridDirection) -> bool {
        ||| !direction.is_planar()
        ||| self.cell(position).tile_bundle.spec_tile(direction).is_solid()
        ||| !position.can_translate(direction)
    }

    /// Whether the cells are those of the occupancy grid `raw`: one cell per
    /// entry, each at its own row and column, with the bundle that
    /// `presets` holds for its preset.
    pub open spec fn built_from(
        &self,
        raw: Seq<Vec<u8>>,
        presets: Map<TileBundlePreset, TileBundle>,
    ) -> bool {
        &&& self.grid@.len() == raw.len()
        &&& forall|i: int| 0 <= i < raw.len() ==> (#[trigger] self.grid@[i])@.len() == raw[i]@.len()
        &&& forall|i: int, j: int|
            0 <= i < raw.len() && 0 <= j < raw[i]@.len() ==> #[trigger] self.grid@[i]@[j] == (
            DungeonCell {
                cell_type: DungeonCellType::Basic,
                tile_bundle: presets[grid_preset(raw, i, j)],
                grid_position: GridPosition { row: i as usize, col: j as usize },
            })
    }

    /// Tries a step from `position` in `direction`. Where the step is
    /// blocked the position is handed back with `true`; else the position
    /// one step further with `false`.
    pub fn check_collision(&self, position: &GridPosition, direction: GridDirection) -> (outcome: (
        GridPosition,
        bool,
    ))
        requires
            self.has_cell(*position),
        ensures
            outcome.1 == self.blocks(*position, direction),
            outcome.1 ==> outcome.0 == *position,
            !outcome.1 ==> outcome.0.row == position.translated_row(direction) && outcome.0.col
                == position.translated_col(direction),
    {
        let cell = &self.grid[position.row][position.col];
        if direction.planar() && !cell.tile_bundle.tile(direction).solid() {
            match position.checked_translated(direction) {
                Some(moved) => (moved, false),
                None => (*position, true),
            }
        } else {
            (*position, true)
        }
    }
}

/// Builds the cells of a dungeon: for each entry of its grid the cell with
/// the bundle of its preset, at its row and column. A grid that is not
/// square is refused, with its first row of the wrong length.
pub fn spawn_grid(raw_dungeon_grid: &RawDungeonData, tile_bundle_map: &TileBundlePresetMap) -> (built:
    Result<DungeonGrid, DungeonLoadError>)
    requires
        forall|preset: TileBundlePreset| #[trigger] tile_bundle_map@.contains_key(preset),
    ensures
        built.is_ok() == grid_is_square(raw_dungeon_grid.dungeon_grid@),
        built.is_ok() ==> built.unwrap().built_from(
            raw_dungeon_grid.dungeon_grid@,
            tile_bundle_map@,
        ),
        built matches Err(DungeonLoadError::NotSquare { row }) ==> first_ragged_row(
            raw_dungeon_grid.dungeon_grid@,
            row as int,
        ),
{
    let raw = &raw_dungeon_grid.dungeon_grid;
    let num_rows = raw.len();
    let mut cell_grid: Vec<Vec<DungeonCell>> = Vec::new();
    let mut i: usize = 0;
    while i < num_rows
        invariant
            raw@ == raw_dungeon_grid.dungeon_grid@,
            num_rows == raw@.len(),
            i <= num_rows,
            cell_grid@.len() == i,
            forall|preset: TileBundlePreset| #[trigger] tile_bundle_map@.contains_key(preset),
            forall|r: int| 0 <= r < i ==> (#[trigger] raw@[r])@.len() == num_rows,
            forall|r: int| 0 <= r < i ==> (#[trigger] cell_grid@[r])@.len() == raw@[r]@.len(),
            forall|r: int, c: int|
                0 <= r < i && 0 <= c < raw@[r]@.len() ==> #[trigger] cell_grid@[r]@[c] == (
                DungeonCell {
                    cell_type: DungeonCellType::Basic,
                    tile_bundle: tile_bundle_map@[grid_preset(raw@, r, c)],
                    grid_position: GridPosition { row: r as usize, col: c as usize },
                }),
        decreases num_rows - i,
    {
        let row = &raw[i];
        if num_rows != row.len() {
            assert(raw@[i as int]@.len() != raw@.len());
            return Err(DungeonLoadError::NotSquare { row: i });
        }
        let mut cell_row: Vec<DungeonCell> = Vec::new();
        let mut j: usize = 0;
        while j < row.len()
            invariant
                i < raw@.len(),
                row == raw@[i as int],
                j <= row@.len(),
                cell_row@.len() == j,
                forall|preset: TileBundlePreset| #[trigger] tile_bundle_map@.contains_key(preset),
                forall|c: int|
                    0 <= c < j ==> #[trigger] cell_row@[c] == (DungeonCell {
                        cell_type: DungeonCellType::Basic,
                        tile_bundle: tile_bundle_map@[grid_preset(raw@, i as int, c)],
                        grid_position: GridPosition { row: i, col: c as usize },
                    }),
            decreases row@.len() - j,
        {
            let preset = preset_of_cell(raw, i, j);
            let bundle = tile_bundle_map.get(preset).unwrap();
            let mut cell = DungeonCell::from_tile_bundle(bundle);
            cell.set_position(GridPosition { row: i, col: j });
            cell_row.push(cell);
            j += 1;
        }
        cell_grid.push(cell_row);
        i += 1;
    }
    Ok(DungeonGrid { grid: cell_grid })
}

/// The row and column one step in `direction` from row `i`, column `j`.
pub open spec fn neighbor_of(i: int, j: int, direction: GridDirection) -> (int, int) {
    match direction {
        GridDirection::Left => (i, j - 1),
        GridDirection::Forward => (i - 1, j),
        GridDirection::Right => (i, j + 1),
        GridDirection::Back => (i + 1, j),
        _ => (i, j),
    }
}

/// An open cell is enclosed: with a solid wall tile, the bundle of its
/// preset is solid on exactly those planar faces behind which the grid has
/// no open cell. A step through an open face therefore ends on an open cell.
pub proof fn lemma_open_faces_lead_to_cells(
    raw: Seq<Vec<u8>>,
    textures: PurpleTileTextureMap,
    i: int,
    j: int,
    direction: GridDirection,
)
    requires
        grid_cell_exists(raw, i, j),
        direction.is_planar(),
        textures.wall.is_solid(),
    ensures
        TileBundle::for_preset(grid_preset(raw, i, j), textures).spec_tile(direction).is_solid()
            == !grid_cell_exists(
            raw,
            neighbor_of(i, j, direction).0,
            neighbor_of(i, j, direction).1,
        ),
{
    crate::preset::lemma_preset_walls_missing_neighbors(
        grid_cell_exists(raw, i, j + 1),
        grid_cell_exists(raw, i, j - 1),
        grid_cell_exists(raw, i - 1, j),
        grid_cell_exists(raw, i + 1, j),
    );
}

/// A place without an open cell has no tile at all, whatever the textures.
pub proof fn lemma_missing_cell_is_bare(
    raw: Seq<Vec<u8>>,
    textures: PurpleTileTextureMap,
    i: int,
    j: int,
    direction: GridDirection,
)
    requires
        !grid_cell_exists(raw, i, j),
    ensures
        !TileBundle::for_preset(grid_preset(raw, i, j), textures).spec_tile(direction).is_solid(),
{
}

} // verus!
