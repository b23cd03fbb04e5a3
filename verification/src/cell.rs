//! A cell of the dungeon and the registration of its tiles.

use vstd::prelude::*;
use crate::direction::GridDirection;
use crate::lookup::{face_key, DungeonTileLookup};
use crate::position::GridPosition;
use crate::tile::TileBundle;

verus! {

/// The kinds of cell.
#[derive(Clone, Copy, Debug, PartialEq, Eq, Structural)]
pub enum DungeonCellType {
    Basic,
}

/// A cell: its six tiles and where it lies.
#[derive(Clone, Copy, Debug, PartialEq, Eq, Structural)]
pub struct DungeonCell {
    pub cell_type: DungeonCellType,
    pub tile_bundle: TileBundle,
    pub grid_position: GridPosition,
}

impl DungeonCell {
    /// A basic cell with the tiles of `bundle`, at the origin until it is
    /// given its position.
    pub fn from_tile_bundle(bundle: TileBundle) -> (cell: Self)
        ensures
            cell == (DungeonCell {
                cell_type: DungeonCellType::Basic,
                tile_bundle: bundle,
                grid_position: GridPosition { row: 0, col: 0 },
            }),
    {
        DungeonCell {
            cell_type: DungeonCellType::Basic,
            tile_bundle: bundle,
            grid_position: GridPosition { row: 0, col: 0 },
        }
    }

    /// Moves the cell to `grid_position`; its tiles stay as they are.
    pub fn set_position(&mut self, grid_position: GridPosition)
        ensures
            *final(self) == (DungeonCell { grid_position, ..*old(self) }),
    {
        self.grid_position = grid_position;
    }
}

/// The handles of the six tiles of one cell, one per face.
#[derive(Clone, Copy, Debug, PartialEq, Eq, Structural)]
pub struct TileEntities {
    pub left: u64,
    pub forward: u64,
    pub right: u64,
    pub back: u64,
    pub top: u64,
    pub bottom: u64,
}

impl TileEntities {
    /// The handle of the tile on the face `direction`.
    pub open spec fn spec_handle(self, direction: GridDirection) -> u64 {
        match direction {
            GridDirection::Left => self.left,
            GridDirection::Forward => self.forward,
            GridDirection::Right => self.right,
            GridDirection::Back => self.back,
            GridDirection::Top => self.top,
            GridDirection::Bottom => self.bottom,
        }
    }

    /// The entries of a cell after these six handles were registered in it.
    pub open spec fn registered_in(self, faces: Map<u8, u64>) -> Map<u8, u64> {
        faces.insert(face_key(GridDirection::Left), self.left).insert(
            face_key(GridDirection::Forward),
            self.forward,
        ).insert(face_key(GridDirection::Right), self.right).insert(
            face_key(GridDirection::Back),
            self.back,
        ).insert(face_key(GridDirection::Top), self.top).insert(
            face_key(GridDirection::Bottom),
            self.bottom,
        )
    }

    /// The handle of the tile on the face `direction`.
    pub fn handle(&self, direction: GridDirection) -> (entity: u64)
        ensures
            entity == self.spec_handle(direction),
    {
        match direction {
            GridDirection::Left => self.left,
            GridDirection::Forward => self.forward,
            GridDirection::Right => self.right,
            GridDirection::Back => self.back,
            GridDirection::Top => self.top,
            GridDirection::Bottom => self.bottom,
        }
    }
}

/// Places `cell` at `grid_position` and registers the handles of its six
/// tiles there. Afterwards every face of that cell has its tile, and no
/// other cell of the lookup has changed. The placed cell is handed back.
pub fn spawn_dungeon_cell(
    cell: DungeonCell,
    grid_position: GridPosition,
    entities: TileEntities,
    dungeon_tile_lookup: &mut DungeonTileLookup,
) -> (placed: DungeonCell)
    requires
        old(dungeon_tile_lookup).has_cell(grid_position),
    ensures
        placed == (DungeonCell { grid_position, ..cell }),
        final(dungeon_tile_lookup)@ == old(dungeon_tile_lookup)@.update(
            grid_position.row as int,
            old(dungeon_tile_lookup)@[grid_position.row as int].update(
                grid_position.col as int,
                entities.registered_in(
                    old(dungeon_tile_lookup)@[grid_position.row as int][grid_position.col as int],
                ),
            ),
        ),
        final(dungeon_tile_lookup).cell_is_populated(grid_position),
        forall|direction: GridDirection| #[trigger]
            final(dungeon_tile_lookup).tile_at(grid_position, direction) == entities.spec_handle(
                direction,
            ),
{
    let mut cell = cell;
    cell.set_position(grid_position);
    dungeon_tile_lookup.insert_tile(grid_position, GridDirection::Left, entities.left);
    dungeon_tile_lookup.insert_tile(grid_position, GridDirection::Forward, entities.forward);
    dungeon_tile_lookup.insert_tile(grid_position, GridDirection::Right, entities.right);
    dungeon_tile_lookup.insert_tile(grid_position, GridDirection::Back, entities.back);
    dungeon_tile_lookup.insert_tile(grid_position, GridDirection::Top, entities.top);
    dungeon_tile_lookup.insert_tile(grid_position, GridDirection::Bottom, entities.bottom);
    assert(dungeon_tile_lookup@ =~~= old(dungeon_tile_lookup)@.update(
        grid_position.row as int,
        old(dungeon_tile_lookup)@[grid_position.row as int].update(
            grid_position.col as int,
            entities.registered_in(
                old(dungeon_tile_lookup)@[grid_position.row as int][grid_position.col as int],
            ),
        ),
    ));
    assert forall|direction: GridDirection| #[trigger]
        dungeon_tile_lookup.has_tile(grid_position, direction) by {}
    cell
}

/// A cell that had no tile has exactly six after its tiles were registered:
/// one under the number of each face, each the handle given for that face.
pub proof fn lemma_registered_cell_has_six_faces(entities: TileEntities)
    ensures
        forall|face: u8| #[trigger]
            entities.registered_in(Map::empty()).contains_key(face) <==> face < 6,
        forall|direction: GridDirection| #[trigger]
            entities.registered_in(Map::empty())[face_key(direction)] == entities.spec_handle(
                direction,
            ),
{
}

/// Registering the tiles of a cell replaces every entry the cell had: what
/// is found afterwards does not depend on what was there before.
pub proof fn lemma_registration_replaces(
    entities: TileEntities,
    faces: Map<u8, u64>,
    direction: GridDirection,
)
    ensures
        entities.registered_in(faces).contains_key(face_key(direction)),
        entities.registered_in(faces)[face_key(direction)] == entities.spec_handle(direction),
{
}

} // verus!
