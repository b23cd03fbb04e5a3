//! The registry of the tiles that stand on the faces of each cell.

use vstd::prelude::*;
use crate::direction::GridDirection;
use crate::position::GridPosition;

verus! {

/// The tiles on the faces of one cell: a `bevy::utils::HashMap` from the
/// number of a face to the handle of the tile on it. Proofs do not look
/// inside it; what it holds goes by the name [`face_map_entries`].
#[verifier::external_body]
pub struct FaceMap {
    inner: bevy::utils::HashMap<u8, u64>,
}

/// The entries that a face map holds.
pub uninterp spec fn face_map_entries(map: FaceMap) -> Map<u8, u64>;

/// The map without entries.
pub open spec fn no_entries() -> Map<u8, u64> {
    Map::empty()
}

/// `HashMap::default` of hashbrown, as `bevy::utils` aliases it: a map
/// without entries.
#[verifier::external_body]
fn face_map_new() -> (fresh: FaceMap)
    ensures
        face_map_entries(fresh) == no_entries(),
{
    FaceMap { inner: bevy::utils::HashMap::default() }
}

/// `HashMap::insert` of hashbrown: afterwards the key maps to the new value
/// and every other key to what it mapped to before; the value that the key
/// had before is handed back, `None` where it had none.
#[verifier::external_body]
fn face_map_insert(map: &mut FaceMap, face: u8, tile: u64) -> (previous: Option<u64>)
    ensures
        face_map_entries(*final(map)) == face_map_entries(*old(map)).insert(face, tile),
        previous == if face_map_entries(*old(map)).contains_key(face) {
            Some(face_map_entries(*old(map))[face])
        } else {
            None
        },
{
    map.inner.insert(face, tile)
}

/// `HashMap::get` of hashbrown: the value of the key, `None` where the map
/// has no such key.
#[verifier::external_body]
fn face_map_get(map: &FaceMap, face: u8) -> (tile: Option<u64>)
    ensures
        tile == if face_map_entries(*map).contains_key(face) {
            Some(face_map_entries(*map)[face])
        } else {
            None
        },
{
    match map.inner.get(&face) {
        Some(tile) => Some(*tile),
        None => None,
    }
}

/// The entries of each face map of a row of cells.
pub closed spec fn row_entries(row: Seq<FaceMap>) -> Seq<Map<u8, u64>> {
    Seq::new(row.len(), |c: int| face_map_entries(row[c]))
}

/// A row of cells widened to at least `cols` cells: the cells it had keep
/// their entries, the added ones have none.
pub open spec fn grown_row(row: Seq<Map<u8, u64>>, cols: nat) -> Seq<Map<u8, u64>> {
    Seq::new(
        if row.len() >= cols {
            row.len()
        } else {
            cols
        },
        |c: int|
            if c < row.len() {
                row[c]
            } else {
                Map::<u8, u64>::empty()
            },
    )
}

/// A table grown to at least `rows` rows of at least `cols` cells: the
/// cells it had keep their entries, the added ones have none.
pub open spec fn grown_table(table: Seq<Seq<Map<u8, u64>>>, rows: nat, cols: nat) -> Seq<
    Seq<Map<u8, u64>>,
> {
    Seq::new(
        if table.len() >= rows {
            table.len()
        } else {
            rows
        },
        |r: int|
            if r < table.len() {
                grown_row(table[r], cols)
            } else {
                grown_row(Seq::<Map<u8, u64>>::empty(), cols)
            },
    )
}

/// The number under which a face is registered.
pub open spec fn face_key(direction: GridDirection) -> u8 {
    direction.index() as u8
}

fn face_number(direction: GridDirection) -> (face: u8)
    ensures
        face == face_key(direction),
{
    match direction {
        GridDirection::Left => 0,
        GridDirection::Forward => 1,
        GridDirection::Right => 2,
        GridDirection::Back => 3,
        GridDirection::Top => 4,
        GridDirection::Bottom => 5,
    }
}

fn widen_row(row: &mut Vec<FaceMap>, cols: usize)
    ensures
        row_entries(final(row)@) == grown_row(row_entries(old(row)@), cols as nat),
{
    while row.len() < cols
        invariant
            row@.len() >= old(row)@.len(),
            row@.len() <= cols || row@.len() == old(row)@.len(),
            forall|c: int| 0 <= c < old(row)@.len() ==> row@[c] == old(row)@[c],
            forall|c: int|
                old(row)@.len() <= c < row@.len() ==> face_map_entries(#[trigger] row@[c])
                    == Map::<u8, u64>::empty(),
        decreases cols - row@.len(),
    {
        row.push(face_map_new());
    }
    assert(row_entries(row@) =~= grown_row(row_entries(old(row)@), cols as nat));
}

/// For every cell of the grid, the tile that stands on each of its faces.
/// Cells are held row by row; a tile is named by an opaque handle.
pub struct DungeonTileLookup {
    table: Vec<Vec<FaceMap>>,
}

impl View for DungeonTileLookup {
    type V = Seq<Seq<Map<u8, u64>>>;

    closed spec fn view(&self) -> Seq<Seq<Map<u8, u64>>> {
        Seq::new(self.table@.len(), |r: int| row_entries(self.table@[r]@))
    }
}

impl DungeonTileLookup {
    /// Whether the lookup has a cell at `position`.
    pub open spec fn has_cell(&self, position: GridPosition) -> bool {
        position.row < self@.len() && position.col < self@[position.row as int].len()
    }

    /// Whether a tile is registered on the face `direction` of the cell at
    /// `position`.
    pub open spec fn has_tile(&self, position: GridPosition, direction: GridDirection) -> bool {
        self.has_cell(position) && self@[position.row as int][position.col as int].contains_key(
            face_key(direction),
        )
    }

    /// The tile registered on the face `direction` of the cell at `position`.
    pub open spec fn tile_at(&self, position: GridPosition, direction: GridDirection) -> u64 {
        self@[position.row as int][position.col as int][face_key(direction)]
    }

    /// Whether every face of the cell at `position` has its tile.
    pub open spec fn cell_is_populated(&self, position: GridPosition) -> bool {
        forall|direction: GridDirection| #[trigger] self.has_tile(position, direction)
    }

    /// Whether the lookup has a cell at `position`.
    pub fn contains_cell(&self, position: GridPosition) -> (found: bool)
        ensures
            found == self.has_cell(position),
    {
        position.row < self.table.len() && position.col < self.table[position.row].len()
    }

    /// The tile on the face `direction` of the cell at `position`, or `None`
    /// where the lookup has no such cell or no tile was registered there.
    pub fn find_tile(&self, grid_position: GridPosition, direction: GridDirection) -> (tile:
        Option<u64>)
        ensures
            tile.is_some() == self.has_tile(grid_position, direction),
            tile.is_some() ==> tile.unwrap() == self.tile_at(grid_position, direction),
    {
        if !self.contains_cell(grid_position) {
            return None;
        }
        let (row, col) = (grid_position.row, grid_position.col);
        face_map_get(&self.table[row][col], face_number(direction))
    }

    /// The tile on the face `direction` of the cell at `position`. The tile
    /// must have been registered: asking for one that was not is a fault of
    /// the caller.
    pub fn get_tile(&self, grid_position: GridPosition, direction: GridDirection) -> (tile: u64)
        requires
            self.has_tile(grid_position, direction),
        ensures
            tile == self.tile_at(grid_position, direction),
    {
        let (row, col) = (grid_position.row, grid_position.col);
        let found = face_map_get(&self.table[row][col], face_number(direction));
        found.unwrap()
    }

    /// Registers `entity` as the tile on the face `direction` of the cell at
    /// `position`, in place of an earlier one. Nothing else changes.
    pub fn insert_tile(
        &mut self,
        grid_position: GridPosition,
        direction: GridDirection,
        entity: u64,
    )
        requires
            old(self).has_cell(grid_position),
        ensures
            final(self)@ == old(self)@.update(
                grid_position.row as int,
                old(self)@[grid_position.row as int].update(
                    grid_position.col as int,
                    old(self)@[grid_position.row as int][grid_position.col as int].insert(
                        face_key(direction),
                        entity,
                    ),
                ),
            ),
    {
        let (row, col) = (grid_position.row, grid_position.col);
        let face = face_number(direction);
        face_map_insert(&mut self.table[row][col], face, entity);
        assert(self@ =~~= old(self)@.update(
            row as int,
            old(self)@[row as int].update(
                col as int,
                old(self)@[row as int][col as int].insert(face, entity),
            ),
        ));
    }

    /// Grows the lookup to the size of `dungeon_grid`: as many rows as the
    /// grid has, each as wide as the grid's first row. The lookup never
    /// shrinks, and every tile registered before stays registered.
    pub fn resize(&mut self, dungeon_grid: &Vec<Vec<u8>>)
        ensures
            final(self)@ == grown_table(
                old(self)@,
                dungeon_grid@.len(),
                if dungeon_grid@.len() > 0 {
                    dungeon_grid@[0]@.len()
                } else {
                    0
                },
            ),
    {
        let num_rows = dungeon_grid.len();
        let num_cols = if num_rows > 0 {
            dungeon_grid[0].len()
        } else {
            0
        };
        let mut r: usize = 0;
        while r < self.table.len()
            invariant
                r <= self.table@.len(),
                self@.len() == old(self)@.len(),
                forall|k: int| 0 <= k < r ==> #[trigger] self@[k] == grown_row(old(self)@[k], num_cols as nat),
                forall|k: int| r <= k < self@.len() ==> #[trigger] self@[k] == old(self)@[k],
            decreases self.table@.len() - r,
        {
            let ghost before = self@;
            let ghost rows_before = self.table@;
            widen_row(&mut self.table[r], num_cols);
            assert(self.table@.len() == rows_before.len());
            assert(before[r as int] == row_entries(rows_before[r as int]@));
            assert(self@[r as int] == row_entries(self.table@[r as int]@));
            assert(self@[r as int] == grown_row(old(self)@[r as int], num_cols as nat));
            assert forall|k: int| 0 <= k < self@.len() && k != r implies #[trigger] self@[k]
                == before[k] by {
                assert(self.table@[k] == rows_before[k]);
            }
            r += 1;
        }
        while self.table.len() < num_rows
            invariant
                self@.len() >= old(self)@.len(),
                self@.len() <= num_rows || self@.len() == old(self)@.len(),
                forall|k: int| 0 <= k < old(self)@.len() ==> #[trigger] self@[k] == grown_row(old(self)@[k], num_cols as nat),
                forall|k: int|
                    old(self)@.len() <= k < self@.len() ==> #[trigger] self@[k] == grown_row(
                        Seq::<Map<u8, u64>>::empty(),
                        num_cols as nat,
                    ),
            decreases num_rows - self.table@.len(),
        {
            let ghost before = self@;
            let mut row: Vec<FaceMap> = Vec::new();
            widen_row(&mut row, num_cols);
            assert(row_entries(Seq::<FaceMap>::empty()) =~= Seq::<Map<u8, u64>>::empty());
            self.table.push(row);
            assert forall|k: int| 0 <= k < before.len() implies #[trigger] self@[k]
                == before[k] by {}
        }
        assert(self@ =~= grown_table(old(self)@, num_rows as nat, num_cols as nat));
    }
}

impl Default for DungeonTileLookup {
    /// A lookup of one cell without tiles.
    fn default() -> (lookup: Self)
        ensures
            lookup@ == seq![seq![Map::<u8, u64>::empty()]],
    {
        let mut row: Vec<FaceMap> = Vec::new();
        row.push(face_map_new());
        let mut table: Vec<Vec<FaceMap>> = Vec::new();
        table.push(row);
        let lookup = DungeonTileLookup { table };
        assert(lookup@ =~~= seq![seq![Map::<u8, u64>::empty()]]);
        lookup
    }
}

/// Growing a table loses nothing: it has at least the rows and columns asked
/// for, every cell it had is still there with the entries it had, and every
/// cell that was added has none.
pub proof fn lemma_growing_keeps_entries(
    table: Seq<Seq<Map<u8, u64>>>,
    rows: nat,
    cols: nat,
    r: int,
    c: int,
)
    requires
        0 <= r,
        0 <= c,
    ensures
        grown_table(table, rows, cols).len() >= table.len(),
        grown_table(table, rows, cols).len() >= rows,
        r < grown_table(table, rows, cols).len() ==> grown_table(table, rows, cols)[r].len()
            >= cols,
        r < table.len() ==> grown_table(table, rows, cols)[r].len() >= table[r].len(),
        r < table.len() && c < table[r].len() ==> grown_table(table, rows, cols)[r][c]
            == table[r][c],
        r < grown_table(table, rows, cols).len() && c < grown_table(table, rows, cols)[r].len()
            && !(r < table.len() && c < table[r].len()) ==> grown_table(table, rows, cols)[r][c]
            == no_entries(),
{
}

/// Growing a table that is large enough already changes nothing.
pub proof fn lemma_growing_a_large_table(table: Seq<Seq<Map<u8, u64>>>, rows: nat, cols: nat)
    requires
        table.len() >= rows,
        forall|r: int| 0 <= r < table.len() ==> (#[trigger] table[r]).len() >= cols,
    ensures
        grown_table(table, rows, cols) == table,
{
    assert forall|r: int| 0 <= r < table.len() implies #[trigger] grown_table(
        table,
        rows,
        cols,
    )[r] == table[r] by {
        assert(grown_row(table[r], cols) =~= table[r]);
    }
    assert(grown_table(table, rows, cols) =~= table);
}

} // verus!
