//! Items that lie in the dungeon.

use vstd::prelude::*;
use crate::position::GridPosition;

verus! {

/// The kinds of item.
#[derive(Clone, Copy, Debug, PartialEq, Eq, Structural)]
pub enum ItemType {
    Polaroid,
    Key,
    Maxwell,
}

/// An item as the dungeon file places it: its kind, and row and column.
#[derive(Clone, Copy, Debug)]
pub struct RawDungeonItemData {
    pub item_type: ItemType,
    pub item_position: [u8; 2],
}

/// An item on the grid.
#[derive(Clone, Copy, Debug, PartialEq, Eq, Structural)]
pub struct DungeonItem {
    pub item_type: ItemType,
    pub grid_pos: GridPosition,
}

impl DungeonItem {
    /// The item that a placement in the dungeon file describes.
    pub open spec fn placed(raw: RawDungeonItemData) -> DungeonItem {
        DungeonItem {
            item_type: raw.item_type,
            grid_pos: GridPosition {
                row: raw.item_position[0] as usize,
                col: raw.item_position[1] as usize,
            },
        }
    }

    /// Puts an item of kind `item_type` at `grid_pos`.
    pub fn spawn(item_type: ItemType, grid_pos: GridPosition) -> (item: Self)
        ensures
            item == (DungeonItem { item_type, grid_pos }),
    {
        DungeonItem { item_type, grid_pos }
    }
}

/// The items of a dungeon, in the order of their placements.
pub fn spawn_items(items: &Vec<RawDungeonItemData>) -> (spawned: Vec<DungeonItem>)
    ensures
        spawned@.len() == items@.len(),
        forall|k: int| 0 <= k < items@.len() ==> spawned@[k] == DungeonItem::placed(items@[k]),
{
    let mut spawned: Vec<DungeonItem> = Vec::new();
    let mut k: usize = 0;
    while k < items.len()
        invariant
            k <= items@.len(),
            spawned@.len() == k,
            forall|n: int| 0 <= n < k ==> spawned@[n] == DungeonItem::placed(items@[n]),
        decreases items@.len() - k,
    {
        let raw = &items[k];
        let item_position: GridPosition = GridPosition::from(raw.item_position);
        spawned.push(DungeonItem::spawn(raw.item_type, item_position));
        k += 1;
    }
    spawned
}

} // verus!
