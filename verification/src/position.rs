//! Cell coordinates on the dungeon grid.

use vstd::prelude::*;
use crate::direction::GridDirection;

verus! {

/// The coordinate of a cell: rows grow towards `Back`, columns towards `Right`.
#[derive(Clone, Copy, Debug, PartialEq, Eq, Hash, Structural)]
pub struct GridPosition {
    pub row: usize,
    pub col: usize,
}

/// What is placed at a grid position.
#[derive(Clone, Copy, Debug, PartialEq, Eq, Structural)]
pub enum GridPosType {
    Player,
    Cell,
    Item,
}

impl GridPosition {
    /// Whether one step in `direction` stays within the range of the
    /// coordinates. Vertical directions do not move and so always fit.
    pub open spec fn can_translate(self, direction: GridDirection) -> bool {
        match direction {
            GridDirection::Left => self.col > 0,
            GridDirection::Forward => self.row > 0,
            GridDirection::Right => self.col < usize::MAX,
            GridDirection::Back => self.row < usize::MAX,
            _ => true,
        }
    }

    /// The row one step in `direction` from this position.
    pub open spec fn translated_row(self, direction: GridDirection) -> int {
        match direction {
            GridDirection::Forward => self.row - 1,
            GridDirection::Back => self.row + 1,
            _ => self.row as int,
        }
    }

    /// The column one step in `direction` from this position.
    pub open spec fn translated_col(self, direction: GridDirection) -> int {
        match direction {
            GridDirection::Left => self.col - 1,
            GridDirection::Right => self.col + 1,
            _ => self.col as int,
        }
    }

    /// Whether one step in `direction` stays within the range of the
    /// coordinates.
    pub fn fits(self, direction: GridDirection) -> (ok: bool)
        ensures
            ok == self.can_translate(direction),
    {
        match direction {
            GridDirection::Left => self.col > 0,
            GridDirection::Forward => self.row > 0,
            GridDirection::Right => self.col < usize::MAX,
            GridDirection::Back => self.row < usize::MAX,
            _ => true,
        }
    }

    /// The neighbouring position one step in `direction`. `Top` and `Bottom`
    /// stay in place. The step must fit: a caller rules out `Left` in column
    /// 0 and `Forward` in row 0 beforehand, for instance by a collision test.
    pub fn translated(self, direction: GridDirection) -> (moved: Self)
        requires
            self.can_translate(direction),
        ensures
            moved.row == self.translated_row(direction),
            moved.col == self.translated_col(direction),
    {
        match direction {
            GridDirection::Left => GridPosition { row: self.row, col: self.col - 1 },
            GridDirection::Forward => GridPosition { row: self.row - 1, col: self.col },
            GridDirection::Right => GridPosition { row: self.row, col: self.col + 1 },
            GridDirection::Back => GridPosition { row: self.row + 1, col: self.col },
            _ => self,
        }
    }

    /// The neighbouring position one step in `direction`, or `None` exactly
    /// when the step would leave the range of the coordinates.
    pub fn checked_translated(self, direction: GridDirection) -> (moved: Option<Self>)
        ensures
            moved.is_some() == self.can_translate(direction),
            moved.is_some() ==> moved.unwrap().row == self.translated_row(direction)
                && moved.unwrap().col == self.translated_col(direction),
    {
        if self.fits(direction) {
            Some(self.translated(direction))
        } else {
            None
        }
    }
}

impl From<[u8; 2]> for GridPosition {
    fn from(value: [u8; 2]) -> (position: Self) {
        GridPosition { row: value[0] as usize, col: value[1] as usize }
    }
}

impl vstd::std_specs::convert::FromSpecImpl<[u8; 2]> for GridPosition {
    open spec fn obeys_from_spec() -> bool {
        true
    }

    open spec fn from_spec(value: [u8; 2]) -> GridPosition {
        GridPosition { row: value[0] as usize, col: value[1] as usize }
    }
}

/// A step and the step back in the opposite direction return to the start.
pub proof fn lemma_step_and_back(position: GridPosition, direction: GridDirection)
    requires
        position.can_translate(direction),
    ensures
        ({
            let there = GridPosition {
                row: position.translated_row(direction) as usize,
                col: position.translated_col(direction) as usize,
            };
            &&& there.can_translate(direction.spec_inverse())
            &&& there.translated_row(direction.spec_inverse()) == position.row
            &&& there.translated_col(direction.spec_inverse()) == position.col
        }),
{
}

/// A planar step changes exactly one coordinate, by exactly one.
pub proof fn lemma_step_is_adjacent(position: GridPosition, direction: GridDirection)
    requires
        direction.is_planar(),
    ensures
        ({
            let dr = position.translated_row(direction) - position.row;
            let dc = position.translated_col(direction) - position.col;
            (dr == 0 && (dc == 1 || dc == -1)) || (dc == 0 && (dr == 1 || dr == -1))
        }),
{
}

} // verus!
