//! Directions on the dungeon grid and their rotation algebra.

use vstd::prelude::*;

verus! {

/// A face of a grid cell. The first four lie in the plane and form a cycle
/// under quarter turns; `Top` and `Bottom` are vertical.
#[derive(Clone, Copy, Debug, PartialEq, Eq, Hash, Structural)]
pub enum GridDirection {
    Left,
    Forward,
    Right,
    Back,
    Top,
    Bottom,
}

impl GridDirection {
    /// The number of a direction: the planar ones count 0 to 3 clockwise
    /// from `Left`, then `Top` and `Bottom`.
    pub open spec fn index(self) -> int {
        match self {
            GridDirection::Left => 0,
            GridDirection::Forward => 1,
            GridDirection::Right => 2,
            GridDirection::Back => 3,
            GridDirection::Top => 4,
            GridDirection::Bottom => 5,
        }
    }

    /// The direction with a given number; numbers outside 0..=5 give `Forward`.
    pub open spec fn from_index(i: int) -> GridDirection {
        if i == 0 {
            GridDirection::Left
        } else if i == 2 {
            GridDirection::Right
        } else if i == 3 {
            GridDirection::Back
        } else if i == 4 {
            GridDirection::Top
        } else if i == 5 {
            GridDirection::Bottom
        } else {
            GridDirection::Forward
        }
    }

    /// Whether the direction lies in the plane of the grid.
    pub open spec fn is_planar(self) -> bool {
        self.index() < 4
    }

    /// A planar direction turned a quarter to the left or right; every other
    /// combination leaves the direction as it is.
    pub open spec fn spec_rotated(self, rotate_dir: GridDirection) -> GridDirection {
        if !self.is_planar() {
            self
        } else if rotate_dir == GridDirection::Left {
            Self::from_index((self.index() + 3) % 4)
        } else if rotate_dir == GridDirection::Right {
            Self::from_index((self.index() + 1) % 4)
        } else {
            self
        }
    }

    /// The opposite face.
    pub open spec fn spec_inverse(self) -> GridDirection {
        match self {
            GridDirection::Left => GridDirection::Right,
            GridDirection::Forward => GridDirection::Back,
            GridDirection::Right => GridDirection::Left,
            GridDirection::Back => GridDirection::Forward,
            GridDirection::Top => GridDirection::Bottom,
            GridDirection::Bottom => GridDirection::Top,
        }
    }

    /// The number of this direction.
    pub fn to_index(self) -> (i: i8)
        ensures
            i == self.index(),
    {
        match self {
            GridDirection::Left => 0,
            GridDirection::Forward => 1,
            GridDirection::Right => 2,
            GridDirection::Back => 3,
            GridDirection::Top => 4,
            GridDirection::Bottom => 5,
        }
    }

    /// Whether the direction lies in the plane of the grid.
    pub fn planar(self) -> (p: bool)
        ensures
            p == self.is_planar(),
    {
        match self {
            GridDirection::Top | GridDirection::Bottom => false,
            _ => true,
        }
    }

    /// Turns this direction a quarter turn towards `rotate_dir`, which is
    /// `Left` or `Right`. Vertical directions, and any other `rotate_dir`,
    /// give the direction back unchanged.
    pub fn rotated(self, rotate_dir: GridDirection) -> (turned: Self)
        ensures
            turned == self.spec_rotated(rotate_dir),
    {
        if !self.planar() {
            return self;
        }
        let num_self: i8 = self.to_index();
        match rotate_dir {
            GridDirection::Left => GridDirection::from((num_self + 3) % 4),
            GridDirection::Right => GridDirection::from((num_self + 1) % 4),
            _ => self,
        }
    }

    /// The same quarter turn as [`GridDirection::rotated`].
    pub fn get_rotated_direction(self, rotate_dir: GridDirection) -> (turned: Self)
        ensures
            turned == self.spec_rotated(rotate_dir),
    {
        self.rotated(rotate_dir)
    }

    /// The opposite face of the cell.
    pub fn get_inverse_direction(self) -> (opposite: Self)
        ensures
            opposite == self.spec_inverse(),
    {
        match self {
            GridDirection::Left => GridDirection::Right,
            GridDirection::Forward => GridDirection::Back,
            GridDirection::Right => GridDirection::Left,
            GridDirection::Back => GridDirection::Forward,
            GridDirection::Top => GridDirection::Bottom,
            GridDirection::Bottom => GridDirection::Top,
        }
    }
}

impl From<i8> for GridDirection {
    fn from(value: i8) -> (direction: Self) {
        match value {
            0 => GridDirection::Left,
            1 => GridDirection::Forward,
            2 => GridDirection::Right,
            3 => GridDirection::Back,
            4 => GridDirection::Top,
            5 => GridDirection::Bottom,
            _ => GridDirection::Forward,
        }
    }
}

impl vstd::std_specs::convert::FromSpecImpl<i8> for GridDirection {
    open spec fn obeys_from_spec() -> bool {
        true
    }

    open spec fn from_spec(value: i8) -> GridDirection {
        GridDirection::from_index(value as int)
    }
}

/// Turning right and then left gives back the direction one started from.
pub proof fn lemma_rotate_right_then_left(d: GridDirection)
    ensures
        d.spec_rotated(GridDirection::Right).spec_rotated(GridDirection::Left) == d,
{
}

/// Turning left and then right gives back the direction one started from.
pub proof fn lemma_rotate_left_then_right(d: GridDirection)
    ensures
        d.spec_rotated(GridDirection::Left).spec_rotated(GridDirection::Right) == d,
{
}

/// Taking the opposite face twice gives back the face one started from.
pub proof fn lemma_inverse_involution(d: GridDirection)
    ensures
        d.spec_inverse().spec_inverse() == d,
{
}

/// Four quarter turns the same way make a full turn.
pub proof fn lemma_four_turns(d: GridDirection, rotate_dir: GridDirection)
    ensures
        d.spec_rotated(rotate_dir).spec_rotated(rotate_dir).spec_rotated(rotate_dir).spec_rotated(
            rotate_dir,
        ) == d,
{
}

/// Two quarter turns the same way face the opposite planar direction.
pub proof fn lemma_half_turn_is_inverse(d: GridDirection, rotate_dir: GridDirection)
    requires
        d.is_planar(),
        rotate_dir == GridDirection::Left || rotate_dir == GridDirection::Right,
    ensures
        d.spec_rotated(rotate_dir).spec_rotated(rotate_dir) == d.spec_inverse(),
{
}

/// A quarter turn never leaves the plane, and never enters it.
pub proof fn lemma_rotation_keeps_plane(d: GridDirection, rotate_dir: GridDirection)
    ensures
        d.spec_rotated(rotate_dir).is_planar() == d.is_planar(),
        d.spec_inverse().is_planar() == d.is_planar(),
        !d.is_planar() ==> d.spec_rotated(rotate_dir) == d,
{
}

} // verus!
