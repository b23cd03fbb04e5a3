//! Tiles, the six-tile bundle of a cell, and the bundle of each preset.

use vstd::prelude::*;
use crate::direction::GridDirection;
use crate::preset::TileBundlePreset;

verus! {

/// Whether a tile blocks movement.
#[derive(Clone, Copy, Debug, PartialEq, Eq, Hash, Structural)]
pub enum TileType {
    /// Nothing there: the player passes.
    Empty,
    /// A textured, solid face.
    Basic,
}

/// The textures a solid tile can show.
#[derive(Clone, Copy, Debug, PartialEq, Eq, Hash, Structural)]
pub enum TileTexture {
    Wall,
    Floor,
    Ceiling,
}

/// What a tile shows: nothing, or one of the textures.
#[derive(Clone, Copy, Debug, PartialEq, Eq, Hash, Structural)]
pub enum TileSurface {
    Bare,
    Textured(TileTexture),
}

/// One face of a cell.
#[derive(Clone, Copy, Debug, PartialEq, Eq, Hash, Structural)]
pub struct Tile {
    pub tile_type: TileType,
    pub surface: TileSurface,
}

impl Tile {
    /// The tile of an open face.
    pub open spec fn spec_empty() -> Tile {
        Tile { tile_type: TileType::Empty, surface: TileSurface::Bare }
    }

    /// The solid tile that shows `texture`.
    pub open spec fn spec_textured(texture: TileTexture) -> Tile {
        Tile { tile_type: TileType::Basic, surface: TileSurface::Textured(texture) }
    }

    /// Whether the tile blocks movement.
    pub open spec fn is_solid(self) -> bool {
        self.tile_type != TileType::Empty
    }

    /// The tile of an open face.
    pub fn new_empty() -> (tile: Self)
        ensures
            tile == Self::spec_empty(),
    {
        Tile { tile_type: TileType::Empty, surface: TileSurface::Bare }
    }

    /// The solid tile that shows `texture`.
    pub fn textured(texture: TileTexture) -> (tile: Self)
        ensures
            tile == Self::spec_textured(texture),
    {
        Tile { tile_type: TileType::Basic, surface: TileSurface::Textured(texture) }
    }

    /// Whether the tile blocks movement.
    pub fn solid(&self) -> (blocked: bool)
        ensures
            blocked == self.is_solid(),
    {
        match self.tile_type {
            TileType::Empty => false,
            TileType::Basic => true,
        }
    }
}

/// The tiles from which the presets are built, one per texture.
#[derive(Clone, Copy, Debug, PartialEq, Eq, Structural)]
pub struct PurpleTileTextureMap {
    pub wall: Tile,
    pub floor: Tile,
    pub ceiling: Tile,
}

impl PurpleTileTextureMap {
    /// The tile kept for `texture`.
    pub open spec fn spec_get(self, texture: TileTexture) -> Tile {
        match texture {
            TileTexture::Wall => self.wall,
            TileTexture::Floor => self.floor,
            TileTexture::Ceiling => self.ceiling,
        }
    }

    /// Solid tiles, each showing its own texture.
    pub open spec fn spec_new() -> PurpleTileTextureMap {
        PurpleTileTextureMap {
            wall: Tile::spec_textured(TileTexture::Wall),
            floor: Tile::spec_textured(TileTexture::Floor),
            ceiling: Tile::spec_textured(TileTexture::Ceiling),
        }
    }

    /// Solid tiles, each showing its own texture.
    pub fn new() -> (textures: Self)
        ensures
            textures == Self::spec_new(),
    {
        PurpleTileTextureMap {
            wall: Tile::textured(TileTexture::Wall),
            floor: Tile::textured(TileTexture::Floor),
            ceiling: Tile::textured(TileTexture::Ceiling),
        }
    }

    /// The tile kept for `texture`.
    pub fn get(&self, texture: TileTexture) -> (tile: Tile)
        ensures
            tile == self.spec_get(texture),
    {
        match texture {
            TileTexture::Wall => self.wall,
            TileTexture::Floor => self.floor,
            TileTexture::Ceiling => self.ceiling,
        }
    }
}

/// The tile that a preset puts on one face: on a planar face the wall tile
/// where the preset has a wall and nothing elsewhere; above the ceiling and
/// below the floor, but for the preset of a missing cell, which is bare.
pub open spec fn preset_face(
    preset: TileBundlePreset,
    textures: PurpleTileTextureMap,
    direction: GridDirection,
) -> Tile {
    match direction {
        GridDirection::Top => if preset == TileBundlePreset::Empty {
            Tile::spec_empty()
        } else {
            textures.ceiling
        },
        GridDirection::Bottom => if preset == TileBundlePreset::Empty {
            Tile::spec_empty()
        } else {
            textures.floor
        },
        _ => if preset.has_wall(direction) {
            textures.wall
        } else {
            Tile::spec_empty()
        },
    }
}

/// The six tiles of a cell, one per face.
#[derive(Clone, Copy, Debug, PartialEq, Eq, Structural)]
pub struct TileBundle {
    pub left: Tile,
    pub forward: Tile,
    pub right: Tile,
    pub back: Tile,
    pub top: Tile,
    pub bottom: Tile,
}

impl TileBundle {
    /// The tile on the face `direction`.
    pub open spec fn spec_tile(self, direction: GridDirection) -> Tile {
        match direction {
            GridDirection::Left => self.left,
            GridDirection::Forward => self.forward,
            GridDirection::Right => self.right,
            GridDirection::Back => self.back,
            GridDirection::Top => self.top,
            GridDirection::Bottom => self.bottom,
        }
    }

    /// The bundle that a preset stands for, built from the tiles in
    /// `textures`: a wall on each walled face, nothing on the other planar
    /// faces, ceiling above and floor below. The preset of a cell that does
    /// not exist has no tile at all.
    pub open spec fn for_preset(
        preset: TileBundlePreset,
        textures: PurpleTileTextureMap,
    ) -> TileBundle {
        TileBundle {
            left: preset_face(preset, textures, GridDirection::Left),
            forward: preset_face(preset, textures, GridDirection::Forward),
            right: preset_face(preset, textures, GridDirection::Right),
            back: preset_face(preset, textures, GridDirection::Back),
            top: preset_face(preset, textures, GridDirection::Top),
            bottom: preset_face(preset, textures, GridDirection::Bottom),
        }
    }

    /// Puts six tiles on the faces of a cell.
    pub fn new(left: Tile, forward: Tile, right: Tile, back: Tile, top: Tile, bottom: Tile) -> (bundle:
        Self)
        ensures
            bundle == (TileBundle { left, forward, right, back, top, bottom }),
    {
        TileBundle { left, right, forward, back, top, bottom }
    }

    /// The tile on the face `direction`.
    pub fn tile(&self, direction: GridDirection) -> (tile: Tile)
        ensures
            tile == self.spec_tile(direction),
    {
        match direction {
            GridDirection::Left => self.left,
            GridDirection::Forward => self.forward,
            GridDirection::Right => self.right,
            GridDirection::Back => self.back,
            GridDirection::Top => self.top,
            GridDirection::Bottom => self.bottom,
        }
    }
}

/// The number of presets.
pub const PRESET_COUNT: usize = 17;

impl TileBundlePreset {
    /// The place of a preset in the order of its declaration.
    pub open spec fn ordinal(self) -> int {
        match self {
            TileBundlePreset::Empty => 0,
            TileBundlePreset::Open => 1,
            TileBundlePreset::Closed => 2,
            TileBundlePreset::ForwardWall => 3,
            TileBundlePreset::RightWall => 4,
            TileBundlePreset::BackWall => 5,
            TileBundlePreset::LeftWall => 6,
            TileBundlePreset::ForwardLeftCorner => 7,
            TileBundlePreset::ForwardRightCorner => 8,
            TileBundlePreset::BackRightCorner => 9,
            TileBundlePreset::BackLeftCorner => 10,
            TileBundlePreset::ForwardBackHallway => 11,
            TileBundlePreset::LeftRightHallway => 12,
            TileBundlePreset::ForwardHallwayEnd => 13,
            TileBundlePreset::RightHallwayEnd => 14,
            TileBundlePreset::BackHallwayEnd => 15,
            TileBundlePreset::LeftHallwayEnd => 16,
        }
    }

    /// The place of a preset in the order of its declaration.
    pub fn slot(self) -> (i: usize)
        ensures
            i == self.ordinal(),
            i < PRESET_COUNT,
    {
        match self {
            TileBundlePreset::Empty => 0,
            TileBundlePreset::Open => 1,
            TileBundlePreset::Closed => 2,
            TileBundlePreset::ForwardWall => 3,
            TileBundlePreset::RightWall => 4,
            TileBundlePreset::BackWall => 5,
            TileBundlePreset::LeftWall => 6,
            TileBundlePreset::ForwardLeftCorner => 7,
            TileBundlePreset::ForwardRightCorner => 8,
            TileBundlePreset::BackRightCorner => 9,
            TileBundlePreset::BackLeftCorner => 10,
            TileBundlePreset::ForwardBackHallway => 11,
            TileBundlePreset::LeftRightHallway => 12,
            TileBundlePreset::ForwardHallwayEnd => 13,
            TileBundlePreset::RightHallwayEnd => 14,
            TileBundlePreset::BackHallwayEnd => 15,
            TileBundlePreset::LeftHallwayEnd => 16,
        }
    }
}

/// The bundle of every preset, built from the tiles in `textures`.
pub open spec fn preset_bundles(textures: PurpleTileTextureMap) -> Map<
    TileBundlePreset,
    TileBundle,
> {
    Map::new(
        |preset: TileBundlePreset| true,
        |preset: TileBundlePreset| TileBundle::for_preset(preset, textures),
    )
}

/// The bundle registered for each preset. A map that was just made holds
/// none; `initialize_preset_map` registers all of them.
pub struct TileBundlePresetMap {
    slots: Vec<Option<TileBundle>>,
}

impl View for TileBundlePresetMap {
    type V = Map<TileBundlePreset, TileBundle>;

    closed spec fn view(&self) -> Map<TileBundlePreset, TileBundle> {
        Map::new(
            |preset: TileBundlePreset|
                preset.ordinal() < self.slots@.len() && self.slots@[preset.ordinal()].is_some(),
            |preset: TileBundlePreset| self.slots@[preset.ordinal()].unwrap(),
        )
    }
}

impl TileBundlePresetMap {
    proof fn lemma_ordinal_names_preset(a: TileBundlePreset, b: TileBundlePreset)
        requires
            a.ordinal() == b.ordinal(),
        ensures
            a == b,
    {
    }

    /// A map without any bundle.
    pub fn new() -> (map: Self)
        ensures
            map@ == Map::<TileBundlePreset, TileBundle>::empty(),
    {
        let map = TileBundlePresetMap { slots: Vec::new() };
        assert(map@ =~= Map::<TileBundlePreset, TileBundle>::empty());
        map
    }

    /// Registers `bundle` for `preset`, in place of an earlier one.
    pub fn insert(&mut self, preset: TileBundlePreset, bundle: TileBundle)
        ensures
            final(self)@ == old(self)@.insert(preset, bundle),
    {
        let i = preset.slot();
        while self.slots.len() <= i
            invariant
                self@ =~= old(self)@,
            decreases i + 1 - self.slots@.len(),
        {
            self.slots.push(None);
        }
        self.slots.set(i, Some(bundle));
        assert(self@ =~= old(self)@.insert(preset, bundle)) by {
            assert forall|p: TileBundlePreset| p.ordinal() == preset.ordinal() implies p
                == preset by {
                Self::lemma_ordinal_names_preset(p, preset);
            }
        }
    }

    /// The bundle registered for `preset`, if there is one.
    pub fn get(&self, preset: TileBundlePreset) -> (bundle: Option<TileBundle>)
        ensures
            bundle.is_some() == self@.contains_key(preset),
            bundle.is_some() ==> bundle.unwrap() == self@[preset],
    {
        let i = preset.slot();
        if i < self.slots.len() {
            self.slots[i]
        } else {
            None
        }
    }
}

impl Default for TileBundlePresetMap {
    fn default() -> (map: Self)
        ensures
            map@ == Map::<TileBundlePreset, TileBundle>::empty(),
    {
        TileBundlePresetMap::new()
    }
}

/// Registers the bundle of every preset, built from the wall, floor and
/// ceiling tiles in `textures`. Whatever the map held before is replaced.
pub fn initialize_preset_map(textures: &PurpleTileTextureMap, map: &mut TileBundlePresetMap)
    ensures
        final(map)@ == preset_bundles(*textures),
{
    let wall = textures.get(TileTexture::Wall);
    let floor = textures.get(TileTexture::Floor);
    let ceiling = textures.get(TileTexture::Ceiling);
    let none = Tile::new_empty();
    let open = TileBundle::new(none, none, none, none, ceiling, floor);
    let empty = TileBundle::new(none, none, none, none, none, none);
    let closed = TileBundle::new(wall, wall, wall, wall, ceiling, floor);
    let north_wall = TileBundle::new(none, wall, none, none, ceiling, floor);
    let east_wall = TileBundle::new(none, none, wall, none, ceiling, floor);
    let south_wall = TileBundle::new(none, none, none, wall, ceiling, floor);
    let west_wall = TileBundle::new(wall, none, none, none, ceiling, floor);
    let north_west_corner = TileBundle::new(wall, wall, none, none, ceiling, floor);
    let north_east_corner = TileBundle::new(none, wall, wall, none, ceiling, floor);
    let south_east_corner = TileBundle::new(none, none, wall, wall, ceiling, floor);
    let south_west_corner = TileBundle::new(wall, none, none, wall, ceiling, floor);
    let north_south_hallway = TileBundle::new(wall, none, wall, none, ceiling, floor);
    let east_west_hallway = TileBundle::new(none, wall, none, wall, ceiling, floor);
    let north_hallway_end = TileBundle::new(wall, wall, wall, none, ceiling, floor);
    let east_hallway_end = TileBundle::new(none, wall, wall, wall, ceiling, floor);
    let south_hallway_end = TileBundle::new(wall, none, wall, wall, ceiling, floor);
    let west_hallway_end = TileBundle::new(wall, wall, none, wall, ceiling, floor);
    map.insert(TileBundlePreset::Open, open);
    map.insert(TileBundlePreset::Empty, empty);
    map.insert(TileBundlePreset::Closed, closed);
    map.insert(TileBundlePreset::ForwardWall, north_wall);
    map.insert(TileBundlePreset::RightWall, east_wall);
    map.insert(TileBundlePreset::BackWall, south_wall);
    map.insert(TileBundlePreset::LeftWall, west_wall);
    map.insert(TileBundlePreset::ForwardLeftCorner, north_west_corner);
    map.insert(TileBundlePreset::ForwardRightCorner, north_east_corner);
    map.insert(TileBundlePreset::BackRightCorner, south_east_corner);
    map.insert(TileBundlePreset::BackLeftCorner, south_west_corner);
    map.insert(TileBundlePreset::ForwardBackHallway, north_south_hallway);
    map.insert(TileBundlePreset::LeftRightHallway, east_west_hallway);
    map.insert(TileBundlePreset::ForwardHallwayEnd, north_hallway_end);
    map.insert(TileBundlePreset::RightHallwayEnd, east_hallway_end);
    map.insert(TileBundlePreset::BackHallwayEnd, south_hallway_end);
    map.insert(TileBundlePreset::LeftHallwayEnd, west_hallway_end);
    assert(map@ =~= preset_bundles(*textures));
}

} // verus!
