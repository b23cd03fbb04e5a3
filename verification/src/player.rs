//! The player's movement: a state machine that is stepped once per tick.
//!
//! A tick first asks whether the animation in flight lets the state change.
//! If so it reads the input, turns it into at most one translation or one
//! rotation, and settles a translation by the collision on the face that the
//! step would cross. What is to be animated is handed back as an action.

use vstd::prelude::*;
use crate::direction::GridDirection;
use crate::grid::RawDungeonData;
use crate::lookup::DungeonTileLookup;
use crate::mode_state::GameModeState;
use crate::position::GridPosition;
use crate::tile::TileType;

verus! {

/// How long one step takes at speed 1, in nanoseconds.
pub const WALK_ANIMATION_NANOS: u64 = 300_000_000;

/// How long a quarter turn takes, in nanoseconds.
pub const ROTATE_ANIMATION_NANOS: u64 = 300_000_000;

/// How long one leg of the bump against a wall takes, in nanoseconds.
pub const COLLIDE_ANIMATION_NANOS: u64 = 70_000_000;

/// How far the bump reaches towards the wall, in hundredths of a cell.
pub const COLLIDE_DISTANCE_HUNDREDTHS: u32 = 18;

/// How many legs the bump has: towards the wall and back.
pub const COLLIDE_REPEAT_COUNT: u32 = 2;

/// The speed of a player that has not moved yet, in tenths.
pub const REST_SPEED_TENTHS: u32 = 10;

/// The speed of a step without the fast modifier, in tenths.
pub const WALK_SPEED_TENTHS: u32 = 13;

/// The speed of a step with the fast modifier, in tenths.
pub const RUN_SPEED_TENTHS: u32 = 20;

/// The speed above which a step counts as running, in tenths.
pub const RUNNING_THRESHOLD_TENTHS: u32 = 15;

/// What the player is doing.
#[derive(Clone, Copy, Debug, PartialEq, Eq, Hash, Structural)]
pub enum DungeonPlayerMovementState {
    Stationary,
    Walking,
    Running,
    Rotating,
    Colliding,
}

/// The factor by which a step is faster than at rest pace, in tenths.
#[derive(Clone, Copy, Debug, PartialEq, Eq, Structural)]
pub struct SpeedMultiplier(pub u32);

/// The player: where it stands, where it faces, what it is doing and how
/// fast it last moved.
#[derive(Clone, Copy, Debug, PartialEq, Eq, Structural)]
pub struct DungeonPlayerBundle {
    pub grid_pos: GridPosition,
    pub facing: GridDirection,
    pub movement_state: DungeonPlayerMovementState,
    pub speed_multiplier: SpeedMultiplier,
}

/// How far the animation in flight has come.
#[derive(Clone, Copy, Debug, PartialEq, Eq, Structural)]
pub struct AnimationProgress {
    /// The length of one leg of the animation, in nanoseconds.
    pub duration_nanos: u128,
    /// The time played so far, over all legs, in nanoseconds.
    pub elapsed_nanos: u128,
    /// The number of legs that were played to their end.
    pub times_completed: u32,
}

/// The keys that are down in a tick.
#[derive(Clone, Copy, Debug, PartialEq, Eq, Structural)]
pub struct MovementInput {
    pub up: bool,
    pub down: bool,
    pub left: bool,
    pub right: bool,
    /// The fast modifier: steps run, and left and right strafe.
    pub fast: bool,
    /// The key that leaves the dungeon for a battle, just pressed.
    pub switch_mode: bool,
}

/// What a tick is about to do, before the tile in its way is known.
#[derive(Clone, Copy, Debug, PartialEq, Eq, Structural)]
pub enum MovePlan {
    /// The animation in flight is not done: nothing happens.
    Wait,
    /// The game leaves for the given mode.
    SwitchMode(GameModeState),
    /// A step across the face in the given direction.
    Translate(GridDirection),
    /// A quarter turn, `Left` or `Right`.
    Rotate(GridDirection),
    /// No key asks for anything.
    Rest,
}

/// What a tick did, for whoever animates it.
#[derive(Clone, Copy, Debug, PartialEq, Eq, Structural)]
pub enum PlayerAction {
    /// Nothing happened: the animation in flight goes on.
    Wait,
    /// The game is to switch to the given mode; the player is untouched.
    SwitchMode(GameModeState),
    /// The player stepped from `start` to `end`.
    Walk { start: GridPosition, end: GridPosition, duration_nanos: u64 },
    /// The player ran into the face `toward` and bounces off it: out and
    /// back, each leg `duration_nanos` long.
    Bump {
        start: GridPosition,
        toward: GridDirection,
        distance_hundredths: u32,
        duration_nanos: u64,
        repeat_count: u32,
    },
    /// The player turned a quarter towards `toward`.
    Turn { toward: GridDirection, duration_nanos: u64 },
    /// The player came to rest.
    Rest,
}

/// Whether the animation has played one full leg.
pub open spec fn animation_finished(progress: AnimationProgress) -> bool {
    progress.elapsed_nanos >= progress.duration_nanos
}

/// Whether the state may change: at rest always; while walking, running or
/// rotating once the animation has finished; while colliding once it has
/// finished and more than one leg of the bump was completed.
pub open spec fn spec_can_change_state(
    progress: AnimationProgress,
    movement_state: DungeonPlayerMovementState,
) -> bool {
    match movement_state {
        DungeonPlayerMovementState::Stationary => true,
        DungeonPlayerMovementState::Walking
        | DungeonPlayerMovementState::Rotating
        | DungeonPlayerMovementState::Running => animation_finished(progress),
        DungeonPlayerMovementState::Colliding => animation_finished(progress)
            && progress.times_completed > 1,
    }
}

/// What the keys ask for when the player faces `facing`. Up and down step
/// along the facing and against it. Left and right turn, or with the fast
/// modifier strafe. A step always wins over a turn, up over down, and left
/// over right.
pub open spec fn spec_intent(facing: GridDirection, input: MovementInput) -> MovePlan {
    if input.up {
        MovePlan::Translate(facing)
    } else if input.down {
        MovePlan::Translate(facing.spec_inverse())
    } else if input.left {
        if input.fast {
            MovePlan::Translate(facing.spec_rotated(GridDirection::Left))
        } else {
            MovePlan::Rotate(GridDirection::Left)
        }
    } else if input.right {
        if input.fast {
            MovePlan::Translate(facing.spec_rotated(GridDirection::Right))
        } else {
            MovePlan::Rotate(GridDirection::Right)
        }
    } else {
        MovePlan::Rest
    }
}

/// What a tick is about to do: nothing while the state may not change, else the
/// switch of mode if it is asked for, else what the keys ask for.
pub open spec fn spec_plan(
    player: DungeonPlayerBundle,
    input: MovementInput,
    progress: AnimationProgress,
) -> MovePlan {
    if !spec_can_change_state(progress, player.movement_state) {
        MovePlan::Wait
    } else if input.switch_mode {
        MovePlan::SwitchMode(GameModeState::LoadingBattle)
    } else {
        spec_intent(player.facing, input)
    }
}

/// The speed of this tick's step, in tenths.
pub open spec fn spec_speed(input: MovementInput) -> SpeedMultiplier {
    if input.fast {
        SpeedMultiplier(RUN_SPEED_TENTHS)
    } else {
        SpeedMultiplier(WALK_SPEED_TENTHS)
    }
}

/// How long a step takes at the given speed, in nanoseconds: the time of a
/// step at speed 1 divided by the speed.
pub open spec fn spec_walk_duration(speed_multiplier: SpeedMultiplier) -> int {
    (WALK_ANIMATION_NANOS * 10) / (speed_multiplier.0 as int)
}

/// Whether a step from `position` in `direction` is stopped: by a collision,
/// or because it would leave the range of the coordinates.
pub open spec fn step_is_stopped(
    collision: bool,
    position: GridPosition,
    direction: GridDirection,
) -> bool {
    collision || !position.can_translate(direction)
}

/// The state and position after a step was tried, and what is to be
/// animated. A stopped step leaves the position and bumps; any other moves
/// one cell on, running above the threshold speed and walking below.
pub open spec fn spec_move_or_collide(
    collision: bool,
    position: GridPosition,
    direction: GridDirection,
    speed_multiplier: SpeedMultiplier,
) -> (DungeonPlayerMovementState, GridPosition, PlayerAction) {
    if step_is_stopped(collision, position, direction) {
        (
            DungeonPlayerMovementState::Colliding,
            position,
            PlayerAction::Bump {
                start: position,
                toward: direction,
                distance_hundredths: COLLIDE_DISTANCE_HUNDREDTHS,
                duration_nanos: COLLIDE_ANIMATION_NANOS,
                repeat_count: COLLIDE_REPEAT_COUNT,
            },
        )
    } else {
        let end = GridPosition {
            row: position.translated_row(direction) as usize,
            col: position.translated_col(direction) as usize,
        };
        (
            if speed_multiplier.0 > RUNNING_THRESHOLD_TENTHS {
                DungeonPlayerMovementState::Running
            } else {
                DungeonPlayerMovementState::Walking
            },
            end,
            PlayerAction::Walk {
                start: position,
                end,
                duration_nanos: spec_walk_duration(speed_multiplier) as u64,
            },
        )
    }
}

/// The player after a tick, and what the tick did. `probed` is the kind of
/// the tile on the face that the planned step crosses: any kind but `Empty`
/// is a collision. It is not read when no step is planned.
pub open spec fn spec_tick(
    player: DungeonPlayerBundle,
    input: MovementInput,
    progress: AnimationProgress,
    probed: TileType,
) -> (DungeonPlayerBundle, PlayerAction) {
    match spec_plan(player, input, progress) {
        MovePlan::Wait => (player, PlayerAction::Wait),
        MovePlan::SwitchMode(mode) => (player, PlayerAction::SwitchMode(mode)),
        MovePlan::Translate(direction) => {
            let moved = spec_move_or_collide(
                probed != TileType::Empty,
                player.grid_pos,
                direction,
                spec_speed(input),
            );
            (
                DungeonPlayerBundle {
                    grid_pos: moved.1,
                    facing: player.facing,
                    movement_state: moved.0,
                    speed_multiplier: spec_speed(input),
                },
                moved.2,
            )
        },
        MovePlan::Rotate(toward) => (
            DungeonPlayerBundle {
                grid_pos: player.grid_pos,
                facing: player.facing.spec_rotated(toward),
                movement_state: DungeonPlayerMovementState::Rotating,
                speed_multiplier: spec_speed(input),
            },
            PlayerAction::Turn { toward, duration_nanos: ROTATE_ANIMATION_NANOS },
        ),
        MovePlan::Rest => (
            DungeonPlayerBundle {
                grid_pos: player.grid_pos,
                facing: player.facing,
                movement_state: DungeonPlayerMovementState::Stationary,
                speed_multiplier: spec_speed(input),
            },
            PlayerAction::Rest,
        ),
    }
}

/// Whether the player's state may change in this tick.
pub fn can_change_state(
    progress: &AnimationProgress,
    movement_state: DungeonPlayerMovementState,
) -> (open: bool)
    ensures
        open == spec_can_change_state(*progress, movement_state),
{
    let finished_animation = progress.elapsed_nanos >= progress.duration_nanos;
    match movement_state {
        DungeonPlayerMovementState::Stationary => true,
        DungeonPlayerMovementState::Walking
        | DungeonPlayerMovementState::Rotating
        | DungeonPlayerMovementState::Running => finished_animation,
        DungeonPlayerMovementState::Colliding => {
            finished_animation && progress.times_completed > 1
        },
    }
}

/// What the keys ask for when the player faces `facing`.
pub fn resolve_intent(facing: GridDirection, input: &MovementInput) -> (intent: MovePlan)
    ensures
        intent == spec_intent(facing, *input),
{
    let mut translate_player = false;
    let mut rotate_player = false;
    let mut direction_to_translate = GridDirection::Forward;
    let mut direction_to_rotate = GridDirection::Right;
    if input.left {
        if input.fast {
            direction_to_translate = facing.rotated(GridDirection::Left);
            translate_player = true;
        } else {
            rotate_player = true;
            direction_to_rotate = GridDirection::Left;
        }
    } else if input.right {
        if input.fast {
            direction_to_translate = facing.rotated(GridDirection::Right);
            translate_player = true;
        } else {
            rotate_player = true;
            direction_to_rotate = GridDirection::Right;
        }
    }
    if input.up {
        direction_to_translate = facing;
        translate_player = true;
    } else if input.down {
        direction_to_translate = facing.get_inverse_direction();
        translate_player = true;
    }
    if translate_player {
        MovePlan::Translate(direction_to_translate)
    } else if rotate_player {
        MovePlan::Rotate(direction_to_rotate)
    } else {
        MovePlan::Rest
    }
}

/// What this tick is about to do, before the tile in its way is known.
pub fn plan_move(
    player: &DungeonPlayerBundle,
    input: &MovementInput,
    progress: &AnimationProgress,
) -> (plan: MovePlan)
    ensures
        plan == spec_plan(*player, *input, *progress),
{
    if !can_change_state(progress, player.movement_state) {
        return MovePlan::Wait;
    }
    if input.switch_mode {
        return MovePlan::SwitchMode(GameModeState::LoadingBattle);
    }
    resolve_intent(player.facing, input)
}

/// How long a step takes at the given speed, in nanoseconds.
pub fn walk_duration(speed_multiplier: SpeedMultiplier) -> (nanos: u64)
    requires
        speed_multiplier.0 > 0,
    ensures
        nanos == spec_walk_duration(speed_multiplier),
{
    let scaled: u64 = WALK_ANIMATION_NANOS * 10;
    let tenths: u64 = speed_multiplier.0 as u64;
    assert(scaled / tenths <= scaled) by (nonlinear_arith)
        requires
            tenths >= 1,
    ;
    scaled / tenths
}

/// Tries a step in `direction`. On a collision, and where the step would
/// leave the range of the coordinates, the player stays and bumps against
/// the face; else it moves one cell on at once, walking or running by its
/// speed, and the step is left to be animated.
pub fn move_or_collide(
    collision: bool,
    movement_state: &mut DungeonPlayerMovementState,
    grid_pos: &mut GridPosition,
    direction: GridDirection,
    speed_multiplier: SpeedMultiplier,
) -> (action: PlayerAction)
    requires
        speed_multiplier.0 > 0,
    ensures
        (*final(movement_state), *final(grid_pos), action) == spec_move_or_collide(
            collision,
            *old(grid_pos),
            direction,
            speed_multiplier,
        ),
{
    let start = *grid_pos;
    if collision || !start.fits(direction) {
        *movement_state = DungeonPlayerMovementState::Colliding;
        return PlayerAction::Bump {
            start,
            toward: direction,
            distance_hundredths: COLLIDE_DISTANCE_HUNDREDTHS,
            duration_nanos: COLLIDE_ANIMATION_NANOS,
            repeat_count: COLLIDE_REPEAT_COUNT,
        };
    }
    let end_grid_pos = start.translated(direction);
    *movement_state = if speed_multiplier.0 > RUNNING_THRESHOLD_TENTHS {
        DungeonPlayerMovementState::Running
    } else {
        DungeonPlayerMovementState::Walking
    };
    *grid_pos = end_grid_pos;
    PlayerAction::Walk {
        start,
        end: end_grid_pos,
        duration_nanos: walk_duration(speed_multiplier),
    }
}

/// One tick of the player, given the kind of the tile in its way. `probed`
/// is the kind of the tile on the face that the step planned by
/// [`plan_move`] crosses, and any kind but `Empty` is a collision; without
/// such a step it is not read. While the state may not change, and on a
/// switch of mode, the player is left as it is. Else the player takes this tick's speed and
/// steps, bumps, turns or comes to rest; position and facing change at once,
/// and the action says what is to be animated.
pub fn step_player(
    player: &mut DungeonPlayerBundle,
    input: &MovementInput,
    progress: &AnimationProgress,
    probed: TileType,
) -> (action: PlayerAction)
    ensures
        (*final(player), action) == spec_tick(*old(player), *input, *progress, probed),
{
    match plan_move(player, input, progress) {
        MovePlan::Wait => PlayerAction::Wait,
        MovePlan::SwitchMode(mode) => PlayerAction::SwitchMode(mode),
        MovePlan::Translate(direction) => {
            let new_multiplier = if input.fast {
                SpeedMultiplier(RUN_SPEED_TENTHS)
            } else {
                SpeedMultiplier(WALK_SPEED_TENTHS)
            };
            player.speed_multiplier = new_multiplier;
            let mut movement_state = player.movement_state;
            let mut grid_pos = player.grid_pos;
            let collision = match probed {
                TileType::Empty => false,
                TileType::Basic => true,
            };
            let action = move_or_collide(
                collision,
                &mut movement_state,
                &mut grid_pos,
                direction,
                new_multiplier,
            );
            player.movement_state = movement_state;
            player.grid_pos = grid_pos;
            action
        },
        MovePlan::Rotate(toward) => {
            player.speed_multiplier = if input.fast {
                SpeedMultiplier(RUN_SPEED_TENTHS)
            } else {
                SpeedMultiplier(WALK_SPEED_TENTHS)
            };
            player.movement_state = DungeonPlayerMovementState::Rotating;
            player.facing = player.facing.rotated(toward);
            PlayerAction::Turn { toward, duration_nanos: ROTATE_ANIMATION_NANOS }
        },
        MovePlan::Rest => {
            player.speed_multiplier = if input.fast {
                SpeedMultiplier(RUN_SPEED_TENTHS)
            } else {
                SpeedMultiplier(WALK_SPEED_TENTHS)
            };
            player.movement_state = DungeonPlayerMovementState::Stationary;
            PlayerAction::Rest
        },
    }
}

/// One tick of the player. Where the keys ask for a step, the tile on the
/// face that the step crosses is taken from the lookup, at the player's
/// position, and `tile_type_of` is asked for its kind; the tick then goes on
/// as [`step_player`] does with that kind. The tile must have been
/// registered. Without a step neither the lookup nor `tile_type_of` is used.
pub fn try_move_player<F: Fn(u64) -> TileType>(
    player: &mut DungeonPlayerBundle,
    input: &MovementInput,
    progress: &AnimationProgress,
    dungeon_tile_lookup: &DungeonTileLookup,
    tile_type_of: F,
) -> (action: PlayerAction)
    requires
        spec_plan(*old(player), *input, *progress) matches MovePlan::Translate(direction)
            ==> dungeon_tile_lookup.has_tile(old(player).grid_pos, direction)
            && tile_type_of.requires(
            (dungeon_tile_lookup.tile_at(old(player).grid_pos, direction),),
        ),
    ensures
        spec_plan(*old(player), *input, *progress) matches MovePlan::Translate(direction)
            ==> exists|probed: TileType|
            tile_type_of.ensures(
                (dungeon_tile_lookup.tile_at(old(player).grid_pos, direction),),
                probed,
            ) && (*final(player), action) == spec_tick(*old(player), *input, *progress, probed),
        !(spec_plan(*old(player), *input, *progress) is Translate) ==> (*final(player), action)
            == spec_tick(*old(player), *input, *progress, TileType::Empty),
{
    let probed = match plan_move(player, input, progress) {
        MovePlan::Translate(direction) => {
            let tile_entity = dungeon_tile_lookup.get_tile(player.grid_pos, direction);
            tile_type_of(tile_entity)
        },
        _ => TileType::Empty,
    };
    step_player(player, input, progress, probed)
}

/// The player as the dungeon starts: at the start position, facing the
/// start direction, at rest, at speed 1.
pub fn setup_player(raw_dungeon_data: &RawDungeonData) -> (player: DungeonPlayerBundle)
    ensures
        player == (DungeonPlayerBundle {
            grid_pos: GridPosition {
                row: raw_dungeon_data.player_start_position[0] as usize,
                col: raw_dungeon_data.player_start_position[1] as usize,
            },
            facing: raw_dungeon_data.player_start_direction,
            movement_state: DungeonPlayerMovementState::Stationary,
            speed_multiplier: SpeedMultiplier(REST_SPEED_TENTHS),
        }),
{
    let grid_pos: GridPosition = GridPosition::from(raw_dungeon_data.player_start_position);
    DungeonPlayerBundle {
        grid_pos,
        facing: raw_dungeon_data.player_start_direction,
        movement_state: DungeonPlayerMovementState::Stationary,
        speed_multiplier: SpeedMultiplier(REST_SPEED_TENTHS),
    }
}

} // verus!
