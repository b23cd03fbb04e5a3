//! What holds of every tick of the player.

use vstd::prelude::*;
use crate::direction::GridDirection;
use crate::grid::{lemma_open_faces_lead_to_cells, neighbor_of};
use crate::mode_state::GameModeState;
use crate::player::{
    animation_finished, spec_can_change_state, spec_intent, spec_plan, spec_tick, step_is_stopped,
    AnimationProgress, DungeonPlayerBundle, DungeonPlayerMovementState, MovePlan, MovementInput,
    PlayerAction, SpeedMultiplier, RUN_SPEED_TENTHS, WALK_SPEED_TENTHS,
};
use crate::preset::{grid_cell_exists, grid_preset};
use crate::tile::{PurpleTileTextureMap, TileBundle, TileType};

verus! {

/// When the state may change. At rest it always may. While walking, running
/// or rotating it may not as long as less than the animation's duration has
/// elapsed, and may from then on. While colliding it may not, whatever has
/// elapsed, until more than one leg of the bump is completed.
pub proof fn lemma_state_change_waits_for_animation(
    progress: AnimationProgress,
    movement_state: DungeonPlayerMovementState,
)
    ensures
        movement_state == DungeonPlayerMovementState::Stationary ==> spec_can_change_state(
            progress,
            movement_state,
        ),
        movement_state != DungeonPlayerMovementState::Stationary && progress.elapsed_nanos
            < progress.duration_nanos ==> !spec_can_change_state(progress, movement_state),
        movement_state != DungeonPlayerMovementState::Colliding && progress.elapsed_nanos
            >= progress.duration_nanos ==> spec_can_change_state(progress, movement_state),
        movement_state == DungeonPlayerMovementState::Colliding && progress.times_completed <= 1
            ==> !spec_can_change_state(progress, movement_state),
        movement_state == DungeonPlayerMovementState::Colliding && progress.times_completed > 1
            && progress.elapsed_nanos >= progress.duration_nanos ==> spec_can_change_state(
            progress,
            movement_state,
        ),
{
}

/// While the state may not change a tick does nothing, whatever the keys.
pub proof fn lemma_waiting_tick_changes_nothing(
    player: DungeonPlayerBundle,
    input: MovementInput,
    progress: AnimationProgress,
    probed: TileType,
)
    requires
        !spec_can_change_state(progress, player.movement_state),
    ensures
        spec_tick(player, input, progress, probed) == (player, PlayerAction::Wait),
{
}

/// When the state may change, the switch of mode comes before every movement and
/// leaves the player as it is.
pub proof fn lemma_mode_switch_short_circuits(
    player: DungeonPlayerBundle,
    input: MovementInput,
    progress: AnimationProgress,
    probed: TileType,
)
    requires
        spec_can_change_state(progress, player.movement_state),
        input.switch_mode,
    ensures
        spec_tick(player, input, progress, probed) == (
            player,
            PlayerAction::SwitchMode(GameModeState::LoadingBattle),
        ),
{
}

/// A step wins over a turn: with up or down held, whatever the other keys,
/// an unobstructed tick ends walking or running, never rotating, and the
/// facing stays.
pub proof fn lemma_translation_beats_rotation(
    player: DungeonPlayerBundle,
    input: MovementInput,
    progress: AnimationProgress,
    probed: TileType,
)
    requires
        spec_can_change_state(progress, player.movement_state),
        !input.switch_mode,
        input.up || input.down,
        probed == TileType::Empty,
        player.grid_pos.can_translate(
            if input.up {
                player.facing
            } else {
                player.facing.spec_inverse()
            },
        ),
    ensures
        ({
            let after = spec_tick(player, input, progress, probed).0;
            &&& after.movement_state == if input.fast {
                DungeonPlayerMovementState::Running
            } else {
                DungeonPlayerMovementState::Walking
            }
            &&& after.facing == player.facing
        }),
        spec_tick(player, input, progress, probed).1 is Walk,
{
}

/// A tick rotates only when left or right is held without the fast modifier
/// and neither up nor down is.
pub proof fn lemma_rotation_needs_a_lone_turn_key(
    player: DungeonPlayerBundle,
    input: MovementInput,
    progress: AnimationProgress,
    probed: TileType,
)
    ensures
        spec_tick(player, input, progress, probed).1 is Turn <==> spec_can_change_state(
            progress,
            player.movement_state,
        ) && !input.switch_mode && !input.up && !input.down && !input.fast && (input.left
            || input.right),
        spec_tick(player, input, progress, probed).1 is Turn ==> spec_tick(
            player,
            input,
            progress,
            probed,
        ).0 == (DungeonPlayerBundle {
            facing: player.facing.spec_rotated(
                if input.left {
                    GridDirection::Left
                } else {
                    GridDirection::Right
                },
            ),
            movement_state: DungeonPlayerMovementState::Rotating,
            speed_multiplier: SpeedMultiplier(WALK_SPEED_TENTHS),
            ..player
        }),
{
}

/// A stopped step short-circuits: whenever a step is planned and the tile
/// on the face it crosses is not empty, the player ends colliding where it
/// stood, facing as before, and the bump is aimed at that face.
pub proof fn lemma_collision_keeps_position(
    player: DungeonPlayerBundle,
    input: MovementInput,
    progress: AnimationProgress,
    direction: GridDirection,
    probed: TileType,
)
    requires
        spec_plan(player, input, progress) == MovePlan::Translate(direction),
        probed != TileType::Empty,
    ensures
        ({
            let (after, action) = spec_tick(player, input, progress, probed);
            &&& after.movement_state == DungeonPlayerMovementState::Colliding
            &&& after.grid_pos == player.grid_pos
            &&& after.facing == player.facing
            &&& action matches PlayerAction::Bump { start, toward, .. } && start
                == player.grid_pos && toward == direction
        }),
{
}

/// With the fast modifier, left and right strafe instead of turning: the
/// step goes to the side of the facing, the facing stays, and an
/// unobstructed step runs at the fast speed.
pub proof fn lemma_fast_lateral_strafes(
    player: DungeonPlayerBundle,
    input: MovementInput,
    progress: AnimationProgress,
    probed: TileType,
)
    requires
        spec_can_change_state(progress, player.movement_state),
        !input.switch_mode,
        !input.up,
        !input.down,
        input.fast,
        input.left || input.right,
    ensures
        ({
            let side = if input.left {
                GridDirection::Left
            } else {
                GridDirection::Right
            };
            let direction = player.facing.spec_rotated(side);
            let (after, action) = spec_tick(player, input, progress, probed);
            &&& spec_plan(player, input, progress) == MovePlan::Translate(direction)
            &&& after.facing == player.facing
            &&& after.speed_multiplier == SpeedMultiplier(RUN_SPEED_TENTHS)
            &&& !step_is_stopped(probed != TileType::Empty, player.grid_pos, direction) ==> {
                &&& after.movement_state == DungeonPlayerMovementState::Running
                &&& after.grid_pos.row == player.grid_pos.translated_row(direction)
                &&& after.grid_pos.col == player.grid_pos.translated_col(direction)
            }
        }),
{
}

/// The state after a tick goes with what the tick did.
pub proof fn lemma_state_matches_action(
    player: DungeonPlayerBundle,
    input: MovementInput,
    progress: AnimationProgress,
    probed: TileType,
)
    ensures
        ({
            let (after, action) = spec_tick(player, input, progress, probed);
            match action {
                PlayerAction::Wait => after == player,
                PlayerAction::SwitchMode(mode) => after == player && mode
                    == GameModeState::LoadingBattle,
                PlayerAction::Walk { start, end, duration_nanos } => {
                    &&& after.movement_state == DungeonPlayerMovementState::Walking
                        || after.movement_state == DungeonPlayerMovementState::Running
                    &&& start == player.grid_pos
                    &&& end == after.grid_pos
                    &&& after.facing == player.facing
                },
                PlayerAction::Bump { start, .. } => {
                    &&& after.movement_state == DungeonPlayerMovementState::Colliding
                    &&& start == player.grid_pos
                    &&& after.grid_pos == player.grid_pos
                    &&& after.facing == player.facing
                },
                PlayerAction::Turn { .. } => {
                    &&& after.movement_state == DungeonPlayerMovementState::Rotating
                    &&& after.grid_pos == player.grid_pos
                },
                PlayerAction::Rest => {
                    &&& after.movement_state == DungeonPlayerMovementState::Stationary
                    &&& after.grid_pos == player.grid_pos
                    &&& after.facing == player.facing
                },
            }
        }),
{
}

/// A tick moves the player by one cell at most, along a row or a column.
pub proof fn lemma_tick_moves_one_cell_at_most(
    player: DungeonPlayerBundle,
    input: MovementInput,
    progress: AnimationProgress,
    probed: TileType,
)
    ensures
        ({
            let after = spec_tick(player, input, progress, probed).0;
            let rows = after.grid_pos.row - player.grid_pos.row;
            let cols = after.grid_pos.col - player.grid_pos.col;
            (rows == 0 && -1 <= cols <= 1) || (cols == 0 && -1 <= rows <= 1)
        }),
{
}

/// A tick never turns a planar facing out of the plane.
pub proof fn lemma_tick_keeps_facing_in_plane(
    player: DungeonPlayerBundle,
    input: MovementInput,
    progress: AnimationProgress,
    probed: TileType,
)
    ensures
        spec_tick(player, input, progress, probed).0.facing.is_planar()
            == player.facing.is_planar(),
{
}

/// When the state may change and no switch of mode is asked for, the player
/// comes to rest exactly when no movement key is held.
pub proof fn lemma_rest_without_keys(
    player: DungeonPlayerBundle,
    input: MovementInput,
    progress: AnimationProgress,
    probed: TileType,
)
    requires
        spec_can_change_state(progress, player.movement_state),
        !input.switch_mode,
    ensures
        spec_tick(player, input, progress, probed).1 is Rest <==> !input.up && !input.down
            && !input.left && !input.right,
        spec_intent(player.facing, input) is Rest <==> !input.up && !input.down && !input.left
            && !input.right,
{
}

/// In a dungeon whose cells carry the bundles of their presets, with a
/// solid wall tile, a player on an open cell stays on open cells: when the
/// kind handed to the tick is that of the tile on the face the step crosses,
/// the tick ends on an open cell of the grid.
pub proof fn lemma_player_stays_on_open_cells(
    raw: Seq<Vec<u8>>,
    textures: PurpleTileTextureMap,
    player: DungeonPlayerBundle,
    input: MovementInput,
    progress: AnimationProgress,
    probed: TileType,
)
    requires
        textures.wall.is_solid(),
        grid_cell_exists(raw, player.grid_pos.row as int, player.grid_pos.col as int),
        forall|direction: GridDirection|
            spec_plan(player, input, progress) == MovePlan::Translate(direction) ==> probed
                == TileBundle::for_preset(
                grid_preset(raw, player.grid_pos.row as int, player.grid_pos.col as int),
                textures,
            ).spec_tile(direction).tile_type,
    ensures
        ({
            let after = spec_tick(player, input, progress, probed).0;
            grid_cell_exists(raw, after.grid_pos.row as int, after.grid_pos.col as int)
        }),
{
    let plan = spec_plan(player, input, progress);
    if let MovePlan::Translate(direction) = plan {
        if direction.is_planar() {
            lemma_open_faces_lead_to_cells(
                raw,
                textures,
                player.grid_pos.row as int,
                player.grid_pos.col as int,
                direction,
            );
            let there = neighbor_of(
                player.grid_pos.row as int,
                player.grid_pos.col as int,
                direction,
            );
            if probed == TileType::Empty {
                assert(grid_cell_exists(raw, there.0, there.1));
            }
        }
    }
}

} // verus!
