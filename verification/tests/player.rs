use std::collections::HashMap;
use std::f32::consts::PI;
use std::time::Duration;

use bevy::prelude::{Quat, Transform, Vec3};
use bevy_tweening::lens::{TransformPositionLens, TransformRotationLens};
use bevy_tweening::RepeatStrategy::MirroredRepeat;
use bevy_tweening::{Animator, AnimatorState, EaseMethod, Tween};

use dark_adapters::cell::{spawn_dungeon_cell, TileEntities};
use dark_adapters::direction::GridDirection;
use dark_adapters::grid::{spawn_grid, RawDungeonData};
use dark_adapters::lookup::DungeonTileLookup;
use dark_adapters::mode_state::GameModeState;
use dark_adapters::player::{
    can_change_state, move_or_collide, plan_move, resolve_intent, setup_player, step_player,
    try_move_player, walk_duration, AnimationProgress, DungeonPlayerBundle, DungeonPlayerMovementState, MovePlan,
    MovementInput, PlayerAction, SpeedMultiplier,
};
use dark_adapters::position::GridPosition;
use dark_adapters::tile::{
    initialize_preset_map, PurpleTileTextureMap, TileBundlePresetMap, TileType,
};

/// What the tests keep in place of the engine's world.
struct App {
    lookup: DungeonTileLookup,
    tile_types: HashMap<u64, TileType>,
    player: DungeonPlayerBundle,
    transform: Transform,
    animator: Animator<Transform>,
    input: MovementInput,
    next_state: Option<GameModeState>,
    last_action: Option<PlayerAction>,
}

fn no_keys() -> MovementInput {
    MovementInput {
        up: false,
        down: false,
        left: false,
        right: false,
        fast: false,
        switch_mode: false,
    }
}

fn player_vec3(position: GridPosition) -> Vec3 {
    Vec3::new(position.col as f32, 1.0, position.row as f32)
}

fn direction_vec3(direction: GridDirection) -> Vec3 {
    match direction {
        GridDirection::Left => Vec3::new(-1.0, 0.0, 0.0),
        GridDirection::Forward => Vec3::new(0.0, 0.0, -1.0),
        GridDirection::Right => Vec3::new(1.0, 0.0, 0.0),
        GridDirection::Back => Vec3::new(0.0, 0.0, 1.0),
        GridDirection::Top => Vec3::new(0.0, 1.0, 0.0),
        GridDirection::Bottom => Vec3::new(0.0, -1.0, 0.0),
    }
}

fn progress_of(animator: &Animator<Transform>) -> AnimationProgress {
    AnimationProgress {
        duration_nanos: animator.tweenable().duration().as_nanos(),
        elapsed_nanos: animator.tweenable().elapsed().as_nanos(),
        times_completed: animator.tweenable().times_completed(),
    }
}

fn two_by_two() -> Vec<Vec<u8>> {
    vec![vec![1, 1], vec![1, 1]]
}

fn setup(raw_dungeon_data: Option<RawDungeonData>) -> App {
    let default_data = RawDungeonData {
        dungeon_grid: two_by_two(),
        player_start_position: [0, 0],
        player_start_direction: GridDirection::Forward,
        items: vec![],
    };
    let raw = raw_dungeon_data.unwrap_or(default_data);
    let mut presets = TileBundlePresetMap::default();
    initialize_preset_map(&PurpleTileTextureMap::new(), &mut presets);
    let mut lookup = DungeonTileLookup::default();
    lookup.resize(&raw.dungeon_grid);
    let grid = spawn_grid(&raw, &presets).expect("failed to spawn dungeon because it is not a square");
    let mut tile_types = HashMap::new();
    let mut next_entity: u64 = 100;
    for row in grid.grid.iter() {
        for cell in row.iter() {
            let entities = TileEntities {
                left: next_entity,
                forward: next_entity + 1,
                right: next_entity + 2,
                back: next_entity + 3,
                top: next_entity + 4,
                bottom: next_entity + 5,
            };
            next_entity += 6;
            let directions = [
                GridDirection::Left,
                GridDirection::Forward,
                GridDirection::Right,
                GridDirection::Back,
                GridDirection::Top,
                GridDirection::Bottom,
            ];
            for direction in directions {
                tile_types.insert(
                    entities.handle(direction),
                    cell.tile_bundle.tile(direction).tile_type,
                );
            }
            assert!(lookup.contains_cell(cell.grid_position));
            spawn_dungeon_cell(*cell, cell.grid_position, entities, &mut lookup);
        }
    }
    let player = setup_player(&raw);
    let animator = Animator::new(Tween::new(
        EaseMethod::Linear,
        Duration::from_secs(1),
        TransformPositionLens {
            start: Vec3::ZERO,
            end: Vec3::new(1., 2., -4.),
        },
    ))
    .with_state(AnimatorState::Paused);
    App {
        lookup,
        tile_types,
        player,
        transform: Transform::from_translation(player_vec3(player.grid_pos)),
        animator,
        input: no_keys(),
        next_state: None,
        last_action: None,
    }
}

/// One frame: what the system that moves the player does with the library.
fn update(app: &mut App) {
    let progress = progress_of(&app.animator);
    if let MovePlan::Translate(direction) = plan_move(&app.player, &app.input, &progress) {
        assert!(
            app.lookup.find_tile(app.player.grid_pos, direction).is_some(),
            "no tile was registered on that face"
        );
    }
    let tile_types = &app.tile_types;
    let action = try_move_player(
        &mut app.player,
        &app.input,
        &progress,
        &app.lookup,
        |tile: u64| *tile_types.get(&tile).unwrap(),
    );
    match action {
        PlayerAction::Wait | PlayerAction::Rest => {}
        PlayerAction::SwitchMode(mode) => app.next_state = Some(mode),
        PlayerAction::Walk {
            start,
            end,
            duration_nanos,
        } => {
            app.animator.set_tweenable(Tween::new(
                EaseMethod::Linear,
                Duration::from_nanos(duration_nanos),
                TransformPositionLens {
                    start: player_vec3(start),
                    end: player_vec3(end),
                },
            ));
            app.animator.state = AnimatorState::Playing;
        }
        PlayerAction::Bump {
            start,
            toward,
            distance_hundredths,
            duration_nanos,
            repeat_count,
        } => {
            let from = player_vec3(start);
            let to = from + (distance_hundredths as f32 / 100.0) * direction_vec3(toward);
            app.animator.set_tweenable(
                Tween::new(
                    EaseMethod::Linear,
                    Duration::from_nanos(duration_nanos),
                    TransformPositionLens {
                        start: from,
                        end: to,
                    },
                )
                .with_repeat_count(repeat_count)
                .with_repeat_strategy(MirroredRepeat),
            );
            app.animator.state = AnimatorState::Playing;
        }
        PlayerAction::Turn {
            toward,
            duration_nanos,
        } => {
            let rotate_diff = if toward == GridDirection::Left {
                PI / 2.0
            } else {
                -PI / 2.0
            };
            app.animator.set_tweenable(Tween::new(
                EaseMethod::Linear,
                Duration::from_nanos(duration_nanos),
                TransformRotationLens {
                    start: app.transform.rotation,
                    end: app.transform.rotation * Quat::from_rotation_y(rotate_diff),
                },
            ));
            app.animator.state = AnimatorState::Playing;
        }
    }
    app.last_action = Some(action);
}

fn start_at(row: u8, col: u8, direction: GridDirection) -> RawDungeonData {
    RawDungeonData {
        dungeon_grid: two_by_two(),
        player_start_position: [row, col],
        player_start_direction: direction,
        items: vec![],
    }
}

#[test]
fn should_collide() {
    let mut app = setup(None);
    app.input.up = true;
    update(&mut app);
    assert_eq!(app.player.movement_state, DungeonPlayerMovementState::Colliding);
    assert_eq!(app.animator.state, AnimatorState::Playing);
}

#[test]
fn should_rotate_left() {
    let mut app = setup(None);
    app.input.left = true;
    update(&mut app);
    assert_eq!(app.player.movement_state, DungeonPlayerMovementState::Rotating);
    assert_eq!(app.animator.state, AnimatorState::Playing);
}

#[test]
fn should_rotate_right() {
    let mut app = setup(None);
    app.input.right = true;
    update(&mut app);
    assert_eq!(app.player.movement_state, DungeonPlayerMovementState::Rotating);
    assert_eq!(app.animator.state, AnimatorState::Playing);
}

#[test]
fn should_walk() {
    let mut app = setup(Some(start_at(0, 0, GridDirection::Right)));
    app.input.up = true;
    update(&mut app);
    assert_eq!(app.player.movement_state, DungeonPlayerMovementState::Walking);
    assert_eq!(app.animator.state, AnimatorState::Playing);
}

#[test]
fn should_walk_backward() {
    let mut app = setup(Some(start_at(0, 1, GridDirection::Right)));
    app.input.down = true;
    update(&mut app);
    assert_eq!(app.player.movement_state, DungeonPlayerMovementState::Walking);
    assert_eq!(app.animator.state, AnimatorState::Playing);
}

#[test]
fn should_run_forward() {
    let mut app = setup(Some(start_at(0, 0, GridDirection::Right)));
    app.input.up = true;
    app.input.fast = true;
    update(&mut app);
    assert_eq!(app.player.movement_state, DungeonPlayerMovementState::Running);
    assert_eq!(app.animator.state, AnimatorState::Playing);
}

#[test]
fn should_run_left() {
    let mut app = setup(Some(start_at(1, 0, GridDirection::Right)));
    app.input.left = true;
    app.input.fast = true;
    update(&mut app);
    assert_eq!(app.player.movement_state, DungeonPlayerMovementState::Running);
    assert_eq!(app.animator.state, AnimatorState::Playing);
}

#[test]
fn should_run_right() {
    let mut app = setup(Some(start_at(0, 0, GridDirection::Right)));
    app.input.right = true;
    app.input.fast = true;
    update(&mut app);
    assert_eq!(app.player.movement_state, DungeonPlayerMovementState::Running);
    assert_eq!(app.animator.state, AnimatorState::Playing);
}

#[test]
fn can_change_state_works() {
    let mut app = setup(Some(start_at(1, 0, GridDirection::Right)));
    update(&mut app);
    let animator = &mut app.animator;
    assert!(
        can_change_state(&progress_of(animator), DungeonPlayerMovementState::Stationary),
        "should be able to change state when stationary"
    );
    animator.set_tweenable(Tween::new(
        EaseMethod::Linear,
        Duration::from_secs_f32(1.0),
        TransformPositionLens {
            start: Default::default(),
            end: Default::default(),
        },
    ));
    animator
        .tweenable_mut()
        .set_elapsed(Duration::from_secs_f32(0.5));
    assert!(
        !can_change_state(&progress_of(animator), DungeonPlayerMovementState::Walking),
        "should return false when animator in progress and walking"
    );
    assert!(
        !can_change_state(&progress_of(animator), DungeonPlayerMovementState::Running),
        "should return false when animator in progress and running"
    );
    assert!(
        !can_change_state(&progress_of(animator), DungeonPlayerMovementState::Rotating),
        "should return false when animator in progress and rotating"
    );
    animator
        .tweenable_mut()
        .set_elapsed(Duration::from_secs_f32(1.5));
    assert!(
        can_change_state(&progress_of(animator), DungeonPlayerMovementState::Walking),
        "should return true when animator is finished and walking"
    );
    assert!(
        can_change_state(&progress_of(animator), DungeonPlayerMovementState::Running),
        "should return true when animator is finished and running"
    );
    assert!(
        can_change_state(&progress_of(animator), DungeonPlayerMovementState::Rotating),
        "should return true when animator is finished and rotating"
    );

    // colliding
    animator.set_tweenable(
        Tween::new(
            EaseMethod::Linear,
            Duration::from_secs_f32(1.0),
            TransformPositionLens {
                start: Default::default(),
                end: Default::default(),
            },
        )
        .with_repeat_count(2)
        .with_repeat_strategy(MirroredRepeat),
    );

    animator
        .tweenable_mut()
        .set_elapsed(Duration::from_secs_f32(0.5));
    assert!(
        !can_change_state(&progress_of(animator), DungeonPlayerMovementState::Colliding),
        "should return false if animator in progress and colliding"
    );

    animator
        .tweenable_mut()
        .set_elapsed(Duration::from_secs_f32(1.5));

    assert!(
        !can_change_state(&progress_of(animator), DungeonPlayerMovementState::Colliding),
        "should return false if animator hasn't completed twice when colliding"
    );

    animator
        .tweenable_mut()
        .set_elapsed(Duration::from_secs_f32(2.5));

    assert_eq!(animator.tweenable().times_completed(), 2);
    assert!(
        can_change_state(&progress_of(animator), DungeonPlayerMovementState::Colliding),
        "should return true if animator has completed twice when colliding"
    );
}

#[test]
fn state_change_waits_until_the_duration_has_elapsed() {
    let running = AnimationProgress {
        duration_nanos: 300_000_000,
        elapsed_nanos: 299_999_999,
        times_completed: 0,
    };
    let done = AnimationProgress {
        duration_nanos: 300_000_000,
        elapsed_nanos: 300_000_000,
        times_completed: 1,
    };
    assert!(!can_change_state(&running, DungeonPlayerMovementState::Walking));
    assert!(can_change_state(&done, DungeonPlayerMovementState::Walking));
    assert!(can_change_state(&running, DungeonPlayerMovementState::Stationary));
    assert!(!can_change_state(&done, DungeonPlayerMovementState::Colliding));
    let bounced = AnimationProgress {
        duration_nanos: 70_000_000,
        elapsed_nanos: 140_000_000,
        times_completed: 2,
    };
    assert!(can_change_state(&bounced, DungeonPlayerMovementState::Colliding));
}

#[test]
fn tick_during_an_animation_is_a_no_op() {
    let mut app = setup(Some(start_at(0, 0, GridDirection::Right)));
    app.input.up = true;
    update(&mut app);
    let before = app.player;
    assert_eq!(before.movement_state, DungeonPlayerMovementState::Walking);
    app.input = no_keys();
    app.input.left = true;
    update(&mut app);
    assert_eq!(app.last_action, Some(PlayerAction::Wait));
    assert_eq!(app.player, before);
    app.animator
        .tweenable_mut()
        .set_elapsed(Duration::from_secs(1));
    update(&mut app);
    assert_eq!(app.player.movement_state, DungeonPlayerMovementState::Rotating);
    assert_eq!(app.player.facing, GridDirection::Forward);
}

#[test]
fn forward_beats_rotate_left() {
    let mut app = setup(Some(start_at(0, 0, GridDirection::Right)));
    app.input.up = true;
    app.input.left = true;
    update(&mut app);
    assert_eq!(app.player.movement_state, DungeonPlayerMovementState::Walking);
    assert_eq!(app.player.facing, GridDirection::Right);
    assert_eq!(app.player.grid_pos, GridPosition { row: 0, col: 1 });

    let mut fast = setup(Some(start_at(0, 0, GridDirection::Right)));
    fast.input.up = true;
    fast.input.left = true;
    fast.input.fast = true;
    update(&mut fast);
    assert_eq!(fast.player.movement_state, DungeonPlayerMovementState::Running);
    assert_eq!(fast.player.grid_pos, GridPosition { row: 0, col: 1 });
}

#[test]
fn collision_leaves_the_position() {
    let mut app = setup(Some(start_at(0, 0, GridDirection::Left)));
    app.input.up = true;
    update(&mut app);
    assert_eq!(app.player.movement_state, DungeonPlayerMovementState::Colliding);
    assert_eq!(app.player.grid_pos, GridPosition { row: 0, col: 0 });
    assert_eq!(
        app.last_action,
        Some(PlayerAction::Bump {
            start: GridPosition { row: 0, col: 0 },
            toward: GridDirection::Left,
            distance_hundredths: 18,
            duration_nanos: 70_000_000,
            repeat_count: 2,
        })
    );
}

#[test]
fn facing_forward_at_the_top_row_collides() {
    let mut app = setup(Some(start_at(0, 0, GridDirection::Forward)));
    app.input.up = true;
    update(&mut app);
    assert_eq!(app.player.movement_state, DungeonPlayerMovementState::Colliding);
    assert_eq!(app.player.grid_pos, GridPosition { row: 0, col: 0 });
    assert_eq!(app.player.facing, GridDirection::Forward);
}

#[test]
fn facing_right_walks_to_the_next_column() {
    let mut app = setup(Some(start_at(0, 0, GridDirection::Right)));
    app.input.up = true;
    update(&mut app);
    assert_eq!(app.player.movement_state, DungeonPlayerMovementState::Walking);
    assert_eq!(app.player.grid_pos, GridPosition { row: 0, col: 1 });
    assert_eq!(app.player.speed_multiplier, SpeedMultiplier(13));
    assert_eq!(
        app.last_action,
        Some(PlayerAction::Walk {
            start: GridPosition { row: 0, col: 0 },
            end: GridPosition { row: 0, col: 1 },
            duration_nanos: 300_000_000 * 10 / 13,
        })
    );
    assert_eq!(
        app.animator.tweenable().duration(),
        Duration::from_nanos(230_769_230)
    );
}

#[test]
fn fast_left_strafes_instead_of_turning() {
    let mut app = setup(Some(start_at(1, 0, GridDirection::Right)));
    app.input.left = true;
    app.input.fast = true;
    let plan = plan_move(&app.player, &app.input, &progress_of(&app.animator));
    assert_eq!(plan, MovePlan::Translate(GridDirection::Forward));
    update(&mut app);
    assert_eq!(app.player.movement_state, DungeonPlayerMovementState::Running);
    assert_eq!(app.player.speed_multiplier, SpeedMultiplier(20));
    assert_eq!(app.player.facing, GridDirection::Right);
    assert_eq!(app.player.grid_pos, GridPosition { row: 0, col: 0 });
    assert_eq!(
        app.last_action,
        Some(PlayerAction::Walk {
            start: GridPosition { row: 1, col: 0 },
            end: GridPosition { row: 0, col: 0 },
            duration_nanos: 150_000_000,
        })
    );
}

#[test]
fn fast_right_strafes_into_a_wall() {
    let mut app = setup(Some(start_at(1, 0, GridDirection::Right)));
    app.input.right = true;
    app.input.fast = true;
    update(&mut app);
    assert_eq!(app.player.movement_state, DungeonPlayerMovementState::Colliding);
    assert_eq!(app.player.grid_pos, GridPosition { row: 1, col: 0 });
    assert_eq!(app.player.facing, GridDirection::Right);
}

#[test]
fn turning_changes_the_facing_at_once() {
    let mut app = setup(None);
    app.input.left = true;
    update(&mut app);
    assert_eq!(app.player.facing, GridDirection::Left);
    assert_eq!(app.player.grid_pos, GridPosition { row: 0, col: 0 });
    assert_eq!(
        app.last_action,
        Some(PlayerAction::Turn {
            toward: GridDirection::Left,
            duration_nanos: 300_000_000,
        })
    );
    let mut other = setup(None);
    other.input.right = true;
    update(&mut other);
    assert_eq!(other.player.facing, GridDirection::Right);
}

#[test]
fn left_wins_over_right() {
    let mut input = no_keys();
    input.left = true;
    input.right = true;
    assert_eq!(
        resolve_intent(GridDirection::Back, &input),
        MovePlan::Rotate(GridDirection::Left)
    );
    input.fast = true;
    assert_eq!(
        resolve_intent(GridDirection::Back, &input),
        MovePlan::Translate(GridDirection::Right)
    );
    input.down = true;
    assert_eq!(
        resolve_intent(GridDirection::Back, &input),
        MovePlan::Translate(GridDirection::Forward)
    );
    input.up = true;
    assert_eq!(
        resolve_intent(GridDirection::Back, &input),
        MovePlan::Translate(GridDirection::Back)
    );
}

#[test]
fn no_keys_bring_the_player_to_rest() {
    let mut app = setup(None);
    app.player.movement_state = DungeonPlayerMovementState::Walking;
    app.animator
        .tweenable_mut()
        .set_elapsed(Duration::from_secs(1));
    update(&mut app);
    assert_eq!(app.last_action, Some(PlayerAction::Rest));
    assert_eq!(app.player.movement_state, DungeonPlayerMovementState::Stationary);
    assert_eq!(app.player.speed_multiplier, SpeedMultiplier(13));
}

#[test]
fn mode_switch_short_circuits_the_tick() {
    let mut app = setup(Some(start_at(0, 0, GridDirection::Right)));
    app.input.up = true;
    app.input.switch_mode = true;
    let before = app.player;
    update(&mut app);
    assert_eq!(
        app.last_action,
        Some(PlayerAction::SwitchMode(GameModeState::LoadingBattle))
    );
    assert_eq!(app.next_state, Some(GameModeState::LoadingBattle));
    assert_eq!(app.player, before);
    assert_eq!(app.animator.state, AnimatorState::Paused);
}

#[test]
fn player_starts_at_rest_at_speed_one() {
    let player = setup_player(&start_at(1, 0, GridDirection::Back));
    assert_eq!(
        player,
        DungeonPlayerBundle {
            grid_pos: GridPosition { row: 1, col: 0 },
            facing: GridDirection::Back,
            movement_state: DungeonPlayerMovementState::Stationary,
            speed_multiplier: SpeedMultiplier(10),
        }
    );
}

#[test]
fn step_off_the_coordinate_range_is_a_bump() {
    let mut state = DungeonPlayerMovementState::Stationary;
    let mut position = GridPosition { row: 3, col: 0 };
    let action = move_or_collide(
        false,
        &mut state,
        &mut position,
        GridDirection::Left,
        SpeedMultiplier(13),
    );
    assert_eq!(state, DungeonPlayerMovementState::Colliding);
    assert_eq!(position, GridPosition { row: 3, col: 0 });
    assert!(matches!(action, PlayerAction::Bump { .. }));
}

#[test]
fn move_or_collide_walks_and_runs_by_speed() {
    let mut state = DungeonPlayerMovementState::Stationary;
    let mut position = GridPosition { row: 3, col: 4 };
    let action = move_or_collide(
        false,
        &mut state,
        &mut position,
        GridDirection::Back,
        SpeedMultiplier(15),
    );
    assert_eq!(state, DungeonPlayerMovementState::Walking);
    assert_eq!(position, GridPosition { row: 4, col: 4 });
    assert_eq!(
        action,
        PlayerAction::Walk {
            start: GridPosition { row: 3, col: 4 },
            end: GridPosition { row: 4, col: 4 },
            duration_nanos: 200_000_000,
        }
    );
    let again = move_or_collide(
        false,
        &mut state,
        &mut position,
        GridDirection::Forward,
        SpeedMultiplier(16),
    );
    assert_eq!(state, DungeonPlayerMovementState::Running);
    assert_eq!(position, GridPosition { row: 3, col: 4 });
    assert_eq!(
        again,
        PlayerAction::Walk {
            start: GridPosition { row: 4, col: 4 },
            end: GridPosition { row: 3, col: 4 },
            duration_nanos: 187_500_000,
        }
    );
}

#[test]
fn walk_duration_divides_by_the_speed() {
    assert_eq!(walk_duration(SpeedMultiplier(10)), 300_000_000);
    assert_eq!(walk_duration(SpeedMultiplier(13)), 230_769_230);
    assert_eq!(walk_duration(SpeedMultiplier(20)), 150_000_000);
    assert_eq!(walk_duration(SpeedMultiplier(1)), 3_000_000_000);
}

#[test]
fn step_player_goes_by_the_kind_of_the_tile() {
    let start = DungeonPlayerBundle {
        grid_pos: GridPosition { row: 2, col: 2 },
        facing: GridDirection::Back,
        movement_state: DungeonPlayerMovementState::Stationary,
        speed_multiplier: SpeedMultiplier(10),
    };
    let progress = AnimationProgress {
        duration_nanos: 1,
        elapsed_nanos: 0,
        times_completed: 0,
    };
    let mut input = no_keys();
    input.up = true;

    let mut blocked = start;
    let bump = step_player(&mut blocked, &input, &progress, TileType::Basic);
    assert_eq!(blocked.movement_state, DungeonPlayerMovementState::Colliding);
    assert_eq!(blocked.grid_pos, start.grid_pos);
    assert!(matches!(bump, PlayerAction::Bump { .. }));

    let mut free = start;
    let walk = step_player(&mut free, &input, &progress, TileType::Empty);
    assert_eq!(free.movement_state, DungeonPlayerMovementState::Walking);
    assert_eq!(free.grid_pos, GridPosition { row: 3, col: 2 });
    assert!(matches!(walk, PlayerAction::Walk { .. }));

    let mut turning = start;
    let turn = step_player(&mut turning, &no_keys_but_left(), &progress, TileType::Basic);
    assert_eq!(turning.movement_state, DungeonPlayerMovementState::Rotating);
    assert_eq!(turning.facing, GridDirection::Right);
    assert!(matches!(turn, PlayerAction::Turn { .. }));
}

fn no_keys_but_left() -> MovementInput {
    let mut input = no_keys();
    input.left = true;
    input
}

#[test]
fn tick_without_a_step_asks_for_no_tile() {
    let mut player = DungeonPlayerBundle {
        grid_pos: GridPosition { row: 9, col: 9 },
        facing: GridDirection::Forward,
        movement_state: DungeonPlayerMovementState::Stationary,
        speed_multiplier: SpeedMultiplier(10),
    };
    let progress = AnimationProgress {
        duration_nanos: 1,
        elapsed_nanos: 0,
        times_completed: 0,
    };
    let lookup = DungeonTileLookup::default();
    let action = try_move_player(
        &mut player,
        &no_keys_but_left(),
        &progress,
        &lookup,
        |_tile: u64| -> TileType { panic!("no tile is in the way of a turn") },
    );
    assert!(matches!(action, PlayerAction::Turn { .. }));
    assert_eq!(player.facing, GridDirection::Left);
}

#[test]
fn forward_into_a_solid_tile_collides_in_place() {
    let mut player = setup_player(&start_at(0, 0, GridDirection::Right));
    let progress = AnimationProgress {
        duration_nanos: 1_000_000_000,
        elapsed_nanos: 0,
        times_completed: 0,
    };
    let mut input = no_keys();
    input.up = true;
    let action = step_player(&mut player, &input, &progress, TileType::Basic);
    assert_eq!(player.movement_state, DungeonPlayerMovementState::Colliding);
    assert_eq!(player.grid_pos, GridPosition { row: 0, col: 0 });
    assert_eq!(player.facing, GridDirection::Right);
    assert_eq!(
        action,
        PlayerAction::Bump {
            start: GridPosition { row: 0, col: 0 },
            toward: GridDirection::Right,
            distance_hundredths: 18,
            duration_nanos: 70_000_000,
            repeat_count: 2,
        }
    );
}
