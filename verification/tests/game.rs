use green_island::assets::{PxRect, Sprite, TileInfo};
use green_island::game::{Direction, DrawStep, FrameInput, Game, Input, InputOutcome, Sheet};
use green_island::game::{BACKGROUND_COLOR, GROUND_COLOR, SKY_COLOR, VIEW_MARGIN};
use green_island::grid::{Grid, GridError};
use green_island::info::{Buttons, GameMetrics, ScreenMetrics, Vec2i, Vec2u};
use green_island::world::{AnimalKind, Occupant, Plant, Tile, World};

fn i(x: i64, y: i64) -> Vec2i {
    Vec2i { x, y }
}

fn empty_world(size_x: usize, size_y: usize) -> World {
    World { animals: Vec::new(), grid: Grid::new_sized(size_x, size_y) }
}

fn plant(world: &mut World, x: usize, y: usize, plant: Plant) {
    world.grid.set_at(x, y, Tile { occupant: Some(Occupant::Plant(plant)) });
}

fn quiet() -> FrameInput {
    FrameInput {
        any_key_pressed: false,
        mouse: Vec2u { x: 0, y: 0 },
        f11_pressed: false,
        left_alt_down: false,
        right_alt_down: false,
        enter_pressed: false,
        up_pressed: false,
        w_pressed: false,
        down_pressed: false,
        s_pressed: false,
        left_pressed: false,
        a_pressed: false,
        right_pressed: false,
        d_pressed: false,
    }
}

fn no_input() -> Input {
    Input { down: false, left: false, right: false, up: false }
}

#[test]
fn a_game_starts_in_the_middle_looking_right() {
    let game = Game::with_world(empty_world(9, 6));
    assert_eq!(game.pos(), (4, 3));
    assert_eq!(game.facing_x(), 1);
    assert!(!game.fullscreen());
    assert!(!game.ui_hidden());
    assert_eq!(game.input(), no_input());
    assert_eq!(game.window(), Vec2u { x: 0, y: 0 });
    assert_eq!(game.screen_metrics(), ScreenMetrics::default());
    assert_eq!(game.game_metrics(), GameMetrics::new());
    assert_eq!(game.tile_info(), TileInfo::new(&GameMetrics::new()));
    assert_eq!(game.world().grid.size(), (9, 6));
    assert_eq!(Input::default(), no_input());
    assert_eq!(VIEW_MARGIN, 10);
}

#[test]
fn a_game_in_the_world_of_the_game() {
    let game = Game::new();
    assert_eq!(game.pos(), (750, 550));
    assert_eq!(game.facing_x(), 1);
    assert_eq!(game.world().grid.size(), (1500, 1100));
}

#[test]
fn steps_on_free_ground() {
    let mut game = Game::with_world(empty_world(5, 5));
    assert_eq!(game.pos(), (2, 2));
    assert_eq!(game.maybe_move_by(Direction::Right), Ok(()));
    assert_eq!((game.pos(), game.facing_x()), ((3, 2), 1));
    assert_eq!(game.maybe_move_by(Direction::Up), Ok(()));
    assert_eq!((game.pos(), game.facing_x()), ((3, 1), 1));
    assert_eq!(game.maybe_move_by(Direction::Left), Ok(()));
    assert_eq!((game.pos(), game.facing_x()), ((2, 1), -1));
    assert_eq!(game.maybe_move_by(Direction::Down), Ok(()));
    assert_eq!((game.pos(), game.facing_x()), ((2, 2), -1));
}

#[test]
fn an_occupant_blocks_the_step_and_not_the_turn() {
    let mut world = empty_world(5, 5);
    plant(&mut world, 1, 2, Plant::NopalSmall);
    assert!(world.place_animal(AnimalKind::Bob, 2, 1));
    let mut game = Game::with_world(world);
    assert_eq!(game.maybe_move_by(Direction::Left), Ok(()));
    assert_eq!((game.pos(), game.facing_x()), ((2, 2), -1));
    assert_eq!(game.maybe_move_by(Direction::Up), Ok(()));
    assert_eq!((game.pos(), game.facing_x()), ((2, 2), -1));
    assert_eq!(game.maybe_move_by(Direction::Right), Ok(()));
    assert_eq!((game.pos(), game.facing_x()), ((3, 2), 1));
}

#[test]
fn a_step_off_the_grid_is_refused() {
    let mut game = Game::with_world(empty_world(1, 1));
    assert_eq!(game.pos(), (0, 0));
    for dir in [Direction::Up, Direction::Down, Direction::Left, Direction::Right] {
        assert_eq!(game.maybe_move_by(dir), Err(GridError::IndexOutOfRange));
        assert_eq!((game.pos(), game.facing_x()), ((0, 0), 1));
    }
    let mut game = Game::with_world(empty_world(2, 2));
    assert_eq!(game.pos(), (1, 1));
    assert_eq!(game.maybe_move_by(Direction::Right), Err(GridError::IndexOutOfRange));
    assert_eq!(game.maybe_move_by(Direction::Down), Err(GridError::IndexOutOfRange));
    assert_eq!(game.maybe_move_by(Direction::Left), Ok(()));
    assert_eq!(game.maybe_move_by(Direction::Left), Err(GridError::IndexOutOfRange));
    assert_eq!((game.pos(), game.facing_x()), ((0, 1), -1));
}

#[test]
fn keys_ask_for_steps() {
    let keys: [(fn(&mut FrameInput), (usize, usize), i64); 8] = [
        (|f| f.up_pressed = true, (2, 1), 1),
        (|f| f.w_pressed = true, (2, 1), 1),
        (|f| f.down_pressed = true, (2, 3), 1),
        (|f| f.s_pressed = true, (2, 3), 1),
        (|f| f.left_pressed = true, (1, 2), -1),
        (|f| f.a_pressed = true, (1, 2), -1),
        (|f| f.right_pressed = true, (3, 2), 1),
        (|f| f.d_pressed = true, (3, 2), 1),
    ];
    for (press, pos, facing_x) in keys {
        let mut game = Game::with_world(empty_world(5, 5));
        let mut frame = quiet();
        press(&mut frame);
        assert_eq!(game.handle_input(frame), Ok(InputOutcome { set_fullscreen: None }));
        assert_eq!((game.pos(), game.facing_x()), (pos, facing_x));
        assert_eq!(game.input(), no_input());
    }
}

#[test]
fn steps_are_taken_up_down_left_right() {
    // Up leads past the plant, then left: had left come first, the plant
    // would have been in the way.
    let mut world = empty_world(5, 5);
    plant(&mut world, 1, 2, Plant::Ocotillo);
    let mut game = Game::with_world(world);
    let frame = FrameInput { up_pressed: true, a_pressed: true, ..quiet() };
    assert!(game.handle_input(frame).is_ok());
    assert_eq!((game.pos(), game.facing_x()), ((1, 1), -1));
    // Opposite steps cancel, and the last turn stays.
    let mut game = Game::with_world(empty_world(5, 5));
    let frame = FrameInput {
        up_pressed: true,
        down_pressed: true,
        left_pressed: true,
        right_pressed: true,
        ..quiet()
    };
    assert!(game.handle_input(frame).is_ok());
    assert_eq!((game.pos(), game.facing_x()), ((2, 2), 1));
    // Down is blocked, so up is not undone.
    let mut world = empty_world(5, 5);
    plant(&mut world, 2, 2, Plant::Saguaro);
    let mut game = Game::with_world(world);
    let frame = FrameInput { w_pressed: true, s_pressed: true, ..quiet() };
    assert!(game.handle_input(frame).is_ok());
    assert_eq!(game.pos(), (2, 1));
}

#[test]
fn controls_ask_for_steps_that_the_next_frame_takes() {
    let mut game = Game::with_world(empty_world(5, 5));
    game.press(Direction::Left);
    assert_eq!(game.input(), Input { left: true, ..no_input() });
    game.press(Direction::Down);
    game.press(Direction::Down);
    assert_eq!(game.input(), Input { left: true, down: true, ..no_input() });
    assert_eq!(game.pos(), (2, 2));
    assert!(game.handle_input(quiet()).is_ok());
    assert_eq!((game.pos(), game.facing_x()), ((1, 3), -1));
    assert_eq!(game.input(), no_input());
    assert!(game.handle_input(quiet()).is_ok());
    assert_eq!(game.pos(), (1, 3));
    game.press(Direction::Up);
    game.press(Direction::Right);
    assert_eq!(game.input(), Input { up: true, right: true, ..no_input() });
}

#[test]
fn a_frame_that_leads_off_the_grid_changes_nothing() {
    let mut game = Game::with_world(empty_world(1, 3));
    assert_eq!(game.pos(), (0, 1));
    game.press(Direction::Up);
    let frame = FrameInput {
        any_key_pressed: true,
        mouse: Vec2u { x: 5, y: 5 },
        f11_pressed: true,
        left_pressed: true,
        ..quiet()
    };
    assert_eq!(game.handle_input(frame), Err(GridError::IndexOutOfRange));
    assert_eq!((game.pos(), game.facing_x()), ((0, 1), 1));
    assert_eq!(game.input(), Input { up: true, ..no_input() });
    assert!(!game.fullscreen());
    assert!(!game.ui_hidden());
    // The same frame without the step to the left goes through.
    let frame = FrameInput { left_pressed: false, ..frame };
    assert_eq!(game.handle_input(frame), Ok(InputOutcome { set_fullscreen: Some(true) }));
    assert_eq!(game.pos(), (0, 0));
    assert!(game.fullscreen());
}

#[test]
fn keys_hide_the_controls_and_the_pointer_shows_them() {
    let mut game = Game::with_world(empty_world(5, 5));
    assert!(game.handle_input(quiet()).is_ok());
    assert!(!game.ui_hidden());
    assert!(game.handle_input(FrameInput { any_key_pressed: true, ..quiet() }).is_ok());
    assert!(game.ui_hidden());
    assert!(game.handle_input(quiet()).is_ok());
    assert!(game.ui_hidden());
    let moved = FrameInput { mouse: Vec2u { x: 1, y: 0 }, ..quiet() };
    assert!(game.handle_input(moved).is_ok());
    assert!(!game.ui_hidden());
    // The pointer rests where it was: a key hides the controls again.
    assert!(game.handle_input(FrameInput { any_key_pressed: true, ..moved }).is_ok());
    assert!(game.ui_hidden());
    // A key and a move of the pointer in one frame: the controls show.
    let both = FrameInput { any_key_pressed: true, mouse: Vec2u { x: 1, y: 7 }, ..quiet() };
    assert!(game.handle_input(both).is_ok());
    assert!(!game.ui_hidden());
}

#[test]
fn full_screen_is_switched_by_f11_and_by_alt_enter() {
    let mut game = Game::with_world(empty_world(5, 5));
    let f11 = FrameInput { f11_pressed: true, ..quiet() };
    assert_eq!(game.handle_input(f11), Ok(InputOutcome { set_fullscreen: Some(true) }));
    assert!(game.fullscreen());
    assert_eq!(game.handle_input(quiet()), Ok(InputOutcome { set_fullscreen: None }));
    assert!(game.fullscreen());
    let left_alt = FrameInput { left_alt_down: true, enter_pressed: true, ..quiet() };
    assert_eq!(game.handle_input(left_alt), Ok(InputOutcome { set_fullscreen: Some(false) }));
    assert!(!game.fullscreen());
    let right_alt = FrameInput { right_alt_down: true, enter_pressed: true, ..quiet() };
    assert_eq!(game.handle_input(right_alt), Ok(InputOutcome { set_fullscreen: Some(true) }));
    let enter = FrameInput { enter_pressed: true, ..quiet() };
    assert_eq!(game.handle_input(enter), Ok(InputOutcome { set_fullscreen: None }));
    let alt = FrameInput { left_alt_down: true, right_alt_down: true, ..quiet() };
    assert_eq!(game.handle_input(alt), Ok(InputOutcome { set_fullscreen: None }));
    assert!(game.fullscreen());
    // F11 together with Alt and Enter switches once.
    let all = FrameInput { f11_pressed: true, ..left_alt };
    assert_eq!(game.handle_input(all), Ok(InputOutcome { set_fullscreen: Some(false) }));
}

#[test]
fn the_layout_follows_the_window() {
    let mut game = Game::with_world(empty_world(5, 5));
    assert!(game.update_screen(Vec2u { x: 840, y: 480 }));
    assert_eq!(game.window(), Vec2u { x: 840, y: 480 });
    assert_eq!(
        game.screen_metrics(),
        ScreenMetrics::compute(&GameMetrics::new(), Vec2u { x: 840, y: 480 })
    );
    assert_eq!(game.screen_metrics().scale, i(4, 4));
    assert!(!game.update_screen(Vec2u { x: 840, y: 480 }));
    assert!(!game.update_screen(Vec2u { x: 841, y: 500 }));
    assert_eq!(game.screen_metrics().full_start, i(120, 34));
    assert!(game.update_screen(Vec2u { x: 300, y: 216 }));
    assert_eq!(game.screen_metrics().scale, i(2, 2));
    assert!(game.update_screen(Vec2u { x: 0, y: 0 }));
    assert_eq!(game.screen_metrics(), ScreenMetrics::default());
    assert!(game.update_screen(Vec2u { x: u32::MAX, y: u32::MAX }));
    assert_eq!(game.screen_metrics().scale, i(28_633_115, 28_633_115));
    assert_eq!(game.pos(), (2, 2));
}

#[test]
fn the_controls_of_the_game() {
    let mut game = Game::with_world(empty_world(5, 5));
    assert_eq!(
        game.buttons(),
        Buttons { up: i(0, 0), down: i(0, 0), left: i(0, 0), right: i(0, 0) }
    );
    game.update_screen(Vec2u { x: 840, y: 480 });
    assert_eq!(
        game.buttons(),
        Buttons { up: i(28, 20), down: i(28, 140), left: i(744, 20), right: i(744, 140) }
    );
    game.update_screen(Vec2u { x: u32::MAX, y: u32::MAX });
    assert_eq!(game.buttons().left, i(4_294_967_295 - 24 * 28_633_115, 429_496_747 + 143_165_575));
}

#[test]
fn the_backdrop_of_mountains() {
    let mut game = Game::with_world(empty_world(5, 5));
    game.update_screen(Vec2u { x: 840, y: 480 });
    assert_eq!(
        game.mountains_sprite(),
        Sprite {
            source: PxRect { x: 0, y: 9, w: 150, h: 99 },
            dest: i(120, 24),
            dest_size: i(600, 423),
        }
    );
    game.update_screen(Vec2u { x: 10, y: 10 });
    assert_eq!(game.mountains_sprite().dest, i(5, 5));
    assert_eq!(game.mountains_sprite().dest_size, i(0, -9));
}

#[test]
fn the_sprite_of_the_player() {
    let mut game = Game::with_world(empty_world(5, 5));
    game.update_screen(Vec2u { x: 840, y: 480 });
    assert_eq!(
        game.player_sprite(),
        Sprite {
            source: PxRect { x: 80, y: 81, w: 10, h: 9 },
            dest: i(400, 276),
            dest_size: i(40, 36),
        }
    );
    game.update_screen(Vec2u { x: 150, y: 108 });
    assert_eq!(game.player_sprite().dest, i(70, 63));
    assert_eq!(game.player_sprite().dest_size, i(10, 9));
}

#[test]
fn sprites_in_front_of_the_horizon() {
    let mut world = empty_world(40, 40);
    plant(&mut world, 20, 21, Plant::Saguaro);
    assert!(world.place_animal(AnimalKind::Turkey, 3, 16));
    plant(&mut world, 36, 33, Plant::NopalSmall);
    plant(&mut world, 5, 21, Plant::NopalBig);
    // Out of view: left of it, right of it, below it; and above the horizon.
    plant(&mut world, 2, 20, Plant::Ocotillo);
    plant(&mut world, 37, 20, Plant::Ocotillo);
    plant(&mut world, 20, 34, Plant::Ocotillo);
    plant(&mut world, 20, 15, Plant::Ocotillo);
    let mut game = Game::with_world(world);
    game.update_screen(Vec2u { x: 840, y: 480 });
    assert_eq!(game.pos(), (20, 20));
    let info = game.tile_info();
    assert_eq!(
        game.sprites(true),
        vec![
            Sprite {
                source: PxRect { x: 50, y: 81, w: 10, h: 9 },
                dest: i(-280, 96),
                dest_size: i(40, 36),
            },
            Sprite { source: info.nopal_big, dest: i(-240, 240), dest_size: i(120, 72) },
            Sprite { source: info.saguaro, dest: i(360, 132), dest_size: i(120, 180) },
            Sprite { source: info.nopal_small, dest: i(1040, 708), dest_size: i(40, 36) },
        ]
    );
}

#[test]
fn sprites_behind_the_horizon_are_mirrored() {
    let mut world = empty_world(40, 40);
    plant(&mut world, 20, 10, Plant::NopalSmall);
    plant(&mut world, 3, 15, Plant::NopalSmall);
    plant(&mut world, 36, 6, Plant::NopalSmall);
    // Out of view above, and in front of the horizon.
    plant(&mut world, 20, 5, Plant::Ocotillo);
    plant(&mut world, 20, 16, Plant::Ocotillo);
    let mut game = Game::with_world(world);
    game.update_screen(Vec2u { x: 840, y: 480 });
    let source = game.tile_info().nopal_small;
    assert_eq!(
        game.sprites(false),
        vec![
            // Row 6, 14 above the player, is drawn as row 24 of the grid,
            // which is row 8 of the view.
            Sprite { source, dest: i(1040, 384), dest_size: i(40, 36) },
            // Row 10 as row 20, which is row 4 of the view.
            Sprite { source, dest: i(400, 240), dest_size: i(40, 36) },
            // Row 15 as row 15, which is row -1 of the view.
            Sprite { source, dest: i(-280, 60), dest_size: i(40, 36) },
        ]
    );
}

#[test]
fn the_view_ends_where_the_grid_ends() {
    let mut world = empty_world(6, 6);
    plant(&mut world, 0, 0, Plant::NopalSmall);
    plant(&mut world, 5, 5, Plant::NopalSmall);
    assert!(world.place_animal(AnimalKind::Bead, 5, 0));
    let mut game = Game::with_world(world);
    game.update_screen(Vec2u { x: 150, y: 108 });
    assert_eq!(game.pos(), (3, 3));
    let source = game.tile_info().nopal_small;
    assert_eq!(
        game.sprites(true),
        vec![
            Sprite { source, dest: i(-100, -72), dest_size: i(10, 9) },
            Sprite {
                source: PxRect { x: 80, y: 90, w: 10, h: 9 },
                dest: i(-50, -72),
                dest_size: i(10, 9),
            },
            Sprite { source, dest: i(-50, -27), dest_size: i(10, 9) },
        ]
    );
    assert_eq!(game.sprites(false), vec![]);
}

#[test]
fn the_view_moves_with_the_player() {
    let mut world = empty_world(60, 60);
    plant(&mut world, 13, 30, Plant::NopalSmall);
    let mut game = Game::with_world(world);
    game.update_screen(Vec2u { x: 150, y: 108 });
    assert_eq!(game.pos(), (30, 30));
    // The view starts at column 13: the plant is in its first column.
    assert_eq!(game.sprites(true).len(), 1);
    assert_eq!(game.sprites(true)[0].dest, i(-100, 54));
    assert_eq!(game.maybe_move_by(Direction::Right), Ok(()));
    assert_eq!(game.sprites(true), vec![]);
    assert_eq!(game.maybe_move_by(Direction::Left), Ok(()));
    assert_eq!(game.maybe_move_by(Direction::Left), Ok(()));
    assert_eq!(game.sprites(true)[0].dest, i(-90, 54));
    assert_eq!(game.maybe_move_by(Direction::Up), Ok(()));
    assert_eq!(game.sprites(true)[0].dest, i(-90, 63));
}

#[test]
fn the_steps_of_a_frame() {
    let mut world = empty_world(40, 40);
    plant(&mut world, 20, 21, Plant::Saguaro);
    assert!(world.place_animal(AnimalKind::Turkey, 3, 16));
    plant(&mut world, 20, 10, Plant::NopalSmall);
    plant(&mut world, 19, 20, Plant::NopalBig);
    let mut game = Game::with_world(world);
    game.update_screen(Vec2u { x: 840, y: 480 });
    assert_eq!(game.maybe_move_by(Direction::Left), Ok(()));
    assert_eq!((game.pos(), game.facing_x()), ((20, 20), -1));
    let info = game.tile_info();
    let tile = |sprite| DrawStep::Draw { sheet: Sheet::Tiles, sprite, flip_x: false };
    assert_eq!(
        game.frame(),
        vec![
            DrawStep::Clear { color: 0x000000 },
            DrawStep::Clip { start: i(120, 24), size: i(600, 432) },
            DrawStep::Fill { start: i(120, 24), size: i(600, 108), color: 0xA5C7ED },
            DrawStep::Draw {
                sheet: Sheet::Mountains,
                sprite: Sprite {
                    source: PxRect { x: 0, y: 9, w: 150, h: 99 },
                    dest: i(120, 24),
                    dest_size: i(600, 423),
                },
                flip_x: false,
            },
            // Behind the horizon.
            tile(Sprite { source: info.nopal_small, dest: i(400, 240), dest_size: i(40, 36) }),
            DrawStep::Fill { start: i(120, 132), size: i(600, 324), color: 0xC5AD95 },
            DrawStep::Draw {
                sheet: Sheet::Tiles,
                sprite: Sprite {
                    source: PxRect { x: 80, y: 81, w: 10, h: 9 },
                    dest: i(400, 276),
                    dest_size: i(40, 36),
                },
                flip_x: true,
            },
            // In front of the horizon, row by row.
            tile(Sprite {
                source: PxRect { x: 50, y: 81, w: 10, h: 9 },
                dest: i(-280, 96),
                dest_size: i(40, 36),
            }),
            tile(Sprite { source: info.nopal_big, dest: i(320, 204), dest_size: i(120, 72) }),
            tile(Sprite { source: info.saguaro, dest: i(360, 132), dest_size: i(120, 180) }),
            DrawStep::Unclip,
        ]
    );
    assert_eq!((BACKGROUND_COLOR, SKY_COLOR, GROUND_COLOR), (0x000000, 0xA5C7ED, 0xC5AD95));
}

#[test]
fn a_frame_of_an_empty_view() {
    let mut game = Game::with_world(empty_world(3, 3));
    game.update_screen(Vec2u { x: 150, y: 108 });
    let frame = game.frame();
    assert_eq!(frame.len(), 7);
    assert_eq!(frame[0], DrawStep::Clear { color: BACKGROUND_COLOR });
    assert_eq!(frame[1], DrawStep::Clip { start: i(0, 0), size: i(150, 108) });
    assert_eq!(frame[2], DrawStep::Fill { start: i(0, 0), size: i(150, 27), color: SKY_COLOR });
    assert_eq!(
        frame[3],
        DrawStep::Draw { sheet: Sheet::Mountains, sprite: game.mountains_sprite(), flip_x: false }
    );
    assert_eq!(frame[4], DrawStep::Fill { start: i(0, 27), size: i(150, 81), color: GROUND_COLOR });
    assert_eq!(
        frame[5],
        DrawStep::Draw { sheet: Sheet::Tiles, sprite: game.player_sprite(), flip_x: false }
    );
    assert_eq!(frame[6], DrawStep::Unclip);
}

#[test]
fn a_frame_holds_both_passes_around_the_ground() {
    let mut world = World::with_plants(60, 60);
    world.place_animals(200, u64::MAX);
    let mut game = Game::with_world(world);
    game.update_screen(Vec2u { x: 1000, y: 700 });
    let behind = game.sprites(false);
    let front = game.sprites(true);
    assert!(!behind.is_empty() && !front.is_empty());
    let frame = game.frame();
    assert_eq!(frame.len(), 4 + behind.len() + 2 + front.len() + 1);
    for (k, sprite) in behind.iter().enumerate() {
        assert_eq!(
            frame[4 + k],
            DrawStep::Draw { sheet: Sheet::Tiles, sprite: *sprite, flip_x: false }
        );
    }
    let ground = 4 + behind.len();
    assert!(matches!(frame[ground], DrawStep::Fill { color: GROUND_COLOR, .. }));
    for (k, sprite) in front.iter().enumerate() {
        assert_eq!(
            frame[ground + 2 + k],
            DrawStep::Draw { sheet: Sheet::Tiles, sprite: *sprite, flip_x: false }
        );
    }
}
