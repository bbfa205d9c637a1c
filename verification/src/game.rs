//! The state of a running game and the rules that change it: where the
//! player stands and looks, what the controls ask for, and what of the
//! world is in view.

use crate::assets::{anchor, cells_rect, place_sprite, placeable, plant_cells, sprite_of};
use crate::assets::{PxRect, Sprite, TileInfo};
use crate::grid::GridError;
use crate::info::{scale_for, Buttons, GameMetrics, ScreenMetrics, Vec2i, Vec2u, ICON_SIZE_PX};
use crate::world::{Animal, AnimalKind, Occupant, Plant, Tile, World};
use vstd::prelude::*;

verus! {

/// How many tiles beyond the edge of the playfield are drawn, so that a
/// sprite larger than a tile does not pop in at the edge.
pub const VIEW_MARGIN: usize = 10;

/// The colour behind everything, as `0xRRGGBB`.
pub const BACKGROUND_COLOR: u32 = 0x000000;

/// The colour of the sky band, as `0xRRGGBB`.
pub const SKY_COLOR: u32 = 0xA5C7ED;

/// The colour of the ground band, as `0xRRGGBB`.
pub const GROUND_COLOR: u32 = 0xC5AD95;

/// The four directions in which the player can step.
#[derive(Copy, Clone, Debug, PartialEq, Eq, Structural)]
pub enum Direction {
    Up,
    Down,
    Left,
    Right,
}

impl Direction {
    /// The change of the column that one step makes.
    pub open spec fn dx(self) -> int {
        match self {
            Direction::Left => -1,
            Direction::Right => 1,
            _ => 0,
        }
    }

    /// The change of the row that one step makes. Rows count downwards.
    pub open spec fn dy(self) -> int {
        match self {
            Direction::Up => -1,
            Direction::Down => 1,
            _ => 0,
        }
    }
}

/// The steps that are asked for and not yet taken.
#[derive(Copy, Clone, Debug, PartialEq, Eq, Structural)]
pub struct Input {
    pub down: bool,
    pub left: bool,
    pub right: bool,
    pub up: bool,
}

impl Input {
    /// These steps and one more in direction `dir`.
    pub open spec fn with(self, dir: Direction) -> Input {
        match dir {
            Direction::Up => Input { up: true, ..self },
            Direction::Down => Input { down: true, ..self },
            Direction::Left => Input { left: true, ..self },
            Direction::Right => Input { right: true, ..self },
        }
    }

    /// No step asked for.
    pub open spec fn none() -> Input {
        Input { down: false, left: false, right: false, up: false }
    }
}

impl Default for Input {
    /// No step asked for.
    fn default() -> (input: Input)
        ensures
            input == Input::none(),
    {
        Input { down: false, left: false, right: false, up: false }
    }
}

/// What the keyboard and the pointer report in one frame. Keys named
/// `_pressed` went down in this frame; those named `_down` are held. The
/// pointer position is compared with that of the frame before and not
/// otherwise read.
#[derive(Copy, Clone, Debug, PartialEq, Eq, Structural)]
pub struct FrameInput {
    pub any_key_pressed: bool,
    pub mouse: Vec2u,
    pub f11_pressed: bool,
    pub left_alt_down: bool,
    pub right_alt_down: bool,
    pub enter_pressed: bool,
    pub up_pressed: bool,
    pub w_pressed: bool,
    pub down_pressed: bool,
    pub s_pressed: bool,
    pub left_pressed: bool,
    pub a_pressed: bool,
    pub right_pressed: bool,
    pub d_pressed: bool,
}

impl FrameInput {
    /// Whether the frame asks to switch between window and full screen:
    /// F11, or Enter while an Alt key is held.
    pub open spec fn toggles_fullscreen(self) -> bool {
        self.f11_pressed || ((self.left_alt_down || self.right_alt_down) && self.enter_pressed)
    }

    /// The steps that the frame asks for, added to those in `input`: the
    /// arrow keys and W, S, A, D.
    pub open spec fn steps(self, input: Input) -> Input {
        Input {
            up: input.up || self.up_pressed || self.w_pressed,
            down: input.down || self.down_pressed || self.s_pressed,
            left: input.left || self.left_pressed || self.a_pressed,
            right: input.right || self.right_pressed || self.d_pressed,
        }
    }
}

/// What the caller has to do after a frame's input was handled.
#[derive(Copy, Clone, Debug, PartialEq, Eq, Structural)]
pub struct InputOutcome {
    /// `Some(on)` where the window is to enter (`true`) or leave full
    /// screen.
    pub set_fullscreen: Option<bool>,
}

/// Where the player stands and looks after trying one step in direction
/// `dir` from cell `pos`, as `(cell, facing)`, or `None` where the step
/// leads off the grid. A step to the left or right turns the player that
/// way; the player moves if the cell stepped on is free.
pub open spec fn step_of(world: World, pos: (int, int), facing_x: int, dir: Direction) -> Option<
    ((int, int), int),
> {
    let next = (pos.0 + dir.dx(), pos.1 + dir.dy());
    if !world.grid.in_bounds(next.0, next.1) {
        None
    } else {
        Some(
            (
                if world.free(next.0, next.1) {
                    next
                } else {
                    pos
                },
                if dir.dx() != 0 {
                    dir.dx()
                } else {
                    facing_x
                },
            ),
        )
    }
}

/// Where the player stands and looks after a step in direction `dir` if
/// the step is `wanted`, and as before if it is not.
pub open spec fn step_if(
    world: World,
    stance: ((int, int), int),
    wanted: bool,
    dir: Direction,
) -> Option<((int, int), int)> {
    if wanted {
        step_of(world, stance.0, stance.1, dir)
    } else {
        Some(stance)
    }
}

/// Where the player stands and looks after the steps in `steps`, taken in
/// the order up, down, left, right, or `None` where one of them leads off
/// the grid.
pub open spec fn steps_of(world: World, stance: ((int, int), int), steps: Input) -> Option<
    ((int, int), int),
> {
    match step_if(world, stance, steps.up, Direction::Up) {
        None => None,
        Some(a) => match step_if(world, a, steps.down, Direction::Down) {
            None => None,
            Some(b) => match step_if(world, b, steps.left, Direction::Left) {
                None => None,
                Some(c) => step_if(world, c, steps.right, Direction::Right),
            },
        },
    }
}

/// The image that a sprite is taken from.
#[derive(Copy, Clone, Debug, PartialEq, Eq, Structural)]
pub enum Sheet {
    /// The backdrop of mountains.
    Mountains,
    /// The sprite sheet of plants and animals.
    Tiles,
}

/// One step of drawing a frame, for the caller to perform.
#[derive(Copy, Clone, Debug, PartialEq, Eq, Structural)]
pub enum DrawStep {
    /// Fill the whole window with one colour.
    Clear { color: u32 },
    /// From now on, draw inside this rectangle only.
    Clip { start: Vec2i, size: Vec2i },
    /// Fill a rectangle with one colour.
    Fill { start: Vec2i, size: Vec2i, color: u32 },
    /// Draw a sprite, mirrored left to right where `flip_x`.
    Draw { sheet: Sheet, sprite: Sprite, flip_x: bool },
    /// From now on, draw anywhere in the window.
    Unclip,
}

/// The step that draws a sprite of the sprite sheet as it is.
pub open spec fn tile_step(sprite: Sprite) -> DrawStep {
    DrawStep::Draw { sheet: Sheet::Tiles, sprite, flip_x: false }
}

/// The steps that draw the given sprites of the sprite sheet, in order.
pub open spec fn tile_steps(sprites: Seq<Sprite>) -> Seq<DrawStep> {
    Seq::new(sprites.len(), |i: int| tile_step(sprites[i]))
}

/// The game as a value: what `Game` holds, for use in contracts.
pub struct GameView {
    pub input: Input,
    pub fullscreen: bool,
    pub facing_x: int,
    pub game_metrics: GameMetrics,
    pub tile_info: TileInfo,
    pub mouse: Vec2u,
    pub pos: (int, int),
    pub window: Vec2u,
    pub screen_metrics: ScreenMetrics,
    pub ui_hidden: bool,
    pub world: World,
}

impl GameView {
    /// The game after the player tried one step in direction `dir`, or
    /// `None` where the step leads off the grid.
    pub open spec fn moved(self, dir: Direction) -> Option<GameView> {
        match step_of(self.world, self.pos, self.facing_x, dir) {
            None => None,
            Some((pos, facing_x)) => Some(GameView { pos, facing_x, ..self }),
        }
    }

    /// The game after the steps in `steps`, taken in the order up, down,
    /// left, right, or `None` where one of them leads off the grid.
    pub open spec fn stepped(self, steps: Input) -> Option<GameView> {
        match steps_of(self.world, (self.pos, self.facing_x), steps) {
            None => None,
            Some((pos, facing_x)) => Some(GameView { pos, facing_x, ..self }),
        }
    }

    /// The game after one frame's input, or `None` where a step leads off
    /// the grid. A key press hides the controls and a move of the pointer
    /// shows them again; full screen is switched where the frame asks for
    /// it; the steps asked for by keys and controls are taken and then
    /// forgotten.
    pub open spec fn after_input(self, frame: FrameInput) -> Option<GameView> {
        let shown = GameView {
            ui_hidden: if frame.mouse != self.mouse {
                false
            } else {
                self.ui_hidden || frame.any_key_pressed
            },
            mouse: frame.mouse,
            fullscreen: if frame.toggles_fullscreen() {
                !self.fullscreen
            } else {
                self.fullscreen
            },
            ..self
        };
        match shown.stepped(frame.steps(self.input)) {
            None => None,
            Some(after) => Some(GameView { input: Input::none(), ..after }),
        }
    }

    /// What the caller has to do after this frame's input.
    pub open spec fn outcome(self, frame: FrameInput) -> InputOutcome {
        InputOutcome {
            set_fullscreen: if frame.toggles_fullscreen() {
                Some(!self.fullscreen)
            } else {
                None
            },
        }
    }
}

impl GameView {
    /// How far the view reaches from the player along each axis, in tiles:
    /// to the centre of the ground band and the margin beyond.
    pub open spec fn extent(self) -> (int, int) {
        (
            self.game_metrics.ground_center.x + VIEW_MARGIN as int,
            self.game_metrics.ground_center.y + VIEW_MARGIN as int,
        )
    }

    /// The first column and row in view: the player's cell less the
    /// extent, kept on the grid.
    pub open spec fn view_start(self) -> (int, int) {
        (
            if self.pos.0 >= self.extent().0 {
                self.pos.0 - self.extent().0
            } else {
                0
            },
            if self.pos.1 >= self.extent().1 {
                self.pos.1 - self.extent().1
            } else {
                0
            },
        )
    }

    /// The column and row after the last in view: the player's cell plus
    /// the extent, kept on the grid.
    pub open spec fn view_end(self) -> (int, int) {
        (
            if self.pos.0 + self.extent().0 <= self.world.grid.spec_size_x() {
                self.pos.0 + self.extent().0
            } else {
                self.world.grid.spec_size_x() as int
            },
            if self.pos.1 + self.extent().1 <= self.world.grid.spec_size_y() {
                self.pos.1 + self.extent().1
            } else {
                self.world.grid.spec_size_y() as int
            },
        )
    }

    /// Whether row `y` belongs to the pass: the rows from the top of the
    /// ground band on are drawn in front, those above it behind the
    /// horizon.
    pub open spec fn row_drawn(self, front: bool, y: int) -> bool {
        front == (y >= self.pos.1 - self.game_metrics.ground_center.y)
    }

    /// The tile of the view on which cell `(x, y)` is drawn. In front, a
    /// cell is drawn where it lies; behind the horizon, rows are mirrored
    /// at the player's row.
    pub open spec fn view_pos(self, front: bool, x: int, y: int) -> Vec2i {
        let draw_y = if front {
            y
        } else {
            self.pos.1 - (y - self.pos.1) - VIEW_MARGIN as int
        };
        Vec2i {
            x: (x - self.view_start().0 - VIEW_MARGIN as int) as i64,
            y: (draw_y - self.view_start().1 - VIEW_MARGIN as int) as i64,
        }
    }

    /// Whether cell `(x, y)` is drawn in the pass: it lies in view and its
    /// row belongs to the pass.
    pub open spec fn in_view(self, front: bool, x: int, y: int) -> bool {
        &&& self.view_start().0 <= x < self.view_end().0
        &&& self.view_start().1 <= y < self.view_end().1
        &&& self.row_drawn(front, y)
    }

    /// The sprite for cell `(x, y)`, or `None` where nothing stands on it.
    pub open spec fn sprite_at(self, front: bool, x: int, y: int) -> Option<Sprite> {
        match self.tile_info.spec_source(
            self.game_metrics,
            self.world.grid@[(x, y)],
            self.world.animals@,
        ) {
            None => None,
            Some(source) => Some(
                sprite_of(
                    self.screen_metrics,
                    self.game_metrics,
                    source,
                    self.view_pos(front, x, y),
                ),
            ),
        }
    }

    /// The sprites of row `y` from the first column in view up to, and
    /// without, column `x_end`, from left to right.
    pub open spec fn row_upto(self, front: bool, y: int, x_end: int) -> Seq<Sprite>
        decreases x_end - self.view_start().0,
    {
        if x_end <= self.view_start().0 {
            Seq::empty()
        } else {
            let before = self.row_upto(front, y, x_end - 1);
            match self.sprite_at(front, x_end - 1, y) {
                None => before,
                Some(sprite) => before.push(sprite),
            }
        }
    }

    /// The sprites of row `y` in the pass: those of its columns in view,
    /// or none where the row does not belong to the pass.
    pub open spec fn row(self, front: bool, y: int) -> Seq<Sprite> {
        if self.row_drawn(front, y) {
            self.row_upto(front, y, self.view_end().0)
        } else {
            Seq::empty()
        }
    }

    /// The sprites of the rows from the first in view up to, and without,
    /// row `y_end`, from top to bottom.
    pub open spec fn rows_upto(self, front: bool, y_end: int) -> Seq<Sprite>
        decreases y_end - self.view_start().1,
    {
        if y_end <= self.view_start().1 {
            Seq::empty()
        } else {
            self.rows_upto(front, y_end - 1) + self.row(front, y_end - 1)
        }
    }

    /// The sprites of one pass over the view, in drawing order: row by
    /// row from the top, each row from the left.
    pub open spec fn sprites(self, front: bool) -> Seq<Sprite> {
        self.rows_upto(front, self.view_end().1)
    }

    /// The backdrop of mountains: the design without its top row of
    /// tiles, drawn from the top of the playfield over all of it but one
    /// design tile of height.
    pub open spec fn mountains_sprite(self) -> Sprite {
        Sprite {
            source: PxRect {
                x: 0,
                y: self.game_metrics.tile_size_px.y as i64,
                w: self.game_metrics.full_size_px.x as i64,
                h: (self.game_metrics.full_size_px.y - self.game_metrics.tile_size_px.y) as i64,
            },
            dest: self.screen_metrics.full_start,
            dest_size: Vec2i {
                x: self.screen_metrics.full_size.x,
                y: (self.screen_metrics.full_size.y - self.game_metrics.tile_size_px.y) as i64,
            },
        }
    }

    /// The sprite of the player: the runner, one tile large, on the tile
    /// of the view where the player always stands.
    pub open spec fn player_sprite(self) -> Sprite {
        let origin = self.screen_metrics.tile_origin(Vec2i { x: 7, y: 5 });
        Sprite {
            source: PxRect {
                x: self.tile_info.animal(AnimalKind::Runner).x,
                y: self.tile_info.animal(AnimalKind::Runner).y,
                w: self.game_metrics.tile_size_px.x as i64,
                h: self.game_metrics.tile_size_px.y as i64,
            },
            dest: Vec2i { x: origin.0 as i64, y: origin.1 as i64 },
            dest_size: self.screen_metrics.tile_size,
        }
    }
}

impl GameView {
    /// What is drawn before anything of the world: the window is cleared,
    /// drawing is kept to the playfield, and the sky and the mountains
    /// are drawn.
    pub open spec fn backdrop_steps(self) -> Seq<DrawStep> {
        seq![
            DrawStep::Clear { color: BACKGROUND_COLOR },
            DrawStep::Clip {
                start: self.screen_metrics.full_start,
                size: self.screen_metrics.full_size,
            },
            DrawStep::Fill {
                start: self.screen_metrics.sky_start,
                size: self.screen_metrics.sky_size,
                color: SKY_COLOR,
            },
            DrawStep::Draw {
                sheet: Sheet::Mountains,
                sprite: self.mountains_sprite(),
                flip_x: false,
            },
        ]
    }

    /// What is drawn between the two passes over the world: the ground,
    /// which covers what stands behind the horizon, and on it the player,
    /// mirrored when looking left.
    pub open spec fn ground_steps(self) -> Seq<DrawStep> {
        seq![
            DrawStep::Fill {
                start: self.screen_metrics.ground_start,
                size: self.screen_metrics.ground_size,
                color: GROUND_COLOR,
            },
            DrawStep::Draw {
                sheet: Sheet::Tiles,
                sprite: self.player_sprite(),
                flip_x: self.facing_x < 0,
            },
        ]
    }

    /// The steps that draw one frame, in order: the backdrop, what stands
    /// behind the horizon, the ground and the player, what stands in front
    /// of the horizon, and the end of the clipping.
    pub open spec fn frame(self) -> Seq<DrawStep> {
        self.backdrop_steps() + tile_steps(self.sprites(false)) + self.ground_steps()
            + tile_steps(self.sprites(true)) + seq![DrawStep::Unclip]
    }
}

/// Where the player stands and looks.
#[derive(Copy, Clone)]
struct Stance {
    x: usize,
    y: usize,
    facing_x: i64,
}

/// The layout of the playfield together with the window it was made for.
#[derive(Copy, Clone)]
struct Layout {
    window: Vec2u,
    screen: ScreenMetrics,
}

/// What the controls have done so far: the steps asked for, the player's
/// stance, and how the game shows.
#[derive(Copy, Clone)]
struct Controls {
    input: Input,
    fullscreen: bool,
    mouse: Vec2u,
    stance: Stance,
    ui_hidden: bool,
}

/// A running game.
pub struct Game {
    controls: Controls,
    game_metrics: GameMetrics,
    tile_info: TileInfo,
    layout: Layout,
    world: World,
}

impl View for Game {
    type V = GameView;

    closed spec fn view(&self) -> GameView {
        GameView {
            input: self.controls.input,
            fullscreen: self.controls.fullscreen,
            facing_x: self.controls.stance.facing_x as int,
            game_metrics: self.game_metrics,
            tile_info: self.tile_info,
            mouse: self.controls.mouse,
            pos: (self.controls.stance.x as int, self.controls.stance.y as int),
            window: self.layout.window,
            screen_metrics: self.layout.screen,
            ui_hidden: self.controls.ui_hidden,
            world: self.world,
        }
    }
}

impl GameView {
    /// What holds of every game: the world is consistent and the player
    /// stands on one of its cells, looking left or right; the metrics are
    /// those of the design, with their sprite sheet; and the layout is
    /// that of the window.
    pub open spec fn wf(self) -> bool {
        &&& self.world.wf()
        &&& self.world.grid.in_bounds(self.pos.0, self.pos.1)
        &&& (self.facing_x == 1 || self.facing_x == -1)
        &&& self.game_metrics == GameMetrics::design()
        &&& self.tile_info.is_sheet_of(self.game_metrics)
        &&& self.screen_metrics.is_layout(self.game_metrics, self.window)
    }
}

impl Game {
    /// Every game is well formed.
    #[verifier::type_invariant]
    spec fn inv(&self) -> bool {
        self@.wf()
    }

    /// A game in the given world: the player stands in the middle of the
    /// grid and looks right, no step is asked for, the controls show, and
    /// no window is known yet.
    pub fn with_world(world: World) -> (game: Game)
        requires
            world.wf(),
            world.grid.spec_size_x() > 0,
            world.grid.spec_size_y() > 0,
        ensures
            game@.wf(),
            game@.world == world,
            game@.pos == (world.grid.spec_size_x() as int / 2, world.grid.spec_size_y() as int / 2),
            game@.facing_x == 1,
            game@.input == Input::none(),
            !game@.fullscreen,
            !game@.ui_hidden,
            game@.mouse == (Vec2u { x: 0, y: 0 }),
            game@.window == (Vec2u { x: 0, y: 0 }),
    {
        let game_metrics = GameMetrics::new();
        let tile_info = TileInfo::new(&game_metrics);
        let window = Vec2u { x: 0, y: 0 };
        let screen = ScreenMetrics::default();
        let x: usize = world.grid.size_x() / 2;
        let y: usize = world.grid.size_y() / 2;
        Game {
            controls: Controls {
                input: Input::default(),
                fullscreen: false,
                mouse: Vec2u { x: 0, y: 0 },
                stance: Stance { x, y, facing_x: 1 },
                ui_hidden: false,
            },
            game_metrics,
            tile_info,
            layout: Layout { window, screen },
            world,
        }
    }

    /// A game in a new random world, as `World::new` makes it: 1500 by
    /// 1100 tiles with 10,000 animals, or with an animal on every cell
    /// that the plants left free.
    pub fn new() -> (game: Game)
        ensures
            game@.wf(),
            game@.world.grid.spec_size_x() == 1500,
            game@.world.grid.spec_size_y() == 1100,
            game@.world.animals@.len() <= 10_000,
            game@.world.animals@.len() == 10_000 || forall|p: (int, int)|
                !game@.world.free(p.0, p.1),
            game@.pos == (750int, 550int),
            game@.facing_x == 1,
            game@.input == Input::none(),
            !game@.fullscreen,
            !game@.ui_hidden,
            game@.mouse == (Vec2u { x: 0, y: 0 }),
            game@.window == (Vec2u { x: 0, y: 0 }),
    {
        Game::with_world(World::new())
    }

    /// The cell on which the player stands.
    pub fn pos(&self) -> (pos: (usize, usize))
        ensures
            (pos.0 as int, pos.1 as int) == self@.pos,
            self@.world.grid.in_bounds(pos.0 as int, pos.1 as int),
    {
        proof {
            use_type_invariant(self);
        }
        (self.controls.stance.x, self.controls.stance.y)
    }

    /// The way the player looks: -1 for left, 1 for right.
    pub fn facing_x(&self) -> (facing_x: i64)
        ensures
            facing_x == self@.facing_x,
            facing_x == 1 || facing_x == -1,
    {
        proof {
            use_type_invariant(self);
        }
        self.controls.stance.facing_x
    }

    /// Whether the game shows in full screen.
    pub fn fullscreen(&self) -> (fullscreen: bool)
        ensures
            fullscreen == self@.fullscreen,
    {
        self.controls.fullscreen
    }

    /// Whether the controls are hidden.
    pub fn ui_hidden(&self) -> (ui_hidden: bool)
        ensures
            ui_hidden == self@.ui_hidden,
    {
        self.controls.ui_hidden
    }

    /// The steps that are asked for and not yet taken.
    pub fn input(&self) -> (input: Input)
        ensures
            input == self@.input,
    {
        self.controls.input
    }

    /// The design metrics of the game.
    pub fn game_metrics(&self) -> (metrics: GameMetrics)
        ensures
            metrics == self@.game_metrics,
            metrics == GameMetrics::design(),
    {
        proof {
            use_type_invariant(self);
        }
        self.game_metrics
    }

    /// The sprite sheet of the game.
    pub fn tile_info(&self) -> (info: TileInfo)
        ensures
            info == self@.tile_info,
            info.is_sheet_of(GameMetrics::design()),
    {
        proof {
            use_type_invariant(self);
        }
        self.tile_info
    }

    /// The size of the window for which the layout was made.
    pub fn window(&self) -> (window: Vec2u)
        ensures
            window == self@.window,
    {
        self.layout.window
    }

    /// The layout of the playfield in the window.
    pub fn screen_metrics(&self) -> (screen: ScreenMetrics)
        ensures
            screen == self@.screen_metrics,
            screen.is_layout(GameMetrics::design(), self@.window),
    {
        proof {
            use_type_invariant(self);
        }
        self.layout.screen
    }

    /// The world of the game.
    pub fn world(&self) -> (world: &World)
        ensures
            *world == self@.world,
            world.wf(),
    {
        proof {
            use_type_invariant(self);
        }
        &self.world
    }

    /// Asks for one step in direction `dir`, as a control does when it is
    /// clicked. The step is taken when the frame's input is handled.
    pub fn press(&mut self, dir: Direction)
        ensures
            final(self)@.wf(),
            final(self)@ == (GameView { input: old(self)@.input.with(dir), ..old(self)@ }),
    {
        proof {
            use_type_invariant(&*self);
        }
        let input = self.controls.input;
        let asked = match dir {
            Direction::Up => Input { up: true, ..input },
            Direction::Down => Input { down: true, ..input },
            Direction::Left => Input { left: true, ..input },
            Direction::Right => Input { right: true, ..input },
        };
        self.controls = Controls { input: asked, ..self.controls };
    }

    /// Lets the player try one step in direction `dir`. A step that leads
    /// off the grid is refused with `IndexOutOfRange` and changes nothing.
    pub fn maybe_move_by(&mut self, dir: Direction) -> (result: Result<(), GridError>)
        ensures
            final(self)@.wf(),
            match result {
                Ok(()) => Some(final(self)@) == old(self)@.moved(dir),
                Err(e) => e == GridError::IndexOutOfRange && old(self)@.moved(dir) is None
                    && final(self)@ == old(self)@,
            },
    {
        proof {
            use_type_invariant(&*self);
        }
        match take_step(&self.world, self.controls.stance, dir) {
            Ok(stance) => {
                self.controls = Controls { stance, ..self.controls };
                Ok(())
            },
            Err(e) => Err(e),
        }
    }

    /// Handles the input of one frame and says what the caller has to do
    /// for it. Where a step leads off the grid the frame is refused with
    /// `IndexOutOfRange` and changes nothing.
    pub fn handle_input(&mut self, frame: FrameInput) -> (result: Result<InputOutcome, GridError>)
        ensures
            final(self)@.wf(),
            match result {
                Ok(outcome) => Some(final(self)@) == old(self)@.after_input(frame) && outcome
                    == old(self)@.outcome(frame),
                Err(e) => e == GridError::IndexOutOfRange && old(self)@.after_input(frame) is None
                    && final(self)@ == old(self)@,
            },
    {
        proof {
            use_type_invariant(&*self);
        }
        let before = self.controls;
        let steps = Input {
            up: before.input.up || frame.up_pressed || frame.w_pressed,
            down: before.input.down || frame.down_pressed || frame.s_pressed,
            left: before.input.left || frame.left_pressed || frame.a_pressed,
            right: before.input.right || frame.right_pressed || frame.d_pressed,
        };
        let stance = match take_steps(&self.world, before.stance, steps) {
            Ok(stance) => stance,
            Err(e) => {
                return Err(e);
            },
        };
        let toggle = frame.f11_pressed || ((frame.left_alt_down || frame.right_alt_down)
            && frame.enter_pressed);
        let moved = frame.mouse.x != before.mouse.x || frame.mouse.y != before.mouse.y;
        let fullscreen = if toggle {
            !before.fullscreen
        } else {
            before.fullscreen
        };
        self.controls = Controls {
            input: Input::default(),
            fullscreen,
            mouse: frame.mouse,
            stance,
            ui_hidden: if moved {
                false
            } else {
                before.ui_hidden || frame.any_key_pressed
            },
        };
        Ok(
            InputOutcome {
                set_fullscreen: if toggle {
                    Some(fullscreen)
                } else {
                    None
                },
            },
        )
    }

    /// Lays the playfield out for a window of the given size, and says
    /// whether the scale changed by it.
    pub fn update_screen(&mut self, window: Vec2u) -> (scale_changed: bool)
        ensures
            final(self)@.wf(),
            final(self)@ == (GameView {
                window,
                screen_metrics: final(self)@.screen_metrics,
                ..old(self)@
            }),
            final(self)@.screen_metrics.is_layout(GameMetrics::design(), window),
            scale_changed == (final(self)@.screen_metrics.scale != old(self)@.screen_metrics.scale),
    {
        proof {
            use_type_invariant(&*self);
            lemma_design_scale(window);
        }
        let screen = ScreenMetrics::compute(&self.game_metrics, window);
        let before = self.layout.screen.scale;
        self.layout = Layout { window, screen };
        before.x != screen.scale.x || before.y != screen.scale.y
    }

    /// Where the direction controls stand in the window.
    pub fn buttons(&self) -> (buttons: Buttons)
        ensures
            buttons.up.x == self@.screen_metrics.button_spots(self@.window.x).0,
            buttons.down.x == self@.screen_metrics.button_spots(self@.window.x).0,
            buttons.left.x == self@.screen_metrics.button_spots(self@.window.x).1,
            buttons.right.x == self@.screen_metrics.button_spots(self@.window.x).1,
            buttons.up.y == self@.screen_metrics.button_spots(self@.window.x).2,
            buttons.left.y == self@.screen_metrics.button_spots(self@.window.x).2,
            buttons.down.y == self@.screen_metrics.button_spots(self@.window.x).3,
            buttons.right.y == self@.screen_metrics.button_spots(self@.window.x).3,
    {
        proof {
            use_type_invariant(self);
            lemma_design_layout(self.layout.screen, self.layout.window);
        }
        self.layout.screen.buttons(self.layout.window.x)
    }

    /// The backdrop of mountains.
    pub fn mountains_sprite(&self) -> (sprite: Sprite)
        ensures
            sprite == self@.mountains_sprite(),
    {
        proof {
            use_type_invariant(self);
            lemma_design_scale(self.layout.window);
        }
        let tile_y: i64 = self.game_metrics.tile_size_px.y as i64;
        let screen = self.layout.screen;
        Sprite {
            source: PxRect {
                x: 0,
                y: tile_y,
                w: self.game_metrics.full_size_px.x as i64,
                h: self.game_metrics.full_size_px.y as i64 - tile_y,
            },
            dest: screen.full_start,
            dest_size: Vec2i { x: screen.full_size.x, y: screen.full_size.y - tile_y },
        }
    }

    /// The sprite of the player.
    pub fn player_sprite(&self) -> (sprite: Sprite)
        ensures
            sprite == self@.player_sprite(),
    {
        proof {
            use_type_invariant(self);
            lemma_design_layout(self.layout.screen, self.layout.window);
        }
        let at = Vec2i { x: 7, y: 5 };
        let screen = self.layout.screen;
        proof {
            assert((at.y - 1) * screen.tile_size.y == 4 * screen.tile_size.y);
            assert(at.x * screen.tile_size.x == 7 * screen.tile_size.x);
        }
        let origin = screen.tile(at);
        Sprite {
            source: PxRect {
                x: self.tile_info.runner.x,
                y: self.tile_info.runner.y,
                w: self.game_metrics.tile_size_px.x as i64,
                h: self.game_metrics.tile_size_px.y as i64,
            },
            dest: origin,
            dest_size: screen.tile_size,
        }
    }

    /// The steps that draw one frame, in the order in which the caller
    /// has to perform them.
    pub fn frame(&self) -> (steps: Vec<DrawStep>)
        ensures
            steps@ == self@.frame(),
    {
        let screen = self.layout.screen;
        let mut steps: Vec<DrawStep> = Vec::new();
        steps.push(DrawStep::Clear { color: BACKGROUND_COLOR });
        steps.push(DrawStep::Clip { start: screen.full_start, size: screen.full_size });
        steps.push(
            DrawStep::Fill { start: screen.sky_start, size: screen.sky_size, color: SKY_COLOR },
        );
        steps.push(
            DrawStep::Draw {
                sheet: Sheet::Mountains,
                sprite: self.mountains_sprite(),
                flip_x: false,
            },
        );
        assert(steps@ =~= self@.backdrop_steps());
        let behind = self.sprites(false);
        push_tile_steps(&mut steps, &behind);
        let ghost far = steps@;
        steps.push(
            DrawStep::Fill {
                start: screen.ground_start,
                size: screen.ground_size,
                color: GROUND_COLOR,
            },
        );
        steps.push(
            DrawStep::Draw {
                sheet: Sheet::Tiles,
                sprite: self.player_sprite(),
                flip_x: self.controls.stance.facing_x < 0,
            },
        );
        assert(steps@ =~= far + self@.ground_steps());
        let front = self.sprites(true);
        push_tile_steps(&mut steps, &front);
        steps.push(DrawStep::Unclip);
        steps
    }

    /// The first column and row in view.
    fn view_from(&self) -> (start: (usize, usize))
        ensures
            (start.0 as int, start.1 as int) == self@.view_start(),
            start.0 <= self@.pos.0,
            start.1 <= self@.pos.1,
            self@.pos.0 - start.0 <= 17,
            self@.pos.1 - start.1 <= 14,
    {
        proof {
            use_type_invariant(self);
        }
        let extent_x: usize = self.game_metrics.ground_center.x as usize + VIEW_MARGIN;
        let extent_y: usize = self.game_metrics.ground_center.y as usize + VIEW_MARGIN;
        let pos_x: usize = self.controls.stance.x;
        let pos_y: usize = self.controls.stance.y;
        (
            if pos_x >= extent_x {
                pos_x - extent_x
            } else {
                0
            },
            if pos_y >= extent_y {
                pos_y - extent_y
            } else {
                0
            },
        )
    }

    /// The column and row after the last in view.
    fn view_to(&self) -> (end: (usize, usize))
        ensures
            (end.0 as int, end.1 as int) == self@.view_end(),
            self@.pos.0 < end.0 <= self@.world.grid.spec_size_x(),
            self@.pos.1 < end.1 <= self@.world.grid.spec_size_y(),
            end.0 - self@.pos.0 <= 17,
            end.1 - self@.pos.1 <= 14,
    {
        proof {
            use_type_invariant(self);
        }
        let extent_x: usize = self.game_metrics.ground_center.x as usize + VIEW_MARGIN;
        let extent_y: usize = self.game_metrics.ground_center.y as usize + VIEW_MARGIN;
        let pos_x: usize = self.controls.stance.x;
        let pos_y: usize = self.controls.stance.y;
        let size_x: usize = self.world.grid.size_x();
        let size_y: usize = self.world.grid.size_y();
        (
            if size_x - pos_x >= extent_x {
                pos_x + extent_x
            } else {
                size_x
            },
            if size_y - pos_y >= extent_y {
                pos_y + extent_y
            } else {
                size_y
            },
        )
    }

    /// Whether row `y` belongs to the pass.
    fn row_in_pass(&self, front: bool, y: usize) -> (drawn: bool)
        requires
            y < self@.world.grid.spec_size_y(),
        ensures
            drawn == self@.row_drawn(front, y as int),
    {
        proof {
            use_type_invariant(self);
        }
        let center_y: usize = self.game_metrics.ground_center.y as usize;
        let pos_y: usize = self.controls.stance.y;
        let below_horizon = pos_y < center_y || y >= pos_y - center_y;
        front == below_horizon
    }

    /// The sprite for cell `(x, y)` of a row of the pass, or `None` where
    /// nothing stands on the cell.
    fn sprite_for(&self, front: bool, x: usize, y: usize) -> (sprite: Option<Sprite>)
        requires
            self@.view_start().0 <= x < self@.view_end().0,
            self@.view_start().1 <= y < self@.view_end().1,
            self@.row_drawn(front, y as int),
        ensures
            sprite == self@.sprite_at(front, x as int, y as int),
    {
        proof {
            use_type_invariant(self);
        }
        let start = self.view_from();
        let end = self.view_to();
        let tile = self.world.grid.at(x, y);
        proof {
            assert(self.world.grid@.dom().contains((x as int, y as int)));
        }
        match self.tile_info.source(&self.game_metrics, tile, &self.world.animals) {
            None => None,
            Some(source) => {
                let pos_y: usize = self.controls.stance.y;
                let margin: i64 = VIEW_MARGIN as i64;
                let across: i64 = (x - start.0) as i64 - margin;
                let down: i64 = if front {
                    (y - start.1) as i64 - margin
                } else {
                    ((pos_y - y) + (pos_y - start.1)) as i64 - 2 * margin
                };
                let pos = Vec2i { x: across, y: down };
                proof {
                    assert(pos == self@.view_pos(front, x as int, y as int));
                    lemma_design_source(self.tile_info, tile, self.world.animals@, source);
                    lemma_design_placeable(self.layout.screen, self.layout.window, source, pos);
                }
                Some(place_sprite(&self.layout.screen, &self.game_metrics, source, pos))
            },
        }
    }

    /// Appends the sprites of row `y` of the pass to `out`.
    fn push_row(&self, front: bool, y: usize, out: &mut Vec<Sprite>)
        requires
            self@.view_start().1 <= y < self@.view_end().1,
            self@.row_drawn(front, y as int),
        ensures
            final(out)@ == old(out)@ + self@.row(front, y as int),
    {
        let start = self.view_from();
        let end = self.view_to();
        let mut x: usize = start.0;
        while x < end.0
            invariant
                (start.0 as int, start.1 as int) == self@.view_start(),
                (end.0 as int, end.1 as int) == self@.view_end(),
                start.1 <= y < end.1,
                self@.row_drawn(front, y as int),
                start.0 <= x <= end.0,
                out@ == old(out)@ + self@.row_upto(front, y as int, x as int),
            decreases end.0 - x,
        {
            match self.sprite_for(front, x, y) {
                None => {},
                Some(sprite) => {
                    out.push(sprite);
                },
            }
            x = x + 1;
        }
    }

    /// The sprites of one pass over the part of the world in view, in
    /// drawing order: the pass in front of the horizon where `front`, else
    /// the one behind it.
    pub fn sprites(&self, front: bool) -> (out: Vec<Sprite>)
        ensures
            out@ == self@.sprites(front),
    {
        let start = self.view_from();
        let end = self.view_to();
        let mut out: Vec<Sprite> = Vec::new();
        let mut y: usize = start.1;
        while y < end.1
            invariant
                (start.0 as int, start.1 as int) == self@.view_start(),
                (end.0 as int, end.1 as int) == self@.view_end(),
                end.1 <= self@.world.grid.spec_size_y(),
                start.1 <= y <= end.1,
                out@ == self@.rows_upto(front, y as int),
            decreases end.1 - y,
        {
            if self.row_in_pass(front, y) {
                self.push_row(front, y, &mut out);
            }
            y = y + 1;
        }
        out
    }
}

impl Default for Game {
    /// A game in a new random world, as `Game::new` makes it.
    fn default() -> (game: Game)
        ensures
            game@.wf(),
            game@.world.grid.spec_size_x() == 1500,
            game@.world.grid.spec_size_y() == 1100,
            game@.world.animals@.len() <= 10_000,
            game@.world.animals@.len() == 10_000 || forall|p: (int, int)|
                !game@.world.free(p.0, p.1),
            game@.pos == (750int, 550int),
            game@.facing_x == 1,
            game@.input == Input::none(),
            !game@.fullscreen,
            !game@.ui_hidden,
            game@.mouse == (Vec2u { x: 0, y: 0 }),
            game@.window == (Vec2u { x: 0, y: 0 }),
    {
        Game::new()
    }
}

/// Appends the steps that draw the given sprites of the sprite sheet.
fn push_tile_steps(steps: &mut Vec<DrawStep>, sprites: &Vec<Sprite>)
    ensures
        final(steps)@ == old(steps)@ + tile_steps(sprites@),
{
    let mut i: usize = 0;
    while i < sprites.len()
        invariant
            i <= sprites@.len(),
            steps@ == old(steps)@ + tile_steps(sprites@.subrange(0, i as int)),
        decreases sprites@.len() - i,
    {
        steps.push(DrawStep::Draw { sheet: Sheet::Tiles, sprite: sprites[i], flip_x: false });
        i = i + 1;
        assert(steps@ =~= old(steps)@ + tile_steps(sprites@.subrange(0, i as int)));
    }
    assert(sprites@.subrange(0, i as int) =~= sprites@);
}

impl Stance {
    /// The stance as a value.
    spec fn value(self) -> ((int, int), int) {
        ((self.x as int, self.y as int), self.facing_x as int)
    }

    /// Whether the player stands on the grid of `world` and looks left or
    /// right.
    spec fn valid(self, world: World) -> bool {
        world.grid.in_bounds(self.x as int, self.y as int) && (self.facing_x == 1 || self.facing_x
            == -1)
    }
}

/// Lets a player at `stance` try a step in direction `dir` if it is
/// `wanted`.
fn take_step_if(world: &World, stance: Stance, wanted: bool, dir: Direction) -> (result: Result<
    Stance,
    GridError,
>)
    requires
        stance.valid(*world),
    ensures
        match result {
            Ok(next) => step_if(*world, stance.value(), wanted, dir) == Some(next.value())
                && next.valid(*world),
            Err(e) => e == GridError::IndexOutOfRange && step_if(
                *world,
                stance.value(),
                wanted,
                dir,
            ) is None,
        },
{
    if wanted {
        take_step(world, stance, dir)
    } else {
        Ok(stance)
    }
}

/// Lets a player at `stance` try the steps in `steps`, in the order up,
/// down, left, right.
fn take_steps(world: &World, stance: Stance, steps: Input) -> (result: Result<Stance, GridError>)
    requires
        stance.valid(*world),
    ensures
        match result {
            Ok(next) => steps_of(*world, stance.value(), steps) == Some(next.value()) && next.valid(
                *world,
            ),
            Err(e) => e == GridError::IndexOutOfRange && steps_of(*world, stance.value(), steps)
                is None,
        },
{
    let a = match take_step_if(world, stance, steps.up, Direction::Up) {
        Ok(next) => next,
        Err(e) => {
            return Err(e);
        },
    };
    let b = match take_step_if(world, a, steps.down, Direction::Down) {
        Ok(next) => next,
        Err(e) => {
            return Err(e);
        },
    };
    let c = match take_step_if(world, b, steps.left, Direction::Left) {
        Ok(next) => next,
        Err(e) => {
            return Err(e);
        },
    };
    take_step_if(world, c, steps.right, Direction::Right)
}

/// Lets a player at `stance` try one step in direction `dir`.
fn take_step(world: &World, stance: Stance, dir: Direction) -> (result: Result<Stance, GridError>)
    requires
        stance.valid(*world),
    ensures
        match result {
            Ok(next) => step_of(*world, stance.value().0, stance.value().1, dir) == Some(
                next.value(),
            ) && next.valid(*world),
            Err(e) => e == GridError::IndexOutOfRange && step_of(
                *world,
                stance.value().0,
                stance.value().1,
                dir,
            ) is None,
        },
{
    let size_x = world.grid.size_x();
    let size_y = world.grid.size_y();
    let (x, y, facing_x) = match dir {
        Direction::Up => {
            if stance.y == 0 {
                return Err(GridError::IndexOutOfRange);
            }
            (stance.x, stance.y - 1, stance.facing_x)
        },
        Direction::Down => {
            if stance.y + 1 >= size_y {
                return Err(GridError::IndexOutOfRange);
            }
            (stance.x, stance.y + 1, stance.facing_x)
        },
        Direction::Left => {
            if stance.x == 0 {
                return Err(GridError::IndexOutOfRange);
            }
            (stance.x - 1, stance.y, -1i64)
        },
        Direction::Right => {
            if stance.x + 1 >= size_x {
                return Err(GridError::IndexOutOfRange);
            }
            (stance.x + 1, stance.y, 1i64)
        },
    };
    if world.occupied(x, y) {
        Ok(Stance { x: stance.x, y: stance.y, facing_x })
    } else {
        Ok(Stance { x, y, facing_x })
    }
}

/// In the design of the game every window has a scale below 2^25, so its
/// layout can be held.
pub proof fn lemma_design_scale(window: Vec2u)
    ensures
        0 <= scale_for(GameMetrics::design(), window) <= 28_633_115,
        ScreenMetrics::fits(GameMetrics::design(), window),
{
}

/// The layout of the design in a window, spelled out: each length is a
/// fixed multiple of the scale, and the playfield starts inside the
/// window.
proof fn lemma_design_layout(screen: ScreenMetrics, window: Vec2u)
    requires
        screen.is_layout(GameMetrics::design(), window),
    ensures
        0 <= screen.scale.x <= 28_633_115,
        screen.scale.y == screen.scale.x,
        screen.tile_size.x == 10 * screen.scale.x,
        screen.tile_size.y == 9 * screen.scale.x,
        screen.icon_size == 20 * screen.scale.x,
        0 <= screen.ground_start.x <= window.x,
        0 <= screen.ground_start.y <= window.y,
        screen.ui_start.y == (window.y - 120 * screen.scale.x) / 2,
{
    let g = GameMetrics::design();
    let s = scale_for(g, window);
    lemma_design_scale(window);
    assert(s * g.tile_size_px.x == 10 * s);
    assert(s * g.tile_size_px.y == 9 * s);
    assert(s * ICON_SIZE_PX == 20 * s);
    assert(s * g.full_size_px.x == 150 * s);
    assert(s * g.full_size_px.y == 108 * s);
    assert(s * g.ground_start_px.x == 0);
    assert(s * g.ground_start_px.y == 27 * s);
    assert(s * g.ui_size_px.y == 120 * s);
}

/// A product of a small number and a length stays small.
proof fn lemma_small_product(a: int, b: int, a_max: int, b_max: int)
    requires
        -a_max <= a <= a_max,
        0 <= b <= b_max,
    ensures
        -(a_max * b_max) <= a * b <= a_max * b_max,
{
    assert(-(a_max * b_max) <= a * b <= a_max * b_max) by (nonlinear_arith)
        requires
            -a_max <= a <= a_max,
            0 <= b <= b_max,
    ;
}

/// What the sprite sheet of the design holds for a tile is at most 3 by 5
/// tiles large, and its anchor lies within it.
proof fn lemma_design_source(info: TileInfo, tile: Tile, animals: Seq<Animal>, source: PxRect)
    requires
        info.is_sheet_of(GameMetrics::design()),
        info.spec_source(GameMetrics::design(), tile, animals) == Some(source),
    ensures
        10 <= source.w <= 30,
        9 <= source.h <= 45,
        0 <= anchor(GameMetrics::design(), source).0 <= 10,
        0 <= anchor(GameMetrics::design(), source).1 <= 36,
{
    let g = GameMetrics::design();
    match tile.occupant {
        None => {},
        Some(Occupant::Animal(index)) => {},
        Some(Occupant::Plant(plant)) => {
            assert(info.plant(plant) == cells_rect(
                g,
                plant_cells(plant),
            ));
            match plant {
                Plant::NopalBig => {},
                Plant::NopalSmall => {},
                Plant::Ocotillo => {},
                Plant::Saguaro => {},
            }
        },
    }
}

/// In a layout of the design, a sprite of the sheet can be placed on every
/// tile near the view.
proof fn lemma_design_placeable(
    screen: ScreenMetrics,
    window: Vec2u,
    source: PxRect,
    pos: Vec2i,
)
    requires
        screen.is_layout(GameMetrics::design(), window),
        10 <= source.w <= 30,
        9 <= source.h <= 45,
        0 <= anchor(GameMetrics::design(), source).0 <= 10,
        0 <= anchor(GameMetrics::design(), source).1 <= 36,
        -100 <= pos.x <= 100,
        -100 <= pos.y <= 100,
    ensures
        placeable(screen, GameMetrics::design(), source, pos),
{
    let g = GameMetrics::design();
    let s = screen.scale.x as int;
    lemma_design_layout(screen, window);
    let a = anchor(g, source);
    lemma_small_product(pos.x as int, screen.tile_size.x as int, 100, 286_331_150);
    lemma_small_product(pos.y - 1, screen.tile_size.y as int, 101, 257_698_035);
    lemma_small_product(a.0, s, 10, 28_633_115);
    lemma_small_product(a.1, screen.scale.y as int, 36, 28_633_115);
    lemma_small_product(source.w as int, s, 30, 28_633_115);
    lemma_small_product(source.h as int, screen.scale.y as int, 45, 28_633_115);
    assert(screen.scale.x * source.w == source.w * s) by (nonlinear_arith)
        requires
            s == screen.scale.x,
    ;
    assert(screen.scale.y * source.h == source.h * screen.scale.y) by (nonlinear_arith);
}

/// What a row holds up to a column: a sprite is among the sprites of row
/// `y` before column `x_end` exactly if it is the sprite for a cell of
/// that row between the first column in view and `x_end`.
proof fn lemma_row_upto_holds(view: GameView, front: bool, y: int, x_end: int, sprite: Sprite)
    ensures
        view.row_upto(front, y, x_end).contains(sprite) <==> exists|x: int|
            view.view_start().0 <= x < x_end && #[trigger] view.sprite_at(front, x, y) == Some(
                sprite,
            ),
    decreases x_end - view.view_start().0,
{
    let row = view.row_upto(front, y, x_end);
    if x_end <= view.view_start().0 {
        assert(row.len() == 0);
    } else {
        let before = view.row_upto(front, y, x_end - 1);
        lemma_row_upto_holds(view, front, y, x_end - 1, sprite);
        let last = view.sprite_at(front, x_end - 1, y);
        if before.contains(sprite) {
            let i = choose|i: int| 0 <= i < before.len() && before[i] == sprite;
            assert(row[i] == sprite);
        }
        if last == Some(sprite) {
            assert(row[row.len() - 1] == sprite);
        }
        if row.contains(sprite) {
            let i = choose|i: int| 0 <= i < row.len() && row[i] == sprite;
            if i < before.len() {
                assert(before[i] == sprite);
            } else {
                assert(last == Some(sprite));
            }
        }
    }
}

/// What the rows hold up to a row: a sprite is among the sprites of the
/// rows before `y_end` exactly if it is the sprite for a cell that is
/// drawn in the pass and lies above row `y_end`.
proof fn lemma_rows_upto_hold(view: GameView, front: bool, y_end: int, sprite: Sprite)
    ensures
        view.rows_upto(front, y_end).contains(sprite) <==> exists|x: int, y: int|
            y < y_end && view.view_start().0 <= x < view.view_end().0 && view.view_start().1 <= y
                && view.row_drawn(front, y) && #[trigger] view.sprite_at(front, x, y) == Some(
                sprite,
            ),
    decreases y_end - view.view_start().1,
{
    let rows = view.rows_upto(front, y_end);
    if y_end <= view.view_start().1 {
        assert(rows.len() == 0);
    } else {
        let above = view.rows_upto(front, y_end - 1);
        let row = view.row(front, y_end - 1);
        lemma_rows_upto_hold(view, front, y_end - 1, sprite);
        lemma_row_upto_holds(view, front, y_end - 1, view.view_end().0, sprite);
        if above.contains(sprite) {
            let i = choose|i: int| 0 <= i < above.len() && above[i] == sprite;
            assert(rows[i] == sprite);
        }
        if row.contains(sprite) {
            let i = choose|i: int| 0 <= i < row.len() && row[i] == sprite;
            assert(rows[above.len() + i] == sprite);
        }
        if rows.contains(sprite) {
            let i = choose|i: int| 0 <= i < rows.len() && rows[i] == sprite;
            if i < above.len() {
                assert(above[i] == sprite);
            } else {
                assert(row[i - above.len()] == sprite);
            }
        }
    }
}

/// What a pass draws: a sprite is among the sprites of a pass exactly if
/// it is the sprite for a cell that is drawn in the pass and on which
/// something stands.
pub proof fn lemma_sprites_are_those_in_view(view: GameView, front: bool, sprite: Sprite)
    ensures
        view.sprites(front).contains(sprite) <==> exists|x: int, y: int|
            view.in_view(front, x, y) && #[trigger] view.sprite_at(front, x, y) == Some(sprite),
{
    lemma_rows_upto_hold(view, front, view.view_end().1, sprite);
}

} // verus!
